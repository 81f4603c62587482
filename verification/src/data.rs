use vstd::prelude::*;

use crate::types::StackCount;

verus! {

/// The cards of the game that this simulator knows.
#[derive(Clone, Copy, Debug, PartialEq, Eq, Structural)]
pub enum Card {
    Strike,
    Defend,
    Bash,
    Anger,
    Armaments,
    BodySlam,
    Clash,
    Cleave,
    Clothesline,
    Flex,
    Havoc,
    Headbutt,
    HeavyBlade,
    IronWave,
    PerfectedStrike,
    PommelStrike,
    ShrugItOff,
    SwordBoomerang,
    Thunderclap,
    TrueGrit,
    TwinStrike,
    Warcry,
    WildStrike,
    BattleTrance,
    BloodForBlood,
    Bloodletting,
    BurningPact,
    Carnage,
    Combust,
    DarkEmbrace,
    Disarm,
    Dropkick,
    DualWield,
    Entrench,
    Evolve,
    FeelNoPain,
    FireBreathing,
    FlameBarrier,
    GhostlyArmor,
    Hemokinesis,
    InfernalBlade,
    Inflame,
    Intimidate,
    Metallicize,
    PowerThrough,
    Pummel,
    Rage,
    Rampage,
    RecklessCharge,
    Rupture,
    SearingBlow,
    SecondWind,
    SeeingRed,
    Sentinel,
    SeverSoul,
    Shockwave,
    SpotWeakness,
    Uppercut,
    Whirlwind,
    Barricade,
    Berserk,
    Bludgeon,
    Brutality,
    Corruption,
    DemonForm,
    DoubleTap,
    Exhume,
    Feed,
    FiendFire,
    Immolate,
    Impervious,
    Juggernaut,
    LimitBreak,
    Offering,
    Reaper,
    BandageUp,
    Blind,
    DarkShackles,
    DeepBreath,
    Discovery,
    DramaticEntrance,
    Enlightenment,
    Finesse,
    FlashOfSteel,
    Forethought,
    GoodInstincts,
    Impatience,
    JackOfAllTrades,
    Madness,
    MindBlast,
    Panacea,
    PanicButton,
    Purity,
    SwiftStrike,
    Trip,
    Clumsy,
    Decay,
    Doubt,
    Injury,
    Normality,
    Pain,
    Parasite,
    Regret,
    Shame,
    Writhe,
    Slimed,
    Wound,
    Dazed,
    Burn,
    StrikeG,
    DefendG,
    Neutralize,
    Survivor,
    Acrobatics,
    Backflip,
    Bane,
    BladeDance,
    CloakAndDagger,
    DaggerSpray,
    DaggerThrow,
    DeadlyPoison,
    Deflect,
    DodgeAndRoll,
    FlyingKnee,
    Outmaneuver,
    PiercingWail,
    PoisonedStab,
    Prepared,
    QuickSlash,
    Slice,
    SneakyStrike,
    SuckerPunch,
    Accuracy,
    AllOutAttack,
    Backstab,
    Blur,
    BouncingFlask,
    CalculatedGamble,
    Caltrops,
    Catalyst,
    Choke,
    Concentrate,
    CripplingCloud,
    Dash,
    Distraction,
    EscapePlan,
    Expertise,
    Finisher,
    Flechettes,
    Footwork,
    HeelHook,
    InfiniteBlades,
    LegSweep,
    MasterfulStab,
    NoxiousFumes,
    Predator,
    Reflex,
    RiddleWithHoles,
    Setup,
    Skewer,
    Tactician,
    Terror,
    WellLaidPlans,
    Eviscerate,
    EndlessAgony,
    Adrenaline,
    AfterImage,
    Alchemize,
    BulletTime,
    Burst,
    CorpseExplosion,
    DieDieDie,
    Doppelganger,
    Envenom,
    GlassKnife,
    GrandFinale,
    Malaise,
    Nightmare,
    PhantasmalKiller,
    StormOfSteel,
    ToolsOfTheTrade,
    Unload,
    WraithForm,
    AThousandCuts,
    StrikeB,
    DefendB,
    Zap,
    Dualcast,
    BallLightning,
    Barrage,
    BeamCell,
    ColdSnap,
    CompileDriver,
    ConserveBattery,
    Coolheaded,
    GoForTheEyes,
    Hologram,
    Leap,
    Rebound,
    Stack,
    SteamBarrier,
    Streamline,
    SweepingBeam,
    Turbo,
    Claw,
    Recursion,
    Aggregate,
    AutoShields,
    Blizzard,
    BootSequence,
    Capacitor,
    Chaos,
    Chill,
    Consume,
    Darkness,
    Defragment,
    DoomAndGloom,
    DoubleEnergy,
    Equilibrium,
    ForceField,
    Ftl,
    Fusion,
    GeneticAlgorithm,
    Glacier,
    Heatsinks,
    HelloWorld,
    LockOn,
    Loop,
    Melter,
    Overclock,
    Recycle,
    ReinforcedBody,
    Reprogram,
    RipAndTear,
    Scrape,
    SelfRepair,
    Skim,
    StaticDischarge,
    Storm,
    Sunder,
    Tempest,
    WhiteNoise,
    AllForOne,
    Amplify,
    BiasedCognition,
    Buffer,
    CoreSurge,
    CreativeAi,
    EchoForm,
    Electrodynamics,
    Fission,
    Hyperbeam,
    MachineLearning,
    MeteorStrike,
    MultiCast,
    Rainbow,
    Reboot,
    Seek,
    ThunderStrike,
    StrikeP,
    DefendP,
    Eruption,
    Vigilance,
    BowlingBash,
    Consecrate,
    Crescendo,
    CrushJoints,
    CutThroughFate,
    EmptyBody,
    EmptyFist,
    Evaluate,
    FlurryOfBlows,
    FlyingSleeves,
    FollowUp,
    Halt,
    JustLucky,
    PressurePoints,
    Prostrate,
    Protect,
    SashWhip,
    Tranquility,
    ThirdEye,
    BattleHymn,
    CarveReality,
    Collect,
    Conclude,
    DeceiveReality,
    EmptyMind,
    Fasting,
    FearNoEvil,
    ForeignInfluence,
    Foresight,
    Indignation,
    InnerPeace,
    LikeWater,
    Meditate,
    MentalFortress,
    Nirvana,
    Perseverance,
    Pray,
    ReachHeaven,
    Rushdown,
    Sanctity,
    SandsOfTime,
    SignatureMove,
    SimmeringFury,
    Study,
    Swivel,
    TalkToTheHand,
    Tantrum,
    Wallop,
    WaveOfTheHand,
    Weave,
    WheelKick,
    WindmillStrike,
    Worship,
    WreathOfFlame,
    Alpha,
    Blasphemy,
    Brilliance,
    ConjureBlade,
    DeusExMachina,
    DevaForm,
    Devotion,
    Establishment,
    Judgment,
    LessonLearned,
    MasterReality,
    Omniscience,
    Ragnarok,
    Scrawl,
    SpiritShield,
    Vault,
    Wish,
}

/// The kind of a card.
#[derive(Clone, Copy, Debug, PartialEq, Eq, Structural)]
pub enum CardType {
    Attack,
    Skill,
    Power,
    Status,
    Curse,
}

/// The energy cost of a card; X-cost cards, curses and statuses that cannot be played count 0.
pub open spec fn spec_cost(x: Card) -> u32 {
    match x {
        Card::Strike | Card::Defend | Card::Armaments | Card::BodySlam | Card::Cleave | Card::Havoc | Card::Headbutt | Card::IronWave | Card::PommelStrike | Card::ShrugItOff | Card::SwordBoomerang | Card::Thunderclap | Card::TrueGrit | Card::TwinStrike | Card::WildStrike | Card::BurningPact | Card::Combust | Card::Disarm | Card::Dropkick | Card::DualWield | Card::Evolve | Card::FeelNoPain | Card::FireBreathing | Card::GhostlyArmor | Card::Hemokinesis | Card::InfernalBlade | Card::Inflame | Card::Metallicize | Card::PowerThrough | Card::Pummel | Card::Rampage | Card::Rupture | Card::SecondWind | Card::SeeingRed | Card::Sentinel | Card::SpotWeakness | Card::DoubleTap | Card::Exhume | Card::Feed | Card::LimitBreak | Card::Discovery | Card::Madness | Card::Slimed => 1,
        Card::Bash | Card::Clothesline | Card::HeavyBlade | Card::PerfectedStrike | Card::Carnage | Card::DarkEmbrace | Card::Entrench | Card::FlameBarrier | Card::SearingBlow | Card::SeverSoul | Card::Shockwave | Card::Uppercut | Card::FiendFire | Card::Immolate | Card::Impervious | Card::Juggernaut | Card::Reaper | Card::MindBlast => 2,
        Card::Anger | Card::Clash | Card::Flex | Card::Warcry | Card::BattleTrance | Card::Bloodletting | Card::Intimidate | Card::Rage | Card::RecklessCharge | Card::Whirlwind | Card::Berserk | Card::Brutality | Card::Offering | Card::BandageUp | Card::Blind | Card::DarkShackles | Card::DeepBreath | Card::DramaticEntrance | Card::Enlightenment | Card::Finesse | Card::FlashOfSteel | Card::Forethought | Card::GoodInstincts | Card::Impatience | Card::JackOfAllTrades | Card::Panacea | Card::PanicButton | Card::Purity | Card::SwiftStrike | Card::Trip | Card::Clumsy | Card::Decay | Card::Doubt | Card::Injury | Card::Normality | Card::Pain | Card::Parasite | Card::Regret | Card::Shame | Card::Writhe | Card::Wound | Card::Dazed | Card::Burn => 0,
        Card::BloodForBlood => 4,
        Card::Barricade | Card::Bludgeon | Card::Corruption | Card::DemonForm => 3,
        Card::StrikeG | Card::DefendG | Card::Survivor | Card::Acrobatics | Card::Backflip | Card::Bane | Card::BladeDance | Card::CloakAndDagger | Card::DaggerSpray | Card::DaggerThrow | Card::DeadlyPoison | Card::DodgeAndRoll | Card::FlyingKnee | Card::Outmaneuver | Card::PiercingWail | Card::PoisonedStab | Card::QuickSlash | Card::SuckerPunch | Card::Accuracy | Card::AllOutAttack | Card::Blur | Card::Caltrops | Card::Catalyst | Card::Distraction | Card::Expertise | Card::Finisher | Card::Flechettes | Card::Footwork | Card::HeelHook | Card::InfiniteBlades | Card::NoxiousFumes | Card::Setup | Card::Terror | Card::WellLaidPlans | Card::AfterImage | Card::Alchemize | Card::Burst | Card::DieDieDie | Card::GlassKnife | Card::PhantasmalKiller | Card::StormOfSteel | Card::ToolsOfTheTrade | Card::Unload | Card::StrikeB | Card::DefendB | Card::Zap | Card::Dualcast | Card::BallLightning | Card::Barrage | Card::ColdSnap | Card::CompileDriver | Card::ConserveBattery | Card::Coolheaded | Card::Hologram | Card::Leap | Card::Rebound | Card::Stack | Card::SweepingBeam | Card::Recursion | Card::Aggregate | Card::AutoShields | Card::Blizzard | Card::Capacitor | Card::Chaos | Card::Darkness | Card::Defragment | Card::DoubleEnergy | Card::GeneticAlgorithm | Card::Heatsinks | Card::HelloWorld | Card::LockOn | Card::Loop | Card::Melter | Card::Recycle | Card::Reprogram | Card::RipAndTear | Card::Scrape | Card::SelfRepair | Card::Skim | Card::StaticDischarge | Card::Storm | Card::WhiteNoise | Card::Amplify | Card::BiasedCognition | Card::CoreSurge | Card::MachineLearning | Card::StrikeP | Card::DefendP | Card::BowlingBash | Card::Crescendo | Card::CrushJoints | Card::CutThroughFate | Card::EmptyBody | Card::EmptyFist | Card::Evaluate | Card::FlyingSleeves | Card::FollowUp | Card::PressurePoints | Card::SashWhip | Card::Tranquility | Card::ThirdEye | Card::BattleHymn | Card::CarveReality | Card::Conclude | Card::DeceiveReality | Card::EmptyMind | Card::FearNoEvil | Card::Foresight | Card::Indignation | Card::InnerPeace | Card::LikeWater | Card::Meditate | Card::MentalFortress | Card::Nirvana | Card::Perseverance | Card::Pray | Card::Rushdown | Card::Sanctity | Card::SimmeringFury | Card::TalkToTheHand | Card::Tantrum | Card::WaveOfTheHand | Card::WreathOfFlame | Card::Alpha | Card::Blasphemy | Card::Brilliance | Card::Devotion | Card::Establishment | Card::Judgment | Card::MasterReality | Card::Scrawl => 1,
        Card::Neutralize | Card::Deflect | Card::Prepared | Card::Slice | Card::Backstab | Card::CalculatedGamble | Card::Concentrate | Card::EscapePlan | Card::MasterfulStab | Card::Reflex | Card::Skewer | Card::Tactician | Card::EndlessAgony | Card::Adrenaline | Card::Doppelganger | Card::GrandFinale | Card::Malaise | Card::BeamCell | Card::GoForTheEyes | Card::SteamBarrier | Card::Turbo | Card::Claw | Card::BootSequence | Card::Chill | Card::Ftl | Card::Overclock | Card::ReinforcedBody | Card::Tempest | Card::Fission | Card::MultiCast | Card::Reboot | Card::Seek | Card::Consecrate | Card::FlurryOfBlows | Card::Halt | Card::JustLucky | Card::Prostrate | Card::Collect | Card::ForeignInfluence | Card::Weave | Card::ConjureBlade | Card::DeusExMachina => 0,
        Card::SneakyStrike | Card::BouncingFlask | Card::Choke | Card::CripplingCloud | Card::Dash | Card::LegSweep | Card::Predator | Card::RiddleWithHoles | Card::CorpseExplosion | Card::Envenom | Card::AThousandCuts | Card::Streamline | Card::Consume | Card::DoomAndGloom | Card::Equilibrium | Card::Fusion | Card::Glacier | Card::AllForOne | Card::Buffer | Card::Electrodynamics | Card::Hyperbeam | Card::Rainbow | Card::Eruption | Card::Vigilance | Card::Protect | Card::Fasting | Card::ReachHeaven | Card::SignatureMove | Card::Study | Card::Swivel | Card::Wallop | Card::WheelKick | Card::WindmillStrike | Card::Worship | Card::LessonLearned | Card::SpiritShield => 2,
        Card::Eviscerate | Card::BulletTime | Card::Nightmare | Card::WraithForm | Card::Sunder | Card::CreativeAi | Card::EchoForm | Card::ThunderStrike | Card::DevaForm | Card::Ragnarok | Card::Vault | Card::Wish => 3,
        Card::ForceField | Card::SandsOfTime | Card::Omniscience => 4,
        Card::MeteorStrike => 5,
    }
}

/// The kind of a card.
pub open spec fn spec_card_type(x: Card) -> CardType {
    match x {
        Card::Strike | Card::Bash | Card::Anger | Card::BodySlam | Card::Clash | Card::Cleave | Card::Clothesline | Card::Headbutt | Card::HeavyBlade | Card::IronWave | Card::PerfectedStrike | Card::PommelStrike | Card::SwordBoomerang | Card::Thunderclap | Card::TwinStrike | Card::WildStrike | Card::BloodForBlood | Card::Carnage | Card::Dropkick | Card::Hemokinesis | Card::Pummel | Card::Rampage | Card::RecklessCharge | Card::SearingBlow | Card::SeverSoul | Card::Uppercut | Card::Whirlwind | Card::Bludgeon | Card::Feed | Card::FiendFire | Card::Immolate | Card::Reaper | Card::DramaticEntrance | Card::FlashOfSteel | Card::MindBlast | Card::SwiftStrike => CardType::Attack,
        Card::Defend | Card::Armaments | Card::Flex | Card::Havoc | Card::ShrugItOff | Card::TrueGrit | Card::Warcry | Card::BattleTrance | Card::Bloodletting | Card::BurningPact | Card::Disarm | Card::DualWield | Card::Entrench | Card::FlameBarrier | Card::GhostlyArmor | Card::InfernalBlade | Card::Intimidate | Card::PowerThrough | Card::Rage | Card::SecondWind | Card::SeeingRed | Card::Sentinel | Card::Shockwave | Card::SpotWeakness | Card::DoubleTap | Card::Exhume | Card::Impervious | Card::LimitBreak | Card::Offering | Card::BandageUp | Card::Blind | Card::DarkShackles | Card::DeepBreath | Card::Discovery | Card::Enlightenment | Card::Finesse | Card::Forethought | Card::GoodInstincts | Card::Impatience | Card::JackOfAllTrades | Card::Madness | Card::Panacea | Card::PanicButton | Card::Purity | Card::Trip => CardType::Skill,
        Card::Combust | Card::DarkEmbrace | Card::Evolve | Card::FeelNoPain | Card::FireBreathing | Card::Inflame | Card::Metallicize | Card::Rupture | Card::Barricade | Card::Berserk | Card::Brutality | Card::Corruption | Card::DemonForm | Card::Juggernaut => CardType::Power,
        Card::Clumsy | Card::Decay | Card::Doubt | Card::Injury | Card::Normality | Card::Pain | Card::Parasite | Card::Regret | Card::Shame | Card::Writhe => CardType::Curse,
        Card::Slimed | Card::Wound | Card::Dazed | Card::Burn => CardType::Status,
        Card::StrikeG | Card::Neutralize | Card::Bane | Card::DaggerSpray | Card::DaggerThrow | Card::FlyingKnee | Card::PoisonedStab | Card::QuickSlash | Card::Slice | Card::SneakyStrike | Card::SuckerPunch | Card::AllOutAttack | Card::Backstab | Card::Choke | Card::Dash | Card::Finisher | Card::Flechettes | Card::HeelHook | Card::MasterfulStab | Card::Predator | Card::RiddleWithHoles | Card::Skewer | Card::Eviscerate | Card::EndlessAgony | Card::DieDieDie | Card::GlassKnife | Card::GrandFinale | Card::Unload | Card::StrikeB | Card::BallLightning | Card::Barrage | Card::BeamCell | Card::ColdSnap | Card::CompileDriver | Card::GoForTheEyes | Card::Rebound | Card::Streamline | Card::SweepingBeam | Card::Claw | Card::Blizzard | Card::DoomAndGloom | Card::Ftl | Card::LockOn | Card::Melter | Card::RipAndTear | Card::Scrape | Card::Sunder | Card::AllForOne | Card::CoreSurge | Card::Hyperbeam | Card::MeteorStrike | Card::ThunderStrike | Card::StrikeP | Card::Eruption | Card::BowlingBash | Card::Consecrate | Card::CrushJoints | Card::CutThroughFate | Card::EmptyFist | Card::FlurryOfBlows | Card::FlyingSleeves | Card::FollowUp | Card::JustLucky | Card::SashWhip | Card::CarveReality | Card::Conclude | Card::FearNoEvil | Card::ReachHeaven | Card::SandsOfTime | Card::SignatureMove | Card::TalkToTheHand | Card::Tantrum | Card::Wallop | Card::Weave | Card::WheelKick | Card::WindmillStrike | Card::Brilliance | Card::LessonLearned | Card::Ragnarok => CardType::Attack,
        Card::DefendG | Card::Survivor | Card::Acrobatics | Card::Backflip | Card::BladeDance | Card::CloakAndDagger | Card::DeadlyPoison | Card::Deflect | Card::DodgeAndRoll | Card::Outmaneuver | Card::PiercingWail | Card::Prepared | Card::Blur | Card::BouncingFlask | Card::CalculatedGamble | Card::Catalyst | Card::Concentrate | Card::CripplingCloud | Card::Distraction | Card::EscapePlan | Card::Expertise | Card::LegSweep | Card::Reflex | Card::Setup | Card::Tactician | Card::Terror | Card::Adrenaline | Card::Alchemize | Card::BulletTime | Card::Burst | Card::CorpseExplosion | Card::Doppelganger | Card::Malaise | Card::Nightmare | Card::PhantasmalKiller | Card::StormOfSteel | Card::DefendB | Card::Zap | Card::Dualcast | Card::ConserveBattery | Card::Coolheaded | Card::Hologram | Card::Leap | Card::Stack | Card::SteamBarrier | Card::Turbo | Card::Recursion | Card::Aggregate | Card::AutoShields | Card::BootSequence | Card::Chaos | Card::Chill | Card::Consume | Card::Darkness | Card::DoubleEnergy | Card::Equilibrium | Card::ForceField | Card::Fusion | Card::GeneticAlgorithm | Card::Glacier | Card::Overclock | Card::Recycle | Card::ReinforcedBody | Card::Reprogram | Card::Skim | Card::Tempest | Card::WhiteNoise | Card::Amplify | Card::Fission | Card::MultiCast | Card::Rainbow | Card::Reboot | Card::Seek | Card::DefendP | Card::Vigilance | Card::Crescendo | Card::EmptyBody | Card::Evaluate | Card::Halt | Card::PressurePoints | Card::Prostrate | Card::Protect | Card::Tranquility | Card::ThirdEye | Card::Collect | Card::DeceiveReality | Card::EmptyMind | Card::ForeignInfluence | Card::Indignation | Card::InnerPeace | Card::Meditate | Card::Perseverance | Card::Pray | Card::Sanctity | Card::SimmeringFury | Card::Swivel | Card::WaveOfTheHand | Card::Worship | Card::WreathOfFlame | Card::Alpha | Card::Blasphemy | Card::ConjureBlade | Card::DeusExMachina | Card::Judgment | Card::Omniscience | Card::Scrawl | Card::SpiritShield | Card::Vault | Card::Wish => CardType::Skill,
        Card::Accuracy | Card::Caltrops | Card::Footwork | Card::InfiniteBlades | Card::NoxiousFumes | Card::WellLaidPlans | Card::AfterImage | Card::Envenom | Card::ToolsOfTheTrade | Card::WraithForm | Card::AThousandCuts | Card::Capacitor | Card::Defragment | Card::Heatsinks | Card::HelloWorld | Card::Loop | Card::SelfRepair | Card::StaticDischarge | Card::Storm | Card::BiasedCognition | Card::Buffer | Card::CreativeAi | Card::EchoForm | Card::Electrodynamics | Card::MachineLearning | Card::BattleHymn | Card::Fasting | Card::Foresight | Card::LikeWater | Card::MentalFortress | Card::Nirvana | Card::Rushdown | Card::Study | Card::DevaForm | Card::Devotion | Card::Establishment | Card::MasterReality => CardType::Power,
    }
}

/// Whether a card goes to the exhaust pile after being played.
pub open spec fn spec_exhausts(x: Card) -> bool {
    match x {
        Card::Strike | Card::Defend | Card::Bash | Card::Anger | Card::Armaments | Card::BodySlam | Card::Clash | Card::Cleave | Card::Clothesline | Card::Flex | Card::Havoc | Card::Headbutt | Card::HeavyBlade | Card::IronWave | Card::PerfectedStrike | Card::PommelStrike | Card::ShrugItOff | Card::SwordBoomerang | Card::Thunderclap | Card::TrueGrit | Card::TwinStrike | Card::Warcry | Card::WildStrike | Card::BattleTrance | Card::BloodForBlood | Card::Bloodletting | Card::BurningPact | Card::Carnage | Card::Combust | Card::DarkEmbrace | Card::Dropkick | Card::DualWield | Card::Entrench | Card::Evolve | Card::FeelNoPain | Card::FireBreathing | Card::FlameBarrier | Card::GhostlyArmor | Card::Hemokinesis | Card::InfernalBlade | Card::Inflame | Card::Metallicize | Card::PowerThrough | Card::Pummel | Card::Rage | Card::Rampage | Card::RecklessCharge | Card::Rupture | Card::SearingBlow | Card::SecondWind | Card::Sentinel | Card::SeverSoul | Card::SpotWeakness | Card::Uppercut | Card::Whirlwind | Card::Barricade | Card::Berserk | Card::Bludgeon | Card::Brutality | Card::Corruption | Card::DemonForm | Card::DoubleTap | Card::FiendFire | Card::Immolate | Card::Juggernaut | Card::Reaper | Card::DeepBreath | Card::DramaticEntrance | Card::Finesse | Card::FlashOfSteel | Card::Forethought | Card::GoodInstincts | Card::Impatience | Card::JackOfAllTrades | Card::MindBlast | Card::SwiftStrike | Card::Clumsy | Card::Decay | Card::Doubt | Card::Injury | Card::Normality | Card::Pain | Card::Parasite | Card::Regret | Card::Shame | Card::Writhe | Card::Wound | Card::Dazed | Card::Burn => false,
        Card::Disarm | Card::Intimidate | Card::SeeingRed | Card::Shockwave | Card::Exhume | Card::Feed | Card::Impervious | Card::LimitBreak | Card::Offering | Card::BandageUp | Card::Blind | Card::DarkShackles | Card::Discovery | Card::Enlightenment | Card::Madness | Card::Panacea | Card::PanicButton | Card::Purity | Card::Trip | Card::Slimed => true,
        Card::StrikeG | Card::DefendG | Card::Neutralize | Card::Survivor | Card::Acrobatics | Card::Backflip | Card::Bane | Card::BladeDance | Card::CloakAndDagger | Card::DaggerSpray | Card::DaggerThrow | Card::DeadlyPoison | Card::Deflect | Card::DodgeAndRoll | Card::FlyingKnee | Card::Outmaneuver | Card::PoisonedStab | Card::Prepared | Card::QuickSlash | Card::Slice | Card::SneakyStrike | Card::SuckerPunch | Card::Accuracy | Card::AllOutAttack | Card::Blur | Card::BouncingFlask | Card::Caltrops | Card::Choke | Card::Concentrate | Card::Dash | Card::EscapePlan | Card::Expertise | Card::Finisher | Card::Flechettes | Card::Footwork | Card::HeelHook | Card::InfiniteBlades | Card::LegSweep | Card::MasterfulStab | Card::NoxiousFumes | Card::Predator | Card::Reflex | Card::RiddleWithHoles | Card::Setup | Card::Skewer | Card::Tactician | Card::WellLaidPlans | Card::Eviscerate | Card::AfterImage | Card::BulletTime | Card::Burst | Card::CorpseExplosion | Card::Envenom | Card::GlassKnife | Card::GrandFinale | Card::PhantasmalKiller | Card::StormOfSteel | Card::ToolsOfTheTrade | Card::Unload | Card::WraithForm | Card::AThousandCuts | Card::StrikeB | Card::DefendB | Card::Zap | Card::Dualcast | Card::BallLightning | Card::Barrage | Card::BeamCell | Card::ColdSnap | Card::CompileDriver | Card::ConserveBattery | Card::Coolheaded | Card::GoForTheEyes | Card::Leap | Card::Rebound | Card::Stack | Card::SteamBarrier | Card::Streamline | Card::SweepingBeam | Card::Turbo | Card::Claw | Card::Recursion | Card::Aggregate | Card::AutoShields | Card::Blizzard | Card::Capacitor | Card::Chaos | Card::Consume | Card::Darkness | Card::Defragment | Card::DoomAndGloom | Card::Equilibrium | Card::ForceField | Card::Ftl | Card::Fusion | Card::Glacier | Card::Heatsinks | Card::HelloWorld | Card::LockOn | Card::Loop | Card::Melter | Card::Overclock | Card::Recycle | Card::ReinforcedBody | Card::Reprogram | Card::RipAndTear | Card::Scrape | Card::SelfRepair | Card::Skim | Card::StaticDischarge | Card::Storm | Card::Sunder | Card::AllForOne | Card::Amplify | Card::BiasedCognition | Card::Buffer | Card::CreativeAi | Card::EchoForm | Card::Electrodynamics | Card::Hyperbeam | Card::MachineLearning | Card::MeteorStrike | Card::MultiCast | Card::ThunderStrike | Card::StrikeP | Card::DefendP | Card::Eruption | Card::Vigilance | Card::BowlingBash | Card::Consecrate | Card::CrushJoints | Card::CutThroughFate | Card::EmptyBody | Card::EmptyFist | Card::Evaluate | Card::FlurryOfBlows | Card::FlyingSleeves | Card::FollowUp | Card::Halt | Card::JustLucky | Card::PressurePoints | Card::Prostrate | Card::Protect | Card::SashWhip | Card::ThirdEye | Card::BattleHymn | Card::CarveReality | Card::Conclude | Card::DeceiveReality | Card::EmptyMind | Card::Fasting | Card::FearNoEvil | Card::Foresight | Card::Indignation | Card::InnerPeace | Card::LikeWater | Card::Meditate | Card::MentalFortress | Card::Nirvana | Card::Perseverance | Card::Pray | Card::ReachHeaven | Card::Rushdown | Card::Sanctity | Card::SandsOfTime | Card::SignatureMove | Card::SimmeringFury | Card::Study | Card::Swivel | Card::Tantrum | Card::Wallop | Card::WaveOfTheHand | Card::Weave | Card::WheelKick | Card::WindmillStrike | Card::Worship | Card::WreathOfFlame | Card::Brilliance | Card::DevaForm | Card::Devotion | Card::Establishment | Card::Judgment | Card::MasterReality | Card::Ragnarok | Card::SpiritShield => false,
        Card::PiercingWail | Card::Backstab | Card::CalculatedGamble | Card::Catalyst | Card::CripplingCloud | Card::Distraction | Card::Terror | Card::EndlessAgony | Card::Adrenaline | Card::Alchemize | Card::DieDieDie | Card::Doppelganger | Card::Malaise | Card::Nightmare | Card::Hologram | Card::BootSequence | Card::Chill | Card::DoubleEnergy | Card::GeneticAlgorithm | Card::Tempest | Card::WhiteNoise | Card::CoreSurge | Card::Fission | Card::Rainbow | Card::Reboot | Card::Seek | Card::Crescendo | Card::Tranquility | Card::Collect | Card::ForeignInfluence | Card::TalkToTheHand | Card::Alpha | Card::Blasphemy | Card::ConjureBlade | Card::DeusExMachina | Card::LessonLearned | Card::Omniscience | Card::Scrawl | Card::Vault | Card::Wish => true,
    }
}

/// Whether a card starts combat at the top of the draw pile.
pub open spec fn spec_is_innate(x: Card) -> bool {
    match x {
        Card::Strike | Card::Defend | Card::Bash | Card::Anger | Card::Armaments | Card::BodySlam | Card::Clash | Card::Cleave | Card::Clothesline | Card::Flex | Card::Havoc | Card::Headbutt | Card::HeavyBlade | Card::IronWave | Card::PerfectedStrike | Card::PommelStrike | Card::ShrugItOff | Card::SwordBoomerang | Card::Thunderclap | Card::TrueGrit | Card::TwinStrike | Card::Warcry | Card::WildStrike | Card::BattleTrance | Card::BloodForBlood | Card::Bloodletting | Card::BurningPact | Card::Carnage | Card::Combust | Card::DarkEmbrace | Card::Disarm | Card::Dropkick | Card::DualWield | Card::Entrench | Card::Evolve | Card::FeelNoPain | Card::FireBreathing | Card::FlameBarrier | Card::GhostlyArmor | Card::Hemokinesis | Card::InfernalBlade | Card::Inflame | Card::Intimidate | Card::Metallicize | Card::PowerThrough | Card::Pummel | Card::Rage | Card::Rampage | Card::RecklessCharge | Card::Rupture | Card::SearingBlow | Card::SecondWind | Card::SeeingRed | Card::Sentinel | Card::SeverSoul | Card::Shockwave | Card::SpotWeakness | Card::Uppercut | Card::Whirlwind | Card::Barricade | Card::Berserk | Card::Bludgeon | Card::Brutality | Card::Corruption | Card::DemonForm | Card::DoubleTap | Card::Exhume | Card::Feed | Card::FiendFire | Card::Immolate | Card::Impervious | Card::Juggernaut | Card::LimitBreak | Card::Offering | Card::Reaper | Card::BandageUp | Card::Blind | Card::DarkShackles | Card::DeepBreath | Card::Discovery | Card::Enlightenment | Card::Finesse | Card::FlashOfSteel | Card::Forethought | Card::GoodInstincts | Card::Impatience | Card::JackOfAllTrades | Card::Madness | Card::Panacea | Card::PanicButton | Card::Purity | Card::SwiftStrike | Card::Trip | Card::Clumsy | Card::Decay | Card::Doubt | Card::Injury | Card::Normality | Card::Pain | Card::Parasite | Card::Regret | Card::Shame | Card::Writhe | Card::Slimed | Card::Wound | Card::Dazed | Card::Burn => false,
        Card::DramaticEntrance | Card::MindBlast => true,
        Card::StrikeG | Card::DefendG | Card::Neutralize | Card::Survivor | Card::Acrobatics | Card::Backflip | Card::Bane | Card::BladeDance | Card::CloakAndDagger | Card::DaggerSpray | Card::DaggerThrow | Card::DeadlyPoison | Card::Deflect | Card::DodgeAndRoll | Card::FlyingKnee | Card::Outmaneuver | Card::PiercingWail | Card::PoisonedStab | Card::Prepared | Card::QuickSlash | Card::Slice | Card::SneakyStrike | Card::SuckerPunch | Card::Accuracy | Card::AllOutAttack | Card::Blur | Card::BouncingFlask | Card::CalculatedGamble | Card::Caltrops | Card::Catalyst | Card::Choke | Card::Concentrate | Card::CripplingCloud | Card::Dash | Card::Distraction | Card::EscapePlan | Card::Expertise | Card::Finisher | Card::Flechettes | Card::Footwork | Card::HeelHook | Card::InfiniteBlades | Card::LegSweep | Card::MasterfulStab | Card::NoxiousFumes | Card::Predator | Card::Reflex | Card::RiddleWithHoles | Card::Setup | Card::Skewer | Card::Tactician | Card::Terror | Card::WellLaidPlans | Card::Eviscerate | Card::EndlessAgony | Card::Adrenaline | Card::AfterImage | Card::Alchemize | Card::BulletTime | Card::Burst | Card::CorpseExplosion | Card::DieDieDie | Card::Doppelganger | Card::Envenom | Card::GlassKnife | Card::GrandFinale | Card::Malaise | Card::Nightmare | Card::PhantasmalKiller | Card::StormOfSteel | Card::ToolsOfTheTrade | Card::Unload | Card::WraithForm | Card::AThousandCuts | Card::StrikeB | Card::DefendB | Card::Zap | Card::Dualcast | Card::BallLightning | Card::Barrage | Card::BeamCell | Card::ColdSnap | Card::CompileDriver | Card::ConserveBattery | Card::Coolheaded | Card::GoForTheEyes | Card::Hologram | Card::Leap | Card::Rebound | Card::Stack | Card::SteamBarrier | Card::Streamline | Card::SweepingBeam | Card::Turbo | Card::Claw | Card::Recursion | Card::Aggregate | Card::AutoShields | Card::Blizzard | Card::Capacitor | Card::Chaos | Card::Chill | Card::Consume | Card::Darkness | Card::Defragment | Card::DoomAndGloom | Card::DoubleEnergy | Card::Equilibrium | Card::ForceField | Card::Ftl | Card::Fusion | Card::GeneticAlgorithm | Card::Glacier | Card::Heatsinks | Card::HelloWorld | Card::LockOn | Card::Loop | Card::Melter | Card::Overclock | Card::Recycle | Card::ReinforcedBody | Card::Reprogram | Card::RipAndTear | Card::Scrape | Card::SelfRepair | Card::Skim | Card::StaticDischarge | Card::Storm | Card::Sunder | Card::Tempest | Card::WhiteNoise | Card::AllForOne | Card::Amplify | Card::BiasedCognition | Card::Buffer | Card::CoreSurge | Card::CreativeAi | Card::EchoForm | Card::Electrodynamics | Card::Fission | Card::Hyperbeam | Card::MachineLearning | Card::MeteorStrike | Card::MultiCast | Card::Rainbow | Card::Reboot | Card::Seek | Card::ThunderStrike | Card::StrikeP | Card::DefendP | Card::Eruption | Card::Vigilance | Card::BowlingBash | Card::Consecrate | Card::Crescendo | Card::CrushJoints | Card::CutThroughFate | Card::EmptyBody | Card::EmptyFist | Card::Evaluate | Card::FlurryOfBlows | Card::FlyingSleeves | Card::FollowUp | Card::Halt | Card::JustLucky | Card::PressurePoints | Card::Prostrate | Card::Protect | Card::SashWhip | Card::Tranquility | Card::ThirdEye | Card::BattleHymn | Card::CarveReality | Card::Collect | Card::Conclude | Card::DeceiveReality | Card::EmptyMind | Card::Fasting | Card::FearNoEvil | Card::ForeignInfluence | Card::Foresight | Card::Indignation | Card::InnerPeace | Card::LikeWater | Card::Meditate | Card::MentalFortress | Card::Nirvana | Card::Perseverance | Card::Pray | Card::ReachHeaven | Card::Rushdown | Card::Sanctity | Card::SandsOfTime | Card::SignatureMove | Card::SimmeringFury | Card::Study | Card::Swivel | Card::TalkToTheHand | Card::Tantrum | Card::Wallop | Card::WaveOfTheHand | Card::Weave | Card::WheelKick | Card::WindmillStrike | Card::Worship | Card::WreathOfFlame | Card::Alpha | Card::Blasphemy | Card::Brilliance | Card::ConjureBlade | Card::DeusExMachina | Card::DevaForm | Card::Devotion | Card::Establishment | Card::Judgment | Card::LessonLearned | Card::MasterReality | Card::Omniscience | Card::Ragnarok | Card::Scrawl | Card::SpiritShield | Card::Vault | Card::Wish => false,
        Card::Backstab | Card::BootSequence => true,
    }
}

impl Card {
    /// The energy cost of the card.
    pub fn cost(&self) -> (r: u32)
        ensures
            r == spec_cost(*self),
    {
        match *self {
            Card::Strike | Card::Defend | Card::Armaments | Card::BodySlam | Card::Cleave | Card::Havoc | Card::Headbutt | Card::IronWave | Card::PommelStrike | Card::ShrugItOff | Card::SwordBoomerang | Card::Thunderclap | Card::TrueGrit | Card::TwinStrike | Card::WildStrike | Card::BurningPact | Card::Combust | Card::Disarm | Card::Dropkick | Card::DualWield | Card::Evolve | Card::FeelNoPain | Card::FireBreathing | Card::GhostlyArmor | Card::Hemokinesis | Card::InfernalBlade | Card::Inflame | Card::Metallicize | Card::PowerThrough | Card::Pummel | Card::Rampage | Card::Rupture | Card::SecondWind | Card::SeeingRed | Card::Sentinel | Card::SpotWeakness | Card::DoubleTap | Card::Exhume | Card::Feed | Card::LimitBreak | Card::Discovery | Card::Madness | Card::Slimed => 1,
            Card::Bash | Card::Clothesline | Card::HeavyBlade | Card::PerfectedStrike | Card::Carnage | Card::DarkEmbrace | Card::Entrench | Card::FlameBarrier | Card::SearingBlow | Card::SeverSoul | Card::Shockwave | Card::Uppercut | Card::FiendFire | Card::Immolate | Card::Impervious | Card::Juggernaut | Card::Reaper | Card::MindBlast => 2,
            Card::Anger | Card::Clash | Card::Flex | Card::Warcry | Card::BattleTrance | Card::Bloodletting | Card::Intimidate | Card::Rage | Card::RecklessCharge | Card::Whirlwind | Card::Berserk | Card::Brutality | Card::Offering | Card::BandageUp | Card::Blind | Card::DarkShackles | Card::DeepBreath | Card::DramaticEntrance | Card::Enlightenment | Card::Finesse | Card::FlashOfSteel | Card::Forethought | Card::GoodInstincts | Card::Impatience | Card::JackOfAllTrades | Card::Panacea | Card::PanicButton | Card::Purity | Card::SwiftStrike | Card::Trip | Card::Clumsy | Card::Decay | Card::Doubt | Card::Injury | Card::Normality | Card::Pain | Card::Parasite | Card::Regret | Card::Shame | Card::Writhe | Card::Wound | Card::Dazed | Card::Burn => 0,
            Card::BloodForBlood => 4,
            Card::Barricade | Card::Bludgeon | Card::Corruption | Card::DemonForm => 3,
            Card::StrikeG | Card::DefendG | Card::Survivor | Card::Acrobatics | Card::Backflip | Card::Bane | Card::BladeDance | Card::CloakAndDagger | Card::DaggerSpray | Card::DaggerThrow | Card::DeadlyPoison | Card::DodgeAndRoll | Card::FlyingKnee | Card::Outmaneuver | Card::PiercingWail | Card::PoisonedStab | Card::QuickSlash | Card::SuckerPunch | Card::Accuracy | Card::AllOutAttack | Card::Blur | Card::Caltrops | Card::Catalyst | Card::Distraction | Card::Expertise | Card::Finisher | Card::Flechettes | Card::Footwork | Card::HeelHook | Card::InfiniteBlades | Card::NoxiousFumes | Card::Setup | Card::Terror | Card::WellLaidPlans | Card::AfterImage | Card::Alchemize | Card::Burst | Card::DieDieDie | Card::GlassKnife | Card::PhantasmalKiller | Card::StormOfSteel | Card::ToolsOfTheTrade | Card::Unload | Card::StrikeB | Card::DefendB | Card::Zap | Card::Dualcast | Card::BallLightning | Card::Barrage | Card::ColdSnap | Card::CompileDriver | Card::ConserveBattery | Card::Coolheaded | Card::Hologram | Card::Leap | Card::Rebound | Card::Stack | Card::SweepingBeam | Card::Recursion | Card::Aggregate | Card::AutoShields | Card::Blizzard | Card::Capacitor | Card::Chaos | Card::Darkness | Card::Defragment | Card::DoubleEnergy | Card::GeneticAlgorithm | Card::Heatsinks | Card::HelloWorld | Card::LockOn | Card::Loop | Card::Melter | Card::Recycle | Card::Reprogram | Card::RipAndTear | Card::Scrape | Card::SelfRepair | Card::Skim | Card::StaticDischarge | Card::Storm | Card::WhiteNoise | Card::Amplify | Card::BiasedCognition | Card::CoreSurge | Card::MachineLearning | Card::StrikeP | Card::DefendP | Card::BowlingBash | Card::Crescendo | Card::CrushJoints | Card::CutThroughFate | Card::EmptyBody | Card::EmptyFist | Card::Evaluate | Card::FlyingSleeves | Card::FollowUp | Card::PressurePoints | Card::SashWhip | Card::Tranquility | Card::ThirdEye | Card::BattleHymn | Card::CarveReality | Card::Conclude | Card::DeceiveReality | Card::EmptyMind | Card::FearNoEvil | Card::Foresight | Card::Indignation | Card::InnerPeace | Card::LikeWater | Card::Meditate | Card::MentalFortress | Card::Nirvana | Card::Perseverance | Card::Pray | Card::Rushdown | Card::Sanctity | Card::SimmeringFury | Card::TalkToTheHand | Card::Tantrum | Card::WaveOfTheHand | Card::WreathOfFlame | Card::Alpha | Card::Blasphemy | Card::Brilliance | Card::Devotion | Card::Establishment | Card::Judgment | Card::MasterReality | Card::Scrawl => 1,
            Card::Neutralize | Card::Deflect | Card::Prepared | Card::Slice | Card::Backstab | Card::CalculatedGamble | Card::Concentrate | Card::EscapePlan | Card::MasterfulStab | Card::Reflex | Card::Skewer | Card::Tactician | Card::EndlessAgony | Card::Adrenaline | Card::Doppelganger | Card::GrandFinale | Card::Malaise | Card::BeamCell | Card::GoForTheEyes | Card::SteamBarrier | Card::Turbo | Card::Claw | Card::BootSequence | Card::Chill | Card::Ftl | Card::Overclock | Card::ReinforcedBody | Card::Tempest | Card::Fission | Card::MultiCast | Card::Reboot | Card::Seek | Card::Consecrate | Card::FlurryOfBlows | Card::Halt | Card::JustLucky | Card::Prostrate | Card::Collect | Card::ForeignInfluence | Card::Weave | Card::ConjureBlade | Card::DeusExMachina => 0,
            Card::SneakyStrike | Card::BouncingFlask | Card::Choke | Card::CripplingCloud | Card::Dash | Card::LegSweep | Card::Predator | Card::RiddleWithHoles | Card::CorpseExplosion | Card::Envenom | Card::AThousandCuts | Card::Streamline | Card::Consume | Card::DoomAndGloom | Card::Equilibrium | Card::Fusion | Card::Glacier | Card::AllForOne | Card::Buffer | Card::Electrodynamics | Card::Hyperbeam | Card::Rainbow | Card::Eruption | Card::Vigilance | Card::Protect | Card::Fasting | Card::ReachHeaven | Card::SignatureMove | Card::Study | Card::Swivel | Card::Wallop | Card::WheelKick | Card::WindmillStrike | Card::Worship | Card::LessonLearned | Card::SpiritShield => 2,
            Card::Eviscerate | Card::BulletTime | Card::Nightmare | Card::WraithForm | Card::Sunder | Card::CreativeAi | Card::EchoForm | Card::ThunderStrike | Card::DevaForm | Card::Ragnarok | Card::Vault | Card::Wish => 3,
            Card::ForceField | Card::SandsOfTime | Card::Omniscience => 4,
            Card::MeteorStrike => 5,
        }
    }

    /// The kind of the card.
    pub fn card_type(&self) -> (r: CardType)
        ensures
            r == spec_card_type(*self),
    {
        match *self {
            Card::Strike | Card::Bash | Card::Anger | Card::BodySlam | Card::Clash | Card::Cleave | Card::Clothesline | Card::Headbutt | Card::HeavyBlade | Card::IronWave | Card::PerfectedStrike | Card::PommelStrike | Card::SwordBoomerang | Card::Thunderclap | Card::TwinStrike | Card::WildStrike | Card::BloodForBlood | Card::Carnage | Card::Dropkick | Card::Hemokinesis | Card::Pummel | Card::Rampage | Card::RecklessCharge | Card::SearingBlow | Card::SeverSoul | Card::Uppercut | Card::Whirlwind | Card::Bludgeon | Card::Feed | Card::FiendFire | Card::Immolate | Card::Reaper | Card::DramaticEntrance | Card::FlashOfSteel | Card::MindBlast | Card::SwiftStrike => CardType::Attack,
            Card::Defend | Card::Armaments | Card::Flex | Card::Havoc | Card::ShrugItOff | Card::TrueGrit | Card::Warcry | Card::BattleTrance | Card::Bloodletting | Card::BurningPact | Card::Disarm | Card::DualWield | Card::Entrench | Card::FlameBarrier | Card::GhostlyArmor | Card::InfernalBlade | Card::Intimidate | Card::PowerThrough | Card::Rage | Card::SecondWind | Card::SeeingRed | Card::Sentinel | Card::Shockwave | Card::SpotWeakness | Card::DoubleTap | Card::Exhume | Card::Impervious | Card::LimitBreak | Card::Offering | Card::BandageUp | Card::Blind | Card::DarkShackles | Card::DeepBreath | Card::Discovery | Card::Enlightenment | Card::Finesse | Card::Forethought | Card::GoodInstincts | Card::Impatience | Card::JackOfAllTrades | Card::Madness | Card::Panacea | Card::PanicButton | Card::Purity | Card::Trip => CardType::Skill,
            Card::Combust | Card::DarkEmbrace | Card::Evolve | Card::FeelNoPain | Card::FireBreathing | Card::Inflame | Card::Metallicize | Card::Rupture | Card::Barricade | Card::Berserk | Card::Brutality | Card::Corruption | Card::DemonForm | Card::Juggernaut => CardType::Power,
            Card::Clumsy | Card::Decay | Card::Doubt | Card::Injury | Card::Normality | Card::Pain | Card::Parasite | Card::Regret | Card::Shame | Card::Writhe => CardType::Curse,
            Card::Slimed | Card::Wound | Card::Dazed | Card::Burn => CardType::Status,
            Card::StrikeG | Card::Neutralize | Card::Bane | Card::DaggerSpray | Card::DaggerThrow | Card::FlyingKnee | Card::PoisonedStab | Card::QuickSlash | Card::Slice | Card::SneakyStrike | Card::SuckerPunch | Card::AllOutAttack | Card::Backstab | Card::Choke | Card::Dash | Card::Finisher | Card::Flechettes | Card::HeelHook | Card::MasterfulStab | Card::Predator | Card::RiddleWithHoles | Card::Skewer | Card::Eviscerate | Card::EndlessAgony | Card::DieDieDie | Card::GlassKnife | Card::GrandFinale | Card::Unload | Card::StrikeB | Card::BallLightning | Card::Barrage | Card::BeamCell | Card::ColdSnap | Card::CompileDriver | Card::GoForTheEyes | Card::Rebound | Card::Streamline | Card::SweepingBeam | Card::Claw | Card::Blizzard | Card::DoomAndGloom | Card::Ftl | Card::LockOn | Card::Melter | Card::RipAndTear | Card::Scrape | Card::Sunder | Card::AllForOne | Card::CoreSurge | Card::Hyperbeam | Card::MeteorStrike | Card::ThunderStrike | Card::StrikeP | Card::Eruption | Card::BowlingBash | Card::Consecrate | Card::CrushJoints | Card::CutThroughFate | Card::EmptyFist | Card::FlurryOfBlows | Card::FlyingSleeves | Card::FollowUp | Card::JustLucky | Card::SashWhip | Card::CarveReality | Card::Conclude | Card::FearNoEvil | Card::ReachHeaven | Card::SandsOfTime | Card::SignatureMove | Card::TalkToTheHand | Card::Tantrum | Card::Wallop | Card::Weave | Card::WheelKick | Card::WindmillStrike | Card::Brilliance | Card::LessonLearned | Card::Ragnarok => CardType::Attack,
            Card::DefendG | Card::Survivor | Card::Acrobatics | Card::Backflip | Card::BladeDance | Card::CloakAndDagger | Card::DeadlyPoison | Card::Deflect | Card::DodgeAndRoll | Card::Outmaneuver | Card::PiercingWail | Card::Prepared | Card::Blur | Card::BouncingFlask | Card::CalculatedGamble | Card::Catalyst | Card::Concentrate | Card::CripplingCloud | Card::Distraction | Card::EscapePlan | Card::Expertise | Card::LegSweep | Card::Reflex | Card::Setup | Card::Tactician | Card::Terror | Card::Adrenaline | Card::Alchemize | Card::BulletTime | Card::Burst | Card::CorpseExplosion | Card::Doppelganger | Card::Malaise | Card::Nightmare | Card::PhantasmalKiller | Card::StormOfSteel | Card::DefendB | Card::Zap | Card::Dualcast | Card::ConserveBattery | Card::Coolheaded | Card::Hologram | Card::Leap | Card::Stack | Card::SteamBarrier | Card::Turbo | Card::Recursion | Card::Aggregate | Card::AutoShields | Card::BootSequence | Card::Chaos | Card::Chill | Card::Consume | Card::Darkness | Card::DoubleEnergy | Card::Equilibrium | Card::ForceField | Card::Fusion | Card::GeneticAlgorithm | Card::Glacier | Card::Overclock | Card::Recycle | Card::ReinforcedBody | Card::Reprogram | Card::Skim | Card::Tempest | Card::WhiteNoise | Card::Amplify | Card::Fission | Card::MultiCast | Card::Rainbow | Card::Reboot | Card::Seek | Card::DefendP | Card::Vigilance | Card::Crescendo | Card::EmptyBody | Card::Evaluate | Card::Halt | Card::PressurePoints | Card::Prostrate | Card::Protect | Card::Tranquility | Card::ThirdEye | Card::Collect | Card::DeceiveReality | Card::EmptyMind | Card::ForeignInfluence | Card::Indignation | Card::InnerPeace | Card::Meditate | Card::Perseverance | Card::Pray | Card::Sanctity | Card::SimmeringFury | Card::Swivel | Card::WaveOfTheHand | Card::Worship | Card::WreathOfFlame | Card::Alpha | Card::Blasphemy | Card::ConjureBlade | Card::DeusExMachina | Card::Judgment | Card::Omniscience | Card::Scrawl | Card::SpiritShield | Card::Vault | Card::Wish => CardType::Skill,
            Card::Accuracy | Card::Caltrops | Card::Footwork | Card::InfiniteBlades | Card::NoxiousFumes | Card::WellLaidPlans | Card::AfterImage | Card::Envenom | Card::ToolsOfTheTrade | Card::WraithForm | Card::AThousandCuts | Card::Capacitor | Card::Defragment | Card::Heatsinks | Card::HelloWorld | Card::Loop | Card::SelfRepair | Card::StaticDischarge | Card::Storm | Card::BiasedCognition | Card::Buffer | Card::CreativeAi | Card::EchoForm | Card::Electrodynamics | Card::MachineLearning | Card::BattleHymn | Card::Fasting | Card::Foresight | Card::LikeWater | Card::MentalFortress | Card::Nirvana | Card::Rushdown | Card::Study | Card::DevaForm | Card::Devotion | Card::Establishment | Card::MasterReality => CardType::Power,
        }
    }

    /// Whether the card is exhausted after being played.
    pub fn exhausts(&self) -> (r: bool)
        ensures
            r == spec_exhausts(*self),
    {
        match *self {
            Card::Strike | Card::Defend | Card::Bash | Card::Anger | Card::Armaments | Card::BodySlam | Card::Clash | Card::Cleave | Card::Clothesline | Card::Flex | Card::Havoc | Card::Headbutt | Card::HeavyBlade | Card::IronWave | Card::PerfectedStrike | Card::PommelStrike | Card::ShrugItOff | Card::SwordBoomerang | Card::Thunderclap | Card::TrueGrit | Card::TwinStrike | Card::Warcry | Card::WildStrike | Card::BattleTrance | Card::BloodForBlood | Card::Bloodletting | Card::BurningPact | Card::Carnage | Card::Combust | Card::DarkEmbrace | Card::Dropkick | Card::DualWield | Card::Entrench | Card::Evolve | Card::FeelNoPain | Card::FireBreathing | Card::FlameBarrier | Card::GhostlyArmor | Card::Hemokinesis | Card::InfernalBlade | Card::Inflame | Card::Metallicize | Card::PowerThrough | Card::Pummel | Card::Rage | Card::Rampage | Card::RecklessCharge | Card::Rupture | Card::SearingBlow | Card::SecondWind | Card::Sentinel | Card::SeverSoul | Card::SpotWeakness | Card::Uppercut | Card::Whirlwind | Card::Barricade | Card::Berserk | Card::Bludgeon | Card::Brutality | Card::Corruption | Card::DemonForm | Card::DoubleTap | Card::FiendFire | Card::Immolate | Card::Juggernaut | Card::Reaper | Card::DeepBreath | Card::DramaticEntrance | Card::Finesse | Card::FlashOfSteel | Card::Forethought | Card::GoodInstincts | Card::Impatience | Card::JackOfAllTrades | Card::MindBlast | Card::SwiftStrike | Card::Clumsy | Card::Decay | Card::Doubt | Card::Injury | Card::Normality | Card::Pain | Card::Parasite | Card::Regret | Card::Shame | Card::Writhe | Card::Wound | Card::Dazed | Card::Burn => false,
            Card::Disarm | Card::Intimidate | Card::SeeingRed | Card::Shockwave | Card::Exhume | Card::Feed | Card::Impervious | Card::LimitBreak | Card::Offering | Card::BandageUp | Card::Blind | Card::DarkShackles | Card::Discovery | Card::Enlightenment | Card::Madness | Card::Panacea | Card::PanicButton | Card::Purity | Card::Trip | Card::Slimed => true,
            Card::StrikeG | Card::DefendG | Card::Neutralize | Card::Survivor | Card::Acrobatics | Card::Backflip | Card::Bane | Card::BladeDance | Card::CloakAndDagger | Card::DaggerSpray | Card::DaggerThrow | Card::DeadlyPoison | Card::Deflect | Card::DodgeAndRoll | Card::FlyingKnee | Card::Outmaneuver | Card::PoisonedStab | Card::Prepared | Card::QuickSlash | Card::Slice | Card::SneakyStrike | Card::SuckerPunch | Card::Accuracy | Card::AllOutAttack | Card::Blur | Card::BouncingFlask | Card::Caltrops | Card::Choke | Card::Concentrate | Card::Dash | Card::EscapePlan | Card::Expertise | Card::Finisher | Card::Flechettes | Card::Footwork | Card::HeelHook | Card::InfiniteBlades | Card::LegSweep | Card::MasterfulStab | Card::NoxiousFumes | Card::Predator | Card::Reflex | Card::RiddleWithHoles | Card::Setup | Card::Skewer | Card::Tactician | Card::WellLaidPlans | Card::Eviscerate | Card::AfterImage | Card::BulletTime | Card::Burst | Card::CorpseExplosion | Card::Envenom | Card::GlassKnife | Card::GrandFinale | Card::PhantasmalKiller | Card::StormOfSteel | Card::ToolsOfTheTrade | Card::Unload | Card::WraithForm | Card::AThousandCuts | Card::StrikeB | Card::DefendB | Card::Zap | Card::Dualcast | Card::BallLightning | Card::Barrage | Card::BeamCell | Card::ColdSnap | Card::CompileDriver | Card::ConserveBattery | Card::Coolheaded | Card::GoForTheEyes | Card::Leap | Card::Rebound | Card::Stack | Card::SteamBarrier | Card::Streamline | Card::SweepingBeam | Card::Turbo | Card::Claw | Card::Recursion | Card::Aggregate | Card::AutoShields | Card::Blizzard | Card::Capacitor | Card::Chaos | Card::Consume | Card::Darkness | Card::Defragment | Card::DoomAndGloom | Card::Equilibrium | Card::ForceField | Card::Ftl | Card::Fusion | Card::Glacier | Card::Heatsinks | Card::HelloWorld | Card::LockOn | Card::Loop | Card::Melter | Card::Overclock | Card::Recycle | Card::ReinforcedBody | Card::Reprogram | Card::RipAndTear | Card::Scrape | Card::SelfRepair | Card::Skim | Card::StaticDischarge | Card::Storm | Card::Sunder | Card::AllForOne | Card::Amplify | Card::BiasedCognition | Card::Buffer | Card::CreativeAi | Card::EchoForm | Card::Electrodynamics | Card::Hyperbeam | Card::MachineLearning | Card::MeteorStrike | Card::MultiCast | Card::ThunderStrike | Card::StrikeP | Card::DefendP | Card::Eruption | Card::Vigilance | Card::BowlingBash | Card::Consecrate | Card::CrushJoints | Card::CutThroughFate | Card::EmptyBody | Card::EmptyFist | Card::Evaluate | Card::FlurryOfBlows | Card::FlyingSleeves | Card::FollowUp | Card::Halt | Card::JustLucky | Card::PressurePoints | Card::Prostrate | Card::Protect | Card::SashWhip | Card::ThirdEye | Card::BattleHymn | Card::CarveReality | Card::Conclude | Card::DeceiveReality | Card::EmptyMind | Card::Fasting | Card::FearNoEvil | Card::Foresight | Card::Indignation | Card::InnerPeace | Card::LikeWater | Card::Meditate | Card::MentalFortress | Card::Nirvana | Card::Perseverance | Card::Pray | Card::ReachHeaven | Card::Rushdown | Card::Sanctity | Card::SandsOfTime | Card::SignatureMove | Card::SimmeringFury | Card::Study | Card::Swivel | Card::Tantrum | Card::Wallop | Card::WaveOfTheHand | Card::Weave | Card::WheelKick | Card::WindmillStrike | Card::Worship | Card::WreathOfFlame | Card::Brilliance | Card::DevaForm | Card::Devotion | Card::Establishment | Card::Judgment | Card::MasterReality | Card::Ragnarok | Card::SpiritShield => false,
            Card::PiercingWail | Card::Backstab | Card::CalculatedGamble | Card::Catalyst | Card::CripplingCloud | Card::Distraction | Card::Terror | Card::EndlessAgony | Card::Adrenaline | Card::Alchemize | Card::DieDieDie | Card::Doppelganger | Card::Malaise | Card::Nightmare | Card::Hologram | Card::BootSequence | Card::Chill | Card::DoubleEnergy | Card::GeneticAlgorithm | Card::Tempest | Card::WhiteNoise | Card::CoreSurge | Card::Fission | Card::Rainbow | Card::Reboot | Card::Seek | Card::Crescendo | Card::Tranquility | Card::Collect | Card::ForeignInfluence | Card::TalkToTheHand | Card::Alpha | Card::Blasphemy | Card::ConjureBlade | Card::DeusExMachina | Card::LessonLearned | Card::Omniscience | Card::Scrawl | Card::Vault | Card::Wish => true,
        }
    }

    /// Whether the card starts combat at the top of the draw pile.
    pub fn is_innate(&self) -> (r: bool)
        ensures
            r == spec_is_innate(*self),
    {
        match *self {
            Card::Strike | Card::Defend | Card::Bash | Card::Anger | Card::Armaments | Card::BodySlam | Card::Clash | Card::Cleave | Card::Clothesline | Card::Flex | Card::Havoc | Card::Headbutt | Card::HeavyBlade | Card::IronWave | Card::PerfectedStrike | Card::PommelStrike | Card::ShrugItOff | Card::SwordBoomerang | Card::Thunderclap | Card::TrueGrit | Card::TwinStrike | Card::Warcry | Card::WildStrike | Card::BattleTrance | Card::BloodForBlood | Card::Bloodletting | Card::BurningPact | Card::Carnage | Card::Combust | Card::DarkEmbrace | Card::Disarm | Card::Dropkick | Card::DualWield | Card::Entrench | Card::Evolve | Card::FeelNoPain | Card::FireBreathing | Card::FlameBarrier | Card::GhostlyArmor | Card::Hemokinesis | Card::InfernalBlade | Card::Inflame | Card::Intimidate | Card::Metallicize | Card::PowerThrough | Card::Pummel | Card::Rage | Card::Rampage | Card::RecklessCharge | Card::Rupture | Card::SearingBlow | Card::SecondWind | Card::SeeingRed | Card::Sentinel | Card::SeverSoul | Card::Shockwave | Card::SpotWeakness | Card::Uppercut | Card::Whirlwind | Card::Barricade | Card::Berserk | Card::Bludgeon | Card::Brutality | Card::Corruption | Card::DemonForm | Card::DoubleTap | Card::Exhume | Card::Feed | Card::FiendFire | Card::Immolate | Card::Impervious | Card::Juggernaut | Card::LimitBreak | Card::Offering | Card::Reaper | Card::BandageUp | Card::Blind | Card::DarkShackles | Card::DeepBreath | Card::Discovery | Card::Enlightenment | Card::Finesse | Card::FlashOfSteel | Card::Forethought | Card::GoodInstincts | Card::Impatience | Card::JackOfAllTrades | Card::Madness | Card::Panacea | Card::PanicButton | Card::Purity | Card::SwiftStrike | Card::Trip | Card::Clumsy | Card::Decay | Card::Doubt | Card::Injury | Card::Normality | Card::Pain | Card::Parasite | Card::Regret | Card::Shame | Card::Writhe | Card::Slimed | Card::Wound | Card::Dazed | Card::Burn => false,
            Card::DramaticEntrance | Card::MindBlast => true,
            Card::StrikeG | Card::DefendG | Card::Neutralize | Card::Survivor | Card::Acrobatics | Card::Backflip | Card::Bane | Card::BladeDance | Card::CloakAndDagger | Card::DaggerSpray | Card::DaggerThrow | Card::DeadlyPoison | Card::Deflect | Card::DodgeAndRoll | Card::FlyingKnee | Card::Outmaneuver | Card::PiercingWail | Card::PoisonedStab | Card::Prepared | Card::QuickSlash | Card::Slice | Card::SneakyStrike | Card::SuckerPunch | Card::Accuracy | Card::AllOutAttack | Card::Blur | Card::BouncingFlask | Card::CalculatedGamble | Card::Caltrops | Card::Catalyst | Card::Choke | Card::Concentrate | Card::CripplingCloud | Card::Dash | Card::Distraction | Card::EscapePlan | Card::Expertise | Card::Finisher | Card::Flechettes | Card::Footwork | Card::HeelHook | Card::InfiniteBlades | Card::LegSweep | Card::MasterfulStab | Card::NoxiousFumes | Card::Predator | Card::Reflex | Card::RiddleWithHoles | Card::Setup | Card::Skewer | Card::Tactician | Card::Terror | Card::WellLaidPlans | Card::Eviscerate | Card::EndlessAgony | Card::Adrenaline | Card::AfterImage | Card::Alchemize | Card::BulletTime | Card::Burst | Card::CorpseExplosion | Card::DieDieDie | Card::Doppelganger | Card::Envenom | Card::GlassKnife | Card::GrandFinale | Card::Malaise | Card::Nightmare | Card::PhantasmalKiller | Card::StormOfSteel | Card::ToolsOfTheTrade | Card::Unload | Card::WraithForm | Card::AThousandCuts | Card::StrikeB | Card::DefendB | Card::Zap | Card::Dualcast | Card::BallLightning | Card::Barrage | Card::BeamCell | Card::ColdSnap | Card::CompileDriver | Card::ConserveBattery | Card::Coolheaded | Card::GoForTheEyes | Card::Hologram | Card::Leap | Card::Rebound | Card::Stack | Card::SteamBarrier | Card::Streamline | Card::SweepingBeam | Card::Turbo | Card::Claw | Card::Recursion | Card::Aggregate | Card::AutoShields | Card::Blizzard | Card::Capacitor | Card::Chaos | Card::Chill | Card::Consume | Card::Darkness | Card::Defragment | Card::DoomAndGloom | Card::DoubleEnergy | Card::Equilibrium | Card::ForceField | Card::Ftl | Card::Fusion | Card::GeneticAlgorithm | Card::Glacier | Card::Heatsinks | Card::HelloWorld | Card::LockOn | Card::Loop | Card::Melter | Card::Overclock | Card::Recycle | Card::ReinforcedBody | Card::Reprogram | Card::RipAndTear | Card::Scrape | Card::SelfRepair | Card::Skim | Card::StaticDischarge | Card::Storm | Card::Sunder | Card::Tempest | Card::WhiteNoise | Card::AllForOne | Card::Amplify | Card::BiasedCognition | Card::Buffer | Card::CoreSurge | Card::CreativeAi | Card::EchoForm | Card::Electrodynamics | Card::Fission | Card::Hyperbeam | Card::MachineLearning | Card::MeteorStrike | Card::MultiCast | Card::Rainbow | Card::Reboot | Card::Seek | Card::ThunderStrike | Card::StrikeP | Card::DefendP | Card::Eruption | Card::Vigilance | Card::BowlingBash | Card::Consecrate | Card::Crescendo | Card::CrushJoints | Card::CutThroughFate | Card::EmptyBody | Card::EmptyFist | Card::Evaluate | Card::FlurryOfBlows | Card::FlyingSleeves | Card::FollowUp | Card::Halt | Card::JustLucky | Card::PressurePoints | Card::Prostrate | Card::Protect | Card::SashWhip | Card::Tranquility | Card::ThirdEye | Card::BattleHymn | Card::CarveReality | Card::Collect | Card::Conclude | Card::DeceiveReality | Card::EmptyMind | Card::Fasting | Card::FearNoEvil | Card::ForeignInfluence | Card::Foresight | Card::Indignation | Card::InnerPeace | Card::LikeWater | Card::Meditate | Card::MentalFortress | Card::Nirvana | Card::Perseverance | Card::Pray | Card::ReachHeaven | Card::Rushdown | Card::Sanctity | Card::SandsOfTime | Card::SignatureMove | Card::SimmeringFury | Card::Study | Card::Swivel | Card::TalkToTheHand | Card::Tantrum | Card::Wallop | Card::WaveOfTheHand | Card::Weave | Card::WheelKick | Card::WindmillStrike | Card::Worship | Card::WreathOfFlame | Card::Alpha | Card::Blasphemy | Card::Brilliance | Card::ConjureBlade | Card::DeusExMachina | Card::DevaForm | Card::Devotion | Card::Establishment | Card::Judgment | Card::LessonLearned | Card::MasterReality | Card::Omniscience | Card::Ragnarok | Card::Scrawl | Card::SpiritShield | Card::Vault | Card::Wish => false,
            Card::Backstab | Card::BootSequence => true,
        }
    }

    /// Whether the card is a curse.
    pub fn is_curse(&self) -> (r: bool)
        ensures
            r == (spec_card_type(*self) == CardType::Curse),
    {
        self.card_type() == CardType::Curse
    }
}

/// The uncommon colorless cards.
pub open spec fn spec_uncommon_colorless_cards() -> Seq<Card> {
    seq![Card::DarkShackles, Card::PanicButton, Card::Trip, Card::DramaticEntrance, Card::Impatience, Card::Blind, Card::BandageUp, Card::DeepBreath, Card::FlashOfSteel, Card::Forethought, Card::Enlightenment, Card::Purity, Card::Panacea, Card::Discovery, Card::Finesse, Card::GoodInstincts, Card::SwiftStrike, Card::JackOfAllTrades, Card::MindBlast, Card::Madness]
}

/// The uncommon colorless cards.
pub fn uncommon_colorless_cards() -> (r: Vec<Card>)
    ensures
        r@ == spec_uncommon_colorless_cards(),
{
    vec![Card::DarkShackles, Card::PanicButton, Card::Trip, Card::DramaticEntrance, Card::Impatience, Card::Blind, Card::BandageUp, Card::DeepBreath, Card::FlashOfSteel, Card::Forethought, Card::Enlightenment, Card::Purity, Card::Panacea, Card::Discovery, Card::Finesse, Card::GoodInstincts, Card::SwiftStrike, Card::JackOfAllTrades, Card::MindBlast, Card::Madness]
}

/// The curses that can be obtained at random.
pub open spec fn spec_curse_card_pool() -> Seq<Card> {
    seq![Card::Regret, Card::Injury, Card::Shame, Card::Parasite, Card::Normality, Card::Doubt, Card::Writhe, Card::Pain, Card::Decay, Card::Clumsy]
}

/// The curses that can be obtained at random.
pub fn curse_card_pool() -> (r: Vec<Card>)
    ensures
        r@ == spec_curse_card_pool(),
{
    vec![Card::Regret, Card::Injury, Card::Shame, Card::Parasite, Card::Normality, Card::Doubt, Card::Writhe, Card::Pain, Card::Decay, Card::Clumsy]
}

/// The relics of the game that this simulator knows.
#[derive(Clone, Copy, Debug, PartialEq, Eq, Structural)]
pub enum Relic {
    Akabeko,
    Anchor,
    AncientTeaSet,
    ArtOfWar,
    BagOfMarbles,
    BagOfPreparation,
    BloodVial,
    BronzeScales,
    CentennialPuzzle,
    CeramicFish,
    Dreamcatcher,
    HappyFlower,
    JuzuBracelet,
    Lantern,
    MawBank,
    MealTicket,
    Nunchaku,
    OddlySmoothStone,
    Omamori,
    Orichalcum,
    PenNib,
    PotionBelt,
    PreservedInsect,
    RegalPillow,
    SmilingMask,
    Strawberry,
    TheBoot,
    TinyChest,
    ToyOrnithopter,
    Vajra,
    WarPaint,
    Whetstone,
    RedSkull,
    BlueCandle,
    BottledFlame,
    BottledLightning,
    BottledTornado,
    DarkstonePeriapt,
    EternalFeather,
    FrozenEgg,
    GremlinHorn,
    HornCleat,
    InkBottle,
    Kunai,
    LetterOpener,
    Matryoshka,
    MeatOnTheBone,
    MercuryHourglass,
    MoltenEgg,
    MummifiedHand,
    OrnamentalFan,
    Pantograph,
    Pear,
    QuestionCard,
    Shuriken,
    SingingBowl,
    StrikeDummy,
    Sundial,
    TheCourier,
    ToxicEgg,
    WhiteBeastStatue,
    PaperPhrog,
    SelfFormingClay,
    BirdFacedUrn,
    Calipers,
    CaptainsWheel,
    DeadBranch,
    DuVuDoll,
    FossilizedHelix,
    GamblingChip,
    Ginger,
    Girya,
    IceCream,
    IncenseBurner,
    LizardTail,
    Mango,
    OldCoin,
    PeacePipe,
    Pocketwatch,
    PrayerWheel,
    Shovel,
    StoneCalendar,
    ThreadAndNeedle,
    Torii,
    TungstenRod,
    Turnip,
    UnceasingTop,
    WingBoots,
    CharonsAshes,
    MagicFlower,
    ChampionBelt,
    Cauldron,
    ChemicalX,
    ClockworkSouvenir,
    DollysMirror,
    FrozenEye,
    HandDrill,
    LeesWaffle,
    MedicalKit,
    MembershipCard,
    OrangePellets,
    Orrery,
    PrismaticShard,
    SlingOfCourage,
    StrangeSpoon,
    TheAbacus,
    Toolbox,
    Brimstone,
    Astrolabe,
    BlackStar,
    BustedCrown,
    CallingBell,
    CoffeeDripper,
    CursedKey,
    Ectoplasm,
    EmptyCage,
    FusionHammer,
    PandorasBox,
    PhilosophersStone,
    RunicDome,
    RunicPyramid,
    SacredBark,
    SlaversCollar,
    SneckoEye,
    Sozu,
    TinyHouse,
    VelvetChoker,
    BlackBlood,
    MarkOfPain,
    RunicCube,
    BurningBlood,
    Circlet,
    BloodyIdol,
    RingOfTheSnake,
    CrackedCore,
    PureWater,
    SneckoSkull,
    NinjaScroll,
    PaperKrane,
    TheSpecimen,
    Tingsha,
    ToughBandages,
    TwistedFunnel,
    RingOfTheSerpent,
    WristBlade,
    HoveringKite,
    DataDisk,
    SymbioticVirus,
    GoldPlatedCables,
    EmotionChip,
    RunicCapacitor,
    Inserter,
    FrozenCore,
    NuclearBattery,
    Damaru,
    TeardropLocket,
    Duality,
    CloakClasp,
    GoldenEye,
    Melange,
    HolyWater,
    VioletLotus,
}

/// The potions of the game.
#[derive(Clone, Copy, Debug, PartialEq, Eq, Structural)]
pub enum Potion {
    Ambrosia,
    AncientPotion,
    AttackPotion,
    BlessingOfTheForge,
    BlockPotion,
    BloodPotion,
    BottledMiracle,
    ColorlessPotion,
    CultistPotion,
    CunningPotion,
    DexterityPotion,
    DistilledChaos,
    DuplicationPotion,
    Elixir,
    EnergyPotion,
    EntropicBrew,
    EssenceOfDarkness,
    EssenceOfSteel,
    ExplosivePotion,
    FairyInABottle,
    FearPotion,
    FirePotion,
    FlexPotion,
    FocusPotion,
    FruitJuice,
    GamblersBrew,
    GhostInAJar,
    HeartOfIron,
    LiquidBronze,
    LiquidMemories,
    PoisonPotion,
    PotionOfCapacity,
    PowerPotion,
    RegenPotion,
    SkillPotion,
    SmokeBomb,
    SneckoOil,
    SpeedPotion,
    StancePotion,
    StrengthPotion,
    SwiftPotion,
    WeakPotion,
}

/// Whether a potion can be drunk outside of combat.
pub open spec fn spec_can_drink_anywhere(x: Potion) -> bool {
    match x {
        Potion::Ambrosia | Potion::AncientPotion | Potion::AttackPotion | Potion::BlessingOfTheForge | Potion::BlockPotion | Potion::BottledMiracle | Potion::ColorlessPotion | Potion::CultistPotion | Potion::CunningPotion | Potion::DexterityPotion | Potion::DistilledChaos | Potion::DuplicationPotion | Potion::Elixir | Potion::EnergyPotion | Potion::EssenceOfDarkness | Potion::EssenceOfSteel | Potion::ExplosivePotion | Potion::FairyInABottle | Potion::FearPotion | Potion::FirePotion | Potion::FlexPotion | Potion::FocusPotion | Potion::GamblersBrew | Potion::GhostInAJar | Potion::HeartOfIron | Potion::LiquidBronze | Potion::LiquidMemories | Potion::PoisonPotion | Potion::PotionOfCapacity | Potion::PowerPotion | Potion::RegenPotion | Potion::SkillPotion | Potion::SmokeBomb | Potion::SneckoOil | Potion::SpeedPotion | Potion::StancePotion | Potion::StrengthPotion | Potion::SwiftPotion | Potion::WeakPotion => false,
        Potion::BloodPotion | Potion::EntropicBrew | Potion::FruitJuice => true,
    }
}

impl Potion {
    /// Whether the potion can be drunk outside of combat.
    pub fn can_drink_anywhere(&self) -> (r: bool)
        ensures
            r == spec_can_drink_anywhere(*self),
    {
        match *self {
            Potion::Ambrosia | Potion::AncientPotion | Potion::AttackPotion | Potion::BlessingOfTheForge | Potion::BlockPotion | Potion::BottledMiracle | Potion::ColorlessPotion | Potion::CultistPotion | Potion::CunningPotion | Potion::DexterityPotion | Potion::DistilledChaos | Potion::DuplicationPotion | Potion::Elixir | Potion::EnergyPotion | Potion::EssenceOfDarkness | Potion::EssenceOfSteel | Potion::ExplosivePotion | Potion::FairyInABottle | Potion::FearPotion | Potion::FirePotion | Potion::FlexPotion | Potion::FocusPotion | Potion::GamblersBrew | Potion::GhostInAJar | Potion::HeartOfIron | Potion::LiquidBronze | Potion::LiquidMemories | Potion::PoisonPotion | Potion::PotionOfCapacity | Potion::PowerPotion | Potion::RegenPotion | Potion::SkillPotion | Potion::SmokeBomb | Potion::SneckoOil | Potion::SpeedPotion | Potion::StancePotion | Potion::StrengthPotion | Potion::SwiftPotion | Potion::WeakPotion => false,
            Potion::BloodPotion | Potion::EntropicBrew | Potion::FruitJuice => true,
        }
    }

}

/// Conditions that weaken their bearer.
#[derive(Clone, Copy, Debug, PartialEq, Eq, Structural)]
pub enum Debuff {
    Frail,
    Vulnerable,
    Weak,
}

/// Conditions that strengthen their bearer.
#[derive(Clone, Copy, Debug, PartialEq, Eq, Structural)]
pub enum Buff {
    Artifact,
    Ritual,
    Strength,
}

/// The bonus half of a Neow blessing that comes with a penalty.
#[derive(Clone, Copy, Debug, PartialEq, Eq, Structural)]
pub enum NeowBonus {
    GainOneHundredGold,
    GainTwoHundredFiftyGold,
    IncreaseMaxHpByTwentyPercent,
    ObtainRandomRareCard,
    ObtainRandomRareRelic,
    RemoveTwoCards,
    TransformTwoCards,
    ChooseRareCard,
    ChooseRareColorlessCard,
}

/// The penalty half of a Neow blessing that comes with a bonus.
#[derive(Clone, Copy, Debug, PartialEq, Eq, Structural)]
pub enum NeowPenalty {
    DecreaseMaxHpByTenPercent,
    LoseAllGold,
    ObtainCurse,
    TakeDamage,
}

/// The blessings Neow offers at the start of a run.
#[derive(Clone, Copy, Debug, PartialEq, Eq, Structural)]
pub enum NeowBlessing {
    ChooseCard,
    ChooseColorlessCard,
    GainOneHundredGold,
    IncreaseMaxHpByTenPercent,
    NeowsLament,
    ObtainRandomCommonRelic,
    ObtainRandomRareCard,
    ObtainThreePotions,
    RemoveCard,
    TransformCard,
    UpgradeCard,
    Composite(NeowBonus, NeowPenalty),
    ReplaceStarterRelic,
}

/// The blessings of Neow's first offer.
pub open spec fn spec_first_neow_pool() -> Seq<NeowBlessing> {
    seq![
        NeowBlessing::ChooseCard,
        NeowBlessing::ObtainRandomRareCard,
        NeowBlessing::RemoveCard,
        NeowBlessing::UpgradeCard,
        NeowBlessing::TransformCard,
        NeowBlessing::ChooseColorlessCard,
    ]
}

/// The blessings of Neow's first offer.
pub fn first_neow_pool() -> (r: Vec<NeowBlessing>)
    ensures
        r@ == spec_first_neow_pool(),
{
    vec![
        NeowBlessing::ChooseCard,
        NeowBlessing::ObtainRandomRareCard,
        NeowBlessing::RemoveCard,
        NeowBlessing::UpgradeCard,
        NeowBlessing::TransformCard,
        NeowBlessing::ChooseColorlessCard,
    ]
}

/// The blessings of Neow's second offer.
pub open spec fn spec_second_neow_pool() -> Seq<NeowBlessing> {
    seq![
        NeowBlessing::ObtainThreePotions,
        NeowBlessing::ObtainRandomCommonRelic,
        NeowBlessing::IncreaseMaxHpByTenPercent,
        NeowBlessing::NeowsLament,
        NeowBlessing::GainOneHundredGold,
    ]
}

/// The blessings of Neow's second offer.
pub fn second_neow_pool() -> (r: Vec<NeowBlessing>)
    ensures
        r@ == spec_second_neow_pool(),
{
    vec![
        NeowBlessing::ObtainThreePotions,
        NeowBlessing::ObtainRandomCommonRelic,
        NeowBlessing::IncreaseMaxHpByTenPercent,
        NeowBlessing::NeowsLament,
        NeowBlessing::GainOneHundredGold,
    ]
}

/// The penalties of Neow's third offer.
pub open spec fn spec_neow_penalties() -> Seq<NeowPenalty> {
    seq![NeowPenalty::DecreaseMaxHpByTenPercent, NeowPenalty::LoseAllGold, NeowPenalty::ObtainCurse, NeowPenalty::TakeDamage]
}

/// The penalties of Neow's third offer.
pub fn neow_penalties() -> (r: Vec<NeowPenalty>)
    ensures
        r@ == spec_neow_penalties(),
{
    vec![NeowPenalty::DecreaseMaxHpByTenPercent, NeowPenalty::LoseAllGold, NeowPenalty::ObtainCurse, NeowPenalty::TakeDamage]
}

/// The bonuses that can come with a penalty of Neow's third offer: all of them, except that
/// losing maximum hit points excludes gaining them, losing all gold excludes gaining gold, and
/// a curse excludes removing cards.
pub open spec fn spec_neow_bonuses(penalty: NeowPenalty) -> Seq<NeowBonus> {
    match penalty {
        NeowPenalty::DecreaseMaxHpByTenPercent => seq![
            NeowBonus::ChooseRareColorlessCard,
            NeowBonus::RemoveTwoCards,
            NeowBonus::ObtainRandomRareRelic,
            NeowBonus::ChooseRareCard,
            NeowBonus::GainTwoHundredFiftyGold,
            NeowBonus::TransformTwoCards,
        ],
        NeowPenalty::LoseAllGold => seq![
            NeowBonus::ChooseRareColorlessCard,
            NeowBonus::RemoveTwoCards,
            NeowBonus::ObtainRandomRareRelic,
            NeowBonus::ChooseRareCard,
            NeowBonus::TransformTwoCards,
            NeowBonus::IncreaseMaxHpByTwentyPercent,
        ],
        NeowPenalty::ObtainCurse => seq![
            NeowBonus::ChooseRareColorlessCard,
            NeowBonus::ObtainRandomRareRelic,
            NeowBonus::ChooseRareCard,
            NeowBonus::GainTwoHundredFiftyGold,
            NeowBonus::TransformTwoCards,
            NeowBonus::IncreaseMaxHpByTwentyPercent,
        ],
        NeowPenalty::TakeDamage => seq![
            NeowBonus::ChooseRareColorlessCard,
            NeowBonus::RemoveTwoCards,
            NeowBonus::ObtainRandomRareRelic,
            NeowBonus::ChooseRareCard,
            NeowBonus::GainTwoHundredFiftyGold,
            NeowBonus::TransformTwoCards,
            NeowBonus::IncreaseMaxHpByTwentyPercent,
        ],
    }
}

/// The bonuses that can come with a penalty of Neow's third offer.
pub fn neow_bonuses(penalty: NeowPenalty) -> (r: Vec<NeowBonus>)
    ensures
        r@ == spec_neow_bonuses(penalty),
{
    match penalty {
        NeowPenalty::DecreaseMaxHpByTenPercent => vec![
            NeowBonus::ChooseRareColorlessCard,
            NeowBonus::RemoveTwoCards,
            NeowBonus::ObtainRandomRareRelic,
            NeowBonus::ChooseRareCard,
            NeowBonus::GainTwoHundredFiftyGold,
            NeowBonus::TransformTwoCards,
        ],
        NeowPenalty::LoseAllGold => vec![
            NeowBonus::ChooseRareColorlessCard,
            NeowBonus::RemoveTwoCards,
            NeowBonus::ObtainRandomRareRelic,
            NeowBonus::ChooseRareCard,
            NeowBonus::TransformTwoCards,
            NeowBonus::IncreaseMaxHpByTwentyPercent,
        ],
        NeowPenalty::ObtainCurse => vec![
            NeowBonus::ChooseRareColorlessCard,
            NeowBonus::ObtainRandomRareRelic,
            NeowBonus::ChooseRareCard,
            NeowBonus::GainTwoHundredFiftyGold,
            NeowBonus::TransformTwoCards,
            NeowBonus::IncreaseMaxHpByTwentyPercent,
        ],
        NeowPenalty::TakeDamage => vec![
            NeowBonus::ChooseRareColorlessCard,
            NeowBonus::RemoveTwoCards,
            NeowBonus::ObtainRandomRareRelic,
            NeowBonus::ChooseRareCard,
            NeowBonus::GainTwoHundredFiftyGold,
            NeowBonus::TransformTwoCards,
            NeowBonus::IncreaseMaxHpByTwentyPercent,
        ],
    }
}

/// The kinds of enemies of the game that this simulator knows.
#[derive(Clone, Copy, Debug, PartialEq, Eq, Structural)]
pub enum EnemyType {
    AcidSlimeM,
    AcidSlimeS,
    AwakenedOne,
    Cultist,
    FungiBeast,
    GreenLouse,
    GremlinNob,
    JawWorm,
    RedLouse,
    SpikeSlimeM,
    SpikeSlimeS,
}

/// What an enemy shows the player of its next move; aggressive intents carry the damage and
/// the number of hits.
#[derive(Clone, Copy, Debug, PartialEq, Eq, Structural)]
pub enum Intent {
    Aggressive(u32, u32),
    AggressiveBuff(u32, u32),
    AggressiveDebuff(u32, u32),
    AggressiveDefensive(u32, u32),
    Cowardly,
    Defensive,
    DefensiveBuff,
    DefensiveDebuff,
    Sleeping,
    StrategicBuff,
    StrategicDebuff,
    Stunned,
    Unknown,
}

/// The kinds of rooms on the map.
#[derive(Clone, Copy, Debug, PartialEq, Eq, Structural)]
pub enum Room {
    Boss,
    BurningElite1,
    BurningElite2,
    BurningElite3,
    BurningElite4,
    Elite,
    Event,
    Monster,
    RestSite,
    Shop,
    Treasure,
}

/// What a card costs to play; some costs drop with each time the player lost hit points in
/// the combat, and X spends all the energy.
#[derive(Clone, Copy, Debug, PartialEq, Eq, Structural)]
pub enum EnergyCost {
    Zero,
    One,
    Two,
    Three,
    ThreeMinusHpLossCount,
    Four,
    FourMinusHpLossCount,
    Five,
    X,
}

/// The events that "?" rooms can hold.
#[derive(Clone, Copy, Debug, PartialEq, Eq, Structural)]
pub enum Event {
    AncientWriting,
    Augmenter,
    BigFish,
    BonfireSpirits,
    CouncilOfGhosts,
    CursedTome,
    DeadAdventurer,
    DesignerInSpire,
    Duplicator,
    FaceTrader,
    Falling,
    ForgottenAltar,
    GoldenIdol,
    GoldenShrine,
    HypnotizingColoredMushrooms,
    KnowingSkull,
    Lab,
    LivingWall,
    MaskedBandits,
    MatchAndKeep,
    MindBloom,
    MysteriousSphere,
    Nloth,
    NoteForYourself,
    OldBeggar,
    OminousForge,
    PleadingVagrant,
    Purifier,
    ScrapOoze,
    SecretPortal,
    SensoryStone,
    ShiningLight,
    TheCleric,
    TheColosseum,
    TheDivineFountain,
    TheJoust,
    TheLibrary,
    TheMausoleum,
    TheMoaiHead,
    TheNest,
    TheSsssserpent,
    TheWomanInBlue,
    TombOfLordRedMask,
    Transmogrifier,
    UpgradeShrine,
    Vampires,
    WeMeetAgain,
    WheelOfChange,
    WindingHalls,
    WingStatue,
    WorldOfGoop,
}

/// An act of the spire, by its number (1 to 4).
#[derive(Clone, Copy, Debug, PartialEq, Eq, Structural)]
pub struct Act {
    pub number: u8,
}

/// The events of an act, in the game's order.
pub open spec fn spec_act_event_pool(number: u8) -> Seq<Event> {
    if number == 1 {
        seq![Event::BigFish, Event::TheCleric, Event::DeadAdventurer, Event::GoldenIdol, Event::WingStatue, Event::WorldOfGoop, Event::TheSsssserpent, Event::LivingWall, Event::HypnotizingColoredMushrooms, Event::ScrapOoze, Event::ShiningLight]
    } else if number == 2 {
        seq![Event::PleadingVagrant, Event::AncientWriting, Event::OldBeggar, Event::TheColosseum, Event::CursedTome, Event::Augmenter, Event::ForgottenAltar, Event::CouncilOfGhosts, Event::MaskedBandits, Event::TheNest, Event::TheLibrary, Event::TheMausoleum, Event::Vampires]
    } else if number == 3 {
        seq![Event::Falling, Event::MindBloom, Event::TheMoaiHead, Event::MysteriousSphere, Event::SensoryStone, Event::TombOfLordRedMask, Event::WindingHalls]
    } else {
        Seq::empty()
    }
}

/// The shrines of an act, in the game's order.
pub open spec fn spec_act_shrine_pool(number: u8) -> Seq<Event> {
    if number == 1 {
        seq![Event::MatchAndKeep, Event::GoldenShrine, Event::Transmogrifier, Event::Purifier, Event::UpgradeShrine, Event::WheelOfChange]
    } else if number == 2 || number == 3 {
        seq![Event::MatchAndKeep, Event::WheelOfChange, Event::GoldenShrine, Event::Transmogrifier, Event::Purifier, Event::UpgradeShrine]
    } else {
        Seq::empty()
    }
}

/// The events that can happen once per run, in the game's order.
pub open spec fn spec_one_time_events() -> Seq<Event> {
    seq![Event::OminousForge, Event::BonfireSpirits, Event::DesignerInSpire, Event::Duplicator, Event::FaceTrader, Event::TheDivineFountain, Event::KnowingSkull, Event::Lab, Event::Nloth, Event::NoteForYourself, Event::SecretPortal, Event::TheJoust, Event::WeMeetAgain, Event::TheWomanInBlue]
}

/// The events that can happen once per run, in the game's order.
pub fn one_time_events() -> (r: Vec<Event>)
    ensures
        r@ == spec_one_time_events(),
{
    vec![Event::OminousForge, Event::BonfireSpirits, Event::DesignerInSpire, Event::Duplicator, Event::FaceTrader, Event::TheDivineFountain, Event::KnowingSkull, Event::Lab, Event::Nloth, Event::NoteForYourself, Event::SecretPortal, Event::TheJoust, Event::WeMeetAgain, Event::TheWomanInBlue]
}

impl Act {
    /// The act with the given number.
    pub fn get(number: u8) -> (r: Act)
        requires
            1 <= number <= 4,
        ensures
            r.number == number,
    {
        Act { number }
    }

    /// The act that follows this one.
    pub fn next_act(&self) -> (r: Act)
        requires
            1 <= self.number < 4,
        ensures
            r.number == self.number + 1,
    {
        Act { number: self.number + 1 }
    }

    /// The events of the act, in the game's order.
    pub fn event_pool(&self) -> (r: Vec<Event>)
        ensures
            r@ == spec_act_event_pool(self.number),
    {
        if self.number == 1 {
            vec![Event::BigFish, Event::TheCleric, Event::DeadAdventurer, Event::GoldenIdol, Event::WingStatue, Event::WorldOfGoop, Event::TheSsssserpent, Event::LivingWall, Event::HypnotizingColoredMushrooms, Event::ScrapOoze, Event::ShiningLight]
        } else if self.number == 2 {
            vec![Event::PleadingVagrant, Event::AncientWriting, Event::OldBeggar, Event::TheColosseum, Event::CursedTome, Event::Augmenter, Event::ForgottenAltar, Event::CouncilOfGhosts, Event::MaskedBandits, Event::TheNest, Event::TheLibrary, Event::TheMausoleum, Event::Vampires]
        } else if self.number == 3 {
            vec![Event::Falling, Event::MindBloom, Event::TheMoaiHead, Event::MysteriousSphere, Event::SensoryStone, Event::TombOfLordRedMask, Event::WindingHalls]
        } else {
            Vec::new()
        }
    }

    /// The shrines of the act, in the game's order.
    pub fn shrine_pool(&self) -> (r: Vec<Event>)
        ensures
            r@ == spec_act_shrine_pool(self.number),
    {
        if self.number == 1 {
            vec![Event::MatchAndKeep, Event::GoldenShrine, Event::Transmogrifier, Event::Purifier, Event::UpgradeShrine, Event::WheelOfChange]
        } else if self.number == 2 || self.number == 3 {
            vec![Event::MatchAndKeep, Event::WheelOfChange, Event::GoldenShrine, Event::Transmogrifier, Event::Purifier, Event::UpgradeShrine]
        } else {
            Vec::new()
        }
    }
}

/// The encounters (groups of enemies) of the game.
#[derive(Clone, Copy, Debug, PartialEq, Eq, Structural)]
pub enum Encounter {
    AwakenedOne,
    BlueSlaver,
    BookOfStabbing,
    BronzeAutomaton,
    CenturionAndMystic,
    Chosen,
    ChosenAndByrd,
    CorruptHeart,
    Cultist,
    CultistAndChosen,
    DonuAndDeca,
    ExordiumThugs,
    ExordiumWildlife,
    FourShapes,
    GiantHead,
    GremlinGang,
    GremlinLeader,
    GremlinNob,
    Hexaghost,
    JawWorm,
    JawWormHorde,
    Lagavulin,
    LargeSlime,
    Looter,
    LotsOfSlimes,
    Maw,
    Nemesis,
    OrbWalker,
    RedSlaver,
    Reptomancer,
    SentryAndSphericGuardian,
    ShelledParasite,
    ShelledParasiteAndFungiBeast,
    SlimeBoss,
    SmallSlimes,
    SnakePlant,
    Snecko,
    SphericGuardian,
    SphericGuardianAndTwoShapes,
    SpireGrowth,
    SpireShieldAndSpireSpear,
    Taskmaster,
    TheChamp,
    TheCollector,
    TheGuardian,
    ThreeByrds,
    ThreeCultists,
    ThreeDarklings,
    ThreeLouses,
    ThreeSentries,
    ThreeShapes,
    TimeEater,
    Transient,
    TwoFungiBeasts,
    TwoLouses,
    TwoThieves,
    WrithingMass,
}

/// The playable characters that this simulator knows.
#[derive(Clone, Copy, Debug, PartialEq, Eq, Structural)]
pub enum Character {
    Ironclad,
    Silent,
    Defect,
    Watcher,
}

/// The Ironclad.
pub const IRONCLAD: Character = Character::Ironclad;

/// The Silent.
pub const SILENT: Character = Character::Silent;

/// The Defect.
pub const DEFECT: Character = Character::Defect;

/// The Watcher.
pub const WATCHER: Character = Character::Watcher;

/// The Ironclad's starting deck.
pub open spec fn spec_ironclad_starting_deck() -> Seq<Card> {
    seq![Card::Strike, Card::Strike, Card::Strike, Card::Strike, Card::Strike, Card::Defend, Card::Defend, Card::Defend, Card::Defend, Card::Bash]
}

/// The Ironclad's starting deck.
pub fn ironclad_starting_deck() -> (r: Vec<Card>)
    ensures
        r@ == spec_ironclad_starting_deck(),
{
    vec![Card::Strike, Card::Strike, Card::Strike, Card::Strike, Card::Strike, Card::Defend, Card::Defend, Card::Defend, Card::Defend, Card::Bash]
}

/// The Ironclad's common cards.
pub open spec fn spec_ironclad_common_cards() -> Seq<Card> {
    seq![Card::Anger, Card::Cleave, Card::Warcry, Card::Flex, Card::IronWave, Card::BodySlam, Card::TrueGrit, Card::ShrugItOff, Card::Clash, Card::Thunderclap, Card::PommelStrike, Card::TwinStrike, Card::Clothesline, Card::Armaments, Card::Havoc, Card::Headbutt, Card::WildStrike, Card::HeavyBlade, Card::PerfectedStrike, Card::SwordBoomerang]
}

/// The Ironclad's common cards.
pub fn ironclad_common_cards() -> (r: Vec<Card>)
    ensures
        r@ == spec_ironclad_common_cards(),
{
    vec![Card::Anger, Card::Cleave, Card::Warcry, Card::Flex, Card::IronWave, Card::BodySlam, Card::TrueGrit, Card::ShrugItOff, Card::Clash, Card::Thunderclap, Card::PommelStrike, Card::TwinStrike, Card::Clothesline, Card::Armaments, Card::Havoc, Card::Headbutt, Card::WildStrike, Card::HeavyBlade, Card::PerfectedStrike, Card::SwordBoomerang]
}

/// The Ironclad's uncommon cards.
pub open spec fn spec_ironclad_uncommon_cards() -> Seq<Card> {
    seq![Card::SpotWeakness, Card::Inflame, Card::PowerThrough, Card::DualWield, Card::InfernalBlade, Card::RecklessCharge, Card::Hemokinesis, Card::Intimidate, Card::BloodForBlood, Card::FlameBarrier, Card::Pummel, Card::BurningPact, Card::Metallicize, Card::Shockwave, Card::Rampage, Card::SeverSoul, Card::Whirlwind, Card::Combust, Card::DarkEmbrace, Card::SeeingRed, Card::Disarm, Card::FeelNoPain, Card::Rage, Card::Entrench, Card::Sentinel, Card::BattleTrance, Card::SearingBlow, Card::SecondWind, Card::Rupture, Card::Bloodletting, Card::Carnage, Card::Dropkick, Card::FireBreathing, Card::GhostlyArmor, Card::Uppercut, Card::Evolve]
}

/// The Ironclad's uncommon cards.
pub fn ironclad_uncommon_cards() -> (r: Vec<Card>)
    ensures
        r@ == spec_ironclad_uncommon_cards(),
{
    vec![Card::SpotWeakness, Card::Inflame, Card::PowerThrough, Card::DualWield, Card::InfernalBlade, Card::RecklessCharge, Card::Hemokinesis, Card::Intimidate, Card::BloodForBlood, Card::FlameBarrier, Card::Pummel, Card::BurningPact, Card::Metallicize, Card::Shockwave, Card::Rampage, Card::SeverSoul, Card::Whirlwind, Card::Combust, Card::DarkEmbrace, Card::SeeingRed, Card::Disarm, Card::FeelNoPain, Card::Rage, Card::Entrench, Card::Sentinel, Card::BattleTrance, Card::SearingBlow, Card::SecondWind, Card::Rupture, Card::Bloodletting, Card::Carnage, Card::Dropkick, Card::FireBreathing, Card::GhostlyArmor, Card::Uppercut, Card::Evolve]
}

/// The Ironclad's rare cards.
pub open spec fn spec_ironclad_rare_cards() -> Seq<Card> {
    seq![Card::Immolate, Card::Offering, Card::Exhume, Card::Reaper, Card::Brutality, Card::Juggernaut, Card::Impervious, Card::Berserk, Card::FiendFire, Card::Barricade, Card::Corruption, Card::LimitBreak, Card::Feed, Card::Bludgeon, Card::DemonForm, Card::DoubleTap]
}

/// The Ironclad's rare cards.
pub fn ironclad_rare_cards() -> (r: Vec<Card>)
    ensures
        r@ == spec_ironclad_rare_cards(),
{
    vec![Card::Immolate, Card::Offering, Card::Exhume, Card::Reaper, Card::Brutality, Card::Juggernaut, Card::Impervious, Card::Berserk, Card::FiendFire, Card::Barricade, Card::Corruption, Card::LimitBreak, Card::Feed, Card::Bludgeon, Card::DemonForm, Card::DoubleTap]
}

/// The common relics available to the Ironclad.
pub open spec fn spec_ironclad_common_relics() -> Seq<Relic> {
    seq![Relic::Whetstone, Relic::TheBoot, Relic::BloodVial, Relic::MealTicket, Relic::PenNib, Relic::Akabeko, Relic::Lantern, Relic::RegalPillow, Relic::BagOfPreparation, Relic::AncientTeaSet, Relic::SmilingMask, Relic::PotionBelt, Relic::PreservedInsect, Relic::Omamori, Relic::MawBank, Relic::ArtOfWar, Relic::ToyOrnithopter, Relic::CeramicFish, Relic::Vajra, Relic::CentennialPuzzle, Relic::Strawberry, Relic::HappyFlower, Relic::OddlySmoothStone, Relic::WarPaint, Relic::BronzeScales, Relic::JuzuBracelet, Relic::Dreamcatcher, Relic::Nunchaku, Relic::TinyChest, Relic::Orichalcum, Relic::Anchor, Relic::BagOfMarbles, Relic::RedSkull]
}

/// The common relics available to the Ironclad.
pub fn ironclad_common_relics() -> (r: Vec<Relic>)
    ensures
        r@ == spec_ironclad_common_relics(),
{
    vec![Relic::Whetstone, Relic::TheBoot, Relic::BloodVial, Relic::MealTicket, Relic::PenNib, Relic::Akabeko, Relic::Lantern, Relic::RegalPillow, Relic::BagOfPreparation, Relic::AncientTeaSet, Relic::SmilingMask, Relic::PotionBelt, Relic::PreservedInsect, Relic::Omamori, Relic::MawBank, Relic::ArtOfWar, Relic::ToyOrnithopter, Relic::CeramicFish, Relic::Vajra, Relic::CentennialPuzzle, Relic::Strawberry, Relic::HappyFlower, Relic::OddlySmoothStone, Relic::WarPaint, Relic::BronzeScales, Relic::JuzuBracelet, Relic::Dreamcatcher, Relic::Nunchaku, Relic::TinyChest, Relic::Orichalcum, Relic::Anchor, Relic::BagOfMarbles, Relic::RedSkull]
}

/// The uncommon relics available to the Ironclad.
pub open spec fn spec_ironclad_uncommon_relics() -> Seq<Relic> {
    seq![Relic::BottledTornado, Relic::Sundial, Relic::Kunai, Relic::Pear, Relic::BlueCandle, Relic::EternalFeather, Relic::StrikeDummy, Relic::SingingBowl, Relic::Matryoshka, Relic::InkBottle, Relic::TheCourier, Relic::FrozenEgg, Relic::OrnamentalFan, Relic::BottledLightning, Relic::GremlinHorn, Relic::HornCleat, Relic::ToxicEgg, Relic::LetterOpener, Relic::QuestionCard, Relic::BottledFlame, Relic::Shuriken, Relic::MoltenEgg, Relic::MeatOnTheBone, Relic::DarkstonePeriapt, Relic::MummifiedHand, Relic::Pantograph, Relic::WhiteBeastStatue, Relic::MercuryHourglass, Relic::SelfFormingClay, Relic::PaperPhrog]
}

/// The uncommon relics available to the Ironclad.
pub fn ironclad_uncommon_relics() -> (r: Vec<Relic>)
    ensures
        r@ == spec_ironclad_uncommon_relics(),
{
    vec![Relic::BottledTornado, Relic::Sundial, Relic::Kunai, Relic::Pear, Relic::BlueCandle, Relic::EternalFeather, Relic::StrikeDummy, Relic::SingingBowl, Relic::Matryoshka, Relic::InkBottle, Relic::TheCourier, Relic::FrozenEgg, Relic::OrnamentalFan, Relic::BottledLightning, Relic::GremlinHorn, Relic::HornCleat, Relic::ToxicEgg, Relic::LetterOpener, Relic::QuestionCard, Relic::BottledFlame, Relic::Shuriken, Relic::MoltenEgg, Relic::MeatOnTheBone, Relic::DarkstonePeriapt, Relic::MummifiedHand, Relic::Pantograph, Relic::WhiteBeastStatue, Relic::MercuryHourglass, Relic::SelfFormingClay, Relic::PaperPhrog]
}

/// The rare relics available to the Ironclad.
pub open spec fn spec_ironclad_rare_relics() -> Seq<Relic> {
    seq![Relic::Ginger, Relic::OldCoin, Relic::BirdFacedUrn, Relic::UnceasingTop, Relic::Torii, Relic::StoneCalendar, Relic::Shovel, Relic::WingBoots, Relic::ThreadAndNeedle, Relic::Turnip, Relic::IceCream, Relic::Calipers, Relic::LizardTail, Relic::PrayerWheel, Relic::Girya, Relic::DeadBranch, Relic::DuVuDoll, Relic::Pocketwatch, Relic::Mango, Relic::IncenseBurner, Relic::GamblingChip, Relic::PeacePipe, Relic::CaptainsWheel, Relic::FossilizedHelix, Relic::TungstenRod, Relic::MagicFlower, Relic::CharonsAshes, Relic::ChampionBelt]
}

/// The rare relics available to the Ironclad.
pub fn ironclad_rare_relics() -> (r: Vec<Relic>)
    ensures
        r@ == spec_ironclad_rare_relics(),
{
    vec![Relic::Ginger, Relic::OldCoin, Relic::BirdFacedUrn, Relic::UnceasingTop, Relic::Torii, Relic::StoneCalendar, Relic::Shovel, Relic::WingBoots, Relic::ThreadAndNeedle, Relic::Turnip, Relic::IceCream, Relic::Calipers, Relic::LizardTail, Relic::PrayerWheel, Relic::Girya, Relic::DeadBranch, Relic::DuVuDoll, Relic::Pocketwatch, Relic::Mango, Relic::IncenseBurner, Relic::GamblingChip, Relic::PeacePipe, Relic::CaptainsWheel, Relic::FossilizedHelix, Relic::TungstenRod, Relic::MagicFlower, Relic::CharonsAshes, Relic::ChampionBelt]
}

/// The shop relics available to the Ironclad.
pub open spec fn spec_ironclad_shop_relics() -> Seq<Relic> {
    seq![Relic::SlingOfCourage, Relic::HandDrill, Relic::Toolbox, Relic::ChemicalX, Relic::LeesWaffle, Relic::Orrery, Relic::DollysMirror, Relic::OrangePellets, Relic::PrismaticShard, Relic::ClockworkSouvenir, Relic::FrozenEye, Relic::TheAbacus, Relic::MedicalKit, Relic::Cauldron, Relic::StrangeSpoon, Relic::MembershipCard, Relic::Brimstone]
}

/// The shop relics available to the Ironclad.
pub fn ironclad_shop_relics() -> (r: Vec<Relic>)
    ensures
        r@ == spec_ironclad_shop_relics(),
{
    vec![Relic::SlingOfCourage, Relic::HandDrill, Relic::Toolbox, Relic::ChemicalX, Relic::LeesWaffle, Relic::Orrery, Relic::DollysMirror, Relic::OrangePellets, Relic::PrismaticShard, Relic::ClockworkSouvenir, Relic::FrozenEye, Relic::TheAbacus, Relic::MedicalKit, Relic::Cauldron, Relic::StrangeSpoon, Relic::MembershipCard, Relic::Brimstone]
}

/// The boss relics available to the Ironclad.
pub open spec fn spec_ironclad_boss_relics() -> Seq<Relic> {
    seq![Relic::FusionHammer, Relic::VelvetChoker, Relic::RunicDome, Relic::SlaversCollar, Relic::SneckoEye, Relic::PandorasBox, Relic::CursedKey, Relic::BustedCrown, Relic::Ectoplasm, Relic::TinyHouse, Relic::Sozu, Relic::PhilosophersStone, Relic::Astrolabe, Relic::BlackStar, Relic::SacredBark, Relic::EmptyCage, Relic::RunicPyramid, Relic::CallingBell, Relic::CoffeeDripper, Relic::BlackBlood, Relic::MarkOfPain, Relic::RunicCube]
}

/// The boss relics available to the Ironclad.
pub fn ironclad_boss_relics() -> (r: Vec<Relic>)
    ensures
        r@ == spec_ironclad_boss_relics(),
{
    vec![Relic::FusionHammer, Relic::VelvetChoker, Relic::RunicDome, Relic::SlaversCollar, Relic::SneckoEye, Relic::PandorasBox, Relic::CursedKey, Relic::BustedCrown, Relic::Ectoplasm, Relic::TinyHouse, Relic::Sozu, Relic::PhilosophersStone, Relic::Astrolabe, Relic::BlackStar, Relic::SacredBark, Relic::EmptyCage, Relic::RunicPyramid, Relic::CallingBell, Relic::CoffeeDripper, Relic::BlackBlood, Relic::MarkOfPain, Relic::RunicCube]
}

/// The Silent's common cards.
pub open spec fn spec_silent_common_cards() -> Seq<Card> {
    seq![Card::CloakAndDagger, Card::SneakyStrike, Card::DeadlyPoison, Card::DaggerSpray, Card::Bane, Card::BladeDance, Card::Deflect, Card::DaggerThrow, Card::PoisonedStab, Card::Acrobatics, Card::QuickSlash, Card::Slice, Card::Backflip, Card::Outmaneuver, Card::Prepared, Card::PiercingWail, Card::SuckerPunch, Card::DodgeAndRoll, Card::FlyingKnee]
}

/// The Silent's common cards.
pub fn silent_common_cards() -> (r: Vec<Card>)
    ensures
        r@ == spec_silent_common_cards(),
{
    vec![Card::CloakAndDagger, Card::SneakyStrike, Card::DeadlyPoison, Card::DaggerSpray, Card::Bane, Card::BladeDance, Card::Deflect, Card::DaggerThrow, Card::PoisonedStab, Card::Acrobatics, Card::QuickSlash, Card::Slice, Card::Backflip, Card::Outmaneuver, Card::Prepared, Card::PiercingWail, Card::SuckerPunch, Card::DodgeAndRoll, Card::FlyingKnee]
}

/// The Silent's uncommon cards.
pub open spec fn spec_silent_uncommon_cards() -> Seq<Card> {
    seq![Card::CripplingCloud, Card::LegSweep, Card::Catalyst, Card::Tactician, Card::Expertise, Card::Choke, Card::Caltrops, Card::Blur, Card::Setup, Card::EndlessAgony, Card::RiddleWithHoles, Card::Skewer, Card::CalculatedGamble, Card::EscapePlan, Card::Finisher, Card::WellLaidPlans, Card::Terror, Card::HeelHook, Card::NoxiousFumes, Card::InfiniteBlades, Card::Reflex, Card::Eviscerate, Card::Dash, Card::Backstab, Card::BouncingFlask, Card::Concentrate, Card::Flechettes, Card::MasterfulStab, Card::Accuracy, Card::Footwork, Card::Distraction, Card::AllOutAttack, Card::Predator]
}

/// The Silent's uncommon cards.
pub fn silent_uncommon_cards() -> (r: Vec<Card>)
    ensures
        r@ == spec_silent_uncommon_cards(),
{
    vec![Card::CripplingCloud, Card::LegSweep, Card::Catalyst, Card::Tactician, Card::Expertise, Card::Choke, Card::Caltrops, Card::Blur, Card::Setup, Card::EndlessAgony, Card::RiddleWithHoles, Card::Skewer, Card::CalculatedGamble, Card::EscapePlan, Card::Finisher, Card::WellLaidPlans, Card::Terror, Card::HeelHook, Card::NoxiousFumes, Card::InfiniteBlades, Card::Reflex, Card::Eviscerate, Card::Dash, Card::Backstab, Card::BouncingFlask, Card::Concentrate, Card::Flechettes, Card::MasterfulStab, Card::Accuracy, Card::Footwork, Card::Distraction, Card::AllOutAttack, Card::Predator]
}

/// The Silent's rare cards.
pub open spec fn spec_silent_rare_cards() -> Seq<Card> {
    seq![Card::GrandFinale, Card::AThousandCuts, Card::GlassKnife, Card::StormOfSteel, Card::BulletTime, Card::AfterImage, Card::Unload, Card::Nightmare, Card::ToolsOfTheTrade, Card::WraithForm, Card::Burst, Card::Doppelganger, Card::Envenom, Card::Adrenaline, Card::DieDieDie, Card::PhantasmalKiller, Card::Malaise, Card::CorpseExplosion, Card::Alchemize]
}

/// The Silent's rare cards.
pub fn silent_rare_cards() -> (r: Vec<Card>)
    ensures
        r@ == spec_silent_rare_cards(),
{
    vec![Card::GrandFinale, Card::AThousandCuts, Card::GlassKnife, Card::StormOfSteel, Card::BulletTime, Card::AfterImage, Card::Unload, Card::Nightmare, Card::ToolsOfTheTrade, Card::WraithForm, Card::Burst, Card::Doppelganger, Card::Envenom, Card::Adrenaline, Card::DieDieDie, Card::PhantasmalKiller, Card::Malaise, Card::CorpseExplosion, Card::Alchemize]
}

/// The Defect's common cards.
pub open spec fn spec_defect_common_cards() -> Seq<Card> {
    seq![Card::GoForTheEyes, Card::BallLightning, Card::Streamline, Card::Recursion, Card::CompileDriver, Card::Barrage, Card::Stack, Card::Rebound, Card::Claw, Card::Coolheaded, Card::Turbo, Card::SweepingBeam, Card::ConserveBattery, Card::Hologram, Card::BeamCell, Card::Leap, Card::ColdSnap, Card::SteamBarrier]
}

/// The Defect's common cards.
pub fn defect_common_cards() -> (r: Vec<Card>)
    ensures
        r@ == spec_defect_common_cards(),
{
    vec![Card::GoForTheEyes, Card::BallLightning, Card::Streamline, Card::Recursion, Card::CompileDriver, Card::Barrage, Card::Stack, Card::Rebound, Card::Claw, Card::Coolheaded, Card::Turbo, Card::SweepingBeam, Card::ConserveBattery, Card::Hologram, Card::BeamCell, Card::Leap, Card::ColdSnap, Card::SteamBarrier]
}

/// The Defect's uncommon cards.
pub open spec fn spec_defect_uncommon_cards() -> Seq<Card> {
    seq![Card::Storm, Card::GeneticAlgorithm, Card::Overclock, Card::HelloWorld, Card::Sunder, Card::Glacier, Card::Consume, Card::Fusion, Card::Aggregate, Card::Blizzard, Card::Chaos, Card::Melter, Card::SelfRepair, Card::Loop, Card::Chill, Card::BootSequence, Card::StaticDischarge, Card::Heatsinks, Card::Tempest, Card::Equilibrium, Card::ForceField, Card::Ftl, Card::RipAndTear, Card::Darkness, Card::DoubleEnergy, Card::ReinforcedBody, Card::AutoShields, Card::Reprogram, Card::LockOn, Card::Scrape, Card::Recycle, Card::Skim, Card::WhiteNoise, Card::Capacitor, Card::Defragment, Card::DoomAndGloom]
}

/// The Defect's uncommon cards.
pub fn defect_uncommon_cards() -> (r: Vec<Card>)
    ensures
        r@ == spec_defect_uncommon_cards(),
{
    vec![Card::Storm, Card::GeneticAlgorithm, Card::Overclock, Card::HelloWorld, Card::Sunder, Card::Glacier, Card::Consume, Card::Fusion, Card::Aggregate, Card::Blizzard, Card::Chaos, Card::Melter, Card::SelfRepair, Card::Loop, Card::Chill, Card::BootSequence, Card::StaticDischarge, Card::Heatsinks, Card::Tempest, Card::Equilibrium, Card::ForceField, Card::Ftl, Card::RipAndTear, Card::Darkness, Card::DoubleEnergy, Card::ReinforcedBody, Card::AutoShields, Card::Reprogram, Card::LockOn, Card::Scrape, Card::Recycle, Card::Skim, Card::WhiteNoise, Card::Capacitor, Card::Defragment, Card::DoomAndGloom]
}

/// The Defect's rare cards.
pub open spec fn spec_defect_rare_cards() -> Seq<Card> {
    seq![Card::CoreSurge, Card::Fission, Card::CreativeAi, Card::Amplify, Card::Reboot, Card::AllForOne, Card::EchoForm, Card::MeteorStrike, Card::Seek, Card::Rainbow, Card::Buffer, Card::Electrodynamics, Card::MachineLearning, Card::BiasedCognition, Card::ThunderStrike, Card::Hyperbeam, Card::MultiCast]
}

/// The Defect's rare cards.
pub fn defect_rare_cards() -> (r: Vec<Card>)
    ensures
        r@ == spec_defect_rare_cards(),
{
    vec![Card::CoreSurge, Card::Fission, Card::CreativeAi, Card::Amplify, Card::Reboot, Card::AllForOne, Card::EchoForm, Card::MeteorStrike, Card::Seek, Card::Rainbow, Card::Buffer, Card::Electrodynamics, Card::MachineLearning, Card::BiasedCognition, Card::ThunderStrike, Card::Hyperbeam, Card::MultiCast]
}

/// The Watcher's common cards.
pub open spec fn spec_watcher_common_cards() -> Seq<Card> {
    seq![Card::Consecrate, Card::BowlingBash, Card::FlyingSleeves, Card::Halt, Card::JustLucky, Card::FlurryOfBlows, Card::Protect, Card::ThirdEye, Card::Crescendo, Card::Tranquility, Card::EmptyBody, Card::SashWhip, Card::CutThroughFate, Card::FollowUp, Card::PressurePoints, Card::CrushJoints, Card::Evaluate, Card::Prostrate, Card::EmptyFist]
}

/// The Watcher's common cards.
pub fn watcher_common_cards() -> (r: Vec<Card>)
    ensures
        r@ == spec_watcher_common_cards(),
{
    vec![Card::Consecrate, Card::BowlingBash, Card::FlyingSleeves, Card::Halt, Card::JustLucky, Card::FlurryOfBlows, Card::Protect, Card::ThirdEye, Card::Crescendo, Card::Tranquility, Card::EmptyBody, Card::SashWhip, Card::CutThroughFate, Card::FollowUp, Card::PressurePoints, Card::CrushJoints, Card::Evaluate, Card::Prostrate, Card::EmptyFist]
}

/// The Watcher's uncommon cards.
pub open spec fn spec_watcher_uncommon_cards() -> Seq<Card> {
    seq![Card::WheelKick, Card::SimmeringFury, Card::Foresight, Card::Sanctity, Card::TalkToTheHand, Card::BattleHymn, Card::Indignation, Card::WindmillStrike, Card::ForeignInfluence, Card::LikeWater, Card::Fasting, Card::CarveReality, Card::Wallop, Card::WreathOfFlame, Card::Collect, Card::InnerPeace, Card::Rushdown, Card::DeceiveReality, Card::MentalFortress, Card::ReachHeaven, Card::FearNoEvil, Card::SandsOfTime, Card::WaveOfTheHand, Card::Study, Card::Meditate, Card::Perseverance, Card::Swivel, Card::Worship, Card::Conclude, Card::Tantrum, Card::Nirvana, Card::EmptyMind, Card::Weave, Card::SignatureMove, Card::Pray]
}

/// The Watcher's uncommon cards.
pub fn watcher_uncommon_cards() -> (r: Vec<Card>)
    ensures
        r@ == spec_watcher_uncommon_cards(),
{
    vec![Card::WheelKick, Card::SimmeringFury, Card::Foresight, Card::Sanctity, Card::TalkToTheHand, Card::BattleHymn, Card::Indignation, Card::WindmillStrike, Card::ForeignInfluence, Card::LikeWater, Card::Fasting, Card::CarveReality, Card::Wallop, Card::WreathOfFlame, Card::Collect, Card::InnerPeace, Card::Rushdown, Card::DeceiveReality, Card::MentalFortress, Card::ReachHeaven, Card::FearNoEvil, Card::SandsOfTime, Card::WaveOfTheHand, Card::Study, Card::Meditate, Card::Perseverance, Card::Swivel, Card::Worship, Card::Conclude, Card::Tantrum, Card::Nirvana, Card::EmptyMind, Card::Weave, Card::SignatureMove, Card::Pray]
}

/// The Watcher's rare cards.
pub open spec fn spec_watcher_rare_cards() -> Seq<Card> {
    seq![Card::DeusExMachina, Card::DevaForm, Card::SpiritShield, Card::Establishment, Card::Omniscience, Card::Wish, Card::Alpha, Card::Vault, Card::Scrawl, Card::LessonLearned, Card::Ragnarok, Card::Blasphemy, Card::Devotion, Card::Brilliance, Card::MasterReality, Card::ConjureBlade, Card::Judgment]
}

/// The Watcher's rare cards.
pub fn watcher_rare_cards() -> (r: Vec<Card>)
    ensures
        r@ == spec_watcher_rare_cards(),
{
    vec![Card::DeusExMachina, Card::DevaForm, Card::SpiritShield, Card::Establishment, Card::Omniscience, Card::Wish, Card::Alpha, Card::Vault, Card::Scrawl, Card::LessonLearned, Card::Ragnarok, Card::Blasphemy, Card::Devotion, Card::Brilliance, Card::MasterReality, Card::ConjureBlade, Card::Judgment]
}

/// The Silent's starting deck.
pub open spec fn spec_silent_starting_deck() -> Seq<Card> {
    seq![Card::StrikeG, Card::StrikeG, Card::StrikeG, Card::StrikeG, Card::StrikeG, Card::DefendG, Card::DefendG, Card::DefendG, Card::DefendG, Card::DefendG, Card::Neutralize, Card::Survivor]
}

/// The Silent's starting deck.
pub fn silent_starting_deck() -> (r: Vec<Card>)
    ensures
        r@ == spec_silent_starting_deck(),
{
    vec![Card::StrikeG, Card::StrikeG, Card::StrikeG, Card::StrikeG, Card::StrikeG, Card::DefendG, Card::DefendG, Card::DefendG, Card::DefendG, Card::DefendG, Card::Neutralize, Card::Survivor]
}

/// The Defect's starting deck.
pub open spec fn spec_defect_starting_deck() -> Seq<Card> {
    seq![Card::StrikeB, Card::StrikeB, Card::StrikeB, Card::StrikeB, Card::DefendB, Card::DefendB, Card::DefendB, Card::DefendB, Card::Zap, Card::Dualcast]
}

/// The Defect's starting deck.
pub fn defect_starting_deck() -> (r: Vec<Card>)
    ensures
        r@ == spec_defect_starting_deck(),
{
    vec![Card::StrikeB, Card::StrikeB, Card::StrikeB, Card::StrikeB, Card::DefendB, Card::DefendB, Card::DefendB, Card::DefendB, Card::Zap, Card::Dualcast]
}

/// The Watcher's starting deck.
pub open spec fn spec_watcher_starting_deck() -> Seq<Card> {
    seq![Card::StrikeP, Card::StrikeP, Card::StrikeP, Card::StrikeP, Card::DefendP, Card::DefendP, Card::DefendP, Card::DefendP, Card::Eruption, Card::Vigilance]
}

/// The Watcher's starting deck.
pub fn watcher_starting_deck() -> (r: Vec<Card>)
    ensures
        r@ == spec_watcher_starting_deck(),
{
    vec![Card::StrikeP, Card::StrikeP, Card::StrikeP, Card::StrikeP, Card::DefendP, Card::DefendP, Card::DefendP, Card::DefendP, Card::Eruption, Card::Vigilance]
}

/// The common relics available to the Silent.
pub open spec fn spec_silent_common_relics() -> Seq<Relic> {
    seq![Relic::Whetstone, Relic::TheBoot, Relic::BloodVial, Relic::MealTicket, Relic::PenNib, Relic::Akabeko, Relic::Lantern, Relic::RegalPillow, Relic::BagOfPreparation, Relic::AncientTeaSet, Relic::SmilingMask, Relic::PotionBelt, Relic::PreservedInsect, Relic::Omamori, Relic::MawBank, Relic::ArtOfWar, Relic::ToyOrnithopter, Relic::CeramicFish, Relic::Vajra, Relic::CentennialPuzzle, Relic::Strawberry, Relic::HappyFlower, Relic::OddlySmoothStone, Relic::WarPaint, Relic::BronzeScales, Relic::JuzuBracelet, Relic::Dreamcatcher, Relic::Nunchaku, Relic::TinyChest, Relic::Orichalcum, Relic::Anchor, Relic::BagOfMarbles, Relic::SneckoSkull]
}

/// The common relics available to the Silent.
pub fn silent_common_relics() -> (r: Vec<Relic>)
    ensures
        r@ == spec_silent_common_relics(),
{
    vec![Relic::Whetstone, Relic::TheBoot, Relic::BloodVial, Relic::MealTicket, Relic::PenNib, Relic::Akabeko, Relic::Lantern, Relic::RegalPillow, Relic::BagOfPreparation, Relic::AncientTeaSet, Relic::SmilingMask, Relic::PotionBelt, Relic::PreservedInsect, Relic::Omamori, Relic::MawBank, Relic::ArtOfWar, Relic::ToyOrnithopter, Relic::CeramicFish, Relic::Vajra, Relic::CentennialPuzzle, Relic::Strawberry, Relic::HappyFlower, Relic::OddlySmoothStone, Relic::WarPaint, Relic::BronzeScales, Relic::JuzuBracelet, Relic::Dreamcatcher, Relic::Nunchaku, Relic::TinyChest, Relic::Orichalcum, Relic::Anchor, Relic::BagOfMarbles, Relic::SneckoSkull]
}

/// The common relics available to the Defect.
pub open spec fn spec_defect_common_relics() -> Seq<Relic> {
    seq![Relic::Whetstone, Relic::TheBoot, Relic::BloodVial, Relic::MealTicket, Relic::PenNib, Relic::Akabeko, Relic::Lantern, Relic::RegalPillow, Relic::BagOfPreparation, Relic::AncientTeaSet, Relic::SmilingMask, Relic::PotionBelt, Relic::PreservedInsect, Relic::Omamori, Relic::MawBank, Relic::ArtOfWar, Relic::ToyOrnithopter, Relic::CeramicFish, Relic::Vajra, Relic::CentennialPuzzle, Relic::Strawberry, Relic::HappyFlower, Relic::OddlySmoothStone, Relic::WarPaint, Relic::BronzeScales, Relic::JuzuBracelet, Relic::Dreamcatcher, Relic::Nunchaku, Relic::TinyChest, Relic::Orichalcum, Relic::Anchor, Relic::BagOfMarbles, Relic::DataDisk]
}

/// The common relics available to the Defect.
pub fn defect_common_relics() -> (r: Vec<Relic>)
    ensures
        r@ == spec_defect_common_relics(),
{
    vec![Relic::Whetstone, Relic::TheBoot, Relic::BloodVial, Relic::MealTicket, Relic::PenNib, Relic::Akabeko, Relic::Lantern, Relic::RegalPillow, Relic::BagOfPreparation, Relic::AncientTeaSet, Relic::SmilingMask, Relic::PotionBelt, Relic::PreservedInsect, Relic::Omamori, Relic::MawBank, Relic::ArtOfWar, Relic::ToyOrnithopter, Relic::CeramicFish, Relic::Vajra, Relic::CentennialPuzzle, Relic::Strawberry, Relic::HappyFlower, Relic::OddlySmoothStone, Relic::WarPaint, Relic::BronzeScales, Relic::JuzuBracelet, Relic::Dreamcatcher, Relic::Nunchaku, Relic::TinyChest, Relic::Orichalcum, Relic::Anchor, Relic::BagOfMarbles, Relic::DataDisk]
}

/// The common relics available to the Watcher.
pub open spec fn spec_watcher_common_relics() -> Seq<Relic> {
    seq![Relic::Whetstone, Relic::TheBoot, Relic::BloodVial, Relic::MealTicket, Relic::PenNib, Relic::Akabeko, Relic::Lantern, Relic::RegalPillow, Relic::BagOfPreparation, Relic::AncientTeaSet, Relic::SmilingMask, Relic::PotionBelt, Relic::PreservedInsect, Relic::Omamori, Relic::MawBank, Relic::ArtOfWar, Relic::ToyOrnithopter, Relic::CeramicFish, Relic::Vajra, Relic::CentennialPuzzle, Relic::Strawberry, Relic::HappyFlower, Relic::OddlySmoothStone, Relic::WarPaint, Relic::BronzeScales, Relic::JuzuBracelet, Relic::Dreamcatcher, Relic::Nunchaku, Relic::TinyChest, Relic::Orichalcum, Relic::Anchor, Relic::BagOfMarbles, Relic::Damaru]
}

/// The common relics available to the Watcher.
pub fn watcher_common_relics() -> (r: Vec<Relic>)
    ensures
        r@ == spec_watcher_common_relics(),
{
    vec![Relic::Whetstone, Relic::TheBoot, Relic::BloodVial, Relic::MealTicket, Relic::PenNib, Relic::Akabeko, Relic::Lantern, Relic::RegalPillow, Relic::BagOfPreparation, Relic::AncientTeaSet, Relic::SmilingMask, Relic::PotionBelt, Relic::PreservedInsect, Relic::Omamori, Relic::MawBank, Relic::ArtOfWar, Relic::ToyOrnithopter, Relic::CeramicFish, Relic::Vajra, Relic::CentennialPuzzle, Relic::Strawberry, Relic::HappyFlower, Relic::OddlySmoothStone, Relic::WarPaint, Relic::BronzeScales, Relic::JuzuBracelet, Relic::Dreamcatcher, Relic::Nunchaku, Relic::TinyChest, Relic::Orichalcum, Relic::Anchor, Relic::BagOfMarbles, Relic::Damaru]
}

/// The uncommon relics available to the Silent.
pub open spec fn spec_silent_uncommon_relics() -> Seq<Relic> {
    seq![Relic::BottledTornado, Relic::Sundial, Relic::Kunai, Relic::Pear, Relic::BlueCandle, Relic::EternalFeather, Relic::StrikeDummy, Relic::SingingBowl, Relic::Matryoshka, Relic::InkBottle, Relic::TheCourier, Relic::FrozenEgg, Relic::OrnamentalFan, Relic::BottledLightning, Relic::GremlinHorn, Relic::HornCleat, Relic::ToxicEgg, Relic::LetterOpener, Relic::QuestionCard, Relic::BottledFlame, Relic::Shuriken, Relic::MoltenEgg, Relic::MeatOnTheBone, Relic::DarkstonePeriapt, Relic::MummifiedHand, Relic::Pantograph, Relic::WhiteBeastStatue, Relic::MercuryHourglass, Relic::NinjaScroll, Relic::PaperKrane]
}

/// The uncommon relics available to the Silent.
pub fn silent_uncommon_relics() -> (r: Vec<Relic>)
    ensures
        r@ == spec_silent_uncommon_relics(),
{
    vec![Relic::BottledTornado, Relic::Sundial, Relic::Kunai, Relic::Pear, Relic::BlueCandle, Relic::EternalFeather, Relic::StrikeDummy, Relic::SingingBowl, Relic::Matryoshka, Relic::InkBottle, Relic::TheCourier, Relic::FrozenEgg, Relic::OrnamentalFan, Relic::BottledLightning, Relic::GremlinHorn, Relic::HornCleat, Relic::ToxicEgg, Relic::LetterOpener, Relic::QuestionCard, Relic::BottledFlame, Relic::Shuriken, Relic::MoltenEgg, Relic::MeatOnTheBone, Relic::DarkstonePeriapt, Relic::MummifiedHand, Relic::Pantograph, Relic::WhiteBeastStatue, Relic::MercuryHourglass, Relic::NinjaScroll, Relic::PaperKrane]
}

/// The uncommon relics available to the Defect.
pub open spec fn spec_defect_uncommon_relics() -> Seq<Relic> {
    seq![Relic::BottledTornado, Relic::Sundial, Relic::Kunai, Relic::Pear, Relic::BlueCandle, Relic::EternalFeather, Relic::StrikeDummy, Relic::SingingBowl, Relic::Matryoshka, Relic::InkBottle, Relic::TheCourier, Relic::FrozenEgg, Relic::OrnamentalFan, Relic::BottledLightning, Relic::GremlinHorn, Relic::HornCleat, Relic::ToxicEgg, Relic::LetterOpener, Relic::QuestionCard, Relic::BottledFlame, Relic::Shuriken, Relic::MoltenEgg, Relic::MeatOnTheBone, Relic::DarkstonePeriapt, Relic::MummifiedHand, Relic::Pantograph, Relic::WhiteBeastStatue, Relic::MercuryHourglass, Relic::SymbioticVirus, Relic::GoldPlatedCables]
}

/// The uncommon relics available to the Defect.
pub fn defect_uncommon_relics() -> (r: Vec<Relic>)
    ensures
        r@ == spec_defect_uncommon_relics(),
{
    vec![Relic::BottledTornado, Relic::Sundial, Relic::Kunai, Relic::Pear, Relic::BlueCandle, Relic::EternalFeather, Relic::StrikeDummy, Relic::SingingBowl, Relic::Matryoshka, Relic::InkBottle, Relic::TheCourier, Relic::FrozenEgg, Relic::OrnamentalFan, Relic::BottledLightning, Relic::GremlinHorn, Relic::HornCleat, Relic::ToxicEgg, Relic::LetterOpener, Relic::QuestionCard, Relic::BottledFlame, Relic::Shuriken, Relic::MoltenEgg, Relic::MeatOnTheBone, Relic::DarkstonePeriapt, Relic::MummifiedHand, Relic::Pantograph, Relic::WhiteBeastStatue, Relic::MercuryHourglass, Relic::SymbioticVirus, Relic::GoldPlatedCables]
}

/// The uncommon relics available to the Watcher.
pub open spec fn spec_watcher_uncommon_relics() -> Seq<Relic> {
    seq![Relic::BottledTornado, Relic::Sundial, Relic::Kunai, Relic::Pear, Relic::BlueCandle, Relic::EternalFeather, Relic::StrikeDummy, Relic::SingingBowl, Relic::Matryoshka, Relic::InkBottle, Relic::TheCourier, Relic::FrozenEgg, Relic::OrnamentalFan, Relic::BottledLightning, Relic::GremlinHorn, Relic::HornCleat, Relic::ToxicEgg, Relic::LetterOpener, Relic::QuestionCard, Relic::BottledFlame, Relic::Shuriken, Relic::MoltenEgg, Relic::MeatOnTheBone, Relic::DarkstonePeriapt, Relic::MummifiedHand, Relic::Pantograph, Relic::WhiteBeastStatue, Relic::MercuryHourglass, Relic::Duality, Relic::TeardropLocket]
}

/// The uncommon relics available to the Watcher.
pub fn watcher_uncommon_relics() -> (r: Vec<Relic>)
    ensures
        r@ == spec_watcher_uncommon_relics(),
{
    vec![Relic::BottledTornado, Relic::Sundial, Relic::Kunai, Relic::Pear, Relic::BlueCandle, Relic::EternalFeather, Relic::StrikeDummy, Relic::SingingBowl, Relic::Matryoshka, Relic::InkBottle, Relic::TheCourier, Relic::FrozenEgg, Relic::OrnamentalFan, Relic::BottledLightning, Relic::GremlinHorn, Relic::HornCleat, Relic::ToxicEgg, Relic::LetterOpener, Relic::QuestionCard, Relic::BottledFlame, Relic::Shuriken, Relic::MoltenEgg, Relic::MeatOnTheBone, Relic::DarkstonePeriapt, Relic::MummifiedHand, Relic::Pantograph, Relic::WhiteBeastStatue, Relic::MercuryHourglass, Relic::Duality, Relic::TeardropLocket]
}

/// The rare relics available to the Silent.
pub open spec fn spec_silent_rare_relics() -> Seq<Relic> {
    seq![Relic::Ginger, Relic::OldCoin, Relic::BirdFacedUrn, Relic::UnceasingTop, Relic::Torii, Relic::StoneCalendar, Relic::Shovel, Relic::WingBoots, Relic::ThreadAndNeedle, Relic::Turnip, Relic::IceCream, Relic::Calipers, Relic::LizardTail, Relic::PrayerWheel, Relic::Girya, Relic::DeadBranch, Relic::DuVuDoll, Relic::Pocketwatch, Relic::Mango, Relic::IncenseBurner, Relic::GamblingChip, Relic::PeacePipe, Relic::CaptainsWheel, Relic::FossilizedHelix, Relic::TungstenRod, Relic::ToughBandages, Relic::TheSpecimen, Relic::Tingsha]
}

/// The rare relics available to the Silent.
pub fn silent_rare_relics() -> (r: Vec<Relic>)
    ensures
        r@ == spec_silent_rare_relics(),
{
    vec![Relic::Ginger, Relic::OldCoin, Relic::BirdFacedUrn, Relic::UnceasingTop, Relic::Torii, Relic::StoneCalendar, Relic::Shovel, Relic::WingBoots, Relic::ThreadAndNeedle, Relic::Turnip, Relic::IceCream, Relic::Calipers, Relic::LizardTail, Relic::PrayerWheel, Relic::Girya, Relic::DeadBranch, Relic::DuVuDoll, Relic::Pocketwatch, Relic::Mango, Relic::IncenseBurner, Relic::GamblingChip, Relic::PeacePipe, Relic::CaptainsWheel, Relic::FossilizedHelix, Relic::TungstenRod, Relic::ToughBandages, Relic::TheSpecimen, Relic::Tingsha]
}

/// The rare relics available to the Defect.
pub open spec fn spec_defect_rare_relics() -> Seq<Relic> {
    seq![Relic::Ginger, Relic::OldCoin, Relic::BirdFacedUrn, Relic::UnceasingTop, Relic::Torii, Relic::StoneCalendar, Relic::Shovel, Relic::WingBoots, Relic::ThreadAndNeedle, Relic::Turnip, Relic::IceCream, Relic::Calipers, Relic::LizardTail, Relic::PrayerWheel, Relic::Girya, Relic::DeadBranch, Relic::DuVuDoll, Relic::Pocketwatch, Relic::Mango, Relic::IncenseBurner, Relic::GamblingChip, Relic::PeacePipe, Relic::CaptainsWheel, Relic::FossilizedHelix, Relic::TungstenRod, Relic::EmotionChip]
}

/// The rare relics available to the Defect.
pub fn defect_rare_relics() -> (r: Vec<Relic>)
    ensures
        r@ == spec_defect_rare_relics(),
{
    vec![Relic::Ginger, Relic::OldCoin, Relic::BirdFacedUrn, Relic::UnceasingTop, Relic::Torii, Relic::StoneCalendar, Relic::Shovel, Relic::WingBoots, Relic::ThreadAndNeedle, Relic::Turnip, Relic::IceCream, Relic::Calipers, Relic::LizardTail, Relic::PrayerWheel, Relic::Girya, Relic::DeadBranch, Relic::DuVuDoll, Relic::Pocketwatch, Relic::Mango, Relic::IncenseBurner, Relic::GamblingChip, Relic::PeacePipe, Relic::CaptainsWheel, Relic::FossilizedHelix, Relic::TungstenRod, Relic::EmotionChip]
}

/// The rare relics available to the Watcher.
pub open spec fn spec_watcher_rare_relics() -> Seq<Relic> {
    seq![Relic::Ginger, Relic::OldCoin, Relic::BirdFacedUrn, Relic::UnceasingTop, Relic::Torii, Relic::StoneCalendar, Relic::Shovel, Relic::WingBoots, Relic::ThreadAndNeedle, Relic::Turnip, Relic::IceCream, Relic::Calipers, Relic::LizardTail, Relic::PrayerWheel, Relic::Girya, Relic::DeadBranch, Relic::DuVuDoll, Relic::Pocketwatch, Relic::Mango, Relic::IncenseBurner, Relic::GamblingChip, Relic::PeacePipe, Relic::CaptainsWheel, Relic::FossilizedHelix, Relic::TungstenRod, Relic::CloakClasp, Relic::GoldenEye]
}

/// The rare relics available to the Watcher.
pub fn watcher_rare_relics() -> (r: Vec<Relic>)
    ensures
        r@ == spec_watcher_rare_relics(),
{
    vec![Relic::Ginger, Relic::OldCoin, Relic::BirdFacedUrn, Relic::UnceasingTop, Relic::Torii, Relic::StoneCalendar, Relic::Shovel, Relic::WingBoots, Relic::ThreadAndNeedle, Relic::Turnip, Relic::IceCream, Relic::Calipers, Relic::LizardTail, Relic::PrayerWheel, Relic::Girya, Relic::DeadBranch, Relic::DuVuDoll, Relic::Pocketwatch, Relic::Mango, Relic::IncenseBurner, Relic::GamblingChip, Relic::PeacePipe, Relic::CaptainsWheel, Relic::FossilizedHelix, Relic::TungstenRod, Relic::CloakClasp, Relic::GoldenEye]
}

/// The shop relics available to the Silent.
pub open spec fn spec_silent_shop_relics() -> Seq<Relic> {
    seq![Relic::SlingOfCourage, Relic::HandDrill, Relic::Toolbox, Relic::ChemicalX, Relic::LeesWaffle, Relic::Orrery, Relic::DollysMirror, Relic::OrangePellets, Relic::PrismaticShard, Relic::ClockworkSouvenir, Relic::FrozenEye, Relic::TheAbacus, Relic::MedicalKit, Relic::Cauldron, Relic::StrangeSpoon, Relic::MembershipCard, Relic::TwistedFunnel]
}

/// The shop relics available to the Silent.
pub fn silent_shop_relics() -> (r: Vec<Relic>)
    ensures
        r@ == spec_silent_shop_relics(),
{
    vec![Relic::SlingOfCourage, Relic::HandDrill, Relic::Toolbox, Relic::ChemicalX, Relic::LeesWaffle, Relic::Orrery, Relic::DollysMirror, Relic::OrangePellets, Relic::PrismaticShard, Relic::ClockworkSouvenir, Relic::FrozenEye, Relic::TheAbacus, Relic::MedicalKit, Relic::Cauldron, Relic::StrangeSpoon, Relic::MembershipCard, Relic::TwistedFunnel]
}

/// The shop relics available to the Defect.
pub open spec fn spec_defect_shop_relics() -> Seq<Relic> {
    seq![Relic::SlingOfCourage, Relic::HandDrill, Relic::Toolbox, Relic::ChemicalX, Relic::LeesWaffle, Relic::Orrery, Relic::DollysMirror, Relic::OrangePellets, Relic::PrismaticShard, Relic::ClockworkSouvenir, Relic::FrozenEye, Relic::TheAbacus, Relic::MedicalKit, Relic::Cauldron, Relic::StrangeSpoon, Relic::MembershipCard, Relic::RunicCapacitor]
}

/// The shop relics available to the Defect.
pub fn defect_shop_relics() -> (r: Vec<Relic>)
    ensures
        r@ == spec_defect_shop_relics(),
{
    vec![Relic::SlingOfCourage, Relic::HandDrill, Relic::Toolbox, Relic::ChemicalX, Relic::LeesWaffle, Relic::Orrery, Relic::DollysMirror, Relic::OrangePellets, Relic::PrismaticShard, Relic::ClockworkSouvenir, Relic::FrozenEye, Relic::TheAbacus, Relic::MedicalKit, Relic::Cauldron, Relic::StrangeSpoon, Relic::MembershipCard, Relic::RunicCapacitor]
}

/// The shop relics available to the Watcher.
pub open spec fn spec_watcher_shop_relics() -> Seq<Relic> {
    seq![Relic::SlingOfCourage, Relic::HandDrill, Relic::Toolbox, Relic::ChemicalX, Relic::LeesWaffle, Relic::Orrery, Relic::DollysMirror, Relic::OrangePellets, Relic::PrismaticShard, Relic::ClockworkSouvenir, Relic::FrozenEye, Relic::TheAbacus, Relic::MedicalKit, Relic::Cauldron, Relic::StrangeSpoon, Relic::MembershipCard, Relic::Melange]
}

/// The shop relics available to the Watcher.
pub fn watcher_shop_relics() -> (r: Vec<Relic>)
    ensures
        r@ == spec_watcher_shop_relics(),
{
    vec![Relic::SlingOfCourage, Relic::HandDrill, Relic::Toolbox, Relic::ChemicalX, Relic::LeesWaffle, Relic::Orrery, Relic::DollysMirror, Relic::OrangePellets, Relic::PrismaticShard, Relic::ClockworkSouvenir, Relic::FrozenEye, Relic::TheAbacus, Relic::MedicalKit, Relic::Cauldron, Relic::StrangeSpoon, Relic::MembershipCard, Relic::Melange]
}

/// The boss relics available to the Silent.
pub open spec fn spec_silent_boss_relics() -> Seq<Relic> {
    seq![Relic::FusionHammer, Relic::VelvetChoker, Relic::RunicDome, Relic::SlaversCollar, Relic::SneckoEye, Relic::PandorasBox, Relic::CursedKey, Relic::BustedCrown, Relic::Ectoplasm, Relic::TinyHouse, Relic::Sozu, Relic::PhilosophersStone, Relic::Astrolabe, Relic::BlackStar, Relic::SacredBark, Relic::EmptyCage, Relic::RunicPyramid, Relic::CallingBell, Relic::CoffeeDripper, Relic::WristBlade, Relic::HoveringKite, Relic::RingOfTheSerpent]
}

/// The boss relics available to the Silent.
pub fn silent_boss_relics() -> (r: Vec<Relic>)
    ensures
        r@ == spec_silent_boss_relics(),
{
    vec![Relic::FusionHammer, Relic::VelvetChoker, Relic::RunicDome, Relic::SlaversCollar, Relic::SneckoEye, Relic::PandorasBox, Relic::CursedKey, Relic::BustedCrown, Relic::Ectoplasm, Relic::TinyHouse, Relic::Sozu, Relic::PhilosophersStone, Relic::Astrolabe, Relic::BlackStar, Relic::SacredBark, Relic::EmptyCage, Relic::RunicPyramid, Relic::CallingBell, Relic::CoffeeDripper, Relic::WristBlade, Relic::HoveringKite, Relic::RingOfTheSerpent]
}

/// The boss relics available to the Defect.
pub open spec fn spec_defect_boss_relics() -> Seq<Relic> {
    seq![Relic::FusionHammer, Relic::VelvetChoker, Relic::RunicDome, Relic::SlaversCollar, Relic::SneckoEye, Relic::PandorasBox, Relic::CursedKey, Relic::BustedCrown, Relic::Ectoplasm, Relic::TinyHouse, Relic::Sozu, Relic::PhilosophersStone, Relic::Astrolabe, Relic::BlackStar, Relic::SacredBark, Relic::EmptyCage, Relic::RunicPyramid, Relic::CallingBell, Relic::CoffeeDripper, Relic::Inserter, Relic::FrozenCore, Relic::NuclearBattery]
}

/// The boss relics available to the Defect.
pub fn defect_boss_relics() -> (r: Vec<Relic>)
    ensures
        r@ == spec_defect_boss_relics(),
{
    vec![Relic::FusionHammer, Relic::VelvetChoker, Relic::RunicDome, Relic::SlaversCollar, Relic::SneckoEye, Relic::PandorasBox, Relic::CursedKey, Relic::BustedCrown, Relic::Ectoplasm, Relic::TinyHouse, Relic::Sozu, Relic::PhilosophersStone, Relic::Astrolabe, Relic::BlackStar, Relic::SacredBark, Relic::EmptyCage, Relic::RunicPyramid, Relic::CallingBell, Relic::CoffeeDripper, Relic::Inserter, Relic::FrozenCore, Relic::NuclearBattery]
}

/// The boss relics available to the Watcher.
pub open spec fn spec_watcher_boss_relics() -> Seq<Relic> {
    seq![Relic::FusionHammer, Relic::VelvetChoker, Relic::RunicDome, Relic::SlaversCollar, Relic::SneckoEye, Relic::PandorasBox, Relic::CursedKey, Relic::BustedCrown, Relic::Ectoplasm, Relic::TinyHouse, Relic::Sozu, Relic::PhilosophersStone, Relic::Astrolabe, Relic::BlackStar, Relic::SacredBark, Relic::EmptyCage, Relic::RunicPyramid, Relic::CallingBell, Relic::CoffeeDripper, Relic::HolyWater, Relic::VioletLotus]
}

/// The boss relics available to the Watcher.
pub fn watcher_boss_relics() -> (r: Vec<Relic>)
    ensures
        r@ == spec_watcher_boss_relics(),
{
    vec![Relic::FusionHammer, Relic::VelvetChoker, Relic::RunicDome, Relic::SlaversCollar, Relic::SneckoEye, Relic::PandorasBox, Relic::CursedKey, Relic::BustedCrown, Relic::Ectoplasm, Relic::TinyHouse, Relic::Sozu, Relic::PhilosophersStone, Relic::Astrolabe, Relic::BlackStar, Relic::SacredBark, Relic::EmptyCage, Relic::RunicPyramid, Relic::CallingBell, Relic::CoffeeDripper, Relic::HolyWater, Relic::VioletLotus]
}

/// The hit points a character starts a run with.
pub open spec fn spec_starting_hp(c: Character) -> u32 {
    match c {
        Character::Ironclad => 80,
        Character::Silent => 70,
        Character::Defect => 75,
        Character::Watcher => 72,
    }
}

/// The relic a character starts a run with.
pub open spec fn spec_starting_relic(c: Character) -> Relic {
    match c {
        Character::Ironclad => Relic::BurningBlood,
        Character::Silent => Relic::RingOfTheSnake,
        Character::Defect => Relic::CrackedCore,
        Character::Watcher => Relic::PureWater,
    }
}

/// The common cards of a character.
pub open spec fn spec_common_card_pool(c: Character) -> Seq<Card> {
    match c {
        Character::Ironclad => spec_ironclad_common_cards(),
        Character::Silent => spec_silent_common_cards(),
        Character::Defect => spec_defect_common_cards(),
        Character::Watcher => spec_watcher_common_cards(),
    }
}

/// The uncommon cards of a character.
pub open spec fn spec_uncommon_card_pool(c: Character) -> Seq<Card> {
    match c {
        Character::Ironclad => spec_ironclad_uncommon_cards(),
        Character::Silent => spec_silent_uncommon_cards(),
        Character::Defect => spec_defect_uncommon_cards(),
        Character::Watcher => spec_watcher_uncommon_cards(),
    }
}

/// The rare cards of a character.
pub open spec fn spec_rare_card_pool(c: Character) -> Seq<Card> {
    match c {
        Character::Ironclad => spec_ironclad_rare_cards(),
        Character::Silent => spec_silent_rare_cards(),
        Character::Defect => spec_defect_rare_cards(),
        Character::Watcher => spec_watcher_rare_cards(),
    }
}

/// The common relics a character can find.
pub open spec fn spec_common_relic_pool(c: Character) -> Seq<Relic> {
    match c {
        Character::Ironclad => spec_ironclad_common_relics(),
        Character::Silent => spec_silent_common_relics(),
        Character::Defect => spec_defect_common_relics(),
        Character::Watcher => spec_watcher_common_relics(),
    }
}

/// The uncommon relics a character can find.
pub open spec fn spec_uncommon_relic_pool(c: Character) -> Seq<Relic> {
    match c {
        Character::Ironclad => spec_ironclad_uncommon_relics(),
        Character::Silent => spec_silent_uncommon_relics(),
        Character::Defect => spec_defect_uncommon_relics(),
        Character::Watcher => spec_watcher_uncommon_relics(),
    }
}

/// The rare relics a character can find.
pub open spec fn spec_rare_relic_pool(c: Character) -> Seq<Relic> {
    match c {
        Character::Ironclad => spec_ironclad_rare_relics(),
        Character::Silent => spec_silent_rare_relics(),
        Character::Defect => spec_defect_rare_relics(),
        Character::Watcher => spec_watcher_rare_relics(),
    }
}

/// The shop relics a character can find.
pub open spec fn spec_shop_relic_pool(c: Character) -> Seq<Relic> {
    match c {
        Character::Ironclad => spec_ironclad_shop_relics(),
        Character::Silent => spec_silent_shop_relics(),
        Character::Defect => spec_defect_shop_relics(),
        Character::Watcher => spec_watcher_shop_relics(),
    }
}

/// The boss relics a character can find.
pub open spec fn spec_boss_relic_pool(c: Character) -> Seq<Relic> {
    match c {
        Character::Ironclad => spec_ironclad_boss_relics(),
        Character::Silent => spec_silent_boss_relics(),
        Character::Defect => spec_defect_boss_relics(),
        Character::Watcher => spec_watcher_boss_relics(),
    }
}

/// The deck a character starts a run with.
pub open spec fn spec_starting_deck(c: Character) -> Seq<Card> {
    match c {
        Character::Ironclad => spec_ironclad_starting_deck(),
        Character::Silent => spec_silent_starting_deck(),
        Character::Defect => spec_defect_starting_deck(),
        Character::Watcher => spec_watcher_starting_deck(),
    }
}

impl Character {
    /// Hit points at the start of a run.
    pub fn starting_hp(&self) -> (r: u32)
        ensures
            r == spec_starting_hp(*self),
    {
        match *self {
            Character::Ironclad => 80,
            Character::Silent => 70,
            Character::Defect => 75,
            Character::Watcher => 72,
        }
    }

    /// The relic a run starts with.
    pub fn starting_relic(&self) -> (r: Relic)
        ensures
            r == spec_starting_relic(*self),
    {
        match *self {
            Character::Ironclad => Relic::BurningBlood,
            Character::Silent => Relic::RingOfTheSnake,
            Character::Defect => Relic::CrackedCore,
            Character::Watcher => Relic::PureWater,
        }
    }

    /// The common cards of this character.
    pub fn common_card_pool(&self) -> (r: Vec<Card>)
        ensures
            r@ == spec_common_card_pool(*self),
    {
        match *self {
            Character::Ironclad => ironclad_common_cards(),
            Character::Silent => silent_common_cards(),
            Character::Defect => defect_common_cards(),
            Character::Watcher => watcher_common_cards(),
        }
    }

    /// The uncommon cards of this character.
    pub fn uncommon_card_pool(&self) -> (r: Vec<Card>)
        ensures
            r@ == spec_uncommon_card_pool(*self),
    {
        match *self {
            Character::Ironclad => ironclad_uncommon_cards(),
            Character::Silent => silent_uncommon_cards(),
            Character::Defect => defect_uncommon_cards(),
            Character::Watcher => watcher_uncommon_cards(),
        }
    }

    /// The rare cards of this character.
    pub fn rare_card_pool(&self) -> (r: Vec<Card>)
        ensures
            r@ == spec_rare_card_pool(*self),
    {
        match *self {
            Character::Ironclad => ironclad_rare_cards(),
            Character::Silent => silent_rare_cards(),
            Character::Defect => defect_rare_cards(),
            Character::Watcher => watcher_rare_cards(),
        }
    }

    /// The common relics this character can find.
    pub fn common_relic_pool(&self) -> (r: Vec<Relic>)
        ensures
            r@ == spec_common_relic_pool(*self),
    {
        match *self {
            Character::Ironclad => ironclad_common_relics(),
            Character::Silent => silent_common_relics(),
            Character::Defect => defect_common_relics(),
            Character::Watcher => watcher_common_relics(),
        }
    }

    /// The uncommon relics this character can find.
    pub fn uncommon_relic_pool(&self) -> (r: Vec<Relic>)
        ensures
            r@ == spec_uncommon_relic_pool(*self),
    {
        match *self {
            Character::Ironclad => ironclad_uncommon_relics(),
            Character::Silent => silent_uncommon_relics(),
            Character::Defect => defect_uncommon_relics(),
            Character::Watcher => watcher_uncommon_relics(),
        }
    }

    /// The rare relics this character can find.
    pub fn rare_relic_pool(&self) -> (r: Vec<Relic>)
        ensures
            r@ == spec_rare_relic_pool(*self),
    {
        match *self {
            Character::Ironclad => ironclad_rare_relics(),
            Character::Silent => silent_rare_relics(),
            Character::Defect => defect_rare_relics(),
            Character::Watcher => watcher_rare_relics(),
        }
    }

    /// The shop relics this character can find.
    pub fn shop_relic_pool(&self) -> (r: Vec<Relic>)
        ensures
            r@ == spec_shop_relic_pool(*self),
    {
        match *self {
            Character::Ironclad => ironclad_shop_relics(),
            Character::Silent => silent_shop_relics(),
            Character::Defect => defect_shop_relics(),
            Character::Watcher => watcher_shop_relics(),
        }
    }

    /// The boss relics this character can find.
    pub fn boss_relic_pool(&self) -> (r: Vec<Relic>)
        ensures
            r@ == spec_boss_relic_pool(*self),
    {
        match *self {
            Character::Ironclad => ironclad_boss_relics(),
            Character::Silent => silent_boss_relics(),
            Character::Defect => defect_boss_relics(),
            Character::Watcher => watcher_boss_relics(),
        }
    }

    /// The deck this character starts a run with.
    pub fn starting_deck(&self) -> (r: Vec<Card>)
        ensures
            r@ == spec_starting_deck(*self),
    {
        match *self {
            Character::Ironclad => ironclad_starting_deck(),
            Character::Silent => silent_starting_deck(),
            Character::Defect => defect_starting_deck(),
            Character::Watcher => watcher_starting_deck(),
        }
    }
}

/// Conditions that can be on the player; the numbers are stacks, turns, or amounts.
#[derive(Clone, Copy, Debug, PartialEq, Eq, Structural)]
pub enum PlayerCondition {
    Artifact(StackCount),
    Barricade,
    Berserk(u32),
    Brutality(u32),
    /// Damage to self and damage to enemies at the end of the turn.
    Combust(u32, u32),
    Confused,
    Corruption,
    DarkEmbrace(u32),
    DemonForm(u32),
    DoubleTap(u32),
    Evolve(u32),
    FeelNoPain(u32),
    FireBreathing(u32),
    FlameBarrier(u32),
    Frail(StackCount),
    Intangible(StackCount),
    Juggernaut(u32),
    Magnetism(u32),
    Mayhem(u32),
    Metallicize(u32),
    NoBlock(StackCount),
    NoDraw,
    /// Cards left before it triggers, and its damage.
    Panache(u32, u32),
    Rage(u32),
    Rupture(u32),
    Sadistic(u32),
    StrengthDown(u32),
    /// Turns left, and its damage.
    TheBomb(u32, u32),
    Vulnerable(StackCount),
    Weak(StackCount),
}

/// Conditions that can be on an enemy.
#[derive(Clone, Copy, Debug, PartialEq, Eq, Structural)]
pub enum EnemyCondition {
    /// Block gained the first time it is hit.
    CurlUp(u32),
    Enrage(i32),
    /// Strength gained at the end of each turn, and whether it was applied this turn.
    Ritual(i32, bool),
    /// Vulnerable inflicted on the player when the enemy dies.
    SporeCloud(StackCount),
    StrengthLossThisTurn(i32),
    /// Damage dealt back to an attacker.
    Thorns(u32),
    Vulnerable(StackCount),
    Weak(StackCount),
}

/// The actions of the enemies in combat.
#[derive(Clone, Copy, Debug, PartialEq, Eq, Structural)]
pub enum EnemyAction {
    AcidSlimeMCorrosiveSpit,
    AcidSlimeMLick,
    AcidSlimeMTackle,
    AcidSlimeSLick,
    AcidSlimeSTackle,
    CultistDarkStrike,
    CultistIncantation,
    FungiBeastBite,
    FungiBeastGrow,
    /// Bite for the damage chosen when the louse spawned.
    GreenLouseBite(u32),
    GreenLouseSpitWeb,
    GremlinNobBellow,
    GremlinNobRush,
    GremlinNobSkullBash,
    JawWormBellow,
    JawWormChomp,
    JawWormThrash,
    SpikeSlimeMFlameTackle,
    SpikeSlimeMLick,
    SpikeSlimeSTackle,
}

/// The intent shown for an enemy action.
pub open spec fn spec_action_intent(action: EnemyAction) -> Intent {
    match action {
        EnemyAction::AcidSlimeMCorrosiveSpit => Intent::AggressiveDebuff(7, 1),
        EnemyAction::AcidSlimeMLick => Intent::StrategicDebuff,
        EnemyAction::AcidSlimeMTackle => Intent::Aggressive(10, 1),
        EnemyAction::AcidSlimeSLick => Intent::StrategicDebuff,
        EnemyAction::AcidSlimeSTackle => Intent::Aggressive(3, 1),
        EnemyAction::CultistDarkStrike => Intent::Aggressive(6, 1),
        EnemyAction::CultistIncantation => Intent::StrategicBuff,
        EnemyAction::FungiBeastBite => Intent::Aggressive(6, 1),
        EnemyAction::FungiBeastGrow => Intent::StrategicBuff,
        EnemyAction::GreenLouseBite(damage) => Intent::Aggressive(damage, 1),
        EnemyAction::GreenLouseSpitWeb => Intent::StrategicDebuff,
        EnemyAction::GremlinNobBellow => Intent::StrategicBuff,
        EnemyAction::GremlinNobRush => Intent::Aggressive(14, 1),
        EnemyAction::GremlinNobSkullBash => Intent::AggressiveDebuff(6, 1),
        EnemyAction::JawWormBellow => Intent::DefensiveBuff,
        EnemyAction::JawWormChomp => Intent::Aggressive(11, 1),
        EnemyAction::JawWormThrash => Intent::AggressiveDefensive(7, 1),
        EnemyAction::SpikeSlimeMFlameTackle => Intent::AggressiveDebuff(8, 1),
        EnemyAction::SpikeSlimeMLick => Intent::StrategicDebuff,
        EnemyAction::SpikeSlimeSTackle => Intent::Aggressive(5, 1),
    }
}

impl EnemyAction {
    /// The intent shown for this action.
    pub fn intent(&self) -> (r: Intent)
        ensures
            r == spec_action_intent(*self),
    {
        match *self {
            EnemyAction::AcidSlimeMCorrosiveSpit => Intent::AggressiveDebuff(7, 1),
            EnemyAction::AcidSlimeMLick => Intent::StrategicDebuff,
            EnemyAction::AcidSlimeMTackle => Intent::Aggressive(10, 1),
            EnemyAction::AcidSlimeSLick => Intent::StrategicDebuff,
            EnemyAction::AcidSlimeSTackle => Intent::Aggressive(3, 1),
            EnemyAction::CultistDarkStrike => Intent::Aggressive(6, 1),
            EnemyAction::CultistIncantation => Intent::StrategicBuff,
            EnemyAction::FungiBeastBite => Intent::Aggressive(6, 1),
            EnemyAction::FungiBeastGrow => Intent::StrategicBuff,
            EnemyAction::GreenLouseBite(damage) => Intent::Aggressive(damage, 1),
            EnemyAction::GreenLouseSpitWeb => Intent::StrategicDebuff,
            EnemyAction::GremlinNobBellow => Intent::StrategicBuff,
            EnemyAction::GremlinNobRush => Intent::Aggressive(14, 1),
            EnemyAction::GremlinNobSkullBash => Intent::AggressiveDebuff(6, 1),
            EnemyAction::JawWormBellow => Intent::DefensiveBuff,
            EnemyAction::JawWormChomp => Intent::Aggressive(11, 1),
            EnemyAction::JawWormThrash => Intent::AggressiveDefensive(7, 1),
            EnemyAction::SpikeSlimeMFlameTackle => Intent::AggressiveDebuff(8, 1),
            EnemyAction::SpikeSlimeMLick => Intent::StrategicDebuff,
            EnemyAction::SpikeSlimeSTackle => Intent::Aggressive(5, 1),
        }
    }
}

} // verus!
