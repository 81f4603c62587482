use sts_sim::rng::StsRandom;

fn next_i32(r: &mut StsRandom) -> i32 {
    r.next_u64() as i32
}

fn next_i32_bounded(r: &mut StsRandom, bound: i32) -> i32 {
    r.next_u64_bounded(bound as u64 + 1) as i32
}

fn next_i32_range(r: &mut StsRandom, lbound: i32, ubound: i32) -> i32 {
    lbound + next_i32_bounded(r, ubound - lbound)
}

fn next_i64(r: &mut StsRandom) -> i64 {
    r.next_u64() as i64
}

fn next_f64(r: &mut StsRandom) -> f64 {
    (r.next_u64() >> 11) as f64 * 1.1102230246251565e-16
}

fn next_i64_bounded(r: &mut StsRandom, bound: i64) -> i64 {
    (next_f64(r) * (bound as f64)) as i64
}

fn next_i64_range(r: &mut StsRandom, lbound: i64, ubound: i64) -> i64 {
    (next_f64(r) * (ubound - lbound) as f64 + lbound as f64).floor() as i64
}

#[test]
fn test_sts_random_next_u64() {
    let mut r = StsRandom::from(2665621045298406349u64);
    assert_eq!(r.next_u64(), 6241938426952260625);
    assert_eq!(r.next_u64(), 16912281428050050838);
    assert_eq!(r.next_u64(), 9935128893071954383);
    assert_eq!(r.next_u64(), 10223835979718960854);
    assert_eq!(r.next_u64(), 10988809226805338205);
    for _ in 0..1000000 {
        let _ = r.next_u64();
    }
    assert_eq!(r.next_u64(), 14363862663833285939);
    assert_eq!(r.next_u64(), 1656846756039688891);
    assert_eq!(r.next_u64(), 14913490070073105064);
    assert_eq!(r.next_u64(), 7765683530522584210);
    assert_eq!(r.next_u64(), 9421501282369135542);
}

#[test]
fn test_sts_random_next_u64_bounded() {
    let mut r = StsRandom::from(2665621045298406349u64);
    assert_eq!(r.next_u64_bounded(1 << 2), 0);
    assert_eq!(r.next_u64_bounded(1 << 17), 130955);
    assert_eq!(r.next_u64_bounded(1 << 32), 2057504999);
    assert_eq!(r.next_u64_bounded(1 << 47), 50937817256811);
    assert_eq!(r.next_u64_bounded(1 << 62), 882718594975281198);
    for _ in 0..1000000 {
        let _ = r.next_u64();
    }
    assert_eq!(r.next_u64_bounded(1 << 2), 1);
    assert_eq!(r.next_u64_bounded(1 << 17), 33117);
    assert_eq!(r.next_u64_bounded(1 << 32), 302181716);
    assert_eq!(r.next_u64_bounded(1 << 47), 35199026147913);
    assert_eq!(r.next_u64_bounded(1 << 62), 99064622757179867);
}

#[test]
fn test_sts_random_next_i64() {
    let mut r = StsRandom::from(2665621045298406349u64);
    assert_eq!(next_i64(&mut r), 6241938426952260625);
    assert_eq!(next_i64(&mut r), -1534462645659500778);
    assert_eq!(next_i64(&mut r), -8511615180637597233);
    assert_eq!(next_i64(&mut r), -8222908093990590762);
    assert_eq!(next_i64(&mut r), -7457934846904213411);
    for _ in 0..1000000 {
        let _ = r.next_u64();
    }
    assert_eq!(next_i64(&mut r), -4082881409876265677);
    assert_eq!(next_i64(&mut r), 1656846756039688891);
    assert_eq!(next_i64(&mut r), -3533254003636446552);
    assert_eq!(next_i64(&mut r), 7765683530522584210);
    assert_eq!(next_i64(&mut r), -9025242791340416074);
}

#[test]
fn test_sts_random_next_i32() {
    let mut r = StsRandom::from(2665621045298406349u64);
    assert_eq!(next_i32(&mut r), -1738957807);
    assert_eq!(next_i32(&mut r), -1940127978);
    assert_eq!(next_i32(&mut r), -179957297);
    assert_eq!(next_i32(&mut r), -989747498);
    assert_eq!(next_i32(&mut r), 1145331805);
    for _ in 0..1000000 {
        let _ = r.next_u64();
    }
    assert_eq!(next_i32(&mut r), 1615295795);
    assert_eq!(next_i32(&mut r), -1526660421);
    assert_eq!(next_i32(&mut r), 604363432);
    assert_eq!(next_i32(&mut r), -756652910);
    assert_eq!(next_i32(&mut r), -1031806026);
}

#[test]
fn test_sts_random_next_f64() {
    let mut r = StsRandom::from(2665621045298406349u64);
    assert_eq!(format!("{:.16}", next_f64(&mut r)), "0.3383761601511196");
    assert_eq!(format!("{:.16}", next_f64(&mut r)), "0.9168166132989056");
    assert_eq!(format!("{:.16}", next_f64(&mut r)), "0.5385844164896059");
    assert_eq!(format!("{:.16}", next_f64(&mut r)), "0.5542352590173381");
    assert_eq!(format!("{:.16}", next_f64(&mut r)), "0.5957045418365552");
    for _ in 0..1000000 {
        let _ = r.next_u64();
    }
    assert_eq!(format!("{:.16}", next_f64(&mut r)), "0.7786665552705736");
    assert_eq!(format!("{:.16}", next_f64(&mut r)), "0.0898178426186895");
    assert_eq!(format!("{:.16}", next_f64(&mut r)), "0.8084619166657129");
    assert_eq!(format!("{:.16}", next_f64(&mut r)), "0.4209785477313743");
    assert_eq!(format!("{:.16}", next_f64(&mut r)), "0.5107406079209791");
}

#[test]
fn test_sts_random_next_i32_bounded() {
    let mut r = StsRandom::from(2665621045298406349u64);
    assert_eq!(next_i32_bounded(&mut r, 1 << 2), 2);
    assert_eq!(next_i32_bounded(&mut r, 1 << 9), 356);
    assert_eq!(next_i32_bounded(&mut r, 1 << 16), 40672);
    assert_eq!(next_i32_bounded(&mut r, 1 << 23), 2443115);
    assert_eq!(next_i32_bounded(&mut r, 1 << 30), 824311977);
    for _ in 0..1000000 {
        let _ = r.next_u64();
    }
    assert_eq!(next_i32_bounded(&mut r, 1 << 2), 4);
    assert_eq!(next_i32_bounded(&mut r, 1 << 9), 210);
    assert_eq!(next_i32_bounded(&mut r, 1 << 16), 8688);
    assert_eq!(next_i32_bounded(&mut r, 1 << 23), 3408641);
    assert_eq!(next_i32_bounded(&mut r, 1 << 30), 465577696);
}

#[test]
fn test_sts_random_next_i32_range() {
    let mut r = StsRandom::from(2665621045298406349u64);
    assert_eq!(next_i32_range(&mut r, -(1 << 1), 1 << 2), 0);
    assert_eq!(next_i32_range(&mut r, -(1 << 8), 1 << 9), 478);
    assert_eq!(next_i32_range(&mut r, -(1 << 15), 1 << 16), 44108);
    assert_eq!(next_i32_range(&mut r, -(1 << 22), 1 << 23), -2563663);
    assert_eq!(next_i32_range(&mut r, -(1 << 29), 1 << 30), 919386922);
    for _ in 0..1000000 {
        let _ = r.next_u64();
    }
    assert_eq!(next_i32_range(&mut r, -(1 << 1), 1 << 2), 1);
    assert_eq!(next_i32_range(&mut r, -(1 << 8), 1 << 9), -154);
    assert_eq!(next_i32_range(&mut r, -(1 << 15), 1 << 16), 55079);
    assert_eq!(next_i32_range(&mut r, -(1 << 22), 1 << 23), -2213837);
    assert_eq!(next_i32_range(&mut r, -(1 << 29), 1 << 30), 854245342);
}

#[test]
fn test_sts_random_next_i64_bounded() {
    let mut r = StsRandom::from(2665621045298406349u64);
    assert_eq!(next_i64_bounded(&mut r, 1 << 2), 1);
    assert_eq!(next_i64_bounded(&mut r, 1 << 17), 120168);
    assert_eq!(next_i64_bounded(&mut r, 1 << 32), 2313202454);
    assert_eq!(next_i64_bounded(&mut r, 1 << 47), 78001678312064);
    assert_eq!(next_i64_bounded(&mut r, 1 << 62), 2747202306701334528);
    for _ in 0..1000000 {
        let _ = r.next_u64();
    }
    assert_eq!(next_i64_bounded(&mut r, 1 << 2), 3);
    assert_eq!(next_i64_bounded(&mut r, 1 << 17), 11772);
    assert_eq!(next_i64_bounded(&mut r, 1 << 32), 3472317492);
    assert_eq!(next_i64_bounded(&mut r, 1 << 47), 59247463459187);
    assert_eq!(next_i64_bounded(&mut r, 1 << 62), 2355375320592283648);
}

#[test]
fn test_sts_random_next_i64_range() {
    let mut r = StsRandom::from(2665621045298406349u64);
    assert_eq!(next_i64_range(&mut r, -(1 << 1), 1 << 2), 0);
    assert_eq!(next_i64_range(&mut r, -(1 << 16), 1 << 17), 114717);
    assert_eq!(next_i64_range(&mut r, -(1 << 31), 1 << 32), 1322320034);
    assert_eq!(next_i64_range(&mut r, -(1 << 46), 1 << 47), 46633773290433);
    assert_eq!(next_i64_range(&mut r, -(1 << 61), 1 << 62), 1814960450838307840);
    for _ in 0..1000000 {
        let _ = r.next_u64();
    }
    assert_eq!(next_i64_range(&mut r, -(1 << 1), 1 << 2), 2);
    assert_eq!(next_i64_range(&mut r, -(1 << 16), 1 << 17), -47878);
    assert_eq!(next_i64_range(&mut r, -(1 << 31), 1 << 32), 3060992590);
    assert_eq!(next_i64_range(&mut r, -(1 << 46), 1 << 47), 18502451011116);
    assert_eq!(next_i64_range(&mut r, -(1 << 61), 1 << 62), 1227219971674731520);
}

#[test]
fn test_sts_random_next_bool() {
    let mut r = StsRandom::from(2665621045298406349u64);
    assert_eq!(
        (0..20).map(|_| r.next_bool()).collect::<Vec<_>>(),
        vec![
            true, false, true, false, true, true, false, true, false, false, false, true,
            false, false, false, true, true, false, false, true
        ]
    );
    for _ in 0..1000000 {
        let _ = r.next_u64();
    }
    assert_eq!(
        (0..20).map(|_| r.next_bool()).collect::<Vec<_>>(),
        vec![
            true, true, true, true, true, true, true, false, false, true, true, true, false,
            true, true, true, true, true, true, false
        ]
    );
}

