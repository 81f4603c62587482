use vstd::prelude::*;

use crate::data::Room;
use crate::types::{ColumnIndex, RowIndex};

verus! {

/// The number of rows of a map.
pub const ROW_COUNT: usize = 15;
/// The number of columns of a map.
pub const COLUMN_COUNT: usize = 7;
/// The greatest column index.
pub const COLUMN_MAX: usize = 6;

/// The exits of a node towards the row above: up and to the left, straight up, up and to the
/// right; any combination of them.
#[derive(Clone, Copy, Debug, PartialEq, Eq, Structural)]
pub struct ExitBits {
    bits: u8,
}

impl View for ExitBits {
    type V = u8;

    closed spec fn view(&self) -> u8 {
        self.bits
    }
}

/// The bit of the exit up and to the left.
pub open spec fn left_bit() -> u8 {
    1
}

/// The bit of the exit straight up.
pub open spec fn up_bit() -> u8 {
    2
}

/// The bit of the exit up and to the right.
pub open spec fn right_bit() -> u8 {
    4
}

impl ExitBits {
    /// No exit.
    pub fn empty() -> (r: ExitBits)
        ensures
            r@ == 0,
    {
        ExitBits { bits: 0 }
    }

    /// The exit up and to the left.
    pub fn left() -> (r: ExitBits)
        ensures
            r@ == left_bit(),
    {
        ExitBits { bits: 1 }
    }

    /// The exit straight up.
    pub fn up() -> (r: ExitBits)
        ensures
            r@ == up_bit(),
    {
        ExitBits { bits: 2 }
    }

    /// The exit up and to the right.
    pub fn right() -> (r: ExitBits)
        ensures
            r@ == right_bit(),
    {
        ExitBits { bits: 4 }
    }

    /// The exits of both.
    pub fn union(self, other: ExitBits) -> (r: ExitBits)
        ensures
            r@ == self@ | other@,
    {
        ExitBits { bits: self.bits | other.bits }
    }

    /// Whether every exit of `other` is among these.
    pub fn contains(self, other: ExitBits) -> (r: bool)
        ensures
            r == (self@ & other@ == other@),
    {
        self.bits & other.bits == other.bits
    }

    /// The exits as bits: left 1, up 2, right 4.
    pub fn bits(self) -> (r: u8)
        ensures
            r == self@,
    {
        self.bits
    }
}

/// A room of the map with its exits.
#[derive(Clone, Copy, Debug, PartialEq, Eq, Structural)]
pub struct Node {
    pub room: Room,
    pub exit_bits: ExitBits,
}

impl Node {
    pub fn new(room: Room, exit_bits: ExitBits) -> (r: Node)
        ensures
            r.room == room,
            r.exit_bits == exit_bits,
    {
        Node { room, exit_bits }
    }
}

/// The map of an act: `ROW_COUNT` rows of `COLUMN_COUNT` places, the first row at the bottom;
/// a place holds a node or nothing.
#[derive(Debug)]
pub struct ActMap {
    grid: Vec<Vec<Option<Node>>>,
}

/// The rows as sequences.
pub open spec fn grid_view(grid: Seq<Vec<Option<Node>>>) -> Seq<Seq<Option<Node>>> {
    grid.map_values(|row: Vec<Option<Node>>| row@)
}

/// A grid of the right shape.
pub open spec fn is_map_grid(grid: Seq<Seq<Option<Node>>>) -> bool {
    grid.len() == ROW_COUNT && forall|r: int| 0 <= r < grid.len() ==> #[trigger] grid[r].len() == COLUMN_COUNT
}

/// What marks a place of the map when it is drawn: a character to its left and one to its
/// right.
pub trait MapHighlighter {
    /// The character drawn to the left of the node at the place.
    spec fn spec_left(&self, row_index: RowIndex, column_index: ColumnIndex) -> char;

    /// The character drawn to the right of the node at the place.
    spec fn spec_right(&self, row_index: RowIndex, column_index: ColumnIndex) -> char;

    fn left(&self, row_index: RowIndex, column_index: ColumnIndex) -> (r: char)
        ensures
            r == self.spec_left(row_index, column_index);

    fn right(&self, row_index: RowIndex, column_index: ColumnIndex) -> (r: char)
        ensures
            r == self.spec_right(row_index, column_index);
}

/// Marks nothing.
pub struct NoHighlighter;

impl MapHighlighter for NoHighlighter {
    open spec fn spec_left(&self, row_index: RowIndex, column_index: ColumnIndex) -> char {
        ' '
    }

    open spec fn spec_right(&self, row_index: RowIndex, column_index: ColumnIndex) -> char {
        ' '
    }

    fn left(&self, row_index: RowIndex, column_index: ColumnIndex) -> (r: char) {
        ' '
    }

    fn right(&self, row_index: RowIndex, column_index: ColumnIndex) -> (r: char) {
        ' '
    }
}

/// Marks one place with brackets.
pub struct CellHighlighter {
    pub row_index: RowIndex,
    pub column_index: ColumnIndex,
}

impl MapHighlighter for CellHighlighter {
    open spec fn spec_left(&self, row_index: RowIndex, column_index: ColumnIndex) -> char {
        if row_index == self.row_index && column_index == self.column_index { '[' } else { ' ' }
    }

    open spec fn spec_right(&self, row_index: RowIndex, column_index: ColumnIndex) -> char {
        if row_index == self.row_index && column_index == self.column_index { ']' } else { ' ' }
    }

    fn left(&self, row_index: RowIndex, column_index: ColumnIndex) -> (r: char) {
        if row_index == self.row_index && column_index == self.column_index { '[' } else { ' ' }
    }

    fn right(&self, row_index: RowIndex, column_index: ColumnIndex) -> (r: char) {
        if row_index == self.row_index && column_index == self.column_index { ']' } else { ' ' }
    }
}

/// The character drawn for a room.
pub open spec fn spec_room_char(room: Room) -> char {
    match room {
        Room::Boss => 'B',
        Room::BurningElite1 => '1',
        Room::BurningElite2 => '2',
        Room::BurningElite3 => '3',
        Room::BurningElite4 => '4',
        Room::Elite => 'E',
        Room::Event => '?',
        Room::Monster => 'M',
        Room::RestSite => 'R',
        Room::Shop => '$',
        Room::Treasure => 'T',
    }
}

/// The character drawn for a room.
pub fn room_char(room: Room) -> (r: char)
    ensures
        r == spec_room_char(room),
{
    match room {
        Room::Boss => 'B',
        Room::BurningElite1 => '1',
        Room::BurningElite2 => '2',
        Room::BurningElite3 => '3',
        Room::BurningElite4 => '4',
        Room::Elite => 'E',
        Room::Event => '?',
        Room::Monster => 'M',
        Room::RestSite => 'R',
        Room::Shop => '$',
        Room::Treasure => 'T',
    }
}

/// The three characters under a place in the exit line: `\` for the exit to the left, `|`
/// for the exit up, `/` for the exit to the right.
pub open spec fn exit_cell(place: Option<Node>) -> Seq<char> {
    match place {
        Some(node) => seq![
            if node.exit_bits@ & left_bit() == left_bit() { '\\' } else { ' ' },
            if node.exit_bits@ & up_bit() == up_bit() { '|' } else { ' ' },
            if node.exit_bits@ & right_bit() == right_bit() { '/' } else { ' ' },
        ],
        None => seq![' ', ' ', ' '],
    }
}

/// The three characters of a place in the node line: the highlighter's marks around the room.
pub open spec fn node_cell<H: MapHighlighter>(place: Option<Node>, highlighter: &H, row_index: RowIndex, column_index: ColumnIndex) -> Seq<char> {
    match place {
        Some(node) => seq![
            highlighter.spec_left(row_index, column_index),
            spec_room_char(node.room),
            highlighter.spec_right(row_index, column_index),
        ],
        None => seq![' ', ' ', ' '],
    }
}

/// The exit line of the first `n` places of a row.
pub open spec fn exit_line(row: Seq<Option<Node>>, n: int) -> Seq<char>
    decreases n,
{
    if n <= 0 { Seq::empty() } else { exit_line(row, n - 1) + exit_cell(row[n - 1]) }
}

/// The node line of the first `n` places of a row.
pub open spec fn node_line<H: MapHighlighter>(row: Seq<Option<Node>>, highlighter: &H, row_index: RowIndex, n: int) -> Seq<char>
    decreases n,
{
    if n <= 0 {
        Seq::empty()
    } else {
        node_line(row, highlighter, row_index, n - 1) + node_cell(row[n - 1], highlighter, row_index, (n - 1) as usize)
    }
}

/// The drawing of the `k` top rows: for each row from the top, its exit line and its node
/// line, every line ended by a newline except the very last of the map.
pub open spec fn map_text<H: MapHighlighter>(grid: Seq<Seq<Option<Node>>>, highlighter: &H, k: int) -> Seq<char>
    decreases k,
{
    if k <= 0 {
        Seq::empty()
    } else {
        let r = ROW_COUNT - k;
        let before = map_text(grid, highlighter, k - 1);
        let separator = if k > 1 { seq!['\n'] } else { Seq::empty() };
        before + separator + exit_line(grid[r], COLUMN_COUNT as int) + seq!['\n']
            + node_line(grid[r], highlighter, r as usize, COLUMN_COUNT as int)
    }
}

/// A string holding the characters (`String::from_iter`).
#[verifier::external_body]
fn chars_to_string(chars: &Vec<char>) -> (r: String)
    ensures
        r@ == chars@,
{
    chars.iter().collect()
}

impl ActMap {
    /// The rows of the map, the first at the bottom.
    pub closed spec fn rows(&self) -> Seq<Seq<Option<Node>>> {
        grid_view(self.grid@)
    }

    /// Every map has `ROW_COUNT` rows of `COLUMN_COUNT` places.
    pub closed spec fn wf(&self) -> bool {
        is_map_grid(grid_view(self.grid@))
    }

    /// A map with the given rows, the first at the bottom.
    pub fn new(grid: Vec<Vec<Option<Node>>>) -> (r: ActMap)
        requires
            is_map_grid(grid_view(grid@)),
        ensures
            r.wf(),
            r.rows() == grid_view(grid@),
    {
        ActMap { grid }
    }

    /// The node at a place, if any.
    pub fn node(&self, row_index: RowIndex, column_index: ColumnIndex) -> (r: Option<Node>)
        requires
            self.wf(),
            row_index < ROW_COUNT,
            column_index < COLUMN_COUNT,
        ensures
            r == self.rows()[row_index as int][column_index as int],
    {
        assert(grid_view(self.grid@)[row_index as int] == self.grid@[row_index as int]@);
        self.grid[row_index][column_index]
    }

    /// The map drawn as text, with no place marked.
    pub fn to_string(&self) -> (r: String)
        requires
            self.wf(),
        ensures
            r@ == map_text(self.rows(), &NoHighlighter, ROW_COUNT as int),
    {
        self.to_string_with_highlighter(NoHighlighter)
    }

    /// The map drawn as text: for each row from the top, a line of exits and a line of rooms,
    /// each room framed by the highlighter's marks.
    pub fn to_string_with_highlighter<H: MapHighlighter>(&self, highlighter: H) -> (r: String)
        requires
            self.wf(),
        ensures
            r@ == map_text(self.rows(), &highlighter, ROW_COUNT as int),
    {
        let mut out: Vec<char> = Vec::new();
        let mut k: usize = 0;
        while k < ROW_COUNT
            invariant
                k <= ROW_COUNT,
                self.wf(),
                out@ == map_text(self.rows(), &highlighter, k as int),
            decreases ROW_COUNT - k,
        {
            let r = ROW_COUNT - 1 - k;
            let ghost before = out@;
            let ghost row = self.rows()[r as int];
            assert(self.grid@[r as int]@ == row);
            assert(row.len() == COLUMN_COUNT);
            if k > 0 {
                out.push('\n');
            }
            let ghost with_separator = out@;
            let mut c: usize = 0;
            while c < COLUMN_COUNT
                invariant
                    c <= COLUMN_COUNT,
                    r < ROW_COUNT,
                    self.wf(),
                    row == self.rows()[r as int],
                    row.len() == COLUMN_COUNT,
                    out@ == with_separator + exit_line(row, c as int),
                decreases COLUMN_COUNT - c,
            {
                let place = self.grid[r][c];
                assert(place == row[c as int]);
                match place {
                    Some(node) => {
                        out.push(if node.exit_bits.contains(ExitBits::left()) { '\\' } else { ' ' });
                        out.push(if node.exit_bits.contains(ExitBits::up()) { '|' } else { ' ' });
                        out.push(if node.exit_bits.contains(ExitBits::right()) { '/' } else { ' ' });
                    },
                    None => {
                        out.push(' ');
                        out.push(' ');
                        out.push(' ');
                    },
                }
                assert(out@ == with_separator + exit_line(row, c as int + 1));
                c = c + 1;
            }
            out.push('\n');
            let ghost with_exits = out@;
            let mut c: usize = 0;
            while c < COLUMN_COUNT
                invariant
                    c <= COLUMN_COUNT,
                    r < ROW_COUNT,
                    self.wf(),
                    row == self.rows()[r as int],
                    row.len() == COLUMN_COUNT,
                    out@ == with_exits + node_line(row, &highlighter, r, c as int),
                decreases COLUMN_COUNT - c,
            {
                let place = self.grid[r][c];
                assert(place == row[c as int]);
                match place {
                    Some(node) => {
                        out.push(highlighter.left(r, c));
                        out.push(room_char(node.room));
                        out.push(highlighter.right(r, c));
                    },
                    None => {
                        out.push(' ');
                        out.push(' ');
                        out.push(' ');
                    },
                }
                assert(out@ == with_exits + node_line(row, &highlighter, r, c as int + 1));
                c = c + 1;
            }
            proof {
                let sep = if k > 0 { seq!['\n'] } else { Seq::<char>::empty() };
                assert(with_separator == before + sep);
                assert(out@ == before + sep + exit_line(row, COLUMN_COUNT as int) + seq!['\n']
                    + node_line(row, &highlighter, r, COLUMN_COUNT as int));
            }
            k = k + 1;
        }
        chars_to_string(&out)
    }
}

} // verus!
