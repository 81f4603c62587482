use vstd::prelude::*;

use crate::components::map::{grid_view, is_map_grid, left_bit, right_bit, up_bit, ActMap, ExitBits, Node, COLUMN_COUNT, COLUMN_MAX, ROW_COUNT};
use crate::data::Room;
use crate::types::{ColumnIndex, RowIndex};

use super::node_builder::{is_greatest, is_least, NodeBuilder, NodeBuilderView};

verus! {

/// A map under construction: `ROW_COUNT` rows of `COLUMN_COUNT` places, each empty or holding
/// a node under construction.
#[derive(Debug)]
pub struct NodeBuilderGrid {
    grid: Vec<Vec<Option<NodeBuilder>>>,
}

/// A place seen abstractly.
pub open spec fn place_view(place: Option<NodeBuilder>) -> Option<NodeBuilderView> {
    match place {
        Some(node) => Some(node@),
        None => None,
    }
}

/// The places of a row seen abstractly.
pub open spec fn row_view(row: Vec<Option<NodeBuilder>>) -> Seq<Option<NodeBuilderView>> {
    row@.map_values(|p: Option<NodeBuilder>| place_view(p))
}

/// Whether the place holds a node with every exit of `exit`.
pub open spec fn place_has_exit(place: Option<NodeBuilderView>, exit: u8) -> bool {
    place matches Some(n) && n.exits & exit == exit
}

/// Whether the place holds a node whose room is `room`.
pub open spec fn place_has_room(place: Option<NodeBuilderView>, room: Room) -> bool {
    place matches Some(n) && n.room == Some(room)
}

/// A node added at an empty place, or the node already there.
pub open spec fn or_new(place: Option<NodeBuilderView>) -> NodeBuilderView {
    match place {
        Some(n) => n,
        None => NodeBuilderView { room: None, exits: 0, parents: Seq::empty() },
    }
}

/// The number of places holding a node with no room yet among the first `n` places of a row.
pub open spec fn unassigned_in_row(row: Seq<Option<NodeBuilderView>>, n: int) -> nat
    decreases n,
{
    if n <= 0 {
        0
    } else {
        unassigned_in_row(row, n - 1) + if row[n - 1] matches Some(node) && node.room is None { 1nat } else { 0nat }
    }
}

/// The number of places holding a node among the first `n` places of a row.
pub open spec fn nonempty_in_row(row: Seq<Option<NodeBuilderView>>, n: int) -> nat
    decreases n,
{
    if n <= 0 {
        0
    } else {
        nonempty_in_row(row, n - 1) + if row[n - 1] is Some { 1nat } else { 0nat }
    }
}

/// The number of places with an unassigned node in the first `k` rows.
pub open spec fn unassigned_in_rows(places: Seq<Seq<Option<NodeBuilderView>>>, k: int) -> nat
    decreases k,
{
    if k <= 0 { 0 } else { unassigned_in_rows(places, k - 1) + unassigned_in_row(places[k - 1], COLUMN_COUNT as int) }
}

/// The number of nodes in the first `k` rows, leaving out the row below the top one.
pub open spec fn almost_total_in_rows(places: Seq<Seq<Option<NodeBuilderView>>>, k: int) -> nat
    decreases k,
{
    if k <= 0 {
        0
    } else {
        almost_total_in_rows(places, k - 1) + if k - 1 == ROW_COUNT - 2 { 0nat } else { nonempty_in_row(places[k - 1], COLUMN_COUNT as int) }
    }
}

/// The columns of the first `n` places of a row that hold a node, in order.
pub open spec fn nonempty_columns(row: Seq<Option<NodeBuilderView>>, n: int) -> Seq<ColumnIndex>
    decreases n,
{
    if n <= 0 {
        Seq::empty()
    } else if row[n - 1] is Some {
        nonempty_columns(row, n - 1).push((n - 1) as usize)
    } else {
        nonempty_columns(row, n - 1)
    }
}

/// The node below and to the left connects up to the place when it has the right exit.
pub open spec fn down_left_parent(places: Seq<Seq<Option<NodeBuilderView>>>, r: int, c: int) -> Option<NodeBuilderView> {
    if c > 0 && place_has_exit(places[r - 1][c - 1], right_bit()) { places[r - 1][c - 1] } else { None }
}

/// The node below connects up to the place when it has the up exit.
pub open spec fn down_parent(places: Seq<Seq<Option<NodeBuilderView>>>, r: int, c: int) -> Option<NodeBuilderView> {
    if place_has_exit(places[r - 1][c], up_bit()) { places[r - 1][c] } else { None }
}

/// The node below and to the right connects up to the place when it has the left exit.
pub open spec fn down_right_parent(places: Seq<Seq<Option<NodeBuilderView>>>, r: int, c: int) -> Option<NodeBuilderView> {
    if c < COLUMN_MAX && place_has_exit(places[r - 1][c + 1], left_bit()) { places[r - 1][c + 1] } else { None }
}

/// Whether the node at a place has a child, through one of its exits, with the room.
pub open spec fn child_has_room(places: Seq<Seq<Option<NodeBuilderView>>>, r: int, c: int, room: Room) -> bool {
    ||| place_has_exit(places[r][c], left_bit()) && place_has_room(places[r + 1][c - 1], room)
    ||| place_has_exit(places[r][c], up_bit()) && place_has_room(places[r + 1][c], room)
    ||| place_has_exit(places[r][c], right_bit()) && place_has_room(places[r + 1][c + 1], room)
}

/// The exits of the node at a place stay on the map: none to the left in the first column,
/// none to the right in the last.
pub open spec fn exits_stay_on_map(places: Seq<Seq<Option<NodeBuilderView>>>, r: int, c: int) -> bool {
    &&& c == 0 ==> !place_has_exit(places[r][c], left_bit())
    &&& c == COLUMN_MAX ==> !place_has_exit(places[r][c], right_bit())
}

impl NodeBuilderGrid {
    /// The places, row by row from the bottom.
    pub closed spec fn places(&self) -> Seq<Seq<Option<NodeBuilderView>>> {
        self.grid@.map_values(|row: Vec<Option<NodeBuilder>>| row_view(row))
    }

    /// `ROW_COUNT` rows of `COLUMN_COUNT` places.
    pub closed spec fn wf(&self) -> bool {
        &&& self.grid@.len() == ROW_COUNT
        &&& forall|r: int| 0 <= r < ROW_COUNT ==> #[trigger] self.grid@[r]@.len() == COLUMN_COUNT
    }

    /// The shape of the places follows from well-formedness.
    pub proof fn lemma_places_shape(&self)
        requires
            self.wf(),
        ensures
            self.places().len() == ROW_COUNT,
            forall|r: int| 0 <= r < ROW_COUNT ==> #[trigger] self.places()[r].len() == COLUMN_COUNT,
    {
        assert forall|r: int| 0 <= r < ROW_COUNT implies #[trigger] self.places()[r].len() == COLUMN_COUNT by {
            assert(self.places()[r] == row_view(self.grid@[r]));
        }
    }

    /// An empty grid.
    pub fn new() -> (r: NodeBuilderGrid)
        ensures
            r.wf(),
            forall|i: int, j: int| 0 <= i < ROW_COUNT && 0 <= j < COLUMN_COUNT ==> #[trigger] r.places()[i][j] is None,
    {
        let mut grid: Vec<Vec<Option<NodeBuilder>>> = Vec::new();
        let mut i: usize = 0;
        while i < ROW_COUNT
            invariant
                i <= ROW_COUNT,
                grid@.len() == i,
                forall|k: int| 0 <= k < i ==> #[trigger] grid@[k]@.len() == COLUMN_COUNT,
                forall|k: int, j: int| 0 <= k < i && 0 <= j < COLUMN_COUNT ==> #[trigger] grid@[k]@[j] is None,
            decreases ROW_COUNT - i,
        {
            let mut row: Vec<Option<NodeBuilder>> = Vec::new();
            let mut j: usize = 0;
            while j < COLUMN_COUNT
                invariant
                    j <= COLUMN_COUNT,
                    row@.len() == j,
                    forall|m: int| 0 <= m < j ==> #[trigger] row@[m] is None,
                decreases COLUMN_COUNT - j,
            {
                row.push(None);
                j = j + 1;
            }
            grid.push(row);
            i = i + 1;
        }
        let r = NodeBuilderGrid { grid };
        proof {
            assert forall|i: int, j: int| 0 <= i < ROW_COUNT && 0 <= j < COLUMN_COUNT implies #[trigger] r.places()[i][j] is None by {
                assert(r.places()[i] == row_view(r.grid@[i]));
                assert(r.grid@[i]@[j] is None);
            }
        }
        r
    }

    /// Takes the node at a place, leaving it empty.
    pub fn remove(&mut self, row_index: RowIndex, column_index: ColumnIndex) -> (r: Option<NodeBuilder>)
        requires
            old(self).wf(),
            row_index < ROW_COUNT,
            column_index < COLUMN_COUNT,
        ensures
            final(self).wf(),
            place_view(r) == old(self).places()[row_index as int][column_index as int],
            final(self).places() == old(self).places().update(row_index as int,
                old(self).places()[row_index as int].update(column_index as int, None)),
    {
        let mut row = self.grid.remove(row_index);
        let taken = row.remove(column_index);
        row.insert(column_index, None);
        self.grid.insert(row_index, row);
        proof {
            assert(old(self).places()[row_index as int] == row_view(old(self).grid@[row_index as int]));
            assert(row_view(row) =~= old(self).places()[row_index as int].update(column_index as int, None));
            assert(self.places() =~= old(self).places().update(row_index as int,
                old(self).places()[row_index as int].update(column_index as int, None)));
            assert forall|r: int| 0 <= r < ROW_COUNT implies #[trigger] self.grid@[r]@.len() == COLUMN_COUNT by {
                if r != row_index as int {
                    assert(self.grid@[r] == old(self).grid@[r]);
                }
            }
        }
        taken
    }

    /// Puts a node (or nothing) at an empty place.
    fn put(&mut self, row_index: RowIndex, column_index: ColumnIndex, place: Option<NodeBuilder>)
        requires
            old(self).wf(),
            row_index < ROW_COUNT,
            column_index < COLUMN_COUNT,
        ensures
            final(self).wf(),
            final(self).places() == old(self).places().update(row_index as int,
                old(self).places()[row_index as int].update(column_index as int, place_view(place))),
    {
        let mut row = self.grid.remove(row_index);
        let _ = row.remove(column_index);
        row.insert(column_index, place);
        self.grid.insert(row_index, row);
        proof {
            assert(old(self).places()[row_index as int] == row_view(old(self).grid@[row_index as int]));
            assert(row_view(row) =~= old(self).places()[row_index as int].update(column_index as int, place_view(place)));
            assert(self.places() =~= old(self).places().update(row_index as int,
                old(self).places()[row_index as int].update(column_index as int, place_view(place))));
            assert forall|r: int| 0 <= r < ROW_COUNT implies #[trigger] self.grid@[r]@.len() == COLUMN_COUNT by {
                if r != row_index as int {
                    assert(self.grid@[r] == old(self).grid@[r]);
                }
            }
        }
    }

    /// The node at a place, added when the place is empty; the place is emptied while the node
    /// is handed out.
    fn take_or_new(&mut self, row_index: RowIndex, column_index: ColumnIndex) -> (r: NodeBuilder)
        requires
            old(self).wf(),
            row_index < ROW_COUNT,
            column_index < COLUMN_COUNT,
        ensures
            final(self).wf(),
            r@ == or_new(old(self).places()[row_index as int][column_index as int]),
            final(self).places() == old(self).places().update(row_index as int,
                old(self).places()[row_index as int].update(column_index as int, None)),
    {
        match self.remove(row_index, column_index) {
            Some(node) => node,
            None => NodeBuilder::new(),
        }
    }

    /// The columns of the row that hold a node, in order.
    pub fn nonempty_columns_for_row(&self, row_index: RowIndex) -> (r: Vec<ColumnIndex>)
        requires
            self.wf(),
            row_index < ROW_COUNT,
        ensures
            r@ == nonempty_columns(self.places()[row_index as int], COLUMN_COUNT as int),
    {
        let row = &self.grid[row_index];
        let ghost places_row = self.places()[row_index as int];
        assert(places_row == row_view(self.grid@[row_index as int]));
        let mut r: Vec<ColumnIndex> = Vec::new();
        let mut c: usize = 0;
        while c < COLUMN_COUNT
            invariant
                c <= COLUMN_COUNT,
                row@.len() == COLUMN_COUNT,
                places_row == row_view(*row),
                r@ == nonempty_columns(places_row, c as int),
            decreases COLUMN_COUNT - c,
        {
            assert(places_row[c as int] == place_view(row@[c as int]));
            if row[c].is_some() {
                r.push(c);
            }
            c = c + 1;
        }
        r
    }

    /// Assigns `room` to every node of the row.
    pub fn set_all_rooms_in_row(&mut self, row_index: RowIndex, room: Room)
        requires
            old(self).wf(),
            row_index < ROW_COUNT,
        ensures
            final(self).wf(),
            final(self).places().len() == ROW_COUNT,
            forall|r: int| 0 <= r < ROW_COUNT && r != row_index ==> #[trigger] final(self).places()[r] == old(self).places()[r],
            final(self).places()[row_index as int].len() == COLUMN_COUNT,
            forall|c: int| 0 <= c < COLUMN_COUNT ==> #[trigger] final(self).places()[row_index as int][c] == match old(self).places()[row_index as int][c] {
                Some(n) => Some(NodeBuilderView { room: Some(room), ..n }),
                None => None,
            },
    {
        proof { self.lemma_places_shape(); }
        let mut c: usize = 0;
        while c < COLUMN_COUNT
            invariant
                c <= COLUMN_COUNT,
                row_index < ROW_COUNT,
                self.wf(),
                old(self).wf(),
                self.places().len() == ROW_COUNT,
                old(self).places().len() == ROW_COUNT,
                old(self).places()[row_index as int].len() == COLUMN_COUNT,
                self.places()[row_index as int].len() == COLUMN_COUNT,
                forall|r: int| 0 <= r < ROW_COUNT && r != row_index ==> #[trigger] self.places()[r] == old(self).places()[r],
                forall|k: int| 0 <= k < c ==> #[trigger] self.places()[row_index as int][k] == match old(self).places()[row_index as int][k] {
                    Some(n) => Some(NodeBuilderView { room: Some(room), ..n }),
                    None => None,
                },
                forall|k: int| c <= k < COLUMN_COUNT ==> #[trigger] self.places()[row_index as int][k] == old(self).places()[row_index as int][k],
            decreases COLUMN_COUNT - c,
        {
            let taken = self.remove(row_index, c);
            let updated = match taken {
                Some(mut node) => {
                    node.assign_room(room);
                    Some(node)
                },
                None => None,
            };
            self.put(row_index, c, updated);
            c = c + 1;
        }
    }

    /// Assigns `room` to the node at a place, adding a node when the place is empty.
    pub fn set_room(&mut self, row_index: RowIndex, column_index: ColumnIndex, room: Room)
        requires
            old(self).wf(),
            row_index < ROW_COUNT,
            column_index < COLUMN_COUNT,
        ensures
            final(self).wf(),
            final(self).places() == old(self).places().update(row_index as int,
                old(self).places()[row_index as int].update(column_index as int,
                    Some(NodeBuilderView { room: Some(room), ..or_new(old(self).places()[row_index as int][column_index as int]) }))),
    {
        let mut node = self.take_or_new(row_index, column_index);
        node.assign_room(room);
        self.put(row_index, column_index, Some(node));
        proof {
            let p = old(self).places();
            old(self).lemma_places_shape();
            assert(p[row_index as int].update(column_index as int, None).update(column_index as int, Some(node@))
                =~= p[row_index as int].update(column_index as int, Some(node@)));
            assert(p.update(row_index as int, p[row_index as int].update(column_index as int, None)).update(row_index as int,
                p.update(row_index as int, p[row_index as int].update(column_index as int, None))[row_index as int].update(column_index as int, Some(node@)))
                =~= p.update(row_index as int, p[row_index as int].update(column_index as int, Some(node@))));
        }
    }

    /// Records the parent column of the node at a place, adding a node when the place is empty.
    pub fn receord_parent_column(&mut self, row_index: RowIndex, column_index: ColumnIndex, parent_column_index: ColumnIndex)
        requires
            old(self).wf(),
            row_index < ROW_COUNT,
            column_index < COLUMN_COUNT,
        ensures
            final(self).wf(),
            ({
                let n = or_new(old(self).places()[row_index as int][column_index as int]);
                final(self).places() == old(self).places().update(row_index as int,
                    old(self).places()[row_index as int].update(column_index as int,
                        Some(NodeBuilderView { parents: n.parents.push(parent_column_index), ..n })))
            }),
    {
        let mut node = self.take_or_new(row_index, column_index);
        node.record_parent_column(parent_column_index);
        self.put(row_index, column_index, Some(node));
        proof {
            let p = old(self).places();
            old(self).lemma_places_shape();
            assert(p[row_index as int].update(column_index as int, None).update(column_index as int, Some(node@))
                =~= p[row_index as int].update(column_index as int, Some(node@)));
            assert(p.update(row_index as int, p[row_index as int].update(column_index as int, None)).update(row_index as int,
                p.update(row_index as int, p[row_index as int].update(column_index as int, None))[row_index as int].update(column_index as int, Some(node@)))
                =~= p.update(row_index as int, p[row_index as int].update(column_index as int, Some(node@))));
        }
    }

    /// Adds the exits to the node at a place, adding a node when the place is empty.
    pub fn add_exit(&mut self, row_index: RowIndex, column_index: ColumnIndex, exit: ExitBits)
        requires
            old(self).wf(),
            row_index < ROW_COUNT,
            column_index < COLUMN_COUNT,
        ensures
            final(self).wf(),
            ({
                let n = or_new(old(self).places()[row_index as int][column_index as int]);
                final(self).places() == old(self).places().update(row_index as int,
                    old(self).places()[row_index as int].update(column_index as int,
                        Some(NodeBuilderView { exits: n.exits | exit@, ..n })))
            }),
    {
        let mut node = self.take_or_new(row_index, column_index);
        node.add_exit(exit);
        self.put(row_index, column_index, Some(node));
        proof {
            let p = old(self).places();
            old(self).lemma_places_shape();
            assert(p[row_index as int].update(column_index as int, None).update(column_index as int, Some(node@))
                =~= p[row_index as int].update(column_index as int, Some(node@)));
            assert(p.update(row_index as int, p[row_index as int].update(column_index as int, None)).update(row_index as int,
                p.update(row_index as int, p[row_index as int].update(column_index as int, None))[row_index as int].update(column_index as int, Some(node@)))
                =~= p.update(row_index as int, p[row_index as int].update(column_index as int, Some(node@))));
        }
    }

    /// Whether the place holds a node with every exit of `exit`.
    pub fn has_exit(&self, row_index: RowIndex, column_index: ColumnIndex, exit: ExitBits) -> (r: bool)
        requires
            self.wf(),
            row_index < ROW_COUNT,
            column_index < COLUMN_COUNT,
        ensures
            r == place_has_exit(self.places()[row_index as int][column_index as int], exit@),
    {
        assert(self.places()[row_index as int] == row_view(self.grid@[row_index as int]));
        match &self.grid[row_index][column_index] {
            Some(node) => node.has_exit(exit),
            None => false,
        }
    }

    /// Whether the place holds a node whose room is `room`.
    fn has_room(&self, row_index: RowIndex, column_index: ColumnIndex, room: Room) -> (r: bool)
        requires
            self.wf(),
            row_index < ROW_COUNT,
            column_index < COLUMN_COUNT,
        ensures
            r == place_has_room(self.places()[row_index as int][column_index as int], room),
    {
        assert(self.places()[row_index as int] == row_view(self.grid@[row_index as int]));
        match &self.grid[row_index][column_index] {
            Some(node) => node.room() == Some(room),
            None => false,
        }
    }

    /// Whether a node connected below the place (down-left, down, or down-right) has the room.
    pub fn has_parent_room_of(&self, row_index: RowIndex, column_index: ColumnIndex, room: Room) -> (r: bool)
        requires
            self.wf(),
            row_index < ROW_COUNT,
            column_index < COLUMN_COUNT,
        ensures
            r == (row_index > 0 && (
                place_has_room(down_left_parent(self.places(), row_index as int, column_index as int), room)
                || place_has_room(down_parent(self.places(), row_index as int, column_index as int), room)
                || place_has_room(down_right_parent(self.places(), row_index as int, column_index as int), room))),
    {
        if row_index == 0 {
            return false;
        }
        let below = row_index - 1;
        (column_index > 0 && self.has_exit(below, column_index - 1, ExitBits::right()) && self.has_room(below, column_index - 1, room))
            || (self.has_exit(below, column_index, ExitBits::up()) && self.has_room(below, column_index, room))
            || (column_index < COLUMN_MAX && self.has_exit(below, column_index + 1, ExitBits::left())
                && self.has_room(below, column_index + 1, room))
    }

    /// Whether the node at a place has a child, through one of its exits, with the room.
    fn has_child_room_of(&self, row_index: RowIndex, column_index: ColumnIndex, room: Room) -> (r: bool)
        requires
            self.wf(),
            row_index + 1 < ROW_COUNT,
            column_index < COLUMN_COUNT,
            exits_stay_on_map(self.places(), row_index as int, column_index as int),
        ensures
            r == child_has_room(self.places(), row_index as int, column_index as int, room),
    {
        proof { self.lemma_places_shape(); }
        (self.has_exit(row_index, column_index, ExitBits::left()) && self.has_room(row_index + 1, column_index - 1, room))
            || (self.has_exit(row_index, column_index, ExitBits::up()) && self.has_room(row_index + 1, column_index, room))
            || (self.has_exit(row_index, column_index, ExitBits::right()) && self.has_room(row_index + 1, column_index + 1, room))
    }

    /// Whether the place shares a parent (down-left or down) with another node that has the
    /// room: the parent has a child with the room.
    pub fn has_left_sibling_room_of(&self, row_index: RowIndex, column_index: ColumnIndex, room: Room) -> (r: bool)
        requires
            self.wf(),
            0 < row_index < ROW_COUNT,
            column_index < COLUMN_COUNT,
            column_index > 0 ==> exits_stay_on_map(self.places(), row_index - 1, column_index - 1),
            exits_stay_on_map(self.places(), row_index - 1, column_index as int),
        ensures
            r == ((down_left_parent(self.places(), row_index as int, column_index as int) is Some
                    && child_has_room(self.places(), row_index - 1, column_index - 1, room))
                || (down_parent(self.places(), row_index as int, column_index as int) is Some
                    && child_has_room(self.places(), row_index - 1, column_index as int, room))),
    {
        let below = row_index - 1;
        (column_index > 0 && self.has_exit(below, column_index - 1, ExitBits::right())
            && self.has_child_room_of(below, column_index - 1, room))
            || (self.has_exit(below, column_index, ExitBits::up()) && self.has_child_room_of(below, column_index, room))
    }

    /// The recorded parent columns of the node at a place (none when the place is empty).
    pub fn recorded_parent_columns_iter(&self, row_index: RowIndex, column_index: ColumnIndex) -> (r: Vec<ColumnIndex>)
        requires
            self.wf(),
            row_index < ROW_COUNT,
            column_index < COLUMN_COUNT,
        ensures
            r@ == match self.places()[row_index as int][column_index as int] {
                Some(n) => n.parents,
                None => Seq::empty(),
            },
    {
        assert(self.places()[row_index as int] == row_view(self.grid@[row_index as int]));
        match &self.grid[row_index][column_index] {
            Some(node) => crate::player::message::slice_to_vec(node.recorded_parent_columns_iter()),
            None => Vec::new(),
        }
    }

    /// Whether two nodes of a row share a parent, as the game decides it: the comparison uses
    /// the row index where the other node's column was meant, so most cases are missed.
    pub fn buggy_implementation_of_shares_parent_with(
        &self,
        row_index: RowIndex,
        my_column_index: ColumnIndex,
        other_column_index: usize,
    ) -> (r: bool)
        requires
            self.wf(),
            row_index < ROW_COUNT,
            my_column_index < COLUMN_COUNT,
            other_column_index < COLUMN_COUNT,
        ensures
            r == match (self.places()[row_index as int][my_column_index as int], self.places()[row_index as int][other_column_index as int]) {
                (Some(mine), Some(other)) => if other_column_index >= row_index {
                    (mine.parents.len() == 0 && other.parents.len() == 0)
                        || (mine.parents.len() > 0 && other.parents.len() > 0 && exists|m: ColumnIndex|
                            is_greatest(mine.parents, m) && is_least(other.parents, m))
                } else {
                    (mine.parents.len() == 0 && other.parents.len() == 0)
                        || (mine.parents.len() > 0 && other.parents.len() > 0 && exists|m: ColumnIndex|
                            is_greatest(other.parents, m) && is_least(mine.parents, m))
                },
                _ => false,
            },
    {
        assert(self.places()[row_index as int] == row_view(self.grid@[row_index as int]));
        match (&self.grid[row_index][my_column_index], &self.grid[row_index][other_column_index]) {
            (Some(my_node), Some(other_node)) => {
                if other_column_index >= row_index {
                    let a = my_node.rightmost_recorded_parent_column();
                    let b = other_node.leftmost_recorded_parent_column();
                    proof { lemma_extremes_unique(my_node@.parents, other_node@.parents); }
                    a == b
                } else {
                    let a = other_node.rightmost_recorded_parent_column();
                    let b = my_node.leftmost_recorded_parent_column();
                    proof { lemma_extremes_unique(other_node@.parents, my_node@.parents); }
                    a == b
                }
            },
            _ => false,
        }
    }

    /// The number of nodes still waiting for a room.
    pub fn unassigned_room_count(&self) -> (r: usize)
        requires
            self.wf(),
        ensures
            r == unassigned_in_rows(self.places(), ROW_COUNT as int),
    {
        proof { self.lemma_places_shape(); }
        let mut count: usize = 0;
        let mut i: usize = 0;
        while i < ROW_COUNT
            invariant
                i <= ROW_COUNT,
                self.wf(),
                self.places().len() == ROW_COUNT,
                count == unassigned_in_rows(self.places(), i as int),
                count <= i * COLUMN_COUNT,
            decreases ROW_COUNT - i,
        {
            let row = &self.grid[i];
            let ghost places_row = self.places()[i as int];
            assert(places_row == row_view(self.grid@[i as int]));
            let mut j: usize = 0;
            let ghost start = count;
            while j < COLUMN_COUNT
                invariant
                    j <= COLUMN_COUNT,
                    row@.len() == COLUMN_COUNT,
                    places_row == row_view(*row),
                    count == start + unassigned_in_row(places_row, j as int),
                    start <= i * COLUMN_COUNT,
                    i < ROW_COUNT,
                    unassigned_in_row(places_row, j as int) <= j,
                decreases COLUMN_COUNT - j,
            {
                assert(places_row[j as int] == place_view(row@[j as int]));
                match &row[j] {
                    Some(node) => {
                        if node.room().is_none() {
                            count = count + 1;
                        }
                    },
                    None => {},
                }
                j = j + 1;
            }
            i = i + 1;
        }
        count
    }

    /// The number of nodes, leaving out those of the row below the top one (the game makes the
    /// same mistake).
    pub fn room_almost_total(&self) -> (r: usize)
        requires
            self.wf(),
        ensures
            r == almost_total_in_rows(self.places(), ROW_COUNT as int),
    {
        proof { self.lemma_places_shape(); }
        let mut count: usize = 0;
        let mut i: usize = 0;
        while i < ROW_COUNT
            invariant
                i <= ROW_COUNT,
                self.wf(),
                self.places().len() == ROW_COUNT,
                count == almost_total_in_rows(self.places(), i as int),
                count <= i * COLUMN_COUNT,
            decreases ROW_COUNT - i,
        {
            let row = &self.grid[i];
            let ghost places_row = self.places()[i as int];
            assert(places_row == row_view(self.grid@[i as int]));
            if i != ROW_COUNT - 2 {
                let mut j: usize = 0;
                let ghost start = count;
                while j < COLUMN_COUNT
                    invariant
                        j <= COLUMN_COUNT,
                        row@.len() == COLUMN_COUNT,
                        places_row == row_view(*row),
                        count == start + nonempty_in_row(places_row, j as int),
                        start <= i * COLUMN_COUNT,
                        i < ROW_COUNT,
                        nonempty_in_row(places_row, j as int) <= j,
                    decreases COLUMN_COUNT - j,
                {
                    assert(places_row[j as int] == place_view(row@[j as int]));
                    if row[j].is_some() {
                        count = count + 1;
                    }
                    j = j + 1;
                }
            }
            i = i + 1;
        }
        count
    }

    /// The finished map: every node built (a monster room where none was assigned), empty
    /// places left empty.
    pub fn into_map(self) -> (r: ActMap)
        requires
            self.wf(),
        ensures
            r.wf(),
            forall|i: int, j: int| 0 <= i < ROW_COUNT && 0 <= j < COLUMN_COUNT ==> #[trigger] r.rows()[i][j] == match self.places()[i][j] {
                Some(n) => Some(Node { room: match n.room { Some(room) => room, None => Room::Monster }, exit_bits: r.rows()[i][j]->0.exit_bits }),
                None => None::<Node>,
            },
            forall|i: int, j: int| 0 <= i < ROW_COUNT && 0 <= j < COLUMN_COUNT ==> (#[trigger] r.rows()[i][j] matches Some(node)
                ==> self.places()[i][j] matches Some(n) && node.exit_bits@ == n.exits),
    {
        proof { self.lemma_places_shape(); }
        let mut grid: Vec<Vec<Option<Node>>> = Vec::new();
        let mut i: usize = 0;
        while i < ROW_COUNT
            invariant
                i <= ROW_COUNT,
                self.wf(),
                self.places().len() == ROW_COUNT,
                grid@.len() == i,
                forall|k: int| 0 <= k < i ==> #[trigger] grid@[k]@.len() == COLUMN_COUNT,
                forall|k: int, j: int| 0 <= k < i && 0 <= j < COLUMN_COUNT ==> #[trigger] grid@[k]@[j] == match self.places()[k][j] {
                    Some(n) => Some(Node { room: match n.room { Some(room) => room, None => Room::Monster }, exit_bits: grid@[k]@[j]->0.exit_bits }),
                    None => None::<Node>,
                },
                forall|k: int, j: int| 0 <= k < i && 0 <= j < COLUMN_COUNT ==> (#[trigger] grid@[k]@[j] matches Some(node)
                    ==> self.places()[k][j] matches Some(n) && node.exit_bits@ == n.exits),
            decreases ROW_COUNT - i,
        {
            let row = &self.grid[i];
            let ghost places_row = self.places()[i as int];
            assert(places_row == row_view(self.grid@[i as int]));
            let mut built: Vec<Option<Node>> = Vec::new();
            let mut j: usize = 0;
            while j < COLUMN_COUNT
                invariant
                    j <= COLUMN_COUNT,
                    row@.len() == COLUMN_COUNT,
                    places_row == row_view(*row),
                    built@.len() == j,
                    forall|m: int| 0 <= m < j ==> #[trigger] built@[m] == match places_row[m] {
                        Some(n) => Some(Node { room: match n.room { Some(room) => room, None => Room::Monster }, exit_bits: built@[m]->0.exit_bits }),
                        None => None::<Node>,
                    },
                    forall|m: int| 0 <= m < j ==> (#[trigger] built@[m] matches Some(node)
                        ==> places_row[m] matches Some(n) && node.exit_bits@ == n.exits),
                decreases COLUMN_COUNT - j,
            {
                assert(places_row[j as int] == place_view(row@[j as int]));
                let place = match &row[j] {
                    Some(node) => Some(node.build()),
                    None => None,
                };
                built.push(place);
                j = j + 1;
            }
            grid.push(built);
            i = i + 1;
        }
        proof {
            assert forall|r: int| 0 <= r < grid_view(grid@).len() implies #[trigger] grid_view(grid@)[r].len() == COLUMN_COUNT by {
                assert(grid_view(grid@)[r] == grid@[r]@);
            }
        }
        let r = ActMap::new(grid);
        proof {
            assert forall|i: int, j: int| 0 <= i < ROW_COUNT && 0 <= j < COLUMN_COUNT implies #[trigger] r.rows()[i][j] == grid@[i]@[j] by {
                assert(r.rows()[i] == grid@[i]@);
            }
        }
        r
    }
}

/// The greatest of one sequence equals the least of another exactly when some column is both.
proof fn lemma_extremes_unique(a: Seq<ColumnIndex>, b: Seq<ColumnIndex>)
    ensures
        forall|x: ColumnIndex, y: ColumnIndex| is_greatest(a, x) && is_greatest(a, y) ==> x == y,
        forall|x: ColumnIndex, y: ColumnIndex| is_least(b, x) && is_least(b, y) ==> x == y,
{
    assert forall|x: ColumnIndex, y: ColumnIndex| is_greatest(a, x) && is_greatest(a, y) implies x == y by {
        let i = choose|i: int| 0 <= i < a.len() && a[i] == x;
        let j = choose|j: int| 0 <= j < a.len() && a[j] == y;
        assert(a[i] <= y);
        assert(a[j] <= x);
    }
    assert forall|x: ColumnIndex, y: ColumnIndex| is_least(b, x) && is_least(b, y) implies x == y by {
        let i = choose|i: int| 0 <= i < b.len() && b[i] == x;
        let j = choose|j: int| 0 <= j < b.len() && b[j] == y;
        assert(y <= b[i]);
        assert(x <= b[j]);
    }
}

} // verus!
