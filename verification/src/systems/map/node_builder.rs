use vstd::prelude::*;

use crate::components::map::{ExitBits, Node};
use crate::data::Room;
use crate::types::ColumnIndex;

verus! {

/// How many paths are drawn through a map.
pub const PATH_DENSITY: usize = 6;

/// A node of a map under construction: its room once assigned, its exits, and the columns of
/// the parents it was reached from (in the order recorded, possibly repeated; the game's
/// path generation depends on them).
#[derive(Debug)]
pub struct NodeBuilder {
    pub room: Option<Room>,
    exit_bits: ExitBits,
    recorded_parent_columns: Vec<ColumnIndex>,
}

/// The abstract state of a node under construction.
pub struct NodeBuilderView {
    pub room: Option<Room>,
    pub exits: u8,
    pub parents: Seq<ColumnIndex>,
}

impl View for NodeBuilder {
    type V = NodeBuilderView;

    closed spec fn view(&self) -> NodeBuilderView {
        NodeBuilderView { room: self.room, exits: self.exit_bits@, parents: self.recorded_parent_columns@ }
    }
}

/// Whether `m` is the least of the non-empty `s`.
pub open spec fn is_least(s: Seq<ColumnIndex>, m: ColumnIndex) -> bool {
    s.contains(m) && forall|i: int| 0 <= i < s.len() ==> m <= #[trigger] s[i]
}

/// Whether `m` is the greatest of the non-empty `s`.
pub open spec fn is_greatest(s: Seq<ColumnIndex>, m: ColumnIndex) -> bool {
    s.contains(m) && forall|i: int| 0 <= i < s.len() ==> #[trigger] s[i] <= m
}

impl NodeBuilder {
    /// A node with no room, no exit and no recorded parent.
    pub fn new() -> (r: NodeBuilder)
        ensures
            r@.room is None,
            r@.exits == 0,
            r@.parents == Seq::<ColumnIndex>::empty(),
    {
        NodeBuilder { room: None, exit_bits: ExitBits::empty(), recorded_parent_columns: Vec::new() }
    }

    /// Whether the node has every exit of `exit`.
    pub fn has_exit(&self, exit: ExitBits) -> (r: bool)
        ensures
            r == (self@.exits & exit@ == exit@),
    {
        self.exit_bits.contains(exit)
    }

    /// Adds the exits of `exit`.
    pub fn add_exit(&mut self, exit: ExitBits)
        ensures
            final(self)@.exits == old(self)@.exits | exit@,
            final(self)@.room == old(self)@.room,
            final(self)@.parents == old(self)@.parents,
    {
        self.exit_bits = self.exit_bits.union(exit);
    }

    /// The room, once assigned.
    pub fn room(&self) -> (r: Option<Room>)
        ensures
            r == self@.room,
    {
        self.room
    }

    /// Assigns the room.
    pub fn assign_room(&mut self, room: Room)
        ensures
            final(self)@ == (NodeBuilderView { room: Some(room), ..old(self)@ }),
    {
        self.room = Some(room);
    }

    /// Records that the node was reached from the parent in `parent_column_index`.
    pub fn record_parent_column(&mut self, parent_column_index: ColumnIndex)
        ensures
            final(self)@.parents == old(self)@.parents.push(parent_column_index),
            final(self)@.room == old(self)@.room,
            final(self)@.exits == old(self)@.exits,
    {
        self.recorded_parent_columns.push(parent_column_index);
    }

    /// The recorded parent columns, in the order recorded.
    pub fn recorded_parent_columns_iter(&self) -> (r: &[ColumnIndex])
        ensures
            r@ == self@.parents,
    {
        self.recorded_parent_columns.as_slice()
    }

    /// The least recorded parent column, if any was recorded.
    pub fn leftmost_recorded_parent_column(&self) -> (r: Option<ColumnIndex>)
        ensures
            r is None <==> self@.parents.len() == 0,
            r matches Some(m) ==> is_least(self@.parents, m),
    {
        let parents = &self.recorded_parent_columns;
        if parents.len() == 0 {
            return None;
        }
        let mut least = parents[0];
        assert(parents@[0] == least);
        let mut i: usize = 1;
        while i < parents.len()
            invariant
                1 <= i <= parents@.len(),
                exists|j: int| 0 <= j < i && parents@[j] == least,
                forall|k: int| 0 <= k < i ==> least <= #[trigger] parents@[k],
            decreases parents@.len() - i,
        {
            if parents[i] < least {
                least = parents[i];
                assert(parents@[i as int] == least);
            }
            i = i + 1;
        }
        Some(least)
    }

    /// The greatest recorded parent column, if any was recorded.
    pub fn rightmost_recorded_parent_column(&self) -> (r: Option<ColumnIndex>)
        ensures
            r is None <==> self@.parents.len() == 0,
            r matches Some(m) ==> is_greatest(self@.parents, m),
    {
        let parents = &self.recorded_parent_columns;
        if parents.len() == 0 {
            return None;
        }
        let mut greatest = parents[0];
        assert(parents@[0] == greatest);
        let mut i: usize = 1;
        while i < parents.len()
            invariant
                1 <= i <= parents@.len(),
                exists|j: int| 0 <= j < i && parents@[j] == greatest,
                forall|k: int| 0 <= k < i ==> #[trigger] parents@[k] <= greatest,
            decreases parents@.len() - i,
        {
            if parents[i] > greatest {
                greatest = parents[i];
                assert(parents@[i as int] == greatest);
            }
            i = i + 1;
        }
        Some(greatest)
    }

    /// The finished node: its room (a monster room when none was assigned) and its exits.
    pub fn build(&self) -> (r: Node)
        ensures
            r.room == (match self@.room { Some(room) => room, None => Room::Monster }),
            r.exit_bits@ == self@.exits,
    {
        let room = match self.room {
            Some(room) => room,
            None => Room::Monster,
        };
        Node::new(room, self.exit_bits)
    }

    /// The exits.
    pub fn exit_bits(&self) -> (r: ExitBits)
        ensures
            r@ == self@.exits,
    {
        self.exit_bits
    }
}

impl Default for NodeBuilder {
    fn default() -> (r: NodeBuilder)
        ensures
            r@.room is None,
            r@.exits == 0,
            r@.parents == Seq::<ColumnIndex>::empty(),
    {
        NodeBuilder::new()
    }
}

} // verus!
