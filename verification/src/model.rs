//! The entities of the world: items, rooms, exits, and the player.

use vstd::prelude::*;

verus! {

/// Whether a container item is currently open.  Non-container items do not
/// take part in the open/close state machine and stay `NotApplicable`.
#[derive(Clone, Copy, Debug, PartialEq, Eq, Structural)]
pub enum OpenState {
    NotApplicable,
    Closed,
    Open,
}

/// A thing in the world.  Its location is determined by which list currently
/// holds it (a room's contents, the player's inventory or hand, or another
/// item's `contains`); the item itself carries no reference to its location.
pub struct Item {
    /// Identity, unique within whatever container currently holds the item.
    pub id: String,
    /// Long-form text shown when the item is examined.
    pub examine: String,
    /// Short description shown on room entry or in a listing.
    pub first_glance: String,
    /// Whether the item can hold other items.
    pub container: bool,
    /// Open/close state; meaningful only when `container` is true.
    pub open: OpenState,
    /// Text shown when the item transitions from closed to open.
    pub open_message: String,
    /// Text shown when the item transitions from open to closed.
    pub close_message: String,
    /// Nested contents; must stay empty when `container` is false.
    pub contains: Vec<Item>,
}

/// The player: an ordered inventory and a single-slot hand.
pub struct Player {
    pub inventory: Vec<Item>,
    pub hand: Option<Item>,
}

/// The four exit directions.
#[derive(Clone, Copy, Debug, PartialEq, Eq, Structural)]
pub enum Directions {
    North,
    East,
    South,
    West,
}

/// A directional edge from one room to another, naming the target room by
/// its id: a navigational reference only, never ownership.
pub struct Exit {
    pub direction: Directions,
    pub room: String,
}

/// A location in the world.  Rooms are created at world-build time; only
/// `contains` is mutated afterwards, by the transfer operations.
pub struct Room {
    pub id: String,
    pub first_glance: String,
    pub contains: Vec<Item>,
    pub exits: Vec<Exit>,
}

/// Well-formedness of a single item: an item that is not a container holds
/// nothing, at any depth of nesting.
pub open spec fn item_wf(i: Item) -> bool
    decreases i,
{
    &&& (!i.container ==> i.contains@.len() == 0)
    &&& (forall|k: int| 0 <= k < i.contains@.len() ==> item_wf(#[trigger] i.contains@[k]))
}

/// Well-formedness of every item in a sequence.
pub open spec fn items_wf(s: Seq<Item>) -> bool {
    forall|k: int| 0 <= k < s.len() ==> item_wf(#[trigger] s[k])
}

/// No two items of the sequence share an id.
pub open spec fn unique_ids(s: Seq<Item>) -> bool {
    forall|j: int, k: int| 0 <= j < k < s.len() ==> s[j].id@ != s[k].id@
}

/// Well-formedness of the player: every owned item is well-formed and
/// inventory ids are unique.
pub open spec fn player_wf(p: Player) -> bool {
    &&& items_wf(p.inventory@)
    &&& unique_ids(p.inventory@)
    &&& (p.hand is Some ==> item_wf(p.hand->0))
}

/// Well-formedness of a room: every item it owns is well-formed.
pub open spec fn room_wf(r: Room) -> bool {
    items_wf(r.contains@)
}

/// The line reported when an open or close request changes nothing.
pub open spec fn nothing_happens_line() -> Seq<char> {
    "Nothing happens."@
}

impl Item {
    /// Opens a closed container: the state becomes `Open` and the item's
    /// `open_message` is reported, making the contents visible to listing.
    /// On an item that is not closed (already open, or no container at all)
    /// nothing changes and the report says so.
    pub fn open_item(&mut self) -> (line: String)
        ensures
            old(self).open == OpenState::Closed ==> {
                &&& *final(self) == (Item { open: OpenState::Open, ..*old(self) })
                &&& line@ == old(self).open_message@
            },
            old(self).open != OpenState::Closed ==> {
                &&& *final(self) == *old(self)
                &&& line@ == nothing_happens_line()
            },
            item_wf(*old(self)) ==> item_wf(*final(self)),
    {
        match self.open {
            OpenState::Closed => {
                self.open = OpenState::Open;
                self.open_message.clone()
            },
            _ => "Nothing happens.".to_owned(),
        }
    }

    /// Closes an open container: the state becomes `Closed` and the item's
    /// `close_message` is reported, hiding the contents from listing.  On an
    /// item that is not open nothing changes and the report says so.
    pub fn close_item(&mut self) -> (line: String)
        ensures
            old(self).open == OpenState::Open ==> {
                &&& *final(self) == (Item { open: OpenState::Closed, ..*old(self) })
                &&& line@ == old(self).close_message@
            },
            old(self).open != OpenState::Open ==> {
                &&& *final(self) == *old(self)
                &&& line@ == nothing_happens_line()
            },
            item_wf(*old(self)) ==> item_wf(*final(self)),
    {
        match self.open {
            OpenState::Open => {
                self.open = OpenState::Closed;
                self.close_message.clone()
            },
            _ => "Nothing happens.".to_owned(),
        }
    }
}

impl Default for Item {
    /// A blank item: empty texts, not a container, nothing inside.
    fn default() -> (i: Item)
        ensures
            i.id@ == Seq::<char>::empty(),
            i.examine@ == Seq::<char>::empty(),
            i.first_glance@ == Seq::<char>::empty(),
            !i.container,
            i.open == OpenState::NotApplicable,
            i.open_message@ == Seq::<char>::empty(),
            i.close_message@ == Seq::<char>::empty(),
            i.contains@ == Seq::<Item>::empty(),
            item_wf(i),
    {
        Item {
            id: String::new(),
            examine: String::new(),
            first_glance: String::new(),
            container: false,
            open: OpenState::NotApplicable,
            open_message: String::new(),
            close_message: String::new(),
            contains: Vec::new(),
        }
    }
}

impl Default for Room {
    /// A blank room: empty texts, no contents, no exits.
    fn default() -> (r: Room)
        ensures
            r.id@ == Seq::<char>::empty(),
            r.first_glance@ == Seq::<char>::empty(),
            r.contains@ == Seq::<Item>::empty(),
            r.exits@ == Seq::<Exit>::empty(),
            room_wf(r),
    {
        Room { id: String::new(), first_glance: String::new(), contains: Vec::new(), exits: Vec::new() }
    }
}

} // verus!
