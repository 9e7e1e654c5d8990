//! The transfer engine: moving a single item between a room, the player's
//! inventory, and the player's hand, preserving single ownership.

use vstd::prelude::*;
use vstd::multiset::Multiset;
use vstd::string::StringExecFns;

use crate::model::Item;
use crate::model::Player;
use crate::model::Room;
use crate::model::items_wf;
use crate::model::player_wf;
use crate::model::room_wf;
use crate::model::unique_ids;

verus! {

/// The recoverable failures of the transfer engine.  Every one of them is
/// reported to the caller and leaves the world unchanged.
#[derive(Clone, Copy, Debug, PartialEq, Eq, Structural)]
pub enum TransferError {
    /// No inventory item has the requested id.
    ItemNotFound,
    /// The hand already holds an item.
    HandFull,
    /// The hand holds nothing to drop.
    HandEmpty,
}

/// Some item of `s` carries the id `id`.
pub open spec fn has_id(s: Seq<Item>, id: Seq<char>) -> bool {
    exists|k: int| 0 <= k < s.len() && s[k].id@ == id
}

/// `k` is the position of the first item of `s` whose id is `id`.
pub open spec fn is_first_with_id(s: Seq<Item>, id: Seq<char>, k: int) -> bool {
    &&& 0 <= k < s.len()
    &&& s[k].id@ == id
    &&& (forall|j: int| 0 <= j < k ==> s[j].id@ != id)
}

/// Returns the position of the first item of `items` whose id is `id`, or
/// `None` when no item carries that id.
fn find_first_with_id(items: &Vec<Item>, id: &str) -> (r: Option<usize>)
    ensures
        match r {
            Some(k) => is_first_with_id(items@, id@, k as int),
            None => !has_id(items@, id@),
        },
{
    let key: String = id.to_owned();
    let mut i: usize = 0;
    while i < items.len()
        invariant
            i <= items.len(),
            key@ == id@,
            forall|j: int| 0 <= j < i ==> items@[j].id@ != id@,
        decreases items.len() - i,
    {
        if items[i].id == key {
            return Some(i);
        }
        i += 1;
    }
    None
}

/// Looks up `id` in the player's inventory and returns the position of the
/// first match, or `None` when no inventory item carries that id.
pub fn check_inv_contains(player: &Player, id: &str) -> (r: Option<usize>)
    ensures
        match r {
            Some(k) => is_first_with_id(player.inventory@, id@, k as int),
            None => !has_id(player.inventory@, id@),
        },
{
    find_first_with_id(&player.inventory, id)
}

/// Takes the first inventory item whose id is `id` into the hand.
///
/// The operation is a checked state transition: it refuses to overwrite an
/// occupied hand (`HandFull`), so no item is ever lost, and it reports an
/// absent id (`ItemNotFound`) instead of failing, leaving the player
/// untouched in both error cases.
pub fn move_item_to_hand(player: &mut Player, id: &str) -> (r: Result<(), TransferError>)
    ensures
        match r {
            Ok(_) => {
                &&& old(player).hand is None
                &&& exists|k: int|
                    {
                        &&& #[trigger] is_first_with_id(old(player).inventory@, id@, k)
                        &&& final(player).inventory@ == old(player).inventory@.remove(k)
                        &&& final(player).hand == Some(old(player).inventory@[k])
                    }
                &&& final(player).inventory@.len() + 1 == old(player).inventory@.len()
            },
            Err(TransferError::ItemNotFound) => {
                &&& !has_id(old(player).inventory@, id@)
                &&& *final(player) == *old(player)
            },
            Err(TransferError::HandFull) => {
                &&& old(player).hand is Some
                &&& has_id(old(player).inventory@, id@)
                &&& *final(player) == *old(player)
            },
            Err(TransferError::HandEmpty) => false,
        },
        player_wf(*old(player)) ==> player_wf(*final(player)),
{
    let found = check_inv_contains(player, id);
    match found {
        None => Err(TransferError::ItemNotFound),
        Some(index) => {
            if player.hand.is_some() {
                Err(TransferError::HandFull)
            } else {
                let item = player.inventory.remove(index);
                player.hand = Some(item);
                proof {
                    lemma_remove_keeps_wf(old(player).inventory@, index as int);
                }
                Ok(())
            }
        },
    }
}

/// Drops the held item into the room: appends it to the room's contents,
/// clears the hand, and returns the line that reports the drop.  With an
/// empty hand it reports `HandEmpty` and changes nothing.
pub fn drop_held_item(room: &mut Room, player: &mut Player) -> (r: Result<String, TransferError>)
    ensures
        match r {
            Ok(line) => {
                &&& old(player).hand is Some
                &&& final(player).hand is None
                &&& final(player).inventory == old(player).inventory
                &&& final(room).contains@ == old(room).contains@.push(old(player).hand->0)
                &&& final(room).id == old(room).id
                &&& final(room).first_glance == old(room).first_glance
                &&& final(room).exits == old(room).exits
                &&& line@ == drop_line(old(player).hand->0.id@)
            },
            Err(TransferError::HandEmpty) => {
                &&& old(player).hand is None
                &&& *final(player) == *old(player)
                &&& *final(room) == *old(room)
            },
            Err(_) => false,
        },
        player_wf(*old(player)) ==> player_wf(*final(player)),
        player_wf(*old(player)) && room_wf(*old(room)) ==> room_wf(*final(room)),
{
    let held = player.hand.take();
    match held {
        Some(item) => {
            let mut line: String = "You drop the ".to_owned();
            line.append(item.id.as_str());
            room.contains.push(item);
            Ok(line)
        },
        None => Err(TransferError::HandEmpty),
    }
}

/// The line `drop_held_item` reports on success.
pub open spec fn drop_line(id: Seq<char>) -> Seq<char> {
    "You drop the "@ + id
}

/// Takes the first room item whose id is `id` into the hand: the mirror of
/// `drop_held_item`, under the same invariants.  It refuses an occupied
/// hand (`HandFull`) and reports an absent id (`ItemNotFound`), leaving the
/// room and the player untouched in both error cases.
pub fn take_from_room(player: &mut Player, room: &mut Room, id: &str) -> (r: Result<
    (),
    TransferError,
>)
    ensures
        match r {
            Ok(_) => {
                &&& old(player).hand is None
                &&& exists|k: int|
                    {
                        &&& #[trigger] is_first_with_id(old(room).contains@, id@, k)
                        &&& final(room).contains@ == old(room).contains@.remove(k)
                        &&& final(player).hand == Some(old(room).contains@[k])
                    }
                &&& final(player).inventory == old(player).inventory
                &&& final(room).id == old(room).id
                &&& final(room).first_glance == old(room).first_glance
                &&& final(room).exits == old(room).exits
            },
            Err(TransferError::ItemNotFound) => {
                &&& !has_id(old(room).contains@, id@)
                &&& *final(player) == *old(player)
                &&& *final(room) == *old(room)
            },
            Err(TransferError::HandFull) => {
                &&& old(player).hand is Some
                &&& has_id(old(room).contains@, id@)
                &&& *final(player) == *old(player)
                &&& *final(room) == *old(room)
            },
            Err(TransferError::HandEmpty) => false,
        },
        player_wf(*old(player)) && room_wf(*old(room)) ==> player_wf(*final(player)),
        room_wf(*old(room)) ==> room_wf(*final(room)),
{
    let found = find_first_with_id(&room.contains, id);
    match found {
        None => Err(TransferError::ItemNotFound),
        Some(index) => {
            if player.hand.is_some() {
                Err(TransferError::HandFull)
            } else {
                let item = room.contains.remove(index);
                player.hand = Some(item);
                proof {
                    lemma_remove_keeps_wf(old(room).contains@, index as int);
                }
                Ok(())
            }
        },
    }
}

/// The report for each transfer failure.
pub open spec fn error_line(e: TransferError) -> Seq<char> {
    match e {
        TransferError::ItemNotFound => "There isn't an item with that id!"@,
        TransferError::HandFull => "You are already holding something!"@,
        TransferError::HandEmpty => "You aren't holding anything to drop!"@,
    }
}

impl TransferError {
    /// The line the narrator presents for this failure.
    pub fn message(&self) -> (line: String)
        ensures
            line@ == error_line(*self),
    {
        match self {
            TransferError::ItemNotFound => "There isn't an item with that id!".to_owned(),
            TransferError::HandFull => "You are already holding something!".to_owned(),
            TransferError::HandEmpty => "You aren't holding anything to drop!".to_owned(),
        }
    }
}

/// The ids carried by a sequence of items, counted with multiplicity.
pub open spec fn id_multiset(s: Seq<Item>) -> Multiset<Seq<char>> {
    s.map_values(|i: Item| i.id@).to_multiset()
}

/// Round-trip law.  A successful `move_item_to_hand` of the inventory item
/// at position `k` turns `p0` into `p1`; a successful `drop_held_item` into
/// a room then turns `p1` into `p2` and `r0` into `r1`.  Afterwards the room
/// has gained exactly the taken item, the hand is empty again, and the
/// inventory carries exactly the ids it carried before, less the taken one:
/// no other item was lost or duplicated anywhere along the way.
pub proof fn lemma_take_then_drop_round_trip(
    p0: Player,
    p1: Player,
    p2: Player,
    r0: Room,
    r1: Room,
    k: int,
)
    requires
        p0.hand is None,
        0 <= k < p0.inventory@.len(),
        p1.inventory@ == p0.inventory@.remove(k),
        p1.hand == Some(p0.inventory@[k]),
        p2.inventory@ == p1.inventory@,
        p2.hand is None,
        r1.contains@ == r0.contains@.push(p1.hand->0),
    ensures
        r1.contains@.len() == r0.contains@.len() + 1,
        r1.contains@[r0.contains@.len() as int] == p0.inventory@[k],
        id_multiset(r1.contains@) == id_multiset(r0.contains@).insert(p0.inventory@[k].id@),
        id_multiset(p2.inventory@).insert(p0.inventory@[k].id@) == id_multiset(p0.inventory@),
{
    broadcast use vstd::seq_lib::group_to_multiset_ensures;

    let ids = |i: Item| i.id@;
    let taken = p0.inventory@[k].id@;
    assert(r1.contains@.map_values(ids) =~= r0.contains@.map_values(ids).push(taken));
    assert(id_multiset(r1.contains@) =~= id_multiset(r0.contains@).insert(taken));
    assert(p2.inventory@.map_values(ids) =~= p0.inventory@.map_values(ids).remove(k));
    assert(p0.inventory@.map_values(ids)[k] == taken);
    assert(id_multiset(p2.inventory@) =~= id_multiset(p0.inventory@).remove(taken));
    assert(p0.inventory@.map_values(ids).contains(taken));
    assert(id_multiset(p0.inventory@).count(taken) > 0);
    assert(id_multiset(p2.inventory@).insert(taken) =~= id_multiset(p0.inventory@));
}

/// Removing one item keeps every remaining item well-formed and keeps the
/// remaining ids unique.
proof fn lemma_remove_keeps_wf(s: Seq<Item>, k: int)
    requires
        0 <= k < s.len(),
    ensures
        items_wf(s) ==> items_wf(s.remove(k)),
        unique_ids(s) ==> unique_ids(s.remove(k)),
{
    assert forall|j: int| 0 <= j < s.remove(k).len() implies s.remove(k)[j] == s[if j < k {
        j
    } else {
        j + 1
    }] by {}
}

} // verus!
