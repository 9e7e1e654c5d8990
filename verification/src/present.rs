//! Presentation: the text lines that describe rooms, items, and the
//! player's possessions.  Nothing here mutates the world; each function
//! computes the lines and leaves output to the caller.

use vstd::prelude::*;
use vstd::string::StringExecFns;

use crate::model::Directions;
use crate::model::Item;
use crate::model::Player;
use crate::model::Room;

verus! {

/// The name of a direction, as it appears in navigation hints.
pub open spec fn direction_text(d: Directions) -> Seq<char> {
    match d {
        Directions::North => "North"@,
        Directions::East => "East"@,
        Directions::South => "South"@,
        Directions::West => "West"@,
    }
}

/// The navigation hint presented for one exit.
pub open spec fn exit_line(d: Directions) -> Seq<char> {
    "There is an exit to the "@ + direction_text(d)
}

/// The line presented for one inventory item.
pub open spec fn inventory_line(i: Item) -> Seq<char> {
    "id: "@ + i.id@ + ", "@ + i.first_glance@
}

/// The line presented for the held item.
pub open spec fn hand_line(i: Item) -> Seq<char> {
    "In your hand is: "@ + i.id@
}

impl Directions {
    /// The direction's name as an owned string.
    pub fn name(&self) -> (r: String)
        ensures
            r@ == direction_text(*self),
    {
        match self {
            Directions::North => "North".to_owned(),
            Directions::East => "East".to_owned(),
            Directions::South => "South".to_owned(),
            Directions::West => "West".to_owned(),
        }
    }
}

/// The text a successful `examine` presents: the item's long description.
pub fn examine_item(item: &Item) -> (text: String)
    ensures
        text@ == item.examine@,
{
    item.examine.clone()
}

/// The lines presented on entering a room: the room's description, then
/// each contained item's first-glance text in container order, then one
/// navigation hint per exit.  A room with no exits yields no hint.  The
/// room is only read, never changed.
pub fn room_enter(room: &Room) -> (lines: Vec<String>)
    ensures
        lines@.len() == 1 + room.contains@.len() + room.exits@.len(),
        lines@[0]@ == room.first_glance@,
        forall|k: int|
            0 <= k < room.contains@.len() ==> (#[trigger] lines@[1 + k])@
                == room.contains@[k].first_glance@,
        forall|k: int|
            0 <= k < room.exits@.len() ==> (#[trigger] lines@[1 + room.contains@.len() + k])@
                == exit_line(room.exits@[k].direction),
{
    let mut lines: Vec<String> = Vec::new();
    lines.push(room.first_glance.clone());
    let mut i: usize = 0;
    while i < room.contains.len()
        invariant
            i <= room.contains@.len(),
            lines@.len() == 1 + i,
            lines@[0]@ == room.first_glance@,
            forall|k: int|
                0 <= k < i ==> (#[trigger] lines@[1 + k])@ == room.contains@[k].first_glance@,
        decreases room.contains@.len() - i,
    {
        lines.push(room.contains[i].first_glance.clone());
        i += 1;
    }
    let mut e: usize = 0;
    while e < room.exits.len()
        invariant
            e <= room.exits@.len(),
            lines@.len() == 1 + room.contains@.len() + e,
            lines@[0]@ == room.first_glance@,
            forall|k: int|
                0 <= k < room.contains@.len() ==> (#[trigger] lines@[1 + k])@
                    == room.contains@[k].first_glance@,
            forall|k: int|
                0 <= k < e ==> (#[trigger] lines@[1 + room.contains@.len() + k])@
                    == exit_line(room.exits@[k].direction),
        decreases room.exits@.len() - e,
    {
        let mut line: String = "There is an exit to the ".to_owned();
        let name = room.exits[e].direction.name();
        line.append(name.as_str());
        lines.push(line);
        e += 1;
    }
    lines
}

/// The lines `view_inventory` presents: one line per inventory item in
/// inventory order, then, only when an item is held, a final line naming
/// it.  The player is only read, never changed.
pub fn view_inventory(player: &Player) -> (lines: Vec<String>)
    ensures
        lines@.len() == player.inventory@.len() + if player.hand is Some {
            1int
        } else {
            0int
        },
        forall|k: int|
            0 <= k < player.inventory@.len() ==> (#[trigger] lines@[k])@
                == inventory_line(player.inventory@[k]),
        player.hand is Some ==> lines@[player.inventory@.len() as int]@
            == hand_line(player.hand->0),
{
    let mut lines: Vec<String> = Vec::new();
    let mut i: usize = 0;
    while i < player.inventory.len()
        invariant
            i <= player.inventory@.len(),
            lines@.len() == i,
            forall|k: int|
                0 <= k < i ==> (#[trigger] lines@[k])@ == inventory_line(player.inventory@[k]),
        decreases player.inventory@.len() - i,
    {
        let mut line: String = "id: ".to_owned();
        line.append(player.inventory[i].id.as_str());
        line.append(", ");
        line.append(player.inventory[i].first_glance.as_str());
        lines.push(line);
        i += 1;
    }
    match &player.hand {
        Some(held) => {
            let mut line: String = "In your hand is: ".to_owned();
            line.append(held.id.as_str());
            lines.push(line);
        },
        None => {},
    }
    lines
}

} // verus!
