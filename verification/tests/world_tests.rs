use adventure_core::check_inv_contains;
use adventure_core::drop_held_item;
use adventure_core::examine_item;
use adventure_core::move_item_to_hand;
use adventure_core::room_enter;
use adventure_core::take_from_room;
use adventure_core::view_inventory;
use adventure_core::Directions;
use adventure_core::Exit;
use adventure_core::Item;
use adventure_core::OpenState;
use adventure_core::Player;
use adventure_core::Room;
use adventure_core::TransferError;

fn plain_item(id: &str, first_glance: &str) -> Item {
    Item {
        id: id.to_owned(),
        first_glance: first_glance.to_owned(),
        ..Item::default()
    }
}

#[test]
fn test_room() {
    let note = Item {
        id: "Note".to_owned(),
        examine: "It says, \"This is a test note, for testing.\"".to_owned(),
        first_glance: "There is a note in the center of the room.".to_owned(),
        container: false,
        ..Item::default()
    };

    let test_exit_room = Room { ..Room::default() };
    let room = Room {
        id: "Test room".to_owned(),
        first_glance: "You come to a room that has a grid like texure on the walls, there is the word \"Test\" in a big, arial font.".to_owned(),
        contains: vec![note],
        exits: vec![
            Exit { direction: Directions::North, room: test_exit_room.id.clone() },
            Exit { direction: Directions::South, room: test_exit_room.id.clone() },
        ],
    };
    let lines = room_enter(&room);
    assert_eq!(lines.len(), 4);
    assert_eq!(
        lines[0],
        "You come to a room that has a grid like texure on the walls, there is the word \"Test\" in a big, arial font."
    );
    assert_eq!(lines[1], "There is a note in the center of the room.");
    assert_eq!(lines[2], "There is an exit to the North");
    assert_eq!(lines[3], "There is an exit to the South");
}

#[test]
fn player_test() {
    let mut player = Player {
        inventory: vec![
            plain_item("stick", "A testing stick"),
            plain_item("slab", "A testing slab"),
        ],
        hand: None,
    };

    let mut room = Room {
        contains: vec![],
        ..Room::default()
    };

    let listing = view_inventory(&player);
    assert_eq!(
        listing,
        vec!["id: stick, A testing stick", "id: slab, A testing slab"]
    );

    move_item_to_hand(&mut player, "stick").unwrap();
    let listing = view_inventory(&player);
    assert_eq!(
        listing,
        vec!["id: slab, A testing slab", "In your hand is: stick"]
    );

    let report = drop_held_item(&mut room, &mut player).unwrap();
    assert_eq!(report, "You drop the stick");
    assert_eq!(room.contains.len(), 1);
    assert_eq!(room.contains[0].id, "stick");
    assert!(player.hand.is_none());
    let listing = view_inventory(&player);
    assert_eq!(listing, vec!["id: slab, A testing slab"]);
}

#[test]
fn take_removes_exactly_one_item() {
    let mut player = Player {
        inventory: vec![
            plain_item("lamp", "A brass lamp"),
            plain_item("rope", "A coil of rope"),
            plain_item("key", "A small key"),
        ],
        hand: None,
    };
    assert_eq!(move_item_to_hand(&mut player, "rope"), Ok(()));
    assert_eq!(player.inventory.len(), 2);
    assert_eq!(player.inventory[0].id, "lamp");
    assert_eq!(player.inventory[1].id, "key");
    assert_eq!(player.hand.as_ref().unwrap().id, "rope");
}

#[test]
fn take_missing_id_reports_not_found() {
    let mut player = Player {
        inventory: vec![plain_item("lamp", "A brass lamp")],
        hand: None,
    };
    let r = move_item_to_hand(&mut player, "sword");
    assert_eq!(r, Err(TransferError::ItemNotFound));
    assert_eq!(player.inventory.len(), 1);
    assert_eq!(player.inventory[0].id, "lamp");
    assert!(player.hand.is_none());
    assert_eq!(
        TransferError::ItemNotFound.message(),
        "There isn't an item with that id!"
    );
}

#[test]
fn take_with_occupied_hand_reports_hand_full() {
    let mut player = Player {
        inventory: vec![plain_item("lamp", "A brass lamp")],
        hand: Some(plain_item("rope", "A coil of rope")),
    };
    let r = move_item_to_hand(&mut player, "lamp");
    assert_eq!(r, Err(TransferError::HandFull));
    assert_eq!(player.inventory.len(), 1);
    assert_eq!(player.inventory[0].id, "lamp");
    assert_eq!(player.hand.as_ref().unwrap().id, "rope");
    assert_eq!(
        TransferError::HandFull.message(),
        "You are already holding something!"
    );
}

#[test]
fn drop_with_empty_hand_reports_hand_empty() {
    let mut player = Player { inventory: vec![], hand: None };
    let mut room = Room { ..Room::default() };
    let r = drop_held_item(&mut room, &mut player);
    assert_eq!(r, Err(TransferError::HandEmpty));
    assert_eq!(room.contains.len(), 0);
    assert!(player.hand.is_none());
    assert_eq!(
        TransferError::HandEmpty.message(),
        "You aren't holding anything to drop!"
    );
}

#[test]
fn round_trip_moves_only_the_taken_id() {
    let mut player = Player {
        inventory: vec![
            plain_item("stick", "A testing stick"),
            plain_item("slab", "A testing slab"),
        ],
        hand: None,
    };
    let mut room = Room { ..Room::default() };
    move_item_to_hand(&mut player, "stick").unwrap();
    drop_held_item(&mut room, &mut player).unwrap();
    let inventory_ids: Vec<&str> =
        player.inventory.iter().map(|i| i.id.as_str()).collect();
    assert_eq!(inventory_ids, vec!["slab"]);
    let room_ids: Vec<&str> = room.contains.iter().map(|i| i.id.as_str()).collect();
    assert_eq!(room_ids, vec!["stick"]);
    assert!(player.hand.is_none());
}

#[test]
fn take_from_room_mirrors_drop() {
    let mut player = Player { inventory: vec![], hand: None };
    let mut room = Room {
        contains: vec![plain_item("cup", "A tin cup"), plain_item("jug", "A clay jug")],
        ..Room::default()
    };
    assert_eq!(take_from_room(&mut player, &mut room, "jug"), Ok(()));
    assert_eq!(player.hand.as_ref().unwrap().id, "jug");
    assert_eq!(room.contains.len(), 1);
    assert_eq!(room.contains[0].id, "cup");

    let r = take_from_room(&mut player, &mut room, "cup");
    assert_eq!(r, Err(TransferError::HandFull));
    assert_eq!(room.contains.len(), 1);
    assert_eq!(player.hand.as_ref().unwrap().id, "jug");

    let report = drop_held_item(&mut room, &mut player).unwrap();
    assert_eq!(report, "You drop the jug");
    assert!(player.hand.is_none());

    let r = take_from_room(&mut player, &mut room, "sword");
    assert_eq!(r, Err(TransferError::ItemNotFound));
    assert!(player.hand.is_none());
    assert_eq!(room.contains.len(), 2);
}

#[test]
fn lookup_reports_first_match_or_none() {
    let player = Player {
        inventory: vec![
            plain_item("lamp", "A brass lamp"),
            plain_item("key", "A small key"),
        ],
        hand: None,
    };
    assert_eq!(check_inv_contains(&player, "lamp"), Some(0));
    assert_eq!(check_inv_contains(&player, "key"), Some(1));
    assert_eq!(check_inv_contains(&player, "door"), None);
}

#[test]
fn presentation_is_repeatable_and_read_only() {
    let player = Player {
        inventory: vec![plain_item("lamp", "A brass lamp")],
        hand: Some(plain_item("key", "A small key")),
    };
    let first = view_inventory(&player);
    let second = view_inventory(&player);
    assert_eq!(first, second);
    assert_eq!(player.inventory.len(), 1);
    assert_eq!(player.hand.as_ref().unwrap().id, "key");

    let room = Room {
        id: "cell".to_owned(),
        first_glance: "A bare cell.".to_owned(),
        contains: vec![plain_item("cup", "A tin cup")],
        exits: vec![Exit { direction: Directions::West, room: "hall".to_owned() }],
    };
    let first = room_enter(&room);
    let second = room_enter(&room);
    assert_eq!(first, second);
    assert_eq!(room.contains.len(), 1);
    assert_eq!(room.exits.len(), 1);
}

#[test]
fn entering_room_without_exits_gives_no_hint() {
    let room = Room {
        id: "closet".to_owned(),
        first_glance: "A cramped closet.".to_owned(),
        contains: vec![],
        exits: vec![],
    };
    let lines = room_enter(&room);
    assert_eq!(lines, vec!["A cramped closet."]);
}

#[test]
fn examine_returns_the_long_description() {
    let note = Item {
        id: "Note".to_owned(),
        examine: "It says, \"This is a test note, for testing.\"".to_owned(),
        ..Item::default()
    };
    assert_eq!(
        examine_item(&note),
        "It says, \"This is a test note, for testing.\""
    );
}

#[test]
fn every_direction_has_a_name() {
    assert_eq!(Directions::North.name(), "North");
    assert_eq!(Directions::East.name(), "East");
    assert_eq!(Directions::South.name(), "South");
    assert_eq!(Directions::West.name(), "West");
}

#[test]
fn open_and_close_follow_the_state_machine() {
    let mut chest = Item {
        id: "chest".to_owned(),
        container: true,
        open: OpenState::Closed,
        open_message: "The lid creaks open.".to_owned(),
        close_message: "The lid slams shut.".to_owned(),
        contains: vec![plain_item("coin", "A gold coin")],
        ..Item::default()
    };
    assert_eq!(chest.close_item(), "Nothing happens.");
    assert_eq!(chest.open, OpenState::Closed);
    assert_eq!(chest.open_item(), "The lid creaks open.");
    assert_eq!(chest.open, OpenState::Open);
    assert_eq!(chest.open_item(), "Nothing happens.");
    assert_eq!(chest.open, OpenState::Open);
    assert_eq!(chest.close_item(), "The lid slams shut.");
    assert_eq!(chest.open, OpenState::Closed);
    assert_eq!(chest.contains.len(), 1);

    let mut pebble = plain_item("pebble", "A smooth pebble");
    assert_eq!(pebble.open_item(), "Nothing happens.");
    assert_eq!(pebble.open, OpenState::NotApplicable);
}

#[test]
fn non_containers_stay_empty_through_a_run() {
    let mut player = Player {
        inventory: vec![
            plain_item("stick", "A testing stick"),
            plain_item("slab", "A testing slab"),
        ],
        hand: None,
    };
    let mut room = Room { ..Room::default() };
    move_item_to_hand(&mut player, "slab").unwrap();
    for item in &player.inventory {
        assert!(!item.container && item.contains.is_empty());
    }
    assert!(player.hand.as_ref().unwrap().contains.is_empty());
    drop_held_item(&mut room, &mut player).unwrap();
    for item in player.inventory.iter().chain(room.contains.iter()) {
        assert!(!item.container && item.contains.is_empty());
    }
}
