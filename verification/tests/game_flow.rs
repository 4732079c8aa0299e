use adventure::game::{Game, StepOutput};
use adventure::parse::parse_command;
use adventure::world::{load_rooms, Item, Player};

fn run(g: &mut Game, line: &str) -> StepOutput {
    let cmd = parse_command(line);
    g.step(&cmd)
}

fn line_strs(out: &[String]) -> Vec<&str> {
    out.iter().map(|s| s.as_str()).collect()
}

#[test]
fn start_displays_room_zero() {
    let g = Game::new();
    let lines = g.look();
    assert_eq!(
        line_strs(&lines),
        vec!["An empty room", "", "You are in an empty room. How boring.", "dagger"]
    );
    assert_eq!(g.cur_room, 0);
}

#[test]
fn initial_world_shape() {
    let rooms = load_rooms();
    assert_eq!(rooms.len(), 2);
    assert_eq!(rooms[0].title.as_str(), "An empty room");
    assert_eq!(rooms[0].items.len(), 1);
    assert_eq!(rooms[0].items[0].name.as_str(), "dagger");
    assert_eq!(rooms[0].items[0].description.as_str(), "a small dagger");
    assert_eq!(rooms[0].exits.len(), 1);
    assert_eq!(rooms[0].exits[0].direction.as_str(), "east");
    assert_eq!(rooms[0].exits[0].target, 1);
    assert_eq!(rooms[1].title.as_str(), "A boring room");
    assert_eq!(rooms[1].items[0].name.as_str(), "apple");
    assert_eq!(rooms[1].items[1].name.as_str(), "coin");
    assert_eq!(rooms[1].exits[0].direction.as_str(), "west");
    assert_eq!(rooms[1].exits[0].target, 0);
}

#[test]
fn take_dagger_moves_it_to_inventory() {
    let mut g = Game::new();
    let out = run(&mut g, "take dagger");
    assert!(!out.quit);
    assert_eq!(line_strs(&out.lines), vec!["You take a small dagger"]);
    // the room no longer lists the dagger
    let look = g.look();
    assert_eq!(
        line_strs(&look),
        vec!["An empty room", "", "You are in an empty room. How boring."]
    );
    // the inventory now lists it, after the player's starting beets
    let inv = run(&mut g, "inventory");
    assert_eq!(
        line_strs(&inv.lines),
        vec!["You are carrying the following items: ", "beets", "dagger"]
    );
    assert_eq!(g.rooms[0].items.len(), 0);
    assert_eq!(g.player.inventory.len(), 2);
}

#[test]
fn take_nonexistent_changes_nothing() {
    let mut g = Game::new();
    let out = run(&mut g, "take sword");
    assert_eq!(line_strs(&out.lines), vec!["You don't see a sword here"]);
    assert!(!out.quit);
    assert_eq!(g.rooms[0].items.len(), 1);
    assert_eq!(g.rooms[0].items[0].name.as_str(), "dagger");
    assert_eq!(g.player.inventory.len(), 1);
    assert_eq!(g.player.inventory[0].name.as_str(), "beets");
    assert_eq!(g.cur_room, 0);
}

#[test]
fn take_then_drop_restores_room() {
    let mut g = Game::new();
    run(&mut g, "take dagger");
    let out = run(&mut g, "drop dagger");
    assert_eq!(line_strs(&out.lines), vec!["You drop a small dagger"]);
    assert_eq!(g.rooms[0].items.len(), 1);
    assert_eq!(g.rooms[0].items[0].name.as_str(), "dagger");
    assert_eq!(g.rooms[0].items[0].description.as_str(), "a small dagger");
    assert_eq!(g.player.inventory.len(), 1);
    assert_eq!(g.player.inventory[0].name.as_str(), "beets");
}

#[test]
fn drop_appends_at_end_of_room_list() {
    let mut g = Game::new();
    run(&mut g, "east");
    run(&mut g, "take apple");
    let out = run(&mut g, "drop apple");
    assert_eq!(line_strs(&out.lines), vec!["You drop a rotten apple"]);
    // the apple left its place and came back appended after the coin
    assert_eq!(g.rooms[1].items[0].name.as_str(), "coin");
    assert_eq!(g.rooms[1].items[1].name.as_str(), "apple");
}

#[test]
fn drop_not_carried_changes_nothing() {
    let mut g = Game::new();
    let out = run(&mut g, "drop dagger");
    assert_eq!(line_strs(&out.lines), vec!["You are not carrying a dagger"]);
    assert_eq!(g.rooms[0].items.len(), 1);
    assert_eq!(g.player.inventory.len(), 1);
}

#[test]
fn east_then_west_round_trip() {
    let mut g = Game::new();
    let out = run(&mut g, "east");
    assert_eq!(g.cur_room, 1);
    assert_eq!(
        line_strs(&out.lines),
        vec!["A boring room", "", "You are in a boring room. How empty.", "apple", "coin"]
    );
    let back = run(&mut g, "west");
    assert_eq!(g.cur_room, 0);
    assert_eq!(
        line_strs(&back.lines),
        vec!["An empty room", "", "You are in an empty room. How boring.", "dagger"]
    );
}

#[test]
fn east_with_no_exit_changes_nothing() {
    let mut g = Game::new();
    run(&mut g, "east");
    let out = run(&mut g, "east");
    assert_eq!(line_strs(&out.lines), vec!["You cannot go that way"]);
    assert_eq!(g.cur_room, 1);
    assert_eq!(g.rooms[1].items.len(), 2);
}

#[test]
fn inventory_when_empty_prints_single_message() {
    let mut g = Game {
        rooms: load_rooms(),
        player: Player { inventory: Vec::new() },
        cur_room: 0,
    };
    let out = run(&mut g, "inventory");
    assert_eq!(line_strs(&out.lines), vec!["You are not carrying anything"]);
    let take = run(&mut g, "take dagger");
    assert_eq!(line_strs(&take.lines), vec!["You take a small dagger"]);
    let inv = run(&mut g, "inventory");
    assert_eq!(
        line_strs(&inv.lines),
        vec!["You are carrying the following items: ", "dagger"]
    );
}

#[test]
fn quit_terminates_without_output() {
    let mut g = Game::new();
    let out = run(&mut g, "quit");
    assert!(out.quit);
    assert!(out.lines.is_empty());
    assert_eq!(g.cur_room, 0);
    assert_eq!(g.rooms[0].items.len(), 1);
    assert_eq!(g.player.inventory.len(), 1);
}

#[test]
fn unknown_verb_changes_nothing() {
    let mut g = Game::new();
    let out = run(&mut g, "fly");
    assert_eq!(line_strs(&out.lines), vec!["I don't understand."]);
    assert!(!out.quit);
    assert_eq!(g.cur_room, 0);
    assert_eq!(g.rooms[0].items.len(), 1);
    assert_eq!(g.rooms[0].items[0].name.as_str(), "dagger");
    assert_eq!(g.player.inventory.len(), 1);
    assert_eq!(g.player.inventory[0].name.as_str(), "beets");
}

#[test]
fn look_reflects_current_item_list() {
    let mut g = Game::new();
    run(&mut g, "take dagger");
    let out = run(&mut g, "look");
    assert_eq!(
        line_strs(&out.lines),
        vec!["An empty room", "", "You are in an empty room. How boring."]
    );
}

#[test]
fn take_with_duplicate_names_takes_first_match() {
    let mut rooms = load_rooms();
    rooms[0].items.push(Item {
        name: String::from("dagger"),
        description: String::from("a rusty dagger"),
    });
    let mut g = Game { rooms, player: Player { inventory: Vec::new() }, cur_room: 0 };
    let out = run(&mut g, "take dagger");
    // first match in list order: the small dagger, not the rusty one
    assert_eq!(line_strs(&out.lines), vec!["You take a small dagger"]);
    assert_eq!(g.rooms[0].items.len(), 1);
    assert_eq!(g.rooms[0].items[0].description.as_str(), "a rusty dagger");
    assert_eq!(g.player.inventory[0].description.as_str(), "a small dagger");
}

#[test]
fn drop_with_duplicate_names_drops_first_match() {
    let mut g = Game {
        rooms: load_rooms(),
        player: Player {
            inventory: vec![
                Item { name: String::from("coin"), description: String::from("a silver coin") },
                Item { name: String::from("coin"), description: String::from("a copper coin") },
            ],
        },
        cur_room: 0,
    };
    let out = run(&mut g, "drop coin");
    assert_eq!(line_strs(&out.lines), vec!["You drop a silver coin"]);
    assert_eq!(g.player.inventory.len(), 1);
    assert_eq!(g.player.inventory[0].description.as_str(), "a copper coin");
}
