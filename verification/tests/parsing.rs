use adventure::game::Game;
use adventure::parse::{parse_command, Command, Direction};

#[test]
fn verbs_parse_to_their_commands() {
    assert!(matches!(parse_command("quit"), Command::Quit));
    assert!(matches!(parse_command("look"), Command::Look));
    assert!(matches!(parse_command("inventory"), Command::Inventory));
    assert!(matches!(parse_command("east"), Command::Go(Direction::East)));
    assert!(matches!(parse_command("west"), Command::Go(Direction::West)));
    match parse_command("take dagger") {
        Command::Take(name) => assert_eq!(name.as_str(), "dagger"),
        _ => panic!("expected a take command"),
    }
    match parse_command("drop coin") {
        Command::Drop(name) => assert_eq!(name.as_str(), "coin"),
        _ => panic!("expected a drop command"),
    }
}

#[test]
fn blank_line_is_not_understood() {
    assert!(matches!(parse_command(""), Command::Unknown));
    assert!(matches!(parse_command("   "), Command::Unknown));
    assert!(matches!(parse_command("\t"), Command::Unknown));
}

#[test]
fn take_without_argument_is_not_understood() {
    assert!(matches!(parse_command("take"), Command::Unknown));
    assert!(matches!(parse_command("take   "), Command::Unknown));
    assert!(matches!(parse_command("drop"), Command::Unknown));
}

#[test]
fn extra_tokens_are_silently_ignored() {
    match parse_command("take dagger now please") {
        Command::Take(name) => assert_eq!(name.as_str(), "dagger"),
        _ => panic!("expected a take command"),
    }
    assert!(matches!(parse_command("quit now"), Command::Quit));
    assert!(matches!(parse_command("east quickly"), Command::Go(Direction::East)));
}

#[test]
fn leading_and_repeated_whitespace_is_skipped() {
    assert!(matches!(parse_command("  quit"), Command::Quit));
    match parse_command("  take    dagger  ") {
        Command::Take(name) => assert_eq!(name.as_str(), "dagger"),
        _ => panic!("expected a take command"),
    }
}

#[test]
fn dispatch_is_case_sensitive() {
    assert!(matches!(parse_command("Quit"), Command::Unknown));
    assert!(matches!(parse_command("LOOK"), Command::Unknown));
    assert!(matches!(parse_command("Take dagger"), Command::Unknown));
    assert!(matches!(parse_command("EAST"), Command::Unknown));
}

#[test]
fn unknown_verb_message_through_step() {
    let mut g = Game::new();
    let cmd = parse_command("dance");
    let out = g.step(&cmd);
    assert_eq!(out.lines.len(), 1);
    assert_eq!(out.lines[0].as_str(), "I don't understand.");
    assert!(!out.quit);
}
