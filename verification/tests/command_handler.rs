use minecrust::command::{CommandHandler, CommandResult, Rotation, TimeChange};

fn message_of(r: CommandResult) -> (bool, String) {
    match r {
        CommandResult::Success(s) => (true, s),
        CommandResult::Error(s) => (false, s),
        other => panic!("expected a message, got {:?}", other),
    }
}

#[test]
fn use_known_block_succeeds() {
    assert_eq!(message_of(CommandHandler::execute("use Stone;")), (true, "Block type set to: Stone".to_string()));
    assert_eq!(
        message_of(CommandHandler::execute("  use   GrassBlock ;  ")),
        (true, "Block type set to: GrassBlock".to_string())
    );
    assert_eq!(
        message_of(CommandHandler::execute("use Spruceplanks;")),
        (true, "Block type set to: Spruceplanks".to_string())
    );
}

#[test]
fn use_unknown_block_fails() {
    assert_eq!(message_of(CommandHandler::execute("use Foo;")), (false, "Unknown block type: Foo".to_string()));
    assert_eq!(message_of(CommandHandler::execute("use stone;")), (false, "Unknown block type: stone".to_string()));
    assert_eq!(message_of(CommandHandler::execute("use ;")), (false, "Unknown block type: ".to_string()));
}

#[test]
fn empty_command_is_rejected() {
    assert_eq!(message_of(CommandHandler::execute("")), (false, "Empty command".to_string()));
    assert_eq!(message_of(CommandHandler::execute(" \t ")), (false, "Empty command".to_string()));
}

#[test]
fn command_without_semicolon_is_rejected() {
    assert_eq!(
        message_of(CommandHandler::execute("use Stone")),
        (false, "Invalid syntax. Command must end with ';'".to_string())
    );
}

#[test]
fn unknown_command_names_its_first_word() {
    assert_eq!(message_of(CommandHandler::execute("fly;")), (false, "Unknown command: fly;".to_string()));
    assert_eq!(message_of(CommandHandler::execute("use;")), (false, "Unknown command: use;".to_string()));
    assert_eq!(message_of(CommandHandler::execute("jump high;")), (false, "Unknown command: jump".to_string()));
}

#[test]
fn time_arguments_set_the_clock() {
    let expect = [("night", 0u16), ("noon", 500), ("dawn", 250), ("dusk", 750)];
    for (arg, thousandths) in expect {
        match CommandHandler::execute(&format!("time {};", arg)) {
            CommandResult::TimeChange(TimeChange::SetTime(t)) => assert_eq!(t, thousandths),
            other => panic!("unexpected {:?}", other),
        }
    }
    match CommandHandler::execute("time toggle;") {
        CommandResult::TimeChange(TimeChange::ToggleCycle) => {}
        other => panic!("unexpected {:?}", other),
    }
}

#[test]
fn bad_time_arguments_are_rejected() {
    assert_eq!(
        message_of(CommandHandler::execute("time midnight;")),
        (false, "Unknown time argument: midnight".to_string())
    );
    assert_eq!(
        message_of(CommandHandler::execute("time\tnoon;")),
        (false, "Invalid syntax. Expected: time <night|noon|dawn|dusk|toggle>;".to_string())
    );
}

#[test]
fn rotations_by_right_angles_are_accepted() {
    match CommandHandler::execute("rotate 90 180 270;") {
        CommandResult::RotationChange(r) => assert_eq!(r, Rotation { x: 90, y: 180, z: 270 }),
        other => panic!("unexpected {:?}", other),
    }
    match CommandHandler::execute("rotate +90 0   360 ;") {
        CommandResult::RotationChange(r) => assert_eq!(r, Rotation { x: 90, y: 0, z: 360 }),
        other => panic!("unexpected {:?}", other),
    }
}

#[test]
fn bad_rotations_are_rejected() {
    assert_eq!(
        message_of(CommandHandler::execute("rotate 45 0 0;")),
        (false, "Invalid x value. Must be a multiple of 90.".to_string())
    );
    assert_eq!(
        message_of(CommandHandler::execute("rotate 0 abc 0;")),
        (false, "Invalid y value. Must be a u16.".to_string())
    );
    assert_eq!(
        message_of(CommandHandler::execute("rotate 0 0 70000;")),
        (false, "Invalid z value. Must be a u16.".to_string())
    );
    assert_eq!(
        message_of(CommandHandler::execute("rotate 0 0;")),
        (false, "Invalid syntax. Expected: rotate <x> <y> <z>;".to_string())
    );
    assert_eq!(
        message_of(CommandHandler::execute("rotate -90 0 0;")),
        (false, "Invalid x value. Must be a u16.".to_string())
    );
}

#[test]
fn no_rotation_is_zero() {
    assert_eq!(Rotation::none(), Rotation { x: 0, y: 0, z: 0 });
}

#[test]
fn every_block_can_be_chosen_by_name() {
    for t in minecrust::block::BlockType::all() {
        let line = format!("use {};", t.name());
        assert_eq!(message_of(CommandHandler::execute(&line)), (true, format!("Block type set to: {}", t.name())));
    }
}
