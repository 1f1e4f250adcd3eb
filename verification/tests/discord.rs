use stremio_shell::discord::{DiscordAction, DiscordCommand, DiscordRpc, DiscordWorker};

fn activity(start: Option<i64>, end: Option<i64>, image: Option<&str>) -> DiscordCommand {
    let mut rpc = DiscordRpc::new();
    assert_eq!(rpc.set_activity("s", "d", image, start, end), Ok(()));
    rpc.take_commands().remove(0)
}

fn connected() -> DiscordWorker {
    let mut worker = DiscordWorker::new();
    assert!(matches!(
        worker.on_command(DiscordCommand::Connect),
        DiscordAction::OpenConnection
    ));
    assert!(matches!(
        worker.on_connected(true),
        DiscordAction::Report(true)
    ));
    worker
}

#[test]
fn commands_wait_in_their_order() {
    let mut rpc = DiscordRpc::new();
    assert_eq!(rpc.connect(), Ok(()));
    assert_eq!(
        rpc.set_activity("state", "details", Some("image"), Some(1), None),
        Ok(())
    );
    assert_eq!(rpc.clear_activity(), Ok(()));
    assert_eq!(rpc.disconnect(), Ok(()));
    let commands = rpc.take_commands();
    assert_eq!(commands.len(), 4);
    assert!(matches!(commands[0], DiscordCommand::Connect));
    match &commands[1] {
        DiscordCommand::SetActivity {
            state,
            details,
            large_image,
            start_timestamp,
            end_timestamp,
        } => {
            assert_eq!(state, "state");
            assert_eq!(details, "details");
            assert_eq!(large_image.as_deref(), Some("image"));
            assert_eq!(*start_timestamp, Some(1));
            assert_eq!(*end_timestamp, None);
        }
        other => panic!("{:?}", other),
    }
    assert!(matches!(commands[2], DiscordCommand::ClearActivity));
    assert!(matches!(commands[3], DiscordCommand::Disconnect));
    assert!(rpc.take_commands().is_empty());
}

#[test]
fn a_closed_queue_takes_nothing() {
    let closed = Err("Failed to send Discord command: sending on a closed channel".to_owned());
    let mut rpc = DiscordRpc::new();
    assert_eq!(rpc.connect(), Ok(()));
    rpc.close();
    assert_eq!(rpc.connect(), closed.clone());
    assert_eq!(rpc.disconnect(), closed.clone());
    assert_eq!(rpc.clear_activity(), closed.clone());
    assert_eq!(rpc.set_activity("", "", None, None, None), closed);
    assert_eq!(rpc.take_commands().len(), 1);
}

#[test]
fn the_error_is_that_of_a_channel() {
    let (sender, receiver) = std::sync::mpsc::channel::<u8>();
    drop(receiver);
    let error = sender
        .send(0)
        .map_err(|e| format!("Failed to send Discord command: {e}"));
    let mut rpc = DiscordRpc::new();
    rpc.close();
    assert_eq!(rpc.connect(), error);
}

#[test]
fn nothing_is_shown_without_a_connection() {
    let mut worker = DiscordWorker::new();
    for command in [
        DiscordCommand::Disconnect,
        DiscordCommand::ClearActivity,
        activity(None, None, None),
    ] {
        assert!(matches!(
            worker.on_command(command),
            DiscordAction::Nothing
        ));
    }
    assert!(matches!(
        worker.on_command(DiscordCommand::Connect),
        DiscordAction::OpenConnection
    ));
    assert!(matches!(
        worker.on_connected(false),
        DiscordAction::Report(false)
    ));
    assert!(matches!(
        worker.on_command(DiscordCommand::ClearActivity),
        DiscordAction::Nothing
    ));
    assert!(matches!(worker.on_queue_closed(), DiscordAction::Nothing));
}

#[test]
fn a_connection_is_opened_once() {
    let mut worker = connected();
    assert!(matches!(
        worker.on_command(DiscordCommand::Connect),
        DiscordAction::Report(true)
    ));
    assert!(matches!(
        worker.on_command(DiscordCommand::Disconnect),
        DiscordAction::CloseConnection
    ));
    assert!(matches!(
        worker.on_command(DiscordCommand::Connect),
        DiscordAction::OpenConnection
    ));
    assert!(matches!(
        connected().on_queue_closed(),
        DiscordAction::CloseConnection
    ));
}

#[test]
fn what_discord_is_told() {
    for (start, end, expected) in [
        (None, None, None),
        (Some(1), None, Some((Some(1), None))),
        (None, Some(2), Some((None, Some(2)))),
        (Some(1), Some(2), Some((Some(1), Some(2)))),
    ] {
        match connected().on_command(activity(start, end, None)) {
            DiscordAction::SetActivity(payload) => {
                assert_eq!(payload.state, "s");
                assert_eq!(payload.details, "d");
                assert_eq!(payload.large_image, "stremio_logo");
                assert_eq!(payload.large_text, "Stremio");
                assert_eq!(payload.timestamps, expected);
            }
            other => panic!("{:?}", other),
        }
    }
    match connected().on_command(activity(None, None, Some("poster"))) {
        DiscordAction::SetActivity(payload) => assert_eq!(payload.large_image, "poster"),
        other => panic!("{:?}", other),
    }
}

#[test]
fn a_broken_connection_is_given_up() {
    let mut worker = connected();
    assert!(matches!(
        worker.on_command(DiscordCommand::ClearActivity),
        DiscordAction::ClearActivity
    ));
    assert!(matches!(worker.on_shown(true), DiscordAction::Nothing));
    assert!(matches!(
        worker.on_shown(false),
        DiscordAction::Report(false)
    ));
    assert!(matches!(
        worker.on_command(DiscordCommand::ClearActivity),
        DiscordAction::Nothing
    ));
}
