use stremio_shell::messages::CmdVal;
use stremio_shell::subtitles::{
    SubtitleAction, SubtitleCommand, SubtitleWorker, SubtitleWorkerRequest,
};

fn remove(track: &str) -> SubtitleCommand {
    match SubtitleCommand::try_from(CmdVal::SubRemove(track.to_owned())) {
        Ok(command) => command,
        Err(_) => panic!("no subtitle command"),
    }
}

fn ask(worker: &mut SubtitleWorker, track: &str) {
    let action = worker.on_request(SubtitleWorkerRequest::Command(remove(track)));
    assert!(matches!(action, SubtitleAction::Idle));
}

#[test]
fn subtitle_commands_are_told_from_others() {
    let added = SubtitleCommand::try_from(CmdVal::SubAdd(
        "http://a/b.srt".to_owned(),
        "Title".to_owned(),
        "eng".to_owned(),
    ));
    match added {
        Ok(command) => assert_eq!(
            command,
            SubtitleCommand {
                name: "sub-add",
                args: ["sub-add", "http://a/b.srt", "auto", "Title", "eng"]
                    .map(str::to_owned)
                    .to_vec(),
            }
        ),
        Err(_) => panic!("no subtitle command"),
    }
    assert_eq!(
        remove("3"),
        SubtitleCommand {
            name: "sub-remove",
            args: vec!["sub-remove".to_owned(), "3".to_owned()],
        }
    );
    match SubtitleCommand::try_from(CmdVal::Other {
        media_transition: Some(true),
        parts: vec!["loadfile".to_owned()],
    }) {
        Err(CmdVal::Other {
            media_transition,
            parts,
        }) => {
            assert_eq!(media_transition, Some(true));
            assert_eq!(parts, vec!["loadfile".to_owned()]);
        }
        _ => panic!("a subtitle command"),
    }
}

#[test]
fn a_command_with_a_nul_character_cannot_be_sent() {
    assert!(remove("3").is_sendable());
    assert!(!remove("3\0").is_sendable());
}

#[test]
fn subtitle_commands_run_one_at_a_time_and_in_order() {
    let mut worker = SubtitleWorker::new();
    assert!(worker.take_next().is_none());
    ask(&mut worker, "1");
    ask(&mut worker, "\0");
    ask(&mut worker, "2");

    let first = worker.take_next().unwrap();
    assert_eq!(first.reply_id, 1);
    assert_eq!(first.command, remove("1"));
    worker.started(&first, 0);
    assert!(worker.take_next().is_none());

    let other = worker.on_reply(7);
    assert!(other.finished.is_none());
    assert!(other.acknowledge.is_none());
    let done = worker.on_reply(1);
    assert_eq!(done.finished.unwrap().name, "sub-remove");
    assert!(done.acknowledge.is_none());
    assert!(worker.on_reply(1).finished.is_none());

    let second = worker.take_next().unwrap();
    assert_eq!(second.reply_id, 2);
    assert_eq!(second.command, remove("2"));
    assert!(worker.take_next().is_none());
}

#[test]
fn a_refused_command_makes_way_for_the_next() {
    let mut worker = SubtitleWorker::new();
    ask(&mut worker, "1");
    ask(&mut worker, "2");
    let first = worker.take_next().unwrap();
    worker.started(&first, -1);
    let second = worker.take_next().unwrap();
    assert_eq!(second.reply_id, 2);
    assert_eq!(second.command, remove("2"));
}

#[test]
fn an_idle_player_may_change_its_media_at_once() {
    let mut worker = SubtitleWorker::new();
    ask(&mut worker, "1");
    let action = worker.on_request(SubtitleWorkerRequest::BeginMediaChange(9));
    assert!(matches!(action, SubtitleAction::Acknowledge(9)));
    ask(&mut worker, "2");
    assert!(worker.take_next().is_none());
    let action = worker.on_request(SubtitleWorkerRequest::EndMediaChange);
    assert!(matches!(action, SubtitleAction::Idle));
    assert_eq!(worker.take_next().unwrap().command, remove("2"));
    assert!(worker.take_next().is_none());
}

#[test]
fn a_busy_player_changes_its_media_after_the_reply() {
    let mut worker = SubtitleWorker::new();
    ask(&mut worker, "1");
    let first = worker.take_next().unwrap();
    worker.started(&first, 0);
    let action = worker.on_request(SubtitleWorkerRequest::BeginMediaChange(9));
    assert!(matches!(action, SubtitleAction::Abort(1)));
    assert!(worker.on_reply(5).acknowledge.is_none());
    assert_eq!(worker.on_reply(1).acknowledge, Some(9));
    assert_eq!(worker.on_reply(1).acknowledge, None);
    assert!(worker.take_next().is_none());
}

#[test]
fn dropped_commands_are_named() {
    let mut worker = SubtitleWorker::new();
    assert!(worker.dropped_names().is_empty());
    ask(&mut worker, "\0");
    let added = SubtitleCommand::try_from(CmdVal::SubAdd(
        "a\0".to_owned(),
        String::new(),
        String::new(),
    ));
    match added {
        Ok(command) => worker.on_request(SubtitleWorkerRequest::Command(command)),
        Err(_) => panic!("no subtitle command"),
    };
    ask(&mut worker, "1");
    ask(&mut worker, "\0");
    assert_eq!(worker.dropped_names(), vec!["sub-remove", "sub-add"]);
    let first = worker.take_next().unwrap();
    assert_eq!(worker.dropped_names(), vec!["sub-remove"]);
    worker.started(&first, 0);
    assert!(worker.dropped_names().is_empty());
}

#[test]
fn the_first_accepted_command_runs() {
    let mut worker = SubtitleWorker::new();
    for track in ["\0", "refused", "\0", "refused", "accepted", "behind"] {
        ask(&mut worker, track);
    }
    let mut tried = vec![];
    while let Some(start) = worker.take_next() {
        tried.push((start.reply_id, start.command.args[1].clone()));
        let accepted = start.command.args[1] != "refused";
        worker.started(&start, if accepted { 0 } else { -4 });
    }
    assert_eq!(
        tried,
        vec![
            (1, "refused".to_owned()),
            (2, "refused".to_owned()),
            (3, "accepted".to_owned()),
        ]
    );
    assert_eq!(worker.on_reply(3).finished.unwrap().reply_id, 3);
    let behind = worker.take_next().unwrap();
    assert_eq!(behind.reply_id, 4);
    assert_eq!(behind.command, remove("behind"));
}
