use stremio_shell::ipc::{PropertyValue, WebResponse};
use stremio_shell::messages::{CmdVal, InMsg, InMsgArgs, InMsgFn, PropKey, PropVal};
use stremio_shell::player::{
    stops_on_failed_send, CommandPlan, EventOutcome, MediaCommand, MpvEvent, Player, PlayerAction,
    PropFormat,
};

fn command(media_transition: Option<bool>, parts: &[&str]) -> MediaCommand {
    MediaCommand {
        media_transition,
        parts: parts.iter().map(|part| part.to_string()).collect(),
    }
}

fn observe(key: PropKey) -> (String, PropFormat) {
    let message = InMsg(InMsgFn::MpvObserveProp, InMsgArgs::ObProp(key));
    match Player::default().on_message(message) {
        PlayerAction::Observe { name, format } => (name, format),
        _ => panic!("nothing to observe"),
    }
}

fn set(player: &mut Player, name: &str, value: PropVal) -> PlayerAction {
    player.on_message(InMsg(
        InMsgFn::MpvSetProp,
        InMsgArgs::StProp(name.to_owned(), value),
    ))
}

#[test]
fn properties_are_observed_under_their_types() {
    let name = || "volume".to_owned();
    assert_eq!(observe(PropKey::Bool(name())), (name(), PropFormat::Flag));
    assert_eq!(observe(PropKey::Int(name())), (name(), PropFormat::Int64));
    assert_eq!(observe(PropKey::Fp(name())), (name(), PropFormat::Double));
    assert_eq!(observe(PropKey::Str(name())), (name(), PropFormat::Text));
}

#[test]
fn properties_are_set() {
    let mut player = Player::default();
    match set(&mut player, "pause", PropVal::Bool(true)) {
        PlayerAction::SetFlag { name, value } => {
            assert_eq!((name.as_str(), value), ("pause", true));
        }
        _ => panic!("no flag"),
    }
    match set(&mut player, "speed", PropVal::Num(1.5f64.to_bits())) {
        PlayerAction::SetNumber { name, bits } => {
            assert_eq!((name.as_str(), f64::from_bits(bits)), ("speed", 1.5));
        }
        _ => panic!("no number"),
    }
    match set(&mut player, "sid", PropVal::Str("no".to_owned())) {
        PlayerAction::SetText { name, value } => {
            assert_eq!((name.as_str(), value.as_str()), ("sid", "no"));
        }
        _ => panic!("no text"),
    }
}

#[test]
fn the_video_output_gets_its_fallback() {
    let mut player = Player::default();
    let message = InMsg(InMsgFn::MpvSetGpuVideoProcessing, InMsgArgs::Flag(true));
    assert!(matches!(
        player.on_message(message),
        PlayerAction::ApplyDisplay {
            gpu_video_processing: true
        }
    ));
    match set(&mut player, "vo", PropVal::Str("gpu".to_owned())) {
        PlayerAction::SetVideoOutput {
            name,
            value,
            gpu_video_processing,
        } => {
            assert_eq!(name, "vo");
            assert_eq!(value, "gpu,gpu-next,");
            assert!(gpu_video_processing);
        }
        _ => panic!("no video output"),
    }
    assert!(player.gpu_video_processing);
}

#[test]
fn commands_go_two_ways() {
    let mut player = Player::default();
    let subtitle = CmdVal::SubRemove("2".to_owned());
    match player.on_message(InMsg(InMsgFn::MpvCommand, InMsgArgs::Cmd(subtitle))) {
        PlayerAction::Subtitle(command) => assert_eq!(command.name, "sub-remove"),
        _ => panic!("no subtitle command"),
    }
    let load = CmdVal::Other {
        media_transition: Some(true),
        parts: vec!["loadfile".to_owned(), "a".to_owned()],
    };
    match player.on_message(InMsg(InMsgFn::MpvCommand, InMsgArgs::Cmd(load))) {
        PlayerAction::BeginMediaChange(command) => {
            assert_eq!(command.media_transition, Some(true));
            assert_eq!(command.parts, vec!["loadfile".to_owned(), "a".to_owned()]);
        }
        _ => panic!("no media change"),
    }
}

#[test]
fn arguments_for_something_else_are_not_supported() {
    let mut player = Player::default();
    assert!(matches!(
        player.on_message(InMsg(InMsgFn::MpvSetProp, InMsgArgs::Flag(true))),
        PlayerAction::Unsupported
    ));
    assert!(matches!(
        player.on_message(InMsg(
            InMsgFn::MpvSetGpuVideoProcessing,
            InMsgArgs::ObProp(PropKey::Bool("pause".to_owned())),
        )),
        PlayerAction::Unsupported
    ));
    assert!(!player.gpu_video_processing);
}

#[test]
fn a_load_is_announced_and_becomes_ready() {
    let mut player = Player::default();
    assert!(player.video_ready.can_begin());
    let CommandPlan {
        announce,
        call,
        end_media_change,
    } = player.on_media_change(command(Some(true), &["loadfile", "a", "replace"]), true);
    assert!(matches!(
        announce,
        Some(WebResponse::VideoReady {
            load_id: 1,
            ready: false
        })
    ));
    assert_eq!(
        call,
        Some((
            "loadfile".to_owned(),
            vec!["a".to_owned(), "replace".to_owned()]
        ))
    );
    assert!(end_media_change);

    assert!(matches!(
        player.on_event(MpvEvent::StartFile),
        EventOutcome::Continue
    ));
    assert!(matches!(
        player.on_event(MpvEvent::PlaybackRestart),
        EventOutcome::Continue
    ));
    assert!(matches!(
        player.on_event(MpvEvent::FileLoaded),
        EventOutcome::Continue
    ));
    assert!(matches!(
        player.on_event(MpvEvent::PlaybackRestart),
        EventOutcome::Send(WebResponse::VideoReady {
            load_id: 1,
            ready: true
        })
    ));
    assert!(matches!(
        player.on_event(MpvEvent::PlaybackRestart),
        EventOutcome::Continue
    ));
}

#[test]
fn a_command_needs_the_subtitle_worker() {
    let mut player = Player::default();
    let plan = player.on_media_change(command(Some(true), &["loadfile", "a"]), false);
    assert!(plan.announce.is_none());
    assert!(plan.call.is_none());
    assert!(!plan.end_media_change);
    let plan = player.on_media_change(command(Some(true), &[]), true);
    assert!(plan.announce.is_none());
    assert!(plan.call.is_none());
    assert!(plan.end_media_change);
    let plan = player.on_media_change(command(None, &["seek"]), true);
    assert!(plan.announce.is_none());
    assert_eq!(plan.call, Some(("seek".to_owned(), vec![])));
    let plan = player.on_media_change(command(Some(false), &["stop"]), true);
    assert!(matches!(
        plan.announce,
        Some(WebResponse::VideoReady {
            load_id: 1,
            ready: false
        })
    ));
}

#[test]
fn events_are_passed_on() {
    let mut player = Player::default();
    match player.on_event(MpvEvent::PropertyChange {
        name: "pause".to_owned(),
        value: PropertyValue::Flag(true),
    }) {
        EventOutcome::Send(WebResponse::PropertyChange { name, value }) => {
            assert_eq!(name, "pause");
            assert!(matches!(value, PropertyValue::Flag(true)));
        }
        _ => panic!("no property change"),
    }
    assert!(matches!(
        player.on_event(MpvEvent::EndFile { reason: 4 }),
        EventOutcome::Send(WebResponse::Ended { reason: 4 })
    ));
    assert!(matches!(
        player.on_event(MpvEvent::Shutdown),
        EventOutcome::Stop
    ));
    assert!(matches!(
        player.on_event(MpvEvent::Other),
        EventOutcome::Continue
    ));
}

#[test]
fn the_events_of_the_player_have_names() {
    let change = WebResponse::PropertyChange {
        name: "pause".to_owned(),
        value: PropertyValue::Flag(true),
    };
    assert_eq!(change.player_event(), Some("mpv-prop-change"));
    assert_eq!(
        WebResponse::Ended { reason: 0 }.player_event(),
        Some("mpv-event-ended")
    );
    assert_eq!(
        WebResponse::VideoReady {
            load_id: 1,
            ready: true
        }
        .player_event(),
        None
    );
    assert_eq!(WebResponse::UpdateAvailable.player_event(), None);
}

#[test]
fn only_the_readiness_may_get_lost() {
    for ready in [true, false] {
        assert!(!stops_on_failed_send(&WebResponse::VideoReady {
            load_id: 1,
            ready
        }));
    }
    assert!(stops_on_failed_send(&WebResponse::Ended { reason: 0 }));
    assert!(stops_on_failed_send(&WebResponse::PropertyChange {
        name: "pause".to_owned(),
        value: PropertyValue::Unavailable,
    }));
}
