use stremio_shell::app::{
    after_setup, is_local_server, setup_arguments, MainWindow, PickOutcome, RetryStep, ServerEvent,
    UpdateOutcome, WebuiStep,
};
use stremio_shell::discord::DiscordCommand;
use stremio_shell::ipc::{CacheDirectoryRequest, WebResponse};
use stremio_shell::json::{Json, JsonNumber};
use stremio_shell::open_media::{pipe_input, OpenMedia, OpenRequest, PipeInput};
use stremio_shell::urls::ParsedUrl;
use stremio_shell::web_requests::{find_method, ShellAction, WebMethod, WebRequest};
use stremio_shell::window::{
    is_topmost, on_exit, on_focus, on_quit, on_show, on_show_hide, on_window_state_changed,
    saves_placement, visibility_change, WindowStep,
};

fn window() -> MainWindow {
    MainWindow::new("https://web.stremio.com/".to_owned(), false, false)
}

fn opened(page: &str) -> Vec<WebuiStep> {
    vec![WebuiStep::Reset, WebuiStep::Open(page.to_owned())]
}

fn request(method: &str, params: Option<Json>) -> WebRequest {
    WebRequest {
        handshake: false,
        method: Some(method.to_owned()),
        params,
        cache_directory: None,
    }
}

fn object(members: Vec<(&str, Json)>) -> Option<Json> {
    Some(Json::Object(
        members
            .into_iter()
            .map(|(name, value)| (name.to_owned(), value))
            .collect(),
    ))
}

fn text(value: &str) -> Json {
    Json::Text(value.to_owned())
}

fn number(value: u64) -> Json {
    Json::Number(JsonNumber::PosInt(value))
}

fn pick(id: &str, server: &str) -> WebRequest {
    WebRequest {
        cache_directory: Some(CacheDirectoryRequest {
            request_id: id.to_owned(),
            server_url: server.to_owned(),
            directory: Some("D:\\cache".to_owned()),
        }),
        ..request("pick-cache-directory", None)
    }
}

fn refusal(actions: Vec<ShellAction>) -> (String, String) {
    match actions.into_iter().next() {
        Some(ShellAction::Respond(WebResponse::CacheDirectorySelected {
            request_id,
            result: Err(error),
        })) => (request_id, error),
        other => panic!("{:?}", other),
    }
}

#[test]
fn the_handshake_names_the_local_server() {
    let handshake = || WebRequest {
        handshake: true,
        method: None,
        params: None,
        cache_directory: None,
    };
    let mut shell = window();
    let actions = shell.on_web_request(handshake());
    assert!(matches!(
        actions[..],
        [ShellAction::Respond(WebResponse::Handshake {
            server_url: None
        })]
    ));
    shell.load_webui(Some("http://127.0.0.1:11470"));
    match &shell.on_web_request(handshake())[..] {
        [ShellAction::Respond(WebResponse::Handshake { server_url })] => {
            assert_eq!(server_url.as_deref(), Some("http://127.0.0.1:11470"));
        }
        other => panic!("{:?}", other),
    }
    let nothing = WebRequest {
        handshake: false,
        ..handshake()
    };
    assert!(shell.on_web_request(nothing).is_empty());
}

#[test]
fn folders_are_chosen_for_the_local_server_only() {
    let mut shell = window();
    assert_eq!(
        refusal(shell.on_web_request(pick("1", "http://localhost:1"))),
        (
            "1".to_owned(),
            "The folder picker is only available for the shell's local server".to_owned()
        )
    );
    shell.load_webui(Some("http://localhost:2"));
    assert_eq!(
        refusal(shell.on_web_request(pick("1", "http://localhost:1"))).1,
        "The folder picker is only available for the shell's local server"
    );
    assert_eq!(shell.picker_start(), None);
    let unreadable = request("pick-cache-directory", Some(Json::Null));
    assert!(shell.on_web_request(unreadable).is_empty());
}

#[test]
fn folders_are_chosen_one_at_a_time() {
    let server = "http://localhost:1";
    let mut shell = window();
    shell.load_webui(Some(server));
    let actions = shell.on_web_request(pick("1", server));
    assert!(matches!(actions[..], [ShellAction::PickCacheDirectory]));
    assert_eq!(shell.picker_start(), Some(Some("D:\\cache")));
    assert_eq!(
        refusal(shell.on_web_request(pick("2", server))),
        ("2".to_owned(), "A folder picker is already open".to_owned())
    );
    match shell.on_cache_directory_picked(PickOutcome::Selected("E:\\".to_owned())) {
        Some(WebResponse::CacheDirectorySelected { request_id, result }) => {
            assert_eq!(request_id, "1");
            assert_eq!(result, Ok(Some("E:\\".to_owned())));
        }
        other => panic!("{:?}", other),
    }
    assert!(shell
        .on_cache_directory_picked(PickOutcome::Cancelled)
        .is_none());
}

#[test]
fn every_choice_of_a_folder_is_answered() {
    let server = "http://localhost:1";
    for (outcome, expected) in [
        (PickOutcome::Cancelled, Ok(None)),
        (PickOutcome::Failed("e".to_owned()), Err("e".to_owned())),
        (
            PickOutcome::NotUnicode,
            Err("The selected folder path is not valid Unicode".to_owned()),
        ),
    ] {
        let mut shell = window();
        shell.load_webui(Some(server));
        shell.on_web_request(pick("7", server));
        match shell.on_cache_directory_picked(outcome) {
            Some(WebResponse::CacheDirectorySelected { request_id, result }) => {
                assert_eq!(request_id, "7");
                assert_eq!(result, expected);
            }
            other => panic!("{:?}", other),
        }
    }
}

#[test]
fn scales_are_applied_within_bounds() {
    let mut shell = window();
    let ask = |value| request("win-set-interface-scale", object(vec![("scale", value)]));
    for scale in [75, 100, 175] {
        let actions = shell.on_web_request(ask(number(scale)));
        assert!(matches!(actions[..], [ShellAction::ApplyInterfaceScale]));
        assert_eq!(shell.take_interface_scale(), Some(scale));
    }
    for value in [
        number(74),
        number(176),
        Json::Number(JsonNumber::NegInt(-100)),
        Json::Number(JsonNumber::Float("100.0".to_owned())),
        text("100"),
        Json::Null,
    ] {
        assert!(shell.on_web_request(ask(value)).is_empty());
    }
    assert_eq!(shell.take_interface_scale(), None);
    let nothing = request("win-set-interface-scale", None);
    assert!(shell.on_web_request(nothing).is_empty());
}

#[test]
fn the_screen_is_filled_as_asked_or_turned_over() {
    let mut shell = window();
    let ask = |value| request("win-set-visibility", object(vec![("fullscreen", value)]));
    let actions = shell.on_web_request(ask(Json::Bool(true)));
    assert!(matches!(actions[..], [ShellAction::ToggleFullscreen]));
    assert!(shell.fullscreen_target(true));
    assert!(!shell.fullscreen_target(true));
    assert!(shell.fullscreen_target(false));
    assert!(shell.on_web_request(ask(number(1))).is_empty());
    assert!(shell
        .on_web_request(request("win-set-visibility", object(vec![])))
        .is_empty());
}

#[test]
fn a_ready_interface_starts_the_rest() {
    let actions = window().on_web_request(request("app-ready", None));
    assert!(matches!(
        actions[..],
        [
            ShellAction::HideSplash,
            ShellAction::Respond(WebResponse::VisibilityChange {
                visible: true,
                visibility: 1,
                full_screen: false,
            }),
            ShellAction::CheckForUpdate,
            ShellAction::OpenReady,
        ]
    ));
    let error = window().on_web_request(request("app-error", Some(text("broken"))));
    assert!(matches!(error[..], [ShellAction::HideSplash]));
}

#[test]
fn addresses_are_opened_outside() {
    let opened = |params| {
        window()
            .on_web_request(request("open-external", params))
            .into_iter()
            .map(|action| match action {
                ShellAction::OpenUrl(url) => url,
                other => panic!("{:?}", other),
            })
            .collect::<Vec<String>>()
    };
    assert_eq!(
        opened(Some(text("https://imdb.com/"))),
        vec!["https://imdb.com/".to_owned()]
    );
    assert_eq!(
        opened(Some(text("http://example.com"))),
        vec!["https://www.stremio.com/warning#http%3A%2F%2Fexample.com%2F".to_owned()]
    );
    assert!(opened(Some(text("calc"))).is_empty());
    assert!(opened(Some(Json::Null)).is_empty());
    assert!(opened(None).is_empty());
}

#[test]
fn other_requests_go_where_they_belong() {
    let mut shell = window();
    let mut act = |method: &str, params| shell.on_web_request(request(method, params));
    assert!(matches!(act("quit", None)[..], [ShellAction::Quit]));
    assert!(matches!(act("win-focus", None)[..], [ShellAction::Focus]));
    assert!(matches!(
        act("mpv-set-prop", None)[..],
        [ShellAction::ForwardToPlayer]
    ));
    assert!(act("mpv", None).is_empty());
    assert!(act("Quit", None).is_empty());
    match &act("play-external", Some(text("vlc://x")))[..] {
        [ShellAction::PlayExternal(input)] => assert_eq!(input, "vlc://x"),
        other => panic!("{:?}", other),
    }
    assert!(act("play-external", Some(number(1))).is_empty());
    assert!(act("play-external", None).is_empty());
}

#[test]
fn methods_go_by_their_names() {
    for (name, method) in [
        ("pick-cache-directory", WebMethod::PickCacheDirectory),
        ("win-set-interface-scale", WebMethod::SetInterfaceScale),
        ("win-set-visibility", WebMethod::SetVisibility),
        ("quit", WebMethod::Quit),
        ("app-ready", WebMethod::AppReady),
        ("app-error", WebMethod::AppError),
        ("open-external", WebMethod::OpenExternal),
        ("play-external", WebMethod::PlayExternal),
        ("win-focus", WebMethod::Focus),
        ("autoupdater-notif-clicked", WebMethod::UpdateClicked),
        ("discord-connect", WebMethod::DiscordConnect),
        ("discord-disconnect", WebMethod::DiscordDisconnect),
        ("discord-set-activity", WebMethod::DiscordSetActivity),
        ("discord-clear-activity", WebMethod::DiscordClearActivity),
        ("mpv-", WebMethod::Player),
        ("", WebMethod::Unknown),
    ] {
        assert_eq!(find_method(name), method);
    }
}

#[test]
fn an_update_is_installed_once_found() {
    let mut shell = window();
    let clicked = || request("autoupdater-notif-clicked", None);
    assert!(shell.on_web_request(clicked()).is_empty());
    assert!(shell.on_update(UpdateOutcome::UpToDate).is_none());
    assert!(shell.on_update(UpdateOutcome::Failed).is_none());
    assert!(matches!(
        shell.on_update(UpdateOutcome::Available("C:\\setup.exe".to_owned())),
        Some(WebResponse::UpdateAvailable)
    ));
    assert!(shell.on_update(UpdateOutcome::UpToDate).is_none());
    match &shell.on_web_request(clicked())[..] {
        [ShellAction::RunSetup(path)] => assert_eq!(path, "C:\\setup.exe"),
        other => panic!("{:?}", other),
    }
    assert_eq!(
        setup_arguments(),
        vec![
            "/SILENT",
            "/NOCANCEL",
            "/FORCECLOSEAPPLICATIONS",
            "/TASKS=runapp"
        ]
    );
    assert!(matches!(after_setup(true), Some(ShellAction::Quit)));
    assert!(after_setup(false).is_none());
}

#[test]
fn requests_for_discord_are_queued() {
    let mut shell = window();
    assert!(shell
        .on_web_request(request("discord-connect", None))
        .is_empty());
    let activity = object(vec![
        ("state", text("s")),
        ("image", text("i")),
        ("startTimestamp", Json::Number(JsonNumber::NegInt(-1))),
        ("endTimestamp", number(u64::MAX)),
    ]);
    assert!(shell
        .on_web_request(request("discord-set-activity", activity))
        .is_empty());
    assert!(shell
        .on_web_request(request("discord-set-activity", None))
        .is_empty());
    assert!(shell
        .on_web_request(request("discord-clear-activity", None))
        .is_empty());
    assert!(matches!(
        shell.on_web_request(request("discord-disconnect", None))[..],
        [ShellAction::Respond(WebResponse::DiscordStatus(false))]
    ));
    let commands = shell.discord.take_commands();
    assert_eq!(commands.len(), 4);
    match &commands[1] {
        DiscordCommand::SetActivity {
            state,
            details,
            large_image,
            start_timestamp,
            end_timestamp,
        } => {
            assert_eq!(state, "s");
            assert_eq!(details, "");
            assert_eq!(large_image.as_deref(), Some("i"));
            assert_eq!(*start_timestamp, Some(-1));
            assert_eq!(*end_timestamp, None);
        }
        other => panic!("{:?}", other),
    }
    shell.discord.close();
    assert!(matches!(
        shell.on_web_request(request("discord-connect", None))[..],
        [ShellAction::Respond(WebResponse::DiscordStatus(false))]
    ));
}

#[test]
fn the_web_interface_is_told_of_its_server() {
    let mut shell = window();
    assert_eq!(shell.load_webui(None), opened("https://web.stremio.com/"));
    assert_eq!(
        shell.load_webui(Some("http://127.0.0.1:11470/")),
        opened("https://web.stremio.com/#/?streamingServerUrl=http%3A%2F%2F127.0.0.1%3A11470")
    );
    assert_eq!(
        shell.local_server_url.as_deref(),
        Some("http://127.0.0.1:11470/")
    );
    shell.load_webui(Some("https://example.com/"));
    assert_eq!(shell.local_server_url, None);
    let mut other = MainWindow::new("https://staging.strem.io/".to_owned(), false, false);
    assert_eq!(
        other.load_webui(Some("http://localhost:1")),
        opened("https://staging.strem.io/")
    );
    let mut bare = MainWindow::new("https://web.stremio.com".to_owned(), false, false);
    assert_eq!(
        bare.load_webui(Some("x")),
        opened("https://web.stremio.com/#/?streamingServerUrl=x")
    );
}

#[test]
fn local_servers_are_told_from_others() {
    for (url, local) in [
        ("http://localhost:11470", true),
        ("https://127.0.0.1/", true),
        ("http://[::1]:1", true),
        ("ftp://localhost", false),
        ("http://localhost.example.com", false),
        ("http://127.0.0.2", false),
        ("localhost", false),
    ] {
        let mut shell = window();
        shell.load_webui(Some(url));
        assert_eq!(shell.local_server_url.is_some(), local, "{}", url);
    }
    assert!(!is_local_server(None));
    assert!(!is_local_server(Some(ParsedUrl {
        text: "http://x".to_owned(),
        scheme: "http".to_owned(),
        host: None,
    })));
}

#[test]
fn a_failed_server_can_be_started_again() {
    let mut shell = window();
    assert_eq!(
        shell.on_server_event(ServerEvent::Ready("http://localhost:1".to_owned())),
        opened("https://web.stremio.com/#/?streamingServerUrl=http%3A%2F%2Flocalhost%3A1")
    );
    assert!(shell.local_server_url.is_some());
    let text = "Stremio's local streaming server is unavailable.\n\nwhy\n\nChoose Retry to start the server again, or Cancel to exit Stremio.";
    assert_eq!(
        shell.on_server_event(ServerEvent::Failed("why".to_owned())),
        vec![WebuiStep::Reset, WebuiStep::Ask(text.to_owned())]
    );
    assert_eq!(shell.local_server_url, None);
    assert_eq!(
        shell.on_retry_choice(true),
        RetryStep::Restart { show_splash: true }
    );
    assert_eq!(shell.on_retry_choice(false), RetryStep::Exit);
    let quiet = MainWindow::new(String::new(), true, true);
    assert_eq!(
        quiet.on_retry_choice(true),
        RetryStep::Restart { show_splash: false }
    );
}

#[test]
fn how_the_window_comes_up() {
    let plan = MainWindow::new(String::new(), true, true).startup(false, true);
    assert!(!plan.restore_placement);
    assert!(!plan.visible);
    assert!(plan.hide_splash);
    assert!(!plan.start_server);
    let plan = window().startup(true, false);
    assert!(plan.restore_placement);
    assert!(plan.visible);
    assert!(!plan.hide_splash);
    assert!(plan.start_server);
}

#[test]
fn the_window_is_shown_and_hidden() {
    assert_eq!(
        on_show(Some(true)),
        vec![
            WindowStep::SetVisible(true),
            WindowStep::Restore,
            WindowStep::Activate,
            WindowStep::MarkShown,
            WindowStep::SendState,
            WindowStep::SendVisibility,
        ]
    );
    assert_eq!(on_show_hide(false, None), on_show(None));
    assert_eq!(
        on_show_hide(true, Some(false)),
        vec![
            WindowStep::SetVisible(false),
            WindowStep::MarkShown,
            WindowStep::SendState,
            WindowStep::SendVisibility,
        ]
    );
    assert_eq!(
        on_quit(),
        vec![
            WindowStep::SavePlacement,
            WindowStep::SetVisible(false),
            WindowStep::MarkShown,
            WindowStep::SendVisibility,
        ]
    );
    assert_eq!(on_exit(), vec![WindowStep::SavePlacement, WindowStep::Stop]);
    assert_eq!(
        on_window_state_changed(),
        vec![WindowStep::SavePlacement, WindowStep::SendState]
    );
    assert_eq!(on_focus(false), vec![WindowStep::SetVisible(true)]);
    assert_eq!(
        on_focus(true),
        vec![WindowStep::SetVisible(true), WindowStep::Activate]
    );
}

#[test]
fn what_is_known_of_the_window() {
    assert!(matches!(
        visibility_change(true, true),
        WebResponse::VisibilityChange {
            visible: true,
            visibility: 1,
            full_screen: true,
        }
    ));
    assert!(matches!(
        visibility_change(false, false),
        WebResponse::VisibilityChange {
            visible: false,
            visibility: 0,
            full_screen: false,
        }
    ));
    assert!(saves_placement(None));
    assert!(saves_placement(Some(false)));
    assert!(!saves_placement(Some(true)));
    assert!(is_topmost(0x0000_0108));
    assert!(!is_topmost(0xFFFF_FFF7));
}

fn handed(media: &mut OpenMedia, request: OpenRequest) -> Option<String> {
    match media.on_request(request) {
        Some(WebResponse::OpenMedia { input }) => Some(input),
        Some(other) => panic!("{:?}", other),
        None => None,
    }
}

fn input(text: &str) -> OpenRequest {
    OpenRequest::Input(text.to_owned())
}

#[test]
fn an_input_waits_for_the_interface() {
    let mut media = OpenMedia::new("first".to_owned());
    assert_eq!(handed(&mut media, input("second")), None);
    assert_eq!(
        handed(&mut media, OpenRequest::Ready),
        Some("second".to_owned())
    );
    assert_eq!(handed(&mut media, OpenRequest::Ready), None);
    assert_eq!(handed(&mut media, input("third")), Some("third".to_owned()));
    assert_eq!(handed(&mut media, OpenRequest::Reset), None);
    assert_eq!(handed(&mut media, input("fourth")), None);
    assert_eq!(handed(&mut media, OpenRequest::Reset), None);
    assert_eq!(
        handed(&mut media, OpenRequest::Ready),
        Some("fourth".to_owned())
    );
}

#[test]
fn a_new_page_is_handed_nothing_before_it_is_ready() {
    let mut media = OpenMedia::new(String::new());
    assert_eq!(handed(&mut media, OpenRequest::Ready), None);
    assert_eq!(handed(&mut media, OpenRequest::Reset), None);
    for text in ["a", "b", "c"] {
        assert_eq!(handed(&mut media, input(text)), None);
    }
    assert_eq!(
        handed(&mut media, OpenRequest::Ready),
        Some("c".to_owned())
    );
}

#[test]
fn an_empty_command_is_no_input() {
    let mut media = OpenMedia::new(String::new());
    assert_eq!(handed(&mut media, OpenRequest::Ready), None);
    let mut media = OpenMedia::new("x".to_owned());
    assert_eq!(
        handed(&mut media, OpenRequest::Ready),
        Some("x".to_owned())
    );
}

#[test]
fn another_start_speaks_through_the_pipe() {
    assert!(matches!(pipe_input(vec![]), PipeInput::Focus));
    assert!(matches!(pipe_input(vec![0xC3]), PipeInput::Ignored));
    match pipe_input("stremio:///ä".as_bytes().to_vec()) {
        PipeInput::FocusAndOpen(OpenRequest::Input(text)) => assert_eq!(text, "stremio:///ä"),
        _ => panic!("nothing to open"),
    }
}

#[test]
fn members_are_found_by_name() {
    let value = object(vec![("a", Json::Bool(true)), ("b", number(2))]).unwrap();
    assert_eq!(value.get("a").and_then(Json::as_bool), Some(true));
    assert_eq!(value.get("b").and_then(Json::as_u64), Some(2));
    assert!(value.get("c").is_none());
    assert!(text("a").get("a").is_none());
    assert!(Json::Array(vec![number(1)]).get("0").is_none());
    assert_eq!(number(1).as_str(), None);
    assert_eq!(number(i64::MAX as u64).as_i64(), Some(i64::MAX));
    assert_eq!(number(i64::MAX as u64 + 1).as_i64(), None);
}
