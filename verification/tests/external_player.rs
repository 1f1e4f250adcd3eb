use base64::engine::general_purpose::STANDARD as BASE64;
use base64::Engine;
use stremio_shell::external_player::{
    after_playlist_step, app_path_key, check_stream_url, command_program, next_place,
    not_found_message, open_with_key, parse, parse_playlist, play, player_paths, playlist_line,
    playlist_text, spawn_outcome, stream_url, PlayerPath, PlayerTask, PlaylistStep, ProgramHints,
    Request, SpawnStep, M3U_DATA_URI_PREFIX,
};
use stremio_shell::urls::ParsedUrl;

const STREAM_URL: &str = "https://example.com/video.mkv?token=secret%2Bvalue";

const NO_STREAM: &str = "stream URL must be absolute HTTP(S)";

fn data_uri(playlist: &str) -> String {
    format!("{}{}", M3U_DATA_URI_PREFIX, BASE64.encode(playlist))
}

fn parsed(text: &str) -> ParsedUrl {
    let url = url::Url::parse(text).unwrap();
    ParsedUrl {
        text: url.to_string(),
        scheme: url.scheme().to_owned(),
        host: url.host_str().map(str::to_owned),
    }
}

#[test]
fn accepts_core_forms() {
    let stream = parsed(STREAM_URL);
    assert_eq!(
        parse(&format!("vlc://{}", STREAM_URL)),
        Ok(Request::Vlc(stream.clone()))
    );
    assert_eq!(
        parse(&data_uri(&format!("#EXTM3U\n#EXTINF:0\n{}", STREAM_URL))),
        Ok(Request::Playlist(stream))
    );
}

#[test]
fn reads_program_from_open_with_command() {
    assert_eq!(
        command_program(r#""C:\Program Files\VideoLAN\VLC\vlc.exe" "%1""#),
        Some(r"C:\Program Files\VideoLAN\VLC\vlc.exe".to_owned())
    );
    assert_eq!(
        command_program(r#""C:\VLC\vlc.exe" -- "%L""#),
        Some(r"C:\VLC\vlc.exe".to_owned())
    );
    assert_eq!(
        command_program(r"C:\VLC\vlc.exe %1"),
        Some(r"C:\VLC\vlc.exe".to_owned())
    );
    assert_eq!(command_program(""), None);
}

#[test]
fn rejects_unsafe_values() {
    for input in [
        "",
        "calc",
        "file:///C:/Windows/System32/calc.exe",
        "mpv://https://example.com/video.mkv",
        "vlc://file:///C:/Windows/System32/calc.exe",
        "vlc://https://example.com/video.mkv\n--script=attack.lua",
        "vlc://javascript:alert(1)",
        "potplayer://https://example.com/video.mkv",
        "iina://weblink?url=https%3A%2F%2Fexample.com%2Fvideo.mkv",
        &data_uri("#EXTM3U\n#EXTINF:0\nfile:///C:/Windows/System32/calc.exe"),
        &data_uri("#EXTM3U\n#EXTINF:0\nhttps://example.com/one\nhttps://example.com/two"),
        &data_uri("#EXTM3U\n#EXTINF:-1\nhttps://example.com/video.mkv"),
        "data:application/octet-stream;charset=utf-8;base64,not base64",
    ] {
        assert!(parse(input).is_err(), "{}", input);
    }
}

#[test]
fn each_refusal_has_its_reason() {
    assert_eq!(parse("calc"), Err("unsupported external player"));
    assert_eq!(
        parse("mpv://https://example.com/video.mkv"),
        Err("unsupported external player")
    );
    assert_eq!(parse("vlc://javascript:alert(1)"), Err(NO_STREAM));
    assert_eq!(parse("vlc://https://example.com/a b"), Err(NO_STREAM));
    assert_eq!(parse("vlc://ftp://example.com/a"), Err(NO_STREAM));
    assert_eq!(
        parse("data:application/octet-stream;charset=utf-8;base64,not base64"),
        Err("invalid playlist")
    );
    assert_eq!(
        parse(&data_uri("#EXTM3U\n#EXTINF:0\nfile:///etc/hosts")),
        Err(NO_STREAM)
    );
    assert_eq!(
        parse(&data_uri("#EXTM3U\n#EXTINF:0")),
        Err("invalid playlist")
    );
}

#[test]
fn the_scheme_of_a_player_has_no_case() {
    assert_eq!(
        parse(&format!("VLC://{}", STREAM_URL)),
        Ok(Request::Vlc(parsed(STREAM_URL)))
    );
    assert_eq!(
        parse("vLc://HTTP://EXAMPLE.com"),
        Ok(Request::Vlc(ParsedUrl {
            text: "http://example.com/".to_owned(),
            scheme: "http".to_owned(),
            host: Some("example.com".to_owned()),
        }))
    );
}

#[test]
fn streams_are_checked_whatever_the_parser_says() {
    let stream = parsed(STREAM_URL);
    assert_eq!(
        check_stream_url(STREAM_URL, Some(stream.clone())),
        Ok(stream.clone())
    );
    assert_eq!(
        check_stream_url("https://example.com/\t", Some(stream.clone())),
        Err(NO_STREAM)
    );
    assert_eq!(check_stream_url(STREAM_URL, None), Err(NO_STREAM));
    let hostless = ParsedUrl {
        host: None,
        ..stream.clone()
    };
    assert_eq!(check_stream_url(STREAM_URL, Some(hostless)), Err(NO_STREAM));
    let foreign = ParsedUrl {
        scheme: "ftp".to_owned(),
        ..stream
    };
    assert_eq!(check_stream_url(STREAM_URL, Some(foreign)), Err(NO_STREAM));
    assert_eq!(
        stream_url("http://[::1]:8080/a").unwrap().host,
        Some("[::1]".to_owned())
    );
}

#[test]
fn playlists_are_three_lines() {
    let line = |text: &str| playlist_line(Some(text.as_bytes().to_vec()));
    assert_eq!(
        line("#EXTM3U\n#EXTINF:0\nhttp://a/"),
        Some("http://a/".to_owned())
    );
    assert_eq!(
        line("#EXTM3U\r\n#EXTINF:0\r\nhttp://a/\r\n"),
        Some("http://a/".to_owned())
    );
    assert_eq!(
        line("#EXTM3U\n#EXTINF:0\nhttp://a/\r"),
        Some("http://a/\r".to_owned())
    );
    assert_eq!(line("#EXTM3U\n#EXTINF:0\n"), None);
    assert_eq!(line("#EXTM3U\n#EXTINF:0\nhttp://a/\n\n"), None);
    assert_eq!(line("#EXTINF:0\n#EXTM3U\nhttp://a/"), None);
    assert_eq!(playlist_line(Some(vec![0xFF, 0xFE])), None);
    assert_eq!(playlist_line(None), None);
}

#[test]
fn a_playlist_reads_back() {
    let address = "https://example.com/ä?b#c";
    assert_eq!(
        playlist_text(address),
        "#EXTM3U\n#EXTINF:0\nhttps://example.com/ä?b#c"
    );
    assert_eq!(
        playlist_line(Some(playlist_text(address).into_bytes())),
        Some(address.to_owned())
    );
    assert_eq!(
        parse_playlist(&BASE64.encode(playlist_text(STREAM_URL))),
        Ok(parsed(STREAM_URL))
    );
}

#[test]
fn a_stream_is_played_by_its_player() {
    match play(&format!("vlc://{}", STREAM_URL)) {
        Ok(PlayerTask::Spawn {
            name,
            exe,
            install_path,
            args,
        }) => {
            assert_eq!(name, "VLC");
            assert_eq!(exe, "vlc.exe");
            assert_eq!(install_path, r"VideoLAN\VLC\vlc.exe");
            assert_eq!(args, vec!["--".to_owned(), STREAM_URL.to_owned()]);
        }
        other => panic!("{:?}", other),
    }
    match play(&data_uri(&playlist_text(STREAM_URL))) {
        Ok(PlayerTask::OpenPlaylist { playlist }) => {
            assert_eq!(playlist, playlist_text(STREAM_URL));
        }
        other => panic!("{:?}", other),
    }
    assert!(matches!(play("calc"), Err("unsupported external player")));
}

#[test]
fn what_the_user_and_the_log_are_told() {
    assert_eq!(
        not_found_message("VLC"),
        "VLC was not found on this computer. Install it and try again."
    );
    assert_eq!(spawn_outcome(true), Ok(()));
    assert_eq!(spawn_outcome(false), Err("external player is not installed"));
}

#[test]
fn the_steps_to_an_open_playlist() {
    assert_eq!(
        after_playlist_step(PlaylistStep::Downloads, true),
        Ok(Some(PlaylistStep::Folder))
    );
    assert_eq!(
        after_playlist_step(PlaylistStep::Folder, true),
        Ok(Some(PlaylistStep::Write))
    );
    assert_eq!(
        after_playlist_step(PlaylistStep::Write, true),
        Ok(Some(PlaylistStep::Open))
    );
    assert_eq!(after_playlist_step(PlaylistStep::Open, true), Ok(None));
    assert_eq!(
        after_playlist_step(PlaylistStep::Downloads, false),
        Err("Downloads directory is unavailable")
    );
    assert_eq!(
        after_playlist_step(PlaylistStep::Folder, false),
        Err("cannot create playlist directory")
    );
    assert_eq!(
        after_playlist_step(PlaylistStep::Write, false),
        Err("cannot save M3U playlist")
    );
    assert_eq!(
        after_playlist_step(PlaylistStep::Open, false),
        Err("cannot open M3U playlist")
    );
}

#[test]
fn places_are_tried_until_one_starts() {
    let search = |starts: &[bool]| {
        let mut tried = 0;
        let mut started = false;
        loop {
            match next_place(tried, started, starts.len()) {
                SpawnStep::Try(place) => {
                    started = starts[place];
                    tried = place + 1;
                }
                SpawnStep::Started => return Some(tried - 1),
                SpawnStep::NotFound => return None,
            }
        }
    };
    assert_eq!(search(&[false, true, true]), Some(1));
    assert_eq!(search(&[true]), Some(0));
    assert_eq!(search(&[false, false]), None);
    assert_eq!(search(&[]), None);
}

#[test]
fn a_written_playlist_is_the_same_stream() {
    for input in [
        STREAM_URL,
        "HTTP://EXAMPLE.com:80/a|b?c<d>#e`",
        "https://user:p%20w@[::1]:8080/\u{e4}",
    ] {
        let url = stream_url(input).unwrap();
        let file = playlist_text(&url.text);
        assert_eq!(parse_playlist(&BASE64.encode(&file)), Ok(url.clone()));
        assert_eq!(parse(&data_uri(&file)), Ok(Request::Playlist(url)));
    }
}

#[test]
fn the_registry_keys_of_a_program() {
    assert_eq!(
        app_path_key("vlc.exe"),
        r"SOFTWARE\Microsoft\Windows\CurrentVersion\App Paths\vlc.exe"
    );
    assert_eq!(
        open_with_key("vlc.exe"),
        r"Applications\vlc.exe\shell\open\command"
    );
}

#[test]
fn programs_are_looked_for_in_order() {
    let program = |path: &str| PlayerPath::Program(path.to_owned());
    let hints = ProgramHints {
        user_app_path: Some(r#""C:\u\vlc.exe""#.to_owned()),
        machine_app_path: Some(r"C:\m\vlc.exe".to_owned()),
        open_with: Some(r#""C:\o w\vlc.exe" "%1""#.to_owned()),
        program_files: true,
        program_files_x86: true,
    };
    assert_eq!(
        player_paths(&hints, "vlc.exe"),
        vec![
            program(r"C:\u\vlc.exe"),
            program(r"C:\m\vlc.exe"),
            program(r"C:\o w\vlc.exe"),
            PlayerPath::Installed("ProgramFiles"),
            PlayerPath::Installed("ProgramFiles(x86)"),
            program("vlc.exe"),
        ]
    );
    let unknown = ProgramHints {
        user_app_path: None,
        machine_app_path: None,
        open_with: Some(" %1".to_owned()),
        program_files: false,
        program_files_x86: false,
    };
    assert_eq!(player_paths(&unknown, "vlc.exe"), vec![program("vlc.exe")]);
}

#[test]
fn a_program_may_lack_its_closing_mark() {
    assert_eq!(command_program("\"C:\\a b"), Some("C:\\a b".to_owned()));
    assert_eq!(command_program("\"\" x"), None);
    assert_eq!(command_program(" x"), None);
    assert_eq!(command_program("x"), Some("x".to_owned()));
}
