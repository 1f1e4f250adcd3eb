//! Requests to play a stream in a player outside of the shell.
use crate::outside::{base64_decoded, decode_base64, optional_bytes, parse_url, text_from_utf8};
use crate::outside::url_parse;
use crate::text::{ascii_lowercase, ascii_lowercase_text, chars_of, find_char, find_text, first_at};
use crate::text::{has_ascii_whitespace, is_ascii_whitespace, lines, lines_of, position, same_text};
use crate::text::{lemma_position_unique, starts_with, text_of, texts, trim_end, trim_start};
use crate::text::{law_ascii_lowercase, lemma_first_at, lemma_first_at_unique, optional_text};
use crate::text::{stands_at, trim_text};
use crate::urls::{reads_back, url_parts, ParsedUrl, UrlParts, HOST_LIMIT};
use vstd::prelude::*;
use vstd::utf8::{decode_utf8, encode_utf8, valid_utf8};

verus! {

/// The beginning of a data URI that holds a playlist.
pub const M3U_DATA_URI_PREFIX: &'static str = "data:application/octet-stream;charset=utf-8;base64,";

/// The registry key below which Windows lists where programs are.
pub const APP_PATHS: &'static str = "SOFTWARE\\Microsoft\\Windows\\CurrentVersion\\App Paths";

/// A stream that is to be played outside of the shell.
#[derive(Debug, PartialEq)]
pub enum Request {
    /// In VLC.
    Vlc(ParsedUrl),
    /// In whatever opens playlists.
    Playlist(ParsedUrl),
}

/// The texts of a `Request`.
pub enum RequestParts {
    Vlc(UrlParts),
    Playlist(UrlParts),
}

impl View for Request {
    type V = RequestParts;

    open spec fn view(&self) -> RequestParts {
        match *self {
            Request::Vlc(url) => RequestParts::Vlc(url@),
            Request::Playlist(url) => RequestParts::Playlist(url@),
        }
    }
}

impl RequestParts {
    /// The stream.
    pub open spec fn url(self) -> UrlParts {
        match self {
            RequestParts::Vlc(url) => url,
            RequestParts::Playlist(url) => url,
        }
    }
}

/// The texts of a result.
pub open spec fn result_parts<T: View>(result: Result<T, &'static str>) -> Result<T::V, Seq<char>> {
    match result {
        Ok(value) => Ok(value@),
        Err(error) => Err(error@),
    }
}

/// The result for the stream at `input`, given what the URL parser makes of it: streams have an
/// absolute HTTP(S) URL, without white space.
pub open spec fn checked_stream(input: Seq<char>, url: Option<UrlParts>) -> Result<
    UrlParts,
    Seq<char>,
> {
    if (exists|i: int| 0 <= i < input.len() && is_ascii_whitespace(#[trigger] input[i])) {
        Err("stream URL must be absolute HTTP(S)"@)
    } else {
        match url {
            Some(parts) => if (parts.scheme == "http"@ || parts.scheme == "https"@)
                && parts.host is Some {
                Ok(parts)
            } else {
                Err("stream URL must be absolute HTTP(S)"@)
            },
            None => Err("stream URL must be absolute HTTP(S)"@),
        }
    }
}

/// The stream at `input`.
pub open spec fn stream_at(input: Seq<char>) -> Result<UrlParts, Seq<char>> {
    checked_stream(input, url_parse(input))
}

/// The address in a playlist: a file of three lines, the first two of which are given.
pub open spec fn playlist_address(file: Option<Seq<u8>>) -> Option<Seq<char>> {
    match file {
        Some(bytes) => {
            let found = lines(decode_utf8(bytes));
            if valid_utf8(bytes) && found.len() == 3 && found[0] == "#EXTM3U"@ && found[1]
                == "#EXTINF:0"@ {
                Some(found[2])
            } else {
                None
            }
        },
        None => None,
    }
}

/// The stream in a playlist.
pub open spec fn playlist_stream(encoded: Seq<char>) -> Result<UrlParts, Seq<char>> {
    match playlist_address(base64_decoded(encoded)) {
        Some(address) => stream_at(address),
        None => Err("invalid playlist"@),
    }
}

/// The request that `input` stands for.
pub open spec fn requested(input: Seq<char>) -> Result<RequestParts, Seq<char>> {
    if M3U_DATA_URI_PREFIX@.is_prefix_of(input) {
        match playlist_stream(input.skip(M3U_DATA_URI_PREFIX@.len() as int)) {
            Ok(url) => Ok(RequestParts::Playlist(url)),
            Err(error) => Err(error),
        }
    } else {
        match first_at(input, "://"@) {
            Some(i) => if ascii_lowercase(input.take(i)) == "vlc"@ {
                match stream_at(input.skip(i + 3)) {
                    Ok(url) => Ok(RequestParts::Vlc(url)),
                    Err(error) => Err(error),
                }
            } else {
                Err("unsupported external player"@)
            },
            None => Err("unsupported external player"@),
        }
    }
}

/// Whether the playlist that is written for a stream stands for the same stream: whatever Base64
/// text decodes to the file.
pub open spec fn plays_back(url: UrlParts) -> bool {
    forall|encoded: Seq<char>|
        #[trigger] base64_decoded(encoded) == Some(encode_utf8(playlist_for(url.text))) ==> {
            &&& playlist_stream(encoded) == Ok::<UrlParts, Seq<char>>(url)
            &&& requested(M3U_DATA_URI_PREFIX@ + encoded) == Ok::<RequestParts, Seq<char>>(
                RequestParts::Playlist(url),
            )
        }
}

/// Accepts or refuses the stream at `input`, given what the URL parser makes of it.
pub fn check_stream_url(input: &str, url: Option<ParsedUrl>) -> (stream: Result<
    ParsedUrl,
    &'static str,
>)
    ensures
        result_parts(stream) == checked_stream(input@, url_parts(url)),
{
    let error = "stream URL must be absolute HTTP(S)";
    if has_ascii_whitespace(input) {
        return Err(error);
    }
    match url {
        Some(url) => {
            let is_web = same_text(url.scheme.as_str(), "http") || same_text(
                url.scheme.as_str(),
                "https",
            );
            if !is_web || url.host.is_none() {
                return Err(error);
            }
            Ok(url)
        },
        None => Err(error),
    }
}

/// The stream at `input`. What is accepted begins as a web address does, and a playlist that is
/// written for it stands for it again, as long as its host is not overlong.
pub fn stream_url(input: &str) -> (stream: Result<ParsedUrl, &'static str>)
    ensures
        result_parts(stream) == stream_at(input@),
        stream matches Ok(url) ==> "http:"@.is_prefix_of(url.text@) || "https:"@.is_prefix_of(
            url.text@,
        ),
        stream matches Ok(url) ==> (url@.host->0.len() <= HOST_LIMIT ==> plays_back(url@)),
{
    let url = parse_url(input);
    let stream = check_stream_url(input, url);
    proof {
        reveal_strlit("http");
        reveal_strlit("https");
        reveal_strlit("http:");
        reveal_strlit("https:");
        assert("http"@.push(':') =~= "http:"@);
        assert("https"@.push(':') =~= "https:"@);
        reveal_strlit("file");
        assert("file"@[0] != "http"@[0]);
        assert("file"@.len() != "https"@.len());
        if stream is Ok && stream->Ok_0@.host->0.len() <= HOST_LIMIT {
            let url = stream->Ok_0@;
            assert forall|encoded: Seq<char>| #[trigger] base64_decoded(encoded) == Some(
                encode_utf8(playlist_for(url.text)),
            ) implies playlist_stream(encoded) == Ok::<UrlParts, Seq<char>>(url) && requested(
                M3U_DATA_URI_PREFIX@ + encoded,
            ) == Ok::<RequestParts, Seq<char>>(RequestParts::Playlist(url)) by {
                law_written_playlist_parses_back(input@, encoded);
            }
        }
    }
    stream
}

/// The address in a playlist file.
pub fn playlist_line(file: Option<Vec<u8>>) -> (address: Option<String>)
    ensures
        optional_text(address) == playlist_address(optional_bytes(file)),
{
    let bytes = match file {
        Some(bytes) => bytes,
        None => {
            return None;
        },
    };
    let playlist = match text_from_utf8(bytes) {
        Some(playlist) => playlist,
        None => {
            return None;
        },
    };
    let found = lines_of(playlist.as_str());
    assert(texts(found@).len() == found@.len());
    if found.len() != 3 {
        return None;
    }
    assert(texts(found@)[0] == found@[0]@ && texts(found@)[1] == found@[1]@ && texts(found@)[2]
        == found@[2]@);
    if !same_text(found[0].as_str(), "#EXTM3U") || !same_text(found[1].as_str(), "#EXTINF:0") {
        return None;
    }
    Some(found[2].clone())
}

/// The stream in a playlist that is encoded in Base64.
pub fn parse_playlist(encoded: &str) -> (stream: Result<ParsedUrl, &'static str>)
    ensures
        result_parts(stream) == playlist_stream(encoded@),
        stream matches Ok(url) ==> "http:"@.is_prefix_of(url.text@) || "https:"@.is_prefix_of(
            url.text@,
        ),
        stream matches Ok(url) ==> (url@.host->0.len() <= HOST_LIMIT ==> plays_back(url@)),
{
    match playlist_line(decode_base64(encoded)) {
        Some(address) => stream_url(address.as_str()),
        None => Err("invalid playlist"),
    }
}

/// The request that `input` stands for.
pub fn parse(input: &str) -> (request: Result<Request, &'static str>)
    ensures
        result_parts(request) == requested(input@),
        request matches Ok(r) ==> "http:"@.is_prefix_of(r@.url().text) || "https:"@.is_prefix_of(
            r@.url().text,
        ),
        request matches Ok(r) ==> (r@.url().host->0.len() <= HOST_LIMIT ==> plays_back(r@.url())),
{
    let chars = chars_of(input);
    if starts_with(input, M3U_DATA_URI_PREFIX) {
        let skipped = chars_of(M3U_DATA_URI_PREFIX).len();
        let encoded = text_of(&chars, skipped, chars.len());
        assert(encoded@ =~= input@.skip(skipped as int));
        return match parse_playlist(encoded.as_str()) {
            Ok(url) => Ok(Request::Playlist(url)),
            Err(error) => Err(error),
        };
    }
    proof {
        reveal_strlit("://");
    }
    match find_text(&chars, "://") {
        Some(i) => {
            let scheme = text_of(&chars, 0, i);
            assert(scheme@ =~= input@.take(i as int));
            let rest = text_of(&chars, i + 3, chars.len());
            assert(rest@ =~= input@.skip(i + 3));
            if same_text(ascii_lowercase_text(scheme.as_str()).as_str(), "vlc") {
                match stream_url(rest.as_str()) {
                    Ok(url) => Ok(Request::Vlc(url)),
                    Err(error) => Err(error),
                }
            } else {
                Err("unsupported external player")
            }
        },
        None => Err("unsupported external player"),
    }
}

/// The playlist file for one stream.
pub open spec fn playlist_for(url: Seq<char>) -> Seq<char> {
    "#EXTM3U\n#EXTINF:0\n"@ + url
}

/// The playlist file for one stream.
pub fn playlist_text(url: &str) -> (playlist: String)
    ensures
        playlist@ == playlist_for(url@),
{
    let mut playlist = "#EXTM3U\n#EXTINF:0\n".to_owned();
    playlist.append(url);
    playlist
}

/// What has to be done to play a stream outside of the shell.
#[derive(Debug)]
pub enum PlayerTask {
    /// Start a player.
    Spawn {
        /// What the player is called.
        name: &'static str,
        /// The file name of its program.
        exe: &'static str,
        /// Where the program is installed by default, below the folder for programs.
        install_path: &'static str,
        /// The arguments of the program.
        args: Vec<String>,
    },
    /// Write a playlist with this content, and open it.
    OpenPlaylist { playlist: String },
}

/// What has to be done to play what `input` asks for.
pub fn play(input: &str) -> (task: Result<PlayerTask, &'static str>)
    ensures
        match requested(input@) {
            Ok(RequestParts::Vlc(url)) => task matches Ok(
                PlayerTask::Spawn { name, exe, install_path, args },
            ) && name@ == "VLC"@ && exe@ == "vlc.exe"@ && install_path@
                == "VideoLAN\\VLC\\vlc.exe"@ && texts(args@) == seq!["--"@, url.text],
            Ok(RequestParts::Playlist(url)) => task matches Ok(
                PlayerTask::OpenPlaylist { playlist },
            ) && playlist@ == playlist_for(url.text) && (url.host->0.len() <= HOST_LIMIT ==> plays_back(
                url,
            )),
            Err(error) => task matches Err(e) && e@ == error,
        },
{
    match parse(input) {
        Ok(Request::Vlc(url)) => {
            let args = vec!["--".to_owned(), url.text];
            assert(texts(args@) =~= seq!["--"@, url.text@]);
            Ok(
                PlayerTask::Spawn {
                    name: "VLC",
                    exe: "vlc.exe",
                    install_path: "VideoLAN\\VLC\\vlc.exe",
                    args,
                },
            )
        },
        Ok(Request::Playlist(url)) => Ok(
            PlayerTask::OpenPlaylist { playlist: playlist_text(url.text.as_str()) },
        ),
        Err(error) => Err(error),
    }
}

/// What comes of trying to start a player at all of its places.
pub fn spawn_outcome(spawned: bool) -> (outcome: Result<(), &'static str>)
    ensures
        match outcome {
            Ok(_) => spawned,
            Err(error) => !spawned && error@ == "external player is not installed"@,
        },
{
    if spawned {
        Ok(())
    } else {
        Err("external player is not installed")
    }
}

/// What comes next in the attempt to start a player.
#[derive(Debug, Clone, Copy, PartialEq, Eq, Structural)]
pub enum SpawnStep {
    /// Try the place with this index.
    Try(usize),
    /// The player has started.
    Started,
    /// The player is at none of its places.
    NotFound,
}

/// What comes next when so many of the places were tried, and the last of them started the player
/// or not.
pub open spec fn place_step(tried: usize, started: bool, places: usize) -> SpawnStep {
    if started {
        SpawnStep::Started
    } else if tried < places {
        SpawnStep::Try(tried)
    } else {
        SpawnStep::NotFound
    }
}

/// What comes next when so many of the places were tried, and the last of them started the player
/// or not.
pub fn next_place(tried: usize, started: bool, places: usize) -> (next: SpawnStep)
    ensures
        next == place_step(tried, started, places),
{
    if started {
        SpawnStep::Started
    } else if tried < places {
        SpawnStep::Try(tried)
    } else {
        SpawnStep::NotFound
    }
}

/// What is done to open a playlist.
#[derive(Debug, Clone, Copy, PartialEq, Eq, Structural)]
pub enum PlaylistStep {
    /// Find the folder for downloads.
    Downloads,
    /// Create the folder for playlists in it.
    Folder,
    /// Write the file.
    Write,
    /// Open the file.
    Open,
}

impl PlaylistStep {
    /// The step behind this one.
    pub open spec fn next(self) -> Option<PlaylistStep> {
        match self {
            PlaylistStep::Downloads => Some(PlaylistStep::Folder),
            PlaylistStep::Folder => Some(PlaylistStep::Write),
            PlaylistStep::Write => Some(PlaylistStep::Open),
            PlaylistStep::Open => None,
        }
    }

    /// What is said of the failure of this step.
    pub open spec fn error(self) -> Seq<char> {
        match self {
            PlaylistStep::Downloads => "Downloads directory is unavailable"@,
            PlaylistStep::Folder => "cannot create playlist directory"@,
            PlaylistStep::Write => "cannot save M3U playlist"@,
            PlaylistStep::Open => "cannot open M3U playlist"@,
        }
    }
}

/// What comes behind a step towards an open playlist: the next step, none behind the last, or the
/// error of a step that failed.
pub fn after_playlist_step(step: PlaylistStep, succeeded: bool) -> (next: Result<
    Option<PlaylistStep>,
    &'static str,
>)
    ensures
        match next {
            Ok(behind) => succeeded && behind == step.next(),
            Err(error) => !succeeded && error@ == step.error(),
        },
{
    if succeeded {
        match step {
            PlaylistStep::Downloads => Ok(Some(PlaylistStep::Folder)),
            PlaylistStep::Folder => Ok(Some(PlaylistStep::Write)),
            PlaylistStep::Write => Ok(Some(PlaylistStep::Open)),
            PlaylistStep::Open => Ok(None),
        }
    } else {
        match step {
            PlaylistStep::Downloads => Err("Downloads directory is unavailable"),
            PlaylistStep::Folder => Err("cannot create playlist directory"),
            PlaylistStep::Write => Err("cannot save M3U playlist"),
            PlaylistStep::Open => Err("cannot open M3U playlist"),
        }
    }
}

/// What the user is told when a player cannot be started.
pub fn not_found_message(name: &str) -> (message: String)
    ensures
        message@ == name@
            + " was not found on this computer. Install it and try again."@,
{
    let mut message = name.to_owned();
    message.append(" was not found on this computer. Install it and try again.");
    message
}

/// The registry key that tells where the program `exe` is.
pub fn app_path_key(exe: &str) -> (key: String)
    ensures
        key@ == APP_PATHS@ + "\\"@ + exe@,
{
    let mut key = APP_PATHS.to_owned();
    key.append("\\");
    key.append(exe);
    key
}

/// The registry key that tells how Windows opens a file with the program `exe`.
pub fn open_with_key(exe: &str) -> (key: String)
    ensures
        key@ == "Applications\\"@ + exe@ + "\\shell\\open\\command"@,
{
    let mut key = "Applications\\".to_owned();
    key.append(exe);
    key.append("\\shell\\open\\command");
    key
}

/// The program that a command line starts: what stands between the quotation marks that the line
/// begins with, or else what stands in front of the first space. An empty program is none.
pub open spec fn program_of(command: Seq<char>) -> Option<Seq<char>> {
    let program = if command.len() > 0 && command[0] == '"' {
        let quoted = command.skip(1);
        quoted.take(position(quoted, '"'))
    } else {
        command.take(position(command, ' '))
    };
    if program.len() > 0 {
        Some(program)
    } else {
        None
    }
}

/// The program that a command line starts.
pub fn command_program(command: &str) -> (program: Option<String>)
    ensures
        optional_text(program) == program_of(command@),
{
    let chars = chars_of(command);
    let quoted = chars.len() > 0 && chars[0] == '"';
    let start: usize = if quoted {
        1
    } else {
        0
    };
    let end = find_char(
        &chars,
        start,
        if quoted {
            '"'
        } else {
            ' '
        },
    );
    assert(command@.skip(0) =~= command@);
    assert(command@.skip(start as int).take(end - start) =~= command@.subrange(
        start as int,
        end as int,
    ));
    if start == end {
        None
    } else {
        Some(text_of(&chars, start, end))
    }
}

/// Where a program may be.
#[derive(Debug, PartialEq, Eq)]
pub enum PlayerPath {
    /// At this path.
    Program(String),
    /// At its default place, below the folder that this environment variable names.
    Installed(&'static str),
}

/// The texts of a `PlayerPath`.
pub enum PlayerPathParts {
    Program(Seq<char>),
    Installed(Seq<char>),
}

impl View for PlayerPath {
    type V = PlayerPathParts;

    open spec fn view(&self) -> PlayerPathParts {
        match *self {
            PlayerPath::Program(path) => PlayerPathParts::Program(path@),
            PlayerPath::Installed(variable) => PlayerPathParts::Installed(variable@),
        }
    }
}

/// What the system tells about a program.
pub struct ProgramHints {
    /// The path that is registered for the user.
    pub user_app_path: Option<String>,
    /// The path that is registered for the machine.
    pub machine_app_path: Option<String>,
    /// The command line that opens a file with the program.
    pub open_with: Option<String>,
    /// Whether the environment names the folder for programs.
    pub program_files: bool,
    /// Whether the environment names the folder for 32-bit programs.
    pub program_files_x86: bool,
}

/// A registered path without the quotation marks round it.
pub open spec fn unquoted(path: Option<String>) -> Seq<PlayerPathParts> {
    match path {
        Some(path) => seq![PlayerPathParts::Program(trim_end(trim_start(path@, '"'), '"'))],
        None => Seq::empty(),
    }
}

/// The program of a command line.
pub open spec fn started_by(command: Option<String>) -> Seq<PlayerPathParts> {
    match command {
        Some(command) => match program_of(command@) {
            Some(program) => seq![PlayerPathParts::Program(program)],
            None => Seq::empty(),
        },
        None => Seq::empty(),
    }
}

/// The default place below a folder that the environment may name.
pub open spec fn default_place(named: bool, variable: Seq<char>) -> Seq<PlayerPathParts> {
    if named {
        seq![PlayerPathParts::Installed(variable)]
    } else {
        Seq::empty()
    }
}

/// The places where a program is looked for, in this order: the registered paths, the program
/// that opens files with it, the default places, and last the search path.
pub open spec fn places(hints: ProgramHints, exe: Seq<char>) -> Seq<PlayerPathParts> {
    unquoted(hints.user_app_path) + unquoted(hints.machine_app_path) + started_by(hints.open_with)
        + default_place(hints.program_files, "ProgramFiles"@) + default_place(
        hints.program_files_x86,
        "ProgramFiles(x86)"@,
    ) + seq![PlayerPathParts::Program(exe)]
}

/// The texts of a list of paths.
pub open spec fn path_parts(paths: Seq<PlayerPath>) -> Seq<PlayerPathParts> {
    paths.map_values(|path: PlayerPath| path@)
}

/// Appends a registered path.
fn push_unquoted(paths: &mut Vec<PlayerPath>, path: &Option<String>)
    ensures
        path_parts(final(paths)@) == path_parts(old(paths)@) + unquoted(*path),
{
    if let Some(path) = path {
        paths.push(PlayerPath::Program(trim_text(path.as_str(), '"')));
    }
    assert(path_parts(paths@) =~= path_parts(old(paths)@) + unquoted(*path));
}

/// Appends a default place.
fn push_default(paths: &mut Vec<PlayerPath>, named: bool, variable: &'static str)
    ensures
        path_parts(final(paths)@) == path_parts(old(paths)@) + default_place(named, variable@),
{
    if named {
        paths.push(PlayerPath::Installed(variable));
    }
    assert(path_parts(paths@) =~= path_parts(old(paths)@) + default_place(named, variable@));
}

/// The places where the program `exe` is looked for, in the order in which they are tried.
pub fn player_paths(hints: &ProgramHints, exe: &str) -> (paths: Vec<PlayerPath>)
    ensures
        path_parts(paths@) == places(*hints, exe@),
{
    let mut paths: Vec<PlayerPath> = Vec::new();
    assert(path_parts(paths@) =~= Seq::empty());
    push_unquoted(&mut paths, &hints.user_app_path);
    push_unquoted(&mut paths, &hints.machine_app_path);
    assert(path_parts(paths@) =~= unquoted(hints.user_app_path) + unquoted(hints.machine_app_path));
    let ghost before = paths@;
    if let Some(command) = &hints.open_with {
        if let Some(program) = command_program(command.as_str()) {
            paths.push(PlayerPath::Program(program));
        }
    }
    assert(path_parts(paths@) =~= path_parts(before) + started_by(hints.open_with));
    push_default(&mut paths, hints.program_files, "ProgramFiles");
    push_default(&mut paths, hints.program_files_x86, "ProgramFiles(x86)");
    let ghost before = paths@;
    paths.push(PlayerPath::Program(exe.to_owned()));
    assert(path_parts(paths@) =~= path_parts(before) + seq![PlayerPathParts::Program(exe@)]);
    paths
}

/// Whatever is accepted for a player outside of the shell is a web address with a host.
pub proof fn law_accepted_requests_are_web_streams(input: Seq<char>)
    ensures
        requested(input) matches Ok(request) ==> {
            &&& request.url().scheme == "http"@ || request.url().scheme == "https"@
            &&& request.url().host is Some
        },
{
}

/// A playlist gives back the address that was written into it, unless that is empty or breaks
/// its line.
pub proof fn law_playlist_reads_back(url: Seq<char>)
    requires
        url.len() > 0,
        !url.contains('\n'),
    ensures
        playlist_address(Some(encode_utf8(playlist_for(url)))) == Some(url),
{
    broadcast use vstd::utf8::group_utf8_lib;

    reveal_strlit("#EXTM3U\n#EXTINF:0\n");
    reveal_strlit("#EXTM3U");
    reveal_strlit("#EXTINF:0");
    let text = playlist_for(url);
    assert(decode_utf8(encode_utf8(text)) == text);
    lemma_position_unique(text, '\n', 7);
    let second = text.skip(8);
    assert(second =~= "#EXTINF:0"@ + seq!['\n'] + url);
    lemma_position_unique(second, '\n', 9);
    let third = second.skip(10);
    assert(third =~= url);
    assert forall|i: int| 0 <= i < url.len() implies url[i] != '\n' by {
        assert(url.contains(url[i]));
    }
    lemma_position_unique(url, '\n', url.len() as int);
    assert(text.take(7) =~= "#EXTM3U"@);
    assert(second.take(9) =~= "#EXTINF:0"@);
    reveal_with_fuel(lines, 4);
    assert(lines(text) =~= seq!["#EXTM3U"@, "#EXTINF:0"@, url]);
}

/// A playlist that was written for an accepted stream is accepted in turn, and is the same stream:
/// whatever Base64 text decodes to the written file, as long as the URL parser reads the address of
/// the stream back from its own text, which holds something and no white space. `stream_url` shows
/// that it does.
pub proof fn law_written_playlist_parses_back(input: Seq<char>, encoded: Seq<char>)
    ensures
        stream_at(input) matches Ok(url) ==> (reads_back(url) && url.text.len() > 0 && (forall|
            i: int,
        |
            0 <= i < url.text.len() ==> !is_ascii_whitespace(#[trigger] url.text[i]))
            && base64_decoded(encoded) == Some(encode_utf8(playlist_for(url.text)))) ==> {
            &&& playlist_stream(encoded) == Ok::<UrlParts, Seq<char>>(url)
            &&& requested(M3U_DATA_URI_PREFIX@ + encoded) == Ok::<RequestParts, Seq<char>>(
                RequestParts::Playlist(url),
            )
        },
{
    if let Ok(url) = stream_at(input) {
        if reads_back(url) && url.text.len() > 0 && (forall|i: int|
            0 <= i < url.text.len() ==> !is_ascii_whitespace(#[trigger] url.text[i]))
            && base64_decoded(encoded) == Some(encode_utf8(playlist_for(url.text))) {
            if url.text.contains('\n') {
                let i = choose|i: int| 0 <= i < url.text.len() && url.text[i] == '\n';
                assert(is_ascii_whitespace(url.text[i]));
            }
            law_playlist_reads_back(url.text);
            let data = M3U_DATA_URI_PREFIX@ + encoded;
            assert(data.subrange(0, M3U_DATA_URI_PREFIX@.len() as int) =~= M3U_DATA_URI_PREFIX@);
            assert(data.skip(M3U_DATA_URI_PREFIX@.len() as int) =~= encoded);
        }
    }
}

/// The place at which a player starts, if it is looked for in the order that `place_step` gives;
/// `starts` says of each place whether it starts the player.
pub open spec fn started_at(starts: Seq<bool>, tried: usize, started: bool) -> Option<int>
    decreases starts.len() - tried,
{
    match place_step(tried, started, starts.len() as usize) {
        SpawnStep::Try(place) => if place < starts.len() {
            started_at(starts, (place + 1) as usize, starts[place as int])
        } else {
            None
        },
        SpawnStep::Started => Some(tried - 1),
        SpawnStep::NotFound => None,
    }
}

/// The places are tried in order until one starts the player: that is the first that does, and
/// there is none exactly if all of them fail.
pub proof fn law_first_place_that_starts(starts: Seq<bool>, tried: usize)
    requires
        tried <= starts.len() <= usize::MAX,
    ensures
        match started_at(starts, tried, false) {
            Some(place) => tried <= place < starts.len() && starts[place] && forall|i: int|
                tried <= i < place ==> !starts[i],
            None => forall|i: int| tried <= i < starts.len() ==> !starts[i],
        },
    decreases starts.len() - tried,
{
    reveal_with_fuel(started_at, 2);
    if tried < starts.len() && !starts[tried as int] {
        law_first_place_that_starts(starts, (tried + 1) as usize);
    }
}

/// What comes of the steps from `step` on, each behind the one before; `succeeds` says of each
/// whether it does.
pub open spec fn playlist_run(step: PlaylistStep, succeeds: spec_fn(PlaylistStep) -> bool) -> Result<
    (),
    Seq<char>,
>
    decreases
            match step {
                PlaylistStep::Downloads => 3int,
                PlaylistStep::Folder => 2,
                PlaylistStep::Write => 1,
                PlaylistStep::Open => 0,
            },
{
    if !succeeds(step) {
        Err(step.error())
    } else {
        match step.next() {
            Some(next) => playlist_run(next, succeeds),
            None => Ok(()),
        }
    }
}

/// A playlist is opened exactly if the folder for downloads is found, the folder for playlists is
/// there, and the file is written and opened; the first of these that fails ends it, with its
/// error.
pub proof fn law_first_failure_ends_the_playlist(succeeds: spec_fn(PlaylistStep) -> bool)
    ensures
        playlist_run(PlaylistStep::Downloads, succeeds) == if !succeeds(PlaylistStep::Downloads) {
            Err::<(), Seq<char>>("Downloads directory is unavailable"@)
        } else if !succeeds(PlaylistStep::Folder) {
            Err("cannot create playlist directory"@)
        } else if !succeeds(PlaylistStep::Write) {
            Err("cannot save M3U playlist"@)
        } else if !succeeds(PlaylistStep::Open) {
            Err("cannot open M3U playlist"@)
        } else {
            Ok(())
        },
{
    reveal_with_fuel(playlist_run, 4);
}

/// Whether no character of a text is white space.
pub open spec fn is_unbroken(text: Seq<char>) -> bool {
    forall|i: int|
        0 <= i < text.len() ==> #[trigger] text[i] != ' ' && text[i] != '\t' && text[i] != '\n'
            && text[i] != '\x0C' && text[i] != '\r'
}

/// A stream is accepted exactly if its address holds no white space and is a URL with the scheme
/// `http` or `https` and a host, whatever the host is; it is then the URL that the parser reads. So
/// it is behind `vlc://`, in small letters or capitals, for VLC.
pub proof fn law_every_web_stream_is_accepted(input: Seq<char>, player: Seq<char>)
    ensures
        url_parse(input) matches Some(url) ==> {
            let accepted = is_unbroken(input) && (url.scheme == "http"@ || url.scheme == "https"@)
                && url.host is Some;
            &&& accepted ==> stream_at(input) == Ok::<UrlParts, Seq<char>>(url)
            &&& !accepted ==> stream_at(input) == Err::<UrlParts, Seq<char>>(
                "stream URL must be absolute HTTP(S)"@,
            )
            &&& accepted && is_vlc(player) ==> requested(player + "://"@ + input) == Ok::<
                RequestParts,
                Seq<char>,
            >(RequestParts::Vlc(url))
            &&& !accepted && is_vlc(player) ==> requested(player + "://"@ + input) == Err::<
                RequestParts,
                Seq<char>,
            >("stream URL must be absolute HTTP(S)"@)
        },
        url_parse(input) is None ==> stream_at(input) == Err::<UrlParts, Seq<char>>(
            "stream URL must be absolute HTTP(S)"@,
        ),
{
    if is_unbroken(input) {
        assert forall|i: int| 0 <= i < input.len() implies !is_ascii_whitespace(
            #[trigger] input[i],
        ) by {
        }
    } else {
        let i = choose|i: int|
            0 <= i < input.len() && !(#[trigger] input[i] != ' ' && input[i] != '\t' && input[i]
                != '\n' && input[i] != '\x0C' && input[i] != '\r');
        assert(is_ascii_whitespace(input[i]));
    }
    if is_vlc(player) {
        lemma_no_playlist(player, input);
        assert("://"@.len() == 3 && "://"@[0] == ':') by {
            reveal_strlit("://");
        }
        lemma_scheme_ends(player, "://"@, input);
        let whole = player + "://"@ + input;
        reveal_strlit("vlc");
        assert(ascii_lowercase(player) =~= "vlc"@);
        assert(whole.take(3) =~= player);
        assert(whole.skip(6) =~= input);
    }
}

/// Whether a text is `vlc`, in small letters or capitals.
pub open spec fn is_vlc(player: Seq<char>) -> bool {
    &&& player.len() == 3
    &&& player[0] == 'v' || player[0] == 'V'
    &&& player[1] == 'l' || player[1] == 'L'
    &&& player[2] == 'c' || player[2] == 'C'
}

/// Behind the name of a player its scheme ends.
proof fn lemma_scheme_ends(player: Seq<char>, mark: Seq<char>, input: Seq<char>)
    requires
        is_vlc(player),
        mark.len() == 3,
        mark[0] == ':',
    ensures
        first_at(player + mark + input, mark) == Some(3int),
{
    let whole = player + mark + input;
    assert(whole.subrange(3, 6) =~= mark);
    assert forall|j: int| 0 <= j < 3 implies !stands_at(whole, mark, j) by {
        assert(whole[j] == player[j]);
        if stands_at(whole, mark, j) {
            assert(whole.subrange(j, j + 3)[0] == mark[0]);
        }
    }
    lemma_first_at_unique(whole, mark, 3);
}

/// What begins with the name of a player is no playlist.
proof fn lemma_no_playlist(player: Seq<char>, input: Seq<char>)
    requires
        is_vlc(player),
    ensures
        !M3U_DATA_URI_PREFIX@.is_prefix_of(player + "://"@ + input),
{
    let whole = player + "://"@ + input;
    assert(whole[0] == player[0]);
    let prefix = M3U_DATA_URI_PREFIX@;
    assert(prefix.len() > 0 && prefix[0] == 'd') by {
        reveal_strlit("data:application/octet-stream;charset=utf-8;base64,");
    }
    if prefix.is_prefix_of(whole) {
        assert(whole.subrange(0, prefix.len() as int)[0] == whole[0]);
    }
}

/// A request is refused as one for an unknown player if it is no playlist and has no scheme, or
/// another scheme than that of VLC.
pub proof fn law_other_players_are_refused(input: Seq<char>)
    requires
        !"data:application/octet-stream;charset=utf-8;base64,"@.is_prefix_of(input),
        forall|i: int| #[trigger] stands_at(input, "://"@, i) ==> !is_vlc(input.take(i)),
    ensures
        requested(input) == Err::<RequestParts, Seq<char>>("unsupported external player"@),
{
    lemma_first_at(input, "://"@);
    if let Some(i) = first_at(input, "://"@) {
        assert(stands_at(input, "://"@, i));
        let scheme = input.take(i);
        if ascii_lowercase(scheme) == "vlc"@ {
            reveal_strlit("vlc");
            assert(ascii_lowercase(scheme).len() == 3);
            assert(ascii_lowercase(scheme)[0] == 'v' && ascii_lowercase(scheme)[1] == 'l'
                && ascii_lowercase(scheme)[2] == 'c');
            law_ascii_lowercase(scheme, 0);
            law_ascii_lowercase(scheme, 1);
            law_ascii_lowercase(scheme, 2);
            assert(is_vlc(scheme));
        }
    }
}

/// A playlist is a file in UTF-8 of three lines: two that are given, and the address. Whatever
/// Base64 text it is encoded in, it stands for the stream at its address; anything else behind the
/// beginning of the data URI is no playlist.
pub proof fn law_playlist_is_three_lines(encoded: Seq<char>, bytes: Seq<u8>)
    ensures
        ({
            let found = lines(decode_utf8(bytes));
            let proper = valid_utf8(bytes) && found.len() == 3 && found[0] == "#EXTM3U"@
                && found[1] == "#EXTINF:0"@;
            let uri = "data:application/octet-stream;charset=utf-8;base64,"@ + encoded;
            &&& base64_decoded(encoded) == Some(bytes) && proper ==> {
                &&& playlist_stream(encoded) == stream_at(found[2])
                &&& stream_at(found[2]) matches Ok(url) ==> requested(uri) == Ok::<
                    RequestParts,
                    Seq<char>,
                >(RequestParts::Playlist(url))
                &&& stream_at(found[2]) matches Err(error) ==> requested(uri) == Err::<
                    RequestParts,
                    Seq<char>,
                >(error)
            }
            &&& base64_decoded(encoded) == Some(bytes) && !proper ==> requested(uri) == Err::<
                RequestParts,
                Seq<char>,
            >("invalid playlist"@)
            &&& base64_decoded(encoded) is None ==> requested(uri) == Err::<
                RequestParts,
                Seq<char>,
            >("invalid playlist"@)
        }),
        playlist_for(encoded) == "#EXTM3U\n#EXTINF:0\n"@ + encoded,
{
    let prefix = "data:application/octet-stream;charset=utf-8;base64,"@;
    let uri = prefix + encoded;
    assert(uri.subrange(0, prefix.len() as int) =~= prefix);
    assert(uri.skip(prefix.len() as int) =~= encoded);
}

/// The program of a command line is what stands between the quotation marks in front, or what
/// stands in front of the first space, up to the end of the line if there is none.
pub proof fn law_program_stands_in_front(program: Seq<char>, rest: Seq<char>)
    requires
        program.len() > 0,
    ensures
        !program.contains('"') ==> program_of(seq!['"'] + program + seq!['"'] + rest) == Some(
            program,
        ) && program_of(seq!['"'] + program) == Some(program),
        !program.contains(' ') && program[0] != '"' ==> program_of(program + seq![' '] + rest)
            == Some(program) && program_of(program) == Some(program),
        program_of(seq![' '] + rest) is None,
        program_of(seq!['"', '"'] + rest) is None,
        program_of(Seq::empty()) is None,
{
    if !program.contains('"') {
        assert forall|i: int| 0 <= i < program.len() implies program[i] != '"' by {
            assert(program.contains(program[i]));
        }
        let line = seq!['"'] + program + seq!['"'] + rest;
        let quoted = line.skip(1);
        assert(quoted =~= program + seq!['"'] + rest);
        lemma_position_unique(quoted, '"', program.len() as int);
        assert(quoted.take(program.len() as int) =~= program);
        let open = seq!['"'] + program;
        assert(open.skip(1) =~= program);
        lemma_position_unique(program, '"', program.len() as int);
        assert(program.take(program.len() as int) =~= program);
    }
    if !program.contains(' ') && program[0] != '"' {
        assert forall|i: int| 0 <= i < program.len() implies program[i] != ' ' by {
            assert(program.contains(program[i]));
        }
        let line = program + seq![' '] + rest;
        assert(line[0] == program[0]);
        lemma_position_unique(line, ' ', program.len() as int);
        assert(line.take(program.len() as int) =~= program);
        lemma_position_unique(program, ' ', program.len() as int);
        assert(program.take(program.len() as int) =~= program);
    }
    let spaced = seq![' '] + rest;
    assert(spaced[0] == ' ');
    lemma_position_unique(spaced, ' ', 0);
    let empty = seq!['"', '"'] + rest;
    assert(empty[0] == '"');
    assert(empty.skip(1)[0] == '"');
    lemma_position_unique(empty.skip(1), '"', 0);
    lemma_position_unique(Seq::<char>::empty(), ' ', 0);
}

/// A program is looked for where the user has registered it, then where the machine has, then where
/// files are opened with it, then in the two folders for programs, each only where that is known,
/// and last on the search path, which is never left out.
pub proof fn law_places_are_in_order(hints: ProgramHints, exe: Seq<char>)
    ensures
        ({
            let found = places(hints, exe);
            let user: int = if hints.user_app_path is Some {
                1
            } else {
                0
            };
            let machine: int = if hints.machine_app_path is Some {
                1
            } else {
                0
            };
            let opener: int = if hints.open_with is Some && program_of(hints.open_with->0@) is Some {
                1
            } else {
                0
            };
            let files: int = if hints.program_files {
                1
            } else {
                0
            };
            let files_x86: int = if hints.program_files_x86 {
                1
            } else {
                0
            };
            let n = user + machine + opener;
            &&& found.len() == n + files + files_x86 + 1
            &&& user == 1 ==> found[0] == PlayerPathParts::Program(
                trim_end(trim_start(hints.user_app_path->0@, '"'), '"'),
            )
            &&& machine == 1 ==> found[user] == PlayerPathParts::Program(
                trim_end(trim_start(hints.machine_app_path->0@, '"'), '"'),
            )
            &&& opener == 1 ==> found[user + machine] == PlayerPathParts::Program(
                program_of(hints.open_with->0@)->0,
            )
            &&& files == 1 ==> found[n] == PlayerPathParts::Installed("ProgramFiles"@)
            &&& files_x86 == 1 ==> found[n + files] == PlayerPathParts::Installed(
                "ProgramFiles(x86)"@,
            )
            &&& found[n + files + files_x86] == PlayerPathParts::Program(exe)
        }),
{
}

/// The models of requests and places are those of their own texts.
pub proof fn law_models_of_requests_and_places(
    url: ParsedUrl,
    path: String,
    variable: &'static str,
    list: Seq<PlayerPath>,
)
    ensures
        Request::Vlc(url)@ == RequestParts::Vlc(url@),
        Request::Playlist(url)@ == RequestParts::Playlist(url@),
        RequestParts::Vlc(url@).url() == url@,
        RequestParts::Playlist(url@).url() == url@,
        PlayerPath::Program(path)@ == PlayerPathParts::Program(path@),
        PlayerPath::Installed(variable)@ == PlayerPathParts::Installed(variable@),
        path_parts(list).len() == list.len(),
        forall|i: int| 0 <= i < list.len() ==> #[trigger] path_parts(list)[i] == list[i]@,
{
}

/// A result stands for its own value or error.
pub proof fn law_results_are_told(url: ParsedUrl, error: &'static str, bytes: Vec<u8>)
    ensures
        result_parts::<ParsedUrl>(Ok(url)) == Ok::<UrlParts, Seq<char>>(url@),
        result_parts::<ParsedUrl>(Err(error)) == Err::<UrlParts, Seq<char>>(error@),
        result_parts::<Request>(Ok(Request::Vlc(url))) == Ok::<RequestParts, Seq<char>>(
            RequestParts::Vlc(url@),
        ),
        result_parts::<Request>(Err(error)) == Err::<RequestParts, Seq<char>>(error@),
        optional_bytes(Some(bytes)) == Some(bytes@),
        optional_bytes(None) is None,
{
}

} // verus!
