//! What the shell tells the web interface.
use crate::text::optional_text;
use vstd::prelude::*;

verus! {

/// The request of the web interface to let the user choose a folder for the cache.
#[derive(Debug, Clone)]
pub struct CacheDirectoryRequest {
    /// By what the answer is known.
    pub request_id: String,
    /// The server that the folder is for.
    pub server_url: String,
    /// The folder that is in use.
    pub directory: Option<String>,
}

/// The texts of a `CacheDirectoryRequest`.
pub struct CacheDirectoryModel {
    pub request_id: Seq<char>,
    pub server_url: Seq<char>,
    pub directory: Option<Seq<char>>,
}

impl View for CacheDirectoryRequest {
    type V = CacheDirectoryModel;

    open spec fn view(&self) -> CacheDirectoryModel {
        CacheDirectoryModel {
            request_id: self.request_id@,
            server_url: self.server_url@,
            directory: optional_text(self.directory),
        }
    }
}

/// The value of a property of the player.
#[derive(Debug)]
pub enum PropertyValue {
    Text(String),
    /// A text for the eyes of the user.
    DisplayText(String),
    Flag(bool),
    Int(i64),
    /// The bits of a 64-bit floating-point number.
    Double(u64),
    /// There is none at the time.
    Unavailable,
}

/// A message of the shell to the web interface.
#[derive(Debug)]
pub enum WebResponse {
    /// The answer to the handshake, with the address of the local server if there is one.
    Handshake { server_url: Option<String> },
    /// Whether the window is to be seen, and whether it fills the screen.
    VisibilityChange { visible: bool, visibility: u32, full_screen: bool },
    /// The state of the window.
    StateChange(u32),
    /// An update can be installed.
    UpdateAvailable,
    /// The folder that the user chose, none if the choice was given up, or why there is none.
    CacheDirectorySelected { request_id: String, result: Result<Option<String>, String> },
    /// Whether the shell is connected to Discord.
    DiscordStatus(bool),
    /// What was handed to the shell is to be opened.
    OpenMedia { input: String },
    /// Whether the video of a load can be shown.
    VideoReady { load_id: u64, ready: bool },
    /// A property of the player has changed.
    PropertyChange { name: String, value: PropertyValue },
    /// The player has come to the end of a file, for this reason.
    Ended { reason: u32 },
}

/// The texts of a `WebResponse`.
pub enum WebResponseModel {
    Handshake { server_url: Option<Seq<char>> },
    VisibilityChange { visible: bool, visibility: u32, full_screen: bool },
    StateChange(u32),
    UpdateAvailable,
    CacheDirectorySelected {
        request_id: Seq<char>,
        result: Result<Option<Seq<char>>, Seq<char>>,
    },
    DiscordStatus(bool),
    OpenMedia { input: Seq<char> },
    VideoReady { load_id: u64, ready: bool },
    PropertyChange { name: Seq<char>, value: PropertyValue },
    Ended { reason: u32 },
}

impl View for WebResponse {
    type V = WebResponseModel;

    open spec fn view(&self) -> WebResponseModel {
        match *self {
            WebResponse::Handshake { server_url } => WebResponseModel::Handshake {
                server_url: optional_text(server_url),
            },
            WebResponse::VisibilityChange { visible, visibility, full_screen } => {
                WebResponseModel::VisibilityChange { visible, visibility, full_screen }
            },
            WebResponse::StateChange(state) => WebResponseModel::StateChange(state),
            WebResponse::UpdateAvailable => WebResponseModel::UpdateAvailable,
            WebResponse::CacheDirectorySelected { request_id, result } => {
                WebResponseModel::CacheDirectorySelected {
                    request_id: request_id@,
                    result: match result {
                        Ok(directory) => Ok(optional_text(directory)),
                        Err(error) => Err(error@),
                    },
                }
            },
            WebResponse::DiscordStatus(connected) => WebResponseModel::DiscordStatus(connected),
            WebResponse::OpenMedia { input } => WebResponseModel::OpenMedia { input: input@ },
            WebResponse::VideoReady { load_id, ready } => WebResponseModel::VideoReady {
                load_id,
                ready,
            },
            WebResponse::PropertyChange { name, value } => WebResponseModel::PropertyChange {
                name: name@,
                value,
            },
            WebResponse::Ended { reason } => WebResponseModel::Ended { reason },
        }
    }
}

impl WebResponse {
    /// The name of the event of the player that the message tells of: a property that has changed,
    /// or the end of a file. Other messages have no such name.
    pub fn player_event(&self) -> (name: Option<&'static str>)
        ensures
            match *self {
                WebResponse::PropertyChange { .. } => name matches Some(n) && n@
                    == "mpv-prop-change"@,
                WebResponse::Ended { .. } => name matches Some(n) && n@ == "mpv-event-ended"@,
                _ => name is None,
            },
    {
        match self {
            WebResponse::PropertyChange { .. } => Some("mpv-prop-change"),
            WebResponse::Ended { .. } => Some("mpv-event-ended"),
            _ => None,
        }
    }
}

/// The message that the video of a load can be shown, or not.
pub fn video_ready_response(load_id: u64, ready: bool) -> (response: WebResponse)
    ensures
        response == (WebResponse::VideoReady { load_id, ready }),
{
    WebResponse::VideoReady { load_id, ready }
}

/// The models of requests and messages are those of their own texts and values.
pub proof fn law_models_of_messages(message: WebResponse, request: CacheDirectoryRequest)
    ensures
        request@.request_id == request.request_id@,
        request@.server_url == request.server_url@,
        request.directory matches Some(d) ==> request@.directory == Some(d@),
        request.directory is None ==> request@.directory is None,
        match message {
            WebResponse::Handshake { server_url } => message@ is Handshake && (
            server_url matches Some(url) ==> message@->Handshake_server_url == Some(url@)) && (
            server_url is None ==> message@->Handshake_server_url is None),
            WebResponse::VisibilityChange { visible, visibility, full_screen } => message@ == (
            WebResponseModel::VisibilityChange { visible, visibility, full_screen }),
            WebResponse::StateChange(state) => message@ == WebResponseModel::StateChange(state),
            WebResponse::UpdateAvailable => message@ == WebResponseModel::UpdateAvailable,
            WebResponse::CacheDirectorySelected { request_id, result } => {
                &&& message@ is CacheDirectorySelected
                &&& message@->request_id == request_id@
                &&& result matches Ok(Some(path)) ==> message@->result == Ok::<
                    Option<Seq<char>>,
                    Seq<char>,
                >(Some(path@))
                &&& result matches Ok(None) ==> message@->result == Ok::<
                    Option<Seq<char>>,
                    Seq<char>,
                >(None)
                &&& result matches Err(error) ==> message@->result == Err::<
                    Option<Seq<char>>,
                    Seq<char>,
                >(error@)
            },
            WebResponse::DiscordStatus(connected) => message@ == WebResponseModel::DiscordStatus(
                connected,
            ),
            WebResponse::OpenMedia { input } => message@ == (WebResponseModel::OpenMedia {
                input: input@,
            }),
            WebResponse::VideoReady { load_id, ready } => message@ == (
            WebResponseModel::VideoReady { load_id, ready }),
            WebResponse::PropertyChange { name, value } => message@ == (
            WebResponseModel::PropertyChange { name: name@, value }),
            WebResponse::Ended { reason } => message@ == (WebResponseModel::Ended { reason }),
        },
{
}

} // verus!
