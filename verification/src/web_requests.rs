//! What the web interface asks of the shell, and what the shell does about it.
use crate::ipc::{CacheDirectoryModel, CacheDirectoryRequest, WebResponse, WebResponseModel};
use crate::json::Json;
use crate::text::{optional_text, same_text, starts_with};
use vstd::prelude::*;

verus! {

/// A request of the web interface.
pub struct WebRequest {
    /// Whether a request without a method is the handshake.
    pub handshake: bool,
    /// What is asked for.
    pub method: Option<String>,
    /// The first argument.
    pub params: Option<Json>,
    /// The first argument as a request for a cache folder, if it is one.
    pub cache_directory: Option<CacheDirectoryRequest>,
}

/// The texts of a `WebRequest`.
pub struct WebRequestModel {
    pub handshake: bool,
    pub method: Option<Seq<char>>,
    pub params: Option<Json>,
    pub cache_directory: Option<CacheDirectoryModel>,
}

impl View for WebRequest {
    type V = WebRequestModel;

    open spec fn view(&self) -> WebRequestModel {
        WebRequestModel {
            handshake: self.handshake,
            method: optional_text(self.method),
            params: self.params,
            cache_directory: match self.cache_directory {
                Some(request) => Some(request@),
                None => None,
            },
        }
    }
}

/// The methods that the shell knows.
#[derive(Debug, Clone, Copy, PartialEq, Eq, Structural)]
pub enum WebMethod {
    PickCacheDirectory,
    SetInterfaceScale,
    SetVisibility,
    Quit,
    AppReady,
    AppError,
    OpenExternal,
    PlayExternal,
    Focus,
    UpdateClicked,
    DiscordConnect,
    DiscordDisconnect,
    DiscordSetActivity,
    DiscordClearActivity,
    /// Whatever begins with `mpv-` is for the player.
    Player,
    Unknown,
}

impl WebMethod {
    /// The name of a method that has one.
    pub open spec fn name(self) -> Option<Seq<char>> {
        match self {
            WebMethod::PickCacheDirectory => Some("pick-cache-directory"@),
            WebMethod::SetInterfaceScale => Some("win-set-interface-scale"@),
            WebMethod::SetVisibility => Some("win-set-visibility"@),
            WebMethod::Quit => Some("quit"@),
            WebMethod::AppReady => Some("app-ready"@),
            WebMethod::AppError => Some("app-error"@),
            WebMethod::OpenExternal => Some("open-external"@),
            WebMethod::PlayExternal => Some("play-external"@),
            WebMethod::Focus => Some("win-focus"@),
            WebMethod::UpdateClicked => Some("autoupdater-notif-clicked"@),
            WebMethod::DiscordConnect => Some("discord-connect"@),
            WebMethod::DiscordDisconnect => Some("discord-disconnect"@),
            WebMethod::DiscordSetActivity => Some("discord-set-activity"@),
            WebMethod::DiscordClearActivity => Some("discord-clear-activity"@),
            WebMethod::Player => None,
            WebMethod::Unknown => None,
        }
    }
}

/// The method that goes by a name.
pub open spec fn method_named(name: Seq<char>) -> WebMethod {
    if name == "pick-cache-directory"@ {
        WebMethod::PickCacheDirectory
    } else if name == "win-set-interface-scale"@ {
        WebMethod::SetInterfaceScale
    } else if name == "win-set-visibility"@ {
        WebMethod::SetVisibility
    } else if name == "quit"@ {
        WebMethod::Quit
    } else if name == "app-ready"@ {
        WebMethod::AppReady
    } else if name == "app-error"@ {
        WebMethod::AppError
    } else if name == "open-external"@ {
        WebMethod::OpenExternal
    } else if name == "play-external"@ {
        WebMethod::PlayExternal
    } else if name == "win-focus"@ {
        WebMethod::Focus
    } else if name == "autoupdater-notif-clicked"@ {
        WebMethod::UpdateClicked
    } else if name == "discord-connect"@ {
        WebMethod::DiscordConnect
    } else if name == "discord-disconnect"@ {
        WebMethod::DiscordDisconnect
    } else if name == "discord-set-activity"@ {
        WebMethod::DiscordSetActivity
    } else if name == "discord-clear-activity"@ {
        WebMethod::DiscordClearActivity
    } else if "mpv-"@.is_prefix_of(name) {
        WebMethod::Player
    } else {
        WebMethod::Unknown
    }
}

/// The method that goes by a name.
pub fn find_method(name: &str) -> (method: WebMethod)
    ensures
        method == method_named(name@),
{
    if same_text(name, "pick-cache-directory") {
        WebMethod::PickCacheDirectory
    } else if same_text(name, "win-set-interface-scale") {
        WebMethod::SetInterfaceScale
    } else if same_text(name, "win-set-visibility") {
        WebMethod::SetVisibility
    } else if same_text(name, "quit") {
        WebMethod::Quit
    } else if same_text(name, "app-ready") {
        WebMethod::AppReady
    } else if same_text(name, "app-error") {
        WebMethod::AppError
    } else if same_text(name, "open-external") {
        WebMethod::OpenExternal
    } else if same_text(name, "play-external") {
        WebMethod::PlayExternal
    } else if same_text(name, "win-focus") {
        WebMethod::Focus
    } else if same_text(name, "autoupdater-notif-clicked") {
        WebMethod::UpdateClicked
    } else if same_text(name, "discord-connect") {
        WebMethod::DiscordConnect
    } else if same_text(name, "discord-disconnect") {
        WebMethod::DiscordDisconnect
    } else if same_text(name, "discord-set-activity") {
        WebMethod::DiscordSetActivity
    } else if same_text(name, "discord-clear-activity") {
        WebMethod::DiscordClearActivity
    } else if starts_with(name, "mpv-") {
        WebMethod::Player
    } else {
        WebMethod::Unknown
    }
}

/// Something that the shell has to do.
#[derive(Debug)]
pub enum ShellAction {
    /// Tell the web interface something.
    Respond(WebResponse),
    /// Let the user choose the cache folder that is asked for.
    PickCacheDirectory,
    /// Apply the scale that is asked for.
    ApplyInterfaceScale,
    /// Fill the screen or not, as is asked for.
    ToggleFullscreen,
    /// End the shell.
    Quit,
    /// Hide the splash screen.
    HideSplash,
    /// Look for updates.
    CheckForUpdate,
    /// Tell the hand-over that the web interface is ready.
    OpenReady,
    /// Open this address outside of the shell.
    OpenUrl(String),
    /// Play this outside of the shell.
    PlayExternal(String),
    /// Show the window.
    Focus,
    /// Run the setup program at this path.
    RunSetup(String),
    /// Hand the request to the player.
    ForwardToPlayer,
}

/// The texts of a `ShellAction`.
pub enum ShellActionModel {
    Respond(WebResponseModel),
    PickCacheDirectory,
    ApplyInterfaceScale,
    ToggleFullscreen,
    Quit,
    HideSplash,
    CheckForUpdate,
    OpenReady,
    OpenUrl(Seq<char>),
    PlayExternal(Seq<char>),
    Focus,
    RunSetup(Seq<char>),
    ForwardToPlayer,
}

impl View for ShellAction {
    type V = ShellActionModel;

    open spec fn view(&self) -> ShellActionModel {
        match *self {
            ShellAction::Respond(response) => ShellActionModel::Respond(response@),
            ShellAction::PickCacheDirectory => ShellActionModel::PickCacheDirectory,
            ShellAction::ApplyInterfaceScale => ShellActionModel::ApplyInterfaceScale,
            ShellAction::ToggleFullscreen => ShellActionModel::ToggleFullscreen,
            ShellAction::Quit => ShellActionModel::Quit,
            ShellAction::HideSplash => ShellActionModel::HideSplash,
            ShellAction::CheckForUpdate => ShellActionModel::CheckForUpdate,
            ShellAction::OpenReady => ShellActionModel::OpenReady,
            ShellAction::OpenUrl(url) => ShellActionModel::OpenUrl(url@),
            ShellAction::PlayExternal(input) => ShellActionModel::PlayExternal(input@),
            ShellAction::Focus => ShellActionModel::Focus,
            ShellAction::RunSetup(path) => ShellActionModel::RunSetup(path@),
            ShellAction::ForwardToPlayer => ShellActionModel::ForwardToPlayer,
        }
    }
}

/// The texts of a list of actions.
pub open spec fn action_models(actions: Seq<ShellAction>) -> Seq<ShellActionModel> {
    actions.map_values(|action: ShellAction| action@)
}

/// Every method that has a name is found under it, and under no other.
pub proof fn law_methods_go_by_their_names(method: WebMethod, name: Seq<char>)
    ensures
        method.name() is Some ==> (method_named(name) == method <==> method.name() == Some(name)),
{
    reveal_strlit("pick-cache-directory");
    assert("pick-cache-directory"@.len() == 20);
    reveal_strlit("win-set-interface-scale");
    assert("win-set-interface-scale"@.len() == 23);
    reveal_strlit("win-set-visibility");
    assert("win-set-visibility"@.len() == 18);
    reveal_strlit("quit");
    assert("quit"@.len() == 4);
    reveal_strlit("app-ready");
    assert("app-ready"@.len() == 9);
    reveal_strlit("app-error");
    assert("app-error"@.len() == 9);
    reveal_strlit("open-external");
    assert("open-external"@.len() == 13);
    reveal_strlit("play-external");
    assert("play-external"@.len() == 13);
    reveal_strlit("win-focus");
    assert("win-focus"@.len() == 9);
    reveal_strlit("autoupdater-notif-clicked");
    assert("autoupdater-notif-clicked"@.len() == 25);
    reveal_strlit("discord-connect");
    assert("discord-connect"@.len() == 15);
    reveal_strlit("discord-disconnect");
    assert("discord-disconnect"@.len() == 18);
    reveal_strlit("discord-set-activity");
    assert("discord-set-activity"@.len() == 20);
    reveal_strlit("discord-clear-activity");
    assert("discord-clear-activity"@.len() == 22);
    assert("app-ready"@[4] != "app-error"@[4]);
    assert("app-ready"@[0] != "win-focus"@[0]);
    assert("app-error"@[0] != "win-focus"@[0]);
    assert("open-external"@[0] != "play-external"@[0]);
    assert("win-set-visibility"@[0] != "discord-disconnect"@[0]);
    assert("pick-cache-directory"@[0] != "discord-set-activity"@[0]);
}

/// The models of requests and actions are those of their own texts, and a list of actions has as
/// many models as actions, each at its place.
pub proof fn law_models_of_actions(
    action: ShellAction,
    request: WebRequest,
    list: Seq<ShellAction>,
)
    ensures
        match action {
            ShellAction::Respond(response) => action@ == ShellActionModel::Respond(response@),
            ShellAction::PickCacheDirectory => action@ == ShellActionModel::PickCacheDirectory,
            ShellAction::ApplyInterfaceScale => action@ == ShellActionModel::ApplyInterfaceScale,
            ShellAction::ToggleFullscreen => action@ == ShellActionModel::ToggleFullscreen,
            ShellAction::Quit => action@ == ShellActionModel::Quit,
            ShellAction::HideSplash => action@ == ShellActionModel::HideSplash,
            ShellAction::CheckForUpdate => action@ == ShellActionModel::CheckForUpdate,
            ShellAction::OpenReady => action@ == ShellActionModel::OpenReady,
            ShellAction::OpenUrl(url) => action@ == ShellActionModel::OpenUrl(url@),
            ShellAction::PlayExternal(input) => action@ == ShellActionModel::PlayExternal(input@),
            ShellAction::Focus => action@ == ShellActionModel::Focus,
            ShellAction::RunSetup(path) => action@ == ShellActionModel::RunSetup(path@),
            ShellAction::ForwardToPlayer => action@ == ShellActionModel::ForwardToPlayer,
        },
        request@.handshake == request.handshake,
        request@.params == request.params,
        request.method matches Some(name) ==> request@.method == Some(name@),
        request.method is None ==> request@.method is None,
        request.cache_directory matches Some(asked) ==> request@.cache_directory == Some(asked@),
        request.cache_directory is None ==> request@.cache_directory is None,
        action_models(list).len() == list.len(),
        forall|i: int| 0 <= i < list.len() ==> #[trigger] action_models(list)[i] == list[i]@,
{
}

} // verus!
