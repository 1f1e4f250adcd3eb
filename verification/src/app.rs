//! The main window: what it does about the requests of the web interface, the events of the local
//! server and the wishes of the user.
use crate::constants::{external_target, literals, open_external, web_endpoint_for};
use crate::constants::{web_endpoint_with_streaming_server, WEB_ENDPOINT};
use crate::discord::{DiscordCommandModel, DiscordQueue, DiscordRpc};
use crate::ipc::{CacheDirectoryModel, CacheDirectoryRequest, WebResponse, WebResponseModel};
use crate::json::{member_signed, member_text, signed_member, text_member, Json, JsonNumber};
use crate::outside::{parse_url, url_parse};
use crate::text::{law_trim_end, optional_text, same_text, trim_end, trim_end_text};
use crate::urls::{url_parts, ParsedUrl, UrlParts};
use crate::web_requests::{action_models, find_method, method_named, ShellAction, ShellActionModel};
use crate::web_requests::{law_methods_go_by_their_names, WebMethod, WebRequest, WebRequestModel};
use vstd::prelude::*;

verus! {

/// The state of the shell that its window, its threads and the web interface share.
pub struct MainWindow {
    /// The address of the web interface.
    pub webui_url: String,
    /// Whether the splash screen is not shown.
    pub no_splash: bool,
    /// Whether the window is not shown at the start.
    pub start_hidden: bool,
    /// The setup program of an update that can be installed.
    pub autoupdater_setup_file: Option<String>,
    /// Whether the window is asked to fill the screen.
    pub requested_fullscreen: Option<bool>,
    /// The cache folder that is asked for.
    pub requested_cache_directory: Option<CacheDirectoryRequest>,
    /// The scale that is asked for, in percent.
    pub requested_interface_scale: Option<u64>,
    /// The address of the local server.
    pub local_server_url: Option<String>,
    /// The commands for Discord.
    pub discord: DiscordRpc,
}

/// What the requests of the web interface read and change of a `MainWindow`.
#[verifier::ext_equal]
pub struct ShellModel {
    pub setup_file: Option<Seq<char>>,
    pub fullscreen: Option<bool>,
    pub cache_directory: Option<CacheDirectoryModel>,
    pub interface_scale: Option<u64>,
    pub local_server: Option<Seq<char>>,
    pub discord: DiscordQueue,
}

impl View for MainWindow {
    type V = ShellModel;

    open spec fn view(&self) -> ShellModel {
        ShellModel {
            setup_file: optional_text(self.autoupdater_setup_file),
            fullscreen: self.requested_fullscreen,
            cache_directory: match self.requested_cache_directory {
                Some(request) => Some(request@),
                None => None,
            },
            interface_scale: self.requested_interface_scale,
            local_server: optional_text(self.local_server_url),
            discord: self.discord@,
        }
    }
}

impl MainWindow {
    /// Whether two windows have the same settings.
    pub open spec fn same_settings(self, other: MainWindow) -> bool {
        &&& self.webui_url == other.webui_url
        &&& self.no_splash == other.no_splash
        &&& self.start_hidden == other.start_hidden
    }
}

/// The answer to a request for a cache folder that is refused.
pub open spec fn refused(request: CacheDirectoryModel, error: Seq<char>) -> Seq<ShellActionModel> {
    seq![
        ShellActionModel::Respond(
            WebResponseModel::CacheDirectorySelected {
                request_id: request.request_id,
                result: Err(error),
            },
        ),
    ]
}

/// Why a request for a cache folder is refused: folders are chosen for the local server only, and
/// one at a time.
pub open spec fn refusal(state: ShellModel, request: CacheDirectoryModel) -> Option<Seq<char>> {
    if state.local_server != Some(request.server_url) {
        Some("The folder picker is only available for the shell's local server"@)
    } else if state.cache_directory is Some {
        Some("A folder picker is already open"@)
    } else {
        None
    }
}

/// The scale that a request asks for: a whole number from 75 to 175, in percent.
pub open spec fn asked_scale(params: Option<Json>) -> Option<u64> {
    match params {
        Some(params) => match params.member("scale"@) {
            Some(value) => match value.unsigned() {
                Some(scale) => if 75 <= scale <= 175 {
                    Some(scale)
                } else {
                    None
                },
                None => None,
            },
            None => None,
        },
        None => None,
    }
}

/// Whether a request asks to fill the screen or not to.
pub open spec fn asked_fullscreen(params: Option<Json>) -> Option<bool> {
    match params {
        Some(params) => match params.member("fullscreen"@) {
            Some(value) => value.flag(),
            None => None,
        },
        None => None,
    }
}

/// The argument of a request, if it is a text.
pub open spec fn asked_text(params: Option<Json>) -> Option<Seq<char>> {
    match params {
        Some(params) => params.text(),
        None => None,
    }
}

/// What a request wants Discord to show.
pub open spec fn asked_activity(params: Json) -> DiscordCommandModel {
    DiscordCommandModel::SetActivity {
        state: match member_text(params, "state"@) {
            Some(text) => text,
            None => ""@,
        },
        details: match member_text(params, "details"@) {
            Some(text) => text,
            None => ""@,
        },
        large_image: member_text(params, "image"@),
        start_timestamp: member_signed(params, "startTimestamp"@),
        end_timestamp: member_signed(params, "endTimestamp"@),
    }
}

/// The state after a request of the web interface.
pub open spec fn after_request(state: ShellModel, request: WebRequestModel) -> ShellModel {
    match request.method {
        Some(name) => match method_named(name) {
            WebMethod::PickCacheDirectory => match request.cache_directory {
                Some(asked) => if refusal(state, asked) is None {
                    ShellModel { cache_directory: Some(asked), ..state }
                } else {
                    state
                },
                None => state,
            },
            WebMethod::SetInterfaceScale => match asked_scale(request.params) {
                Some(scale) => ShellModel { interface_scale: Some(scale), ..state },
                None => state,
            },
            WebMethod::SetVisibility => match asked_fullscreen(request.params) {
                Some(fullscreen) => ShellModel { fullscreen: Some(fullscreen), ..state },
                None => state,
            },
            WebMethod::DiscordConnect => ShellModel {
                discord: state.discord.sent(DiscordCommandModel::Connect),
                ..state
            },
            WebMethod::DiscordDisconnect => ShellModel {
                discord: state.discord.sent(DiscordCommandModel::Disconnect),
                ..state
            },
            WebMethod::DiscordSetActivity => match request.params {
                Some(params) => ShellModel {
                    discord: state.discord.sent(asked_activity(params)),
                    ..state
                },
                None => state,
            },
            WebMethod::DiscordClearActivity => ShellModel {
                discord: state.discord.sent(DiscordCommandModel::ClearActivity),
                ..state
            },
            _ => state,
        },
        None => state,
    }
}

/// What has to be done about a request of the web interface.
pub open spec fn request_actions(state: ShellModel, request: WebRequestModel) -> Seq<
    ShellActionModel,
> {
    match request.method {
        None => if request.handshake {
            seq![
                ShellActionModel::Respond(
                    WebResponseModel::Handshake { server_url: state.local_server },
                ),
            ]
        } else {
            Seq::empty()
        },
        Some(name) => match method_named(name) {
            WebMethod::PickCacheDirectory => match request.cache_directory {
                Some(asked) => match refusal(state, asked) {
                    Some(error) => refused(asked, error),
                    None => seq![ShellActionModel::PickCacheDirectory],
                },
                None => Seq::empty(),
            },
            WebMethod::SetInterfaceScale => if asked_scale(request.params) is Some {
                seq![ShellActionModel::ApplyInterfaceScale]
            } else {
                Seq::empty()
            },
            WebMethod::SetVisibility => if asked_fullscreen(request.params) is Some {
                seq![ShellActionModel::ToggleFullscreen]
            } else {
                Seq::empty()
            },
            WebMethod::Quit => seq![ShellActionModel::Quit],
            WebMethod::AppReady => seq![
                ShellActionModel::HideSplash,
                ShellActionModel::Respond(
                    WebResponseModel::VisibilityChange {
                        visible: true,
                        visibility: 1,
                        full_screen: false,
                    },
                ),
                ShellActionModel::CheckForUpdate,
                ShellActionModel::OpenReady,
            ],
            WebMethod::AppError => seq![ShellActionModel::HideSplash],
            WebMethod::OpenExternal => match request.params {
                Some(params) => match external_target(
                    match params.text() {
                        Some(text) => text,
                        None => ""@,
                    },
                ) {
                    Some(target) => seq![ShellActionModel::OpenUrl(target)],
                    None => Seq::empty(),
                },
                None => Seq::empty(),
            },
            WebMethod::PlayExternal => match asked_text(request.params) {
                Some(input) => seq![ShellActionModel::PlayExternal(input)],
                None => Seq::empty(),
            },
            WebMethod::Focus => seq![ShellActionModel::Focus],
            WebMethod::UpdateClicked => match state.setup_file {
                Some(path) => seq![ShellActionModel::RunSetup(path)],
                None => Seq::empty(),
            },
            WebMethod::DiscordConnect => if state.discord.open {
                Seq::empty()
            } else {
                seq![ShellActionModel::Respond(WebResponseModel::DiscordStatus(false))]
            },
            WebMethod::DiscordDisconnect => seq![
                ShellActionModel::Respond(WebResponseModel::DiscordStatus(false)),
            ],
            WebMethod::DiscordSetActivity => Seq::empty(),
            WebMethod::DiscordClearActivity => Seq::empty(),
            WebMethod::Player => seq![ShellActionModel::ForwardToPlayer],
            WebMethod::Unknown => Seq::empty(),
        },
    }
}

/// No action.
fn nothing() -> (actions: Vec<ShellAction>)
    ensures
        action_models(actions@) == Seq::<ShellActionModel>::empty(),
{
    let actions: Vec<ShellAction> = Vec::new();
    assert(action_models(actions@) =~= Seq::empty());
    actions
}

/// One action.
fn just(action: ShellAction) -> (actions: Vec<ShellAction>)
    ensures
        action_models(actions@) == seq![action@],
{
    let actions = vec![action];
    assert(action_models(actions@) =~= seq![action@]);
    actions
}

impl MainWindow {
    /// The shell at its start.
    pub fn new(webui_url: String, no_splash: bool, start_hidden: bool) -> (window: Self)
        ensures
            window.webui_url == webui_url,
            window.no_splash == no_splash,
            window.start_hidden == start_hidden,
            window@ == (ShellModel {
                setup_file: None,
                fullscreen: None,
                cache_directory: None,
                interface_scale: None,
                local_server: None,
                discord: DiscordQueue { commands: Seq::empty(), open: true },
            }),
    {
        MainWindow {
            webui_url,
            no_splash,
            start_hidden,
            autoupdater_setup_file: None,
            requested_fullscreen: None,
            requested_cache_directory: None,
            requested_interface_scale: None,
            local_server_url: None,
            discord: DiscordRpc::new(),
        }
    }

    /// Takes a request of the web interface. Returns what has to be done about it, in order.
    pub fn on_web_request(&mut self, request: WebRequest) -> (actions: Vec<ShellAction>)
        ensures
            final(self)@ == after_request(old(self)@, request@),
            action_models(actions@) == request_actions(old(self)@, request@),
            final(self).same_settings(*old(self)),
    {
        let method = match &request.method {
            Some(name) => find_method(name.as_str()),
            None => {
                if !request.handshake {
                    return nothing();
                }
                let server_url = self.local_server_url.clone();
                return just(ShellAction::Respond(WebResponse::Handshake { server_url }));
            },
        };
        match method {
            WebMethod::PickCacheDirectory => match request.cache_directory {
                Some(asked) => self.on_pick_cache_directory(asked),
                None => nothing(),
            },
            WebMethod::SetInterfaceScale => match scale_param(&request.params) {
                Some(scale) => {
                    self.requested_interface_scale = Some(scale);
                    just(ShellAction::ApplyInterfaceScale)
                },
                None => nothing(),
            },
            WebMethod::SetVisibility => match fullscreen_param(&request.params) {
                Some(fullscreen) => {
                    self.requested_fullscreen = Some(fullscreen);
                    just(ShellAction::ToggleFullscreen)
                },
                None => nothing(),
            },
            WebMethod::Quit => just(ShellAction::Quit),
            WebMethod::AppReady => {
                let actions = vec![
                    ShellAction::HideSplash,
                    ShellAction::Respond(
                        WebResponse::VisibilityChange {
                            visible: true,
                            visibility: 1,
                            full_screen: false,
                        },
                    ),
                    ShellAction::CheckForUpdate,
                    ShellAction::OpenReady,
                ];
                assert(action_models(actions@) =~= request_actions(old(self)@, request@));
                actions
            },
            WebMethod::AppError => just(ShellAction::HideSplash),
            WebMethod::OpenExternal => match &request.params {
                Some(params) => {
                    let arg = params.as_str().unwrap_or("");
                    match open_external(arg) {
                        Some(url) => just(ShellAction::OpenUrl(url)),
                        None => nothing(),
                    }
                },
                None => nothing(),
            },
            WebMethod::PlayExternal => match &request.params {
                Some(params) => match params.as_str() {
                    Some(input) => just(ShellAction::PlayExternal(input.to_owned())),
                    None => nothing(),
                },
                None => nothing(),
            },
            WebMethod::Focus => just(ShellAction::Focus),
            WebMethod::UpdateClicked => match &self.autoupdater_setup_file {
                Some(path) => just(ShellAction::RunSetup(path.clone())),
                None => nothing(),
            },
            WebMethod::DiscordConnect => match self.discord.connect() {
                Ok(_) => nothing(),
                Err(_) => just(ShellAction::Respond(WebResponse::DiscordStatus(false))),
            },
            WebMethod::DiscordDisconnect => {
                let _ = self.discord.disconnect();
                just(ShellAction::Respond(WebResponse::DiscordStatus(false)))
            },
            WebMethod::DiscordSetActivity => {
                if let Some(params) = &request.params {
                    let state = text_member(params, "state").unwrap_or("");
                    let details = text_member(params, "details").unwrap_or("");
                    let image = text_member(params, "image");
                    let start_timestamp = signed_member(params, "startTimestamp");
                    let end_timestamp = signed_member(params, "endTimestamp");
                    let _ = self.discord.set_activity(
                        state,
                        details,
                        image,
                        start_timestamp,
                        end_timestamp,
                    );
                }
                nothing()
            },
            WebMethod::DiscordClearActivity => {
                let _ = self.discord.clear_activity();
                nothing()
            },
            WebMethod::Player => just(ShellAction::ForwardToPlayer),
            WebMethod::Unknown => nothing(),
        }
    }

    /// Takes a request for a cache folder.
    fn on_pick_cache_directory(&mut self, asked: CacheDirectoryRequest) -> (actions: Vec<
        ShellAction,
    >)
        ensures
            final(self)@ == (match refusal(old(self)@, asked@) {
                Some(_) => old(self)@,
                None => ShellModel { cache_directory: Some(asked@), ..old(self)@ },
            }),
            action_models(actions@) == match refusal(old(self)@, asked@) {
                Some(error) => refused(asked@, error),
                None => seq![ShellActionModel::PickCacheDirectory],
            },
            final(self).same_settings(*old(self)),
    {
        let is_local = match &self.local_server_url {
            Some(url) => same_text(url.as_str(), asked.server_url.as_str()),
            None => false,
        };
        let error = if !is_local {
            "The folder picker is only available for the shell's local server"
        } else if self.requested_cache_directory.is_some() {
            "A folder picker is already open"
        } else {
            self.requested_cache_directory = Some(asked);
            return just(ShellAction::PickCacheDirectory);
        };
        just(
            ShellAction::Respond(
                WebResponse::CacheDirectorySelected {
                    request_id: asked.request_id,
                    result: Err(error.to_owned()),
                },
            ),
        )
    }
}

/// What became of the user's choice of a cache folder.
#[derive(Debug)]
pub enum PickOutcome {
    /// The user gave the choice up.
    Cancelled,
    /// The choice failed, for this reason.
    Failed(String),
    /// The user chose this folder.
    Selected(String),
    /// The user chose a folder whose path is no text.
    NotUnicode,
}

/// What the web interface is told about the user's choice.
pub open spec fn picked(outcome: PickOutcome) -> Result<Option<Seq<char>>, Seq<char>> {
    match outcome {
        PickOutcome::Cancelled => Ok(None),
        PickOutcome::Failed(error) => Err(error@),
        PickOutcome::Selected(path) => Ok(Some(path@)),
        PickOutcome::NotUnicode => Err("The selected folder path is not valid Unicode"@),
    }
}

/// The answer to the request for a cache folder that is open, if there is one.
pub open spec fn picker_answer(state: ShellModel, outcome: PickOutcome) -> Option<
    WebResponseModel,
> {
    match state.cache_directory {
        Some(request) => Some(
            WebResponseModel::CacheDirectorySelected {
                request_id: request.request_id,
                result: picked(outcome),
            },
        ),
        None => None,
    }
}

/// Whether a server runs on this machine, given what the URL parser makes of its address.
pub open spec fn is_local(url: Option<UrlParts>) -> bool {
    match url {
        Some(parts) => {
            &&& parts.scheme == "http"@ || parts.scheme == "https"@
            &&& parts.host == Some("localhost"@) || parts.host == Some("127.0.0.1"@) || parts.host
                == Some("[::1]"@)
        },
        None => false,
    }
}

/// Whether a server runs on this machine, given what the URL parser makes of its address.
pub fn is_local_server(url: Option<ParsedUrl>) -> (local: bool)
    ensures
        local == is_local(url_parts(url)),
{
    match url {
        Some(url) => {
            let is_web = same_text(url.scheme.as_str(), "http") || same_text(
                url.scheme.as_str(),
                "https",
            );
            match &url.host {
                Some(host) => is_web && (same_text(host.as_str(), "localhost") || same_text(
                    host.as_str(),
                    "127.0.0.1",
                ) || same_text(host.as_str(), "[::1]")),
                None => false,
            }
        },
        None => false,
    }
}

/// The page that is loaded: the web interface is told of the server, any other page is not.
pub open spec fn endpoint_for(webui_url: Seq<char>, server_url: Option<Seq<char>>) -> Seq<char> {
    if trim_end(webui_url, '/') == trim_end(WEB_ENDPOINT@, '/') && server_url is Some {
        web_endpoint_for(server_url->0)
    } else {
        webui_url
    }
}

/// The address of the local server that the shell goes by, given the one that is there.
pub open spec fn local_server_for(server_url: Option<Seq<char>>) -> Option<Seq<char>> {
    match server_url {
        Some(url) => if is_local(url_parse(url)) {
            Some(url)
        } else {
            None
        },
        None => None,
    }
}

/// Something that happens to the local server.
#[derive(Debug)]
pub enum ServerEvent {
    /// It listens at this address.
    Ready(String),
    /// It cannot be used, for these reasons.
    Failed(String),
}

/// One step of loading the web interface, or of telling the user why it cannot be loaded.
#[derive(Debug, PartialEq, Eq)]
pub enum WebuiStep {
    /// Tell the hand-over that the web interface is loaded anew, so that it holds back what is to
    /// be opened until the new page is ready.
    Reset,
    /// Open this page.
    Open(String),
    /// Show the window in place of the splash screen, and ask the user with this text whether to
    /// start the server again.
    Ask(String),
}

/// The texts of a `WebuiStep`.
pub enum WebuiStepModel {
    Reset,
    Open(Seq<char>),
    Ask(Seq<char>),
}

impl View for WebuiStep {
    type V = WebuiStepModel;

    open spec fn view(&self) -> WebuiStepModel {
        match *self {
            WebuiStep::Reset => WebuiStepModel::Reset,
            WebuiStep::Open(page) => WebuiStepModel::Open(page@),
            WebuiStep::Ask(text) => WebuiStepModel::Ask(text@),
        }
    }
}

/// The texts of a list of steps.
pub open spec fn webui_steps(steps: Seq<WebuiStep>) -> Seq<WebuiStepModel> {
    steps.map_values(|step: WebuiStep| step@)
}

/// What is done to load the page of a server, or of none: first the hand-over is reset, then the
/// page is opened.
pub open spec fn load_steps(webui_url: Seq<char>, server_url: Option<Seq<char>>) -> Seq<
    WebuiStepModel,
> {
    seq![WebuiStepModel::Reset, WebuiStepModel::Open(endpoint_for(webui_url, server_url))]
}

/// What is done about a server that cannot be used: first the hand-over is reset, then the user is
/// asked.
pub open spec fn failure_steps(details: Seq<char>) -> Seq<WebuiStepModel> {
    seq![WebuiStepModel::Reset, WebuiStepModel::Ask(failure_text(details))]
}

/// What comes of the user's answer.
#[derive(Debug, Clone, Copy, PartialEq, Eq, Structural)]
pub enum RetryStep {
    /// Start the server again, behind the splash screen or not.
    Restart { show_splash: bool },
    /// End the shell.
    Exit,
}

/// The text that asks the user whether to start the server again.
pub open spec fn failure_text(details: Seq<char>) -> Seq<char> {
    "Stremio's local streaming server is unavailable.\n\n"@ + details
        + "\n\nChoose Retry to start the server again, or Cancel to exit Stremio."@
}

/// What became of a look for updates.
#[derive(Debug)]
pub enum UpdateOutcome {
    /// There is an update, whose setup program is at this path.
    Available(String),
    /// There is none.
    UpToDate,
    /// It is not known.
    Failed,
}

/// How the window comes up.
#[derive(Debug, Clone, Copy, PartialEq, Eq, Structural)]
pub struct StartupPlan {
    /// Whether the window goes where it was, or to the middle of the screen.
    pub restore_placement: bool,
    /// Whether the window is shown, which its menu entry in the tray tells too.
    pub visible: bool,
    /// Whether the splash screen is hidden.
    pub hide_splash: bool,
    /// Whether the local server is started, or the page loaded without one.
    pub start_server: bool,
}

impl MainWindow {
    /// How the window comes up, given whether its last place is known, and whether the server is
    /// run by a developer.
    pub fn startup(&self, has_placement: bool, development: bool) -> (plan: StartupPlan)
        ensures
            plan == (StartupPlan {
                restore_placement: has_placement,
                visible: !self.start_hidden,
                hide_splash: self.no_splash,
                start_server: !development,
            }),
    {
        StartupPlan {
            restore_placement: has_placement,
            visible: !self.start_hidden,
            hide_splash: self.no_splash,
            start_server: !development,
        }
    }

    /// Goes by the server at `server_url`, if there is one. Returns what is done to load its page,
    /// in order.
    pub fn load_webui(&mut self, server_url: Option<&str>) -> (steps: Vec<WebuiStep>)
        ensures
            ({
                let server = match server_url {
                    Some(url) => Some(url@),
                    None => None,
                };
                &&& webui_steps(steps@) == load_steps(old(self).webui_url@, server)
                &&& final(self)@ == (ShellModel {
                    local_server: local_server_for(server),
                    ..old(self)@
                })
            }),
            final(self).same_settings(*old(self)),
    {
        self.local_server_url = match server_url {
            Some(url) => if is_local_server(parse_url(url)) {
                Some(url.to_owned())
            } else {
                None
            },
            None => None,
        };
        let page = self.endpoint(server_url);
        let steps = vec![WebuiStep::Reset, WebuiStep::Open(page)];
        assert(webui_steps(steps@) =~= seq![WebuiStepModel::Reset, WebuiStepModel::Open(page@)]);
        steps
    }

    /// The page that is loaded for the server at `server_url`, or without one.
    fn endpoint(&self, server_url: Option<&str>) -> (endpoint: String)
        ensures
            endpoint@ == endpoint_for(
                self.webui_url@,
                match server_url {
                    Some(url) => Some(url@),
                    None => None,
                },
            ),
    {
        let page = trim_end_text(self.webui_url.as_str(), '/');
        let web = trim_end_text(WEB_ENDPOINT, '/');
        if same_text(page.as_str(), web.as_str()) {
            if let Some(url) = server_url {
                return web_endpoint_with_streaming_server(url);
            }
        }
        self.webui_url.clone()
    }

    /// Takes an event of the local server. Returns what is done about it, in order.
    pub fn on_server_event(&mut self, event: ServerEvent) -> (steps: Vec<WebuiStep>)
        ensures
            match event {
                ServerEvent::Ready(url) => {
                    &&& webui_steps(steps@) == load_steps(old(self).webui_url@, Some(url@))
                    &&& final(self)@ == (ShellModel {
                        local_server: local_server_for(Some(url@)),
                        ..old(self)@
                    })
                },
                ServerEvent::Failed(details) => {
                    &&& webui_steps(steps@) == failure_steps(details@)
                    &&& final(self)@ == (ShellModel { local_server: None, ..old(self)@ })
                },
            },
            final(self).same_settings(*old(self)),
    {
        match event {
            ServerEvent::Ready(url) => self.load_webui(Some(url.as_str())),
            ServerEvent::Failed(details) => {
                self.local_server_url = None;
                let mut text = "Stremio's local streaming server is unavailable.\n\n".to_owned();
                text.append(details.as_str());
                text.append(
                    "\n\nChoose Retry to start the server again, or Cancel to exit Stremio.",
                );
                let steps = vec![WebuiStep::Reset, WebuiStep::Ask(text)];
                assert(webui_steps(steps@) =~= failure_steps(details@));
                steps
            },
        }
    }

    /// Takes the user's answer to the question whether to start the server again.
    pub fn on_retry_choice(&self, retry: bool) -> (step: RetryStep)
        ensures
            step == if retry {
                RetryStep::Restart { show_splash: !self.no_splash }
            } else {
                RetryStep::Exit
            },
    {
        if retry {
            RetryStep::Restart { show_splash: !self.no_splash }
        } else {
            RetryStep::Exit
        }
    }

    /// Takes what became of a look for updates. Returns what the web interface is told.
    pub fn on_update(&mut self, outcome: UpdateOutcome) -> (response: Option<WebResponse>)
        ensures
            match outcome {
                UpdateOutcome::Available(path) => {
                    &&& response == Some(WebResponse::UpdateAvailable)
                    &&& final(self)@ == (ShellModel { setup_file: Some(path@), ..old(self)@ })
                },
                _ => response is None && final(self)@ == old(self)@,
            },
            final(self).same_settings(*old(self)),
    {
        match outcome {
            UpdateOutcome::Available(path) => {
                self.autoupdater_setup_file = Some(path);
                Some(WebResponse::UpdateAvailable)
            },
            _ => None,
        }
    }

    /// Whether the window is to fill the screen: as it was asked to, or else the other way than
    /// now.
    pub fn fullscreen_target(&mut self, full_screen: bool) -> (target: bool)
        ensures
            target == match old(self)@.fullscreen {
                Some(asked) => asked,
                None => !full_screen,
            },
            target == fullscreen_after(old(self)@, full_screen),
            final(self)@ == (ShellModel { fullscreen: None, ..old(self)@ }),
            final(self).same_settings(*old(self)),
    {
        self.requested_fullscreen.take().unwrap_or(!full_screen)
    }

    /// The scale that is asked for, if one is.
    pub fn take_interface_scale(&mut self) -> (scale: Option<u64>)
        ensures
            scale == old(self)@.interface_scale,
            final(self)@ == (ShellModel { interface_scale: None, ..old(self)@ }),
            final(self).same_settings(*old(self)),
    {
        self.requested_interface_scale.take()
    }

    /// The folder from which the user starts the choice of a cache folder: none if nothing is
    /// asked for, else the one that is in use, if there is one.
    pub fn picker_start(&self) -> (start: Option<Option<&str>>)
        ensures
            match self@.cache_directory {
                Some(request) => start matches Some(directory) && match directory {
                    Some(path) => request.directory == Some(path@),
                    None => request.directory is None,
                },
                None => start is None,
            },
    {
        match &self.requested_cache_directory {
            Some(request) => match &request.directory {
                Some(path) => Some(Some(path.as_str())),
                None => Some(None),
            },
            None => None,
        }
    }

    /// Takes the user's choice of a cache folder, which closes the request for it. Returns what
    /// the web interface is told.
    pub fn on_cache_directory_picked(&mut self, outcome: PickOutcome) -> (response: Option<
        WebResponse,
    >)
        ensures
            match response {
                Some(answer) => picker_answer(old(self)@, outcome) == Some(answer@),
                None => picker_answer(old(self)@, outcome) is None,
            },
            final(self)@ == (ShellModel { cache_directory: None, ..old(self)@ }),
            final(self).same_settings(*old(self)),
    {
        let request = match self.requested_cache_directory.take() {
            Some(request) => request,
            None => {
                return None;
            },
        };
        let result = match outcome {
            PickOutcome::Cancelled => Ok(None),
            PickOutcome::Failed(error) => Err(error),
            PickOutcome::Selected(path) => Ok(Some(path)),
            PickOutcome::NotUnicode => Err(
                "The selected folder path is not valid Unicode".to_owned(),
            ),
        };
        Some(WebResponse::CacheDirectorySelected { request_id: request.request_id, result })
    }
}

/// The arguments of a setup program that runs by itself.
pub fn setup_arguments() -> (args: Vec<&'static str>)
    ensures
        literals(args@) == seq![
            "/SILENT"@,
            "/NOCANCEL"@,
            "/FORCECLOSEAPPLICATIONS"@,
            "/TASKS=runapp"@,
        ],
{
    let args = vec!["/SILENT", "/NOCANCEL", "/FORCECLOSEAPPLICATIONS", "/TASKS=runapp"];
    assert(literals(args@) =~= seq![
        "/SILENT"@,
        "/NOCANCEL"@,
        "/FORCECLOSEAPPLICATIONS"@,
        "/TASKS=runapp"@,
    ]);
    args
}

/// What comes behind the start of a setup program: the shell makes way for it if it runs.
pub fn after_setup(started: bool) -> (action: Option<ShellAction>)
    ensures
        action == if started {
            Some(ShellAction::Quit)
        } else {
            None
        },
{
    if started {
        Some(ShellAction::Quit)
    } else {
        None
    }
}

/// A request for a cache folder is answered exactly once: at once if it is refused, or else when
/// the user has chosen, under its own identifier both times.
pub proof fn law_cache_request_is_answered_once(
    state: ShellModel,
    request: WebRequestModel,
    asked: CacheDirectoryModel,
    outcome: PickOutcome,
)
    requires
        request.method == Some("pick-cache-directory"@),
        request.cache_directory == Some(asked),
    ensures
        ({
            let after = after_request(state, request);
            match refusal(state, asked) {
                Some(error) => {
                    &&& request_actions(state, request) == refused(asked, error)
                    &&& after == state
                },
                None => {
                    &&& request_actions(state, request) == seq![
                        ShellActionModel::PickCacheDirectory,
                    ]
                    &&& picker_answer(after, outcome) == Some(
                        WebResponseModel::CacheDirectorySelected {
                            request_id: asked.request_id,
                            result: picked(outcome),
                        },
                    )
                    &&& picker_answer(
                        ShellModel { cache_directory: None, ..after },
                        outcome,
                    ) is None
                },
            }
        }),
{
}

/// While the user chooses a cache folder, no request of the web interface changes what the choice
/// is for, and none starts another choice.
pub proof fn law_one_picker_at_a_time(state: ShellModel, request: WebRequestModel)
    requires
        state.cache_directory is Some,
    ensures
        after_request(state, request).cache_directory == state.cache_directory,
        !request_actions(state, request).contains(ShellActionModel::PickCacheDirectory),
{
}

/// A scale that is asked for is always one that can be applied.
pub proof fn law_scale_stays_in_range(state: ShellModel, request: WebRequestModel)
    requires
        state.interface_scale matches Some(scale) ==> 75 <= scale <= 175,
    ensures
        after_request(state, request).interface_scale matches Some(scale) ==> 75 <= scale <= 175,
{
}

/// A request that the shell does not know, changes nothing and makes the shell do nothing.
pub proof fn law_unknown_requests_do_nothing(state: ShellModel, request: WebRequestModel)
    requires
        request.method matches Some(name) ==> method_named(name) == WebMethod::Unknown,
        request.method is None ==> !request.handshake,
    ensures
        after_request(state, request) == state,
        request_actions(state, request) == Seq::<ShellActionModel>::empty(),
{
}

/// Nothing but the local server changes what the shell takes for it, and no request of the web
/// interface installs an update that the shell has not found.
pub proof fn law_requests_keep_server_and_update(state: ShellModel, request: WebRequestModel)
    ensures
        after_request(state, request).local_server == state.local_server,
        after_request(state, request).setup_file == state.setup_file,
        forall|path: Seq<char>|
            request_actions(state, request).contains(ShellActionModel::RunSetup(path))
                ==> state.setup_file == Some(path),
{
    let actions = request_actions(state, request);
    assert forall|path: Seq<char>| actions.contains(ShellActionModel::RunSetup(path)) implies
        state.setup_file == Some(path) by {
        let i = choose|i: int|
            0 <= i < actions.len() && actions[i] == ShellActionModel::RunSetup(path);
        assert(actions[i] == ShellActionModel::RunSetup(path));
    }
}

/// The scale that a request asks for.
fn scale_param(params: &Option<Json>) -> (scale: Option<u64>)
    ensures
        scale == asked_scale(*params),
{
    match params {
        Some(params) => match params.get("scale") {
            Some(value) => match value.as_u64() {
                Some(scale) => if 75 <= scale && scale <= 175 {
                    Some(scale)
                } else {
                    None
                },
                None => None,
            },
            None => None,
        },
        None => None,
    }
}

/// Whether a request asks to fill the screen or not to.
fn fullscreen_param(params: &Option<Json>) -> (fullscreen: Option<bool>)
    ensures
        fullscreen == asked_fullscreen(*params),
{
    match params {
        Some(params) => match params.get("fullscreen") {
            Some(value) => value.as_bool(),
            None => None,
        },
        None => None,
    }
}

/// Whether the window fills the screen after the next toggle, given whether it does now.
pub open spec fn fullscreen_after(state: ShellModel, full_screen: bool) -> bool {
    match state.fullscreen {
        Some(asked) => asked,
        None => !full_screen,
    }
}

/// The web interface gets the window that it asks for: a request to fill the screen, or not to,
/// leads to exactly that, whatever the window does now. Nothing else changes by it.
pub proof fn law_fullscreen_goes_as_asked(
    state: ShellModel,
    request: WebRequestModel,
    params: Json,
    fullscreen: bool,
    full_screen: bool,
)
    requires
        request.method == Some("win-set-visibility"@),
        request.params == Some(params),
        params.member("fullscreen"@) == Some(Json::Bool(fullscreen)),
    ensures
        ({
            let after = after_request(state, request);
            &&& fullscreen_after(after, full_screen) == fullscreen
            &&& after.fullscreen == Some(fullscreen)
            &&& after == (ShellModel { fullscreen: after.fullscreen, ..state })
            &&& request_actions(state, request) == seq![ShellActionModel::ToggleFullscreen]
        }),
{
    law_methods_go_by_their_names(WebMethod::SetVisibility, "win-set-visibility"@);
}

/// A request about the screen that asks for no truth value does nothing; without such a request the
/// toggle turns the screen over.
pub proof fn law_fullscreen_needs_a_truth_value(
    state: ShellModel,
    request: WebRequestModel,
    full_screen: bool,
)
    requires
        request.method == Some("win-set-visibility"@),
        request.params matches Some(params) ==> (params.member("fullscreen"@) matches Some(
            value,
        ) ==> !(value is Bool)),
    ensures
        after_request(state, request) == state,
        request_actions(state, request).len() == 0,
        state.fullscreen is None ==> fullscreen_after(state, full_screen) == !full_screen,
{
    law_methods_go_by_their_names(WebMethod::SetVisibility, "win-set-visibility"@);
}

/// Every whole scale from 75 to 175 percent is applied as it is asked for; any other number is
/// passed over.
pub proof fn law_scale_goes_as_asked(
    state: ShellModel,
    request: WebRequestModel,
    params: Json,
    scale: u64,
)
    requires
        request.method == Some("win-set-interface-scale"@),
        request.params == Some(params),
        params.member("scale"@) == Some(Json::Number(JsonNumber::PosInt(scale))),
    ensures
        ({
            let after = after_request(state, request);
            &&& 75 <= scale && scale <= 175 ==> after.interface_scale == Some(scale)
                && request_actions(state, request) == seq![ShellActionModel::ApplyInterfaceScale]
            &&& scale < 75 || scale > 175 ==> after == state && request_actions(
                state,
                request,
            ).len() == 0
            &&& after == (ShellModel { interface_scale: after.interface_scale, ..state })
        }),
{
    law_methods_go_by_their_names(WebMethod::SetInterfaceScale, "win-set-interface-scale"@);
}

/// A request for a scale that gives no whole number does nothing.
pub proof fn law_scale_needs_a_number(state: ShellModel, request: WebRequestModel)
    requires
        request.method == Some("win-set-interface-scale"@),
        request.params matches Some(params) ==> (params.member("scale"@) matches Some(value)
            ==> !(value matches Json::Number(JsonNumber::PosInt(_)))),
    ensures
        after_request(state, request) == state,
        request_actions(state, request).len() == 0,
{
    law_methods_go_by_their_names(WebMethod::SetInterfaceScale, "win-set-interface-scale"@);
}

/// The requests that carry nothing are carried out by their names: the shell ends, comes to the
/// front, hides its splash screen, or, once the web interface is ready, hides it, tells that it is
/// to be seen, looks for updates and hands over what is to be opened. An update is installed exactly
/// if one was found. None of these changes the state.
pub proof fn law_plain_requests_are_carried_out(state: ShellModel, request: WebRequestModel)
    ensures
        ({
            let actions = request_actions(state, request);
            let by = |name: Seq<char>| request.method == Some(name);
            &&& by("quit"@) ==> actions == seq![ShellActionModel::Quit]
            &&& by("win-focus"@) ==> actions == seq![ShellActionModel::Focus]
            &&& by("app-error"@) ==> actions == seq![ShellActionModel::HideSplash]
            &&& by("app-ready"@) ==> actions == seq![
                ShellActionModel::HideSplash,
                ShellActionModel::Respond(
                    WebResponseModel::VisibilityChange {
                        visible: true,
                        visibility: 1,
                        full_screen: false,
                    },
                ),
                ShellActionModel::CheckForUpdate,
                ShellActionModel::OpenReady,
            ]
            &&& by("autoupdater-notif-clicked"@) ==> (state.setup_file matches Some(path)
                ==> actions == seq![ShellActionModel::RunSetup(path)]) && (state.setup_file is None
                ==> actions.len() == 0)
            &&& by("quit"@) || by("win-focus"@) || by("app-error"@) || by("app-ready"@) || by(
                "autoupdater-notif-clicked"@,
            ) ==> after_request(state, request) == state
        }),
{
    law_methods_go_by_their_names(WebMethod::Quit, "quit"@);
    law_methods_go_by_their_names(WebMethod::Focus, "win-focus"@);
    law_methods_go_by_their_names(WebMethod::AppError, "app-error"@);
    law_methods_go_by_their_names(WebMethod::AppReady, "app-ready"@);
    law_methods_go_by_their_names(WebMethod::UpdateClicked, "autoupdater-notif-clicked"@);
}

/// An address is opened outside of the shell as `external_target` has it, and a stream is handed to
/// a player as it was given. Neither changes the state, and neither is done without a text.
pub proof fn law_texts_are_opened_and_played(
    state: ShellModel,
    request: WebRequestModel,
    text: String,
)
    ensures
        request.method == Some("open-external"@) && request.params == Some(Json::Text(text)) ==> {
            &&& external_target(text@) matches Some(target) ==> request_actions(state, request)
                == seq![ShellActionModel::OpenUrl(target)]
            &&& external_target(text@) is None ==> request_actions(state, request).len() == 0
        },
        request.method == Some("play-external"@) && request.params == Some(Json::Text(text))
            ==> request_actions(state, request) == seq![ShellActionModel::PlayExternal(text@)],
        request.method == Some("play-external"@) && !(request.params matches Some(Json::Text(_)))
            ==> request_actions(state, request).len() == 0,
        request.method == Some("open-external"@) && request.params is None ==> request_actions(
            state,
            request,
        ).len() == 0,
        request.method == Some("open-external"@) || request.method == Some("play-external"@)
            ==> after_request(state, request) == state,
{
    law_methods_go_by_their_names(WebMethod::OpenExternal, "open-external"@);
    law_methods_go_by_their_names(WebMethod::PlayExternal, "play-external"@);
}

/// Each request about Discord is queued behind those before it, as long as the queue is open: the
/// one that shows something with the state and details that it gives, empty where it gives none,
/// and with the image and times that it gives. The end of the connection is told at once, and so is
/// a connection that cannot be asked for.
pub proof fn law_discord_requests_are_queued(
    state: ShellModel,
    request: WebRequestModel,
    params: Json,
)
    ensures
        ({
            let after = after_request(state, request);
            let actions = request_actions(state, request);
            let by = |name: Seq<char>| request.method == Some(name);
            let lost = seq![ShellActionModel::Respond(WebResponseModel::DiscordStatus(false))];
            let queued = |command: DiscordCommandModel|
                after.discord.commands == if state.discord.open {
                    state.discord.commands.push(command)
                } else {
                    state.discord.commands
                };
            &&& by("discord-connect"@) ==> queued(DiscordCommandModel::Connect) && (
            state.discord.open ==> actions.len() == 0) && (!state.discord.open ==> actions == lost)
            &&& by("discord-disconnect"@) ==> queued(DiscordCommandModel::Disconnect) && actions
                == lost
            &&& by("discord-clear-activity"@) ==> queued(DiscordCommandModel::ClearActivity)
                && actions.len() == 0
            &&& by("discord-set-activity"@) && request.params == Some(params) ==> actions.len() == 0
                && queued(
                DiscordCommandModel::SetActivity {
                    state: member_text(params, "state"@).unwrap_or(""@),
                    details: member_text(params, "details"@).unwrap_or(""@),
                    large_image: member_text(params, "image"@),
                    start_timestamp: member_signed(params, "startTimestamp"@),
                    end_timestamp: member_signed(params, "endTimestamp"@),
                },
            )
            &&& by("discord-set-activity"@) && request.params is None ==> actions.len() == 0
                && after == state
            &&& by("discord-connect"@) || by("discord-disconnect"@) || by("discord-clear-activity"@)
                || by("discord-set-activity"@) ==> after.discord.open == state.discord.open && after
                == (ShellModel { discord: after.discord, ..state })
        }),
{
    law_methods_go_by_their_names(WebMethod::DiscordConnect, "discord-connect"@);
    law_methods_go_by_their_names(WebMethod::DiscordDisconnect, "discord-disconnect"@);
    law_methods_go_by_their_names(WebMethod::DiscordClearActivity, "discord-clear-activity"@);
    law_methods_go_by_their_names(WebMethod::DiscordSetActivity, "discord-set-activity"@);
}

/// Whatever begins with `mpv-` goes to the player, and the handshake is answered with the address
/// of the local server. Neither changes the state.
pub proof fn law_player_and_handshake(state: ShellModel, request: WebRequestModel)
    ensures
        request.method matches Some(name) ==> (name.len() >= 4 && name[0] == 'm' && name[1] == 'p'
            && name[2] == 'v' && name[3] == '-' ==> request_actions(state, request) == seq![
            ShellActionModel::ForwardToPlayer,
        ] && after_request(state, request) == state),
        request.method is None ==> after_request(state, request) == state,
        request.method is None && request.handshake ==> request_actions(state, request) == seq![
            ShellActionModel::Respond(
                WebResponseModel::Handshake { server_url: state.local_server },
            ),
        ],
        request.method is None && !request.handshake ==> request_actions(state, request).len() == 0,
{
    if let Some(name) = request.method {
        if name.len() >= 4 && name[0] == 'm' && name[1] == 'p' && name[2] == 'v' && name[3] == '-' {
            lemma_names_begin_otherwise();
            reveal_strlit("mpv-");
            assert(name.subrange(0, 4) =~= "mpv-"@);
        }
    }
}

/// No other method begins as those of the player do.
proof fn lemma_names_begin_otherwise()
    ensures
        "pick-cache-directory"@.len() > 0 && "pick-cache-directory"@[0] != 'm',
        "win-set-interface-scale"@.len() > 0 && "win-set-interface-scale"@[0] != 'm',
        "win-set-visibility"@.len() > 0 && "win-set-visibility"@[0] != 'm',
        "quit"@.len() > 0 && "quit"@[0] != 'm',
        "app-ready"@.len() > 0 && "app-ready"@[0] != 'm',
        "app-error"@.len() > 0 && "app-error"@[0] != 'm',
        "open-external"@.len() > 0 && "open-external"@[0] != 'm',
        "play-external"@.len() > 0 && "play-external"@[0] != 'm',
        "win-focus"@.len() > 0 && "win-focus"@[0] != 'm',
        "autoupdater-notif-clicked"@.len() > 0 && "autoupdater-notif-clicked"@[0] != 'm',
        "discord-connect"@.len() > 0 && "discord-connect"@[0] != 'm',
        "discord-disconnect"@.len() > 0 && "discord-disconnect"@[0] != 'm',
        "discord-set-activity"@.len() > 0 && "discord-set-activity"@[0] != 'm',
        "discord-clear-activity"@.len() > 0 && "discord-clear-activity"@[0] != 'm',
{
    reveal_strlit("pick-cache-directory");
    reveal_strlit("win-set-interface-scale");
    reveal_strlit("win-set-visibility");
    reveal_strlit("quit");
    reveal_strlit("app-ready");
    reveal_strlit("app-error");
    reveal_strlit("open-external");
    reveal_strlit("play-external");
    reveal_strlit("win-focus");
    reveal_strlit("autoupdater-notif-clicked");
    reveal_strlit("discord-connect");
    reveal_strlit("discord-disconnect");
    reveal_strlit("discord-set-activity");
    reveal_strlit("discord-clear-activity");
}

/// What goes by none of the names that the shell knows does nothing.
pub proof fn law_other_names_do_nothing(state: ShellModel, request: WebRequestModel, name: Seq<char>)
    requires
        request.method == Some(name),
        name != "pick-cache-directory"@,
        name != "win-set-interface-scale"@,
        name != "win-set-visibility"@,
        name != "quit"@,
        name != "app-ready"@,
        name != "app-error"@,
        name != "open-external"@,
        name != "play-external"@,
        name != "win-focus"@,
        name != "autoupdater-notif-clicked"@,
        name != "discord-connect"@,
        name != "discord-disconnect"@,
        name != "discord-set-activity"@,
        name != "discord-clear-activity"@,
        !"mpv-"@.is_prefix_of(name),
    ensures
        after_request(state, request) == state,
        request_actions(state, request).len() == 0,
{
}

/// A cache folder is chosen for the local server while no other choice is open; otherwise the
/// request is refused with the reason, under its own identifier, and nothing changes.
pub proof fn law_cache_folder_is_chosen_for_the_local_server(
    state: ShellModel,
    request: WebRequestModel,
    asked: CacheDirectoryModel,
)
    requires
        request.method == Some("pick-cache-directory"@),
    ensures
        ({
            let after = after_request(state, request);
            let actions = request_actions(state, request);
            let answer = |error: Seq<char>|
                seq![
                    ShellActionModel::Respond(
                        WebResponseModel::CacheDirectorySelected {
                            request_id: asked.request_id,
                            result: Err(error),
                        },
                    ),
                ];
            let local = state.local_server == Some(asked.server_url);
            &&& request.cache_directory == Some(asked) && local && state.cache_directory is None
                ==> actions == seq![ShellActionModel::PickCacheDirectory] && after == (ShellModel {
                cache_directory: Some(asked),
                ..state
            })
            &&& request.cache_directory == Some(asked) && !local ==> after == state && actions
                == answer("The folder picker is only available for the shell's local server"@)
            &&& request.cache_directory == Some(asked) && local && state.cache_directory is Some
                ==> after == state && actions == answer("A folder picker is already open"@)
            &&& request.cache_directory is None ==> after == state && actions.len() == 0
        }),
{
    law_methods_go_by_their_names(WebMethod::PickCacheDirectory, "pick-cache-directory"@);
}

/// The web interface is told the folder that the user chose, that the choice was given up, or why
/// it failed, under the identifier of the request that is open; without one it is told nothing.
pub proof fn law_choice_is_told(state: ShellModel, outcome: PickOutcome)
    ensures
        state.cache_directory is None ==> picker_answer(state, outcome) is None,
        state.cache_directory matches Some(request) ==> {
            let told = picker_answer(state, outcome);
            &&& told is Some && told->0 is CacheDirectorySelected
            &&& told->0->request_id == request.request_id
            &&& outcome matches PickOutcome::Selected(path) ==> told->0->result == Ok::<
                Option<Seq<char>>,
                Seq<char>,
            >(Some(path@))
            &&& outcome is Cancelled ==> told->0->result == Ok::<Option<Seq<char>>, Seq<char>>(None)
            &&& outcome matches PickOutcome::Failed(error) ==> told->0->result == Err::<
                Option<Seq<char>>,
                Seq<char>,
            >(error@)
            &&& outcome is NotUnicode ==> told->0->result == Err::<Option<Seq<char>>, Seq<char>>(
                "The selected folder path is not valid Unicode"@,
            )
        },
{
}

/// A server is the local one exactly if it is reached by HTTP or HTTPS on this machine, under one of
/// its three names.
pub proof fn law_local_servers(server_url: Seq<char>)
    ensures
        url_parse(server_url) matches Some(url) ==> {
            let local = (url.scheme == "http"@ || url.scheme == "https"@) && (url.host == Some(
                "localhost"@,
            ) || url.host == Some("127.0.0.1"@) || url.host == Some("[::1]"@));
            &&& local ==> local_server_for(Some(server_url)) == Some(server_url)
            &&& !local ==> local_server_for(Some(server_url)) is None
        },
        url_parse(server_url) is None ==> local_server_for(Some(server_url)) is None,
        local_server_for(None) is None,
{
}

/// The page of the service is told of the server, with or without slashes at the end of its address;
/// any other page, and the page without a server, is opened as it is. The hand-over is reset before
/// the page is opened, or before the user is asked.
pub proof fn law_page_is_told_of_the_server(
    webui_url: Seq<char>,
    server_url: Seq<char>,
    details: Seq<char>,
)
    ensures
        trim_end(webui_url, '/') == "https://web.stremio.com"@ ==> load_steps(
            webui_url,
            Some(server_url),
        ) == seq![WebuiStepModel::Reset, WebuiStepModel::Open(web_endpoint_for(server_url))],
        trim_end("https://web.stremio.com/"@, '/') == "https://web.stremio.com"@,
        trim_end("https://web.stremio.com"@, '/') == "https://web.stremio.com"@,
        trim_end(webui_url, '/') != "https://web.stremio.com"@ ==> load_steps(
            webui_url,
            Some(server_url),
        ) == seq![WebuiStepModel::Reset, WebuiStepModel::Open(webui_url)],
        load_steps(webui_url, None) == seq![WebuiStepModel::Reset, WebuiStepModel::Open(webui_url)],
        failure_steps(details) == seq![
            WebuiStepModel::Reset,
            WebuiStepModel::Ask(
                "Stremio's local streaming server is unavailable.\n\n"@ + details
                    + "\n\nChoose Retry to start the server again, or Cancel to exit Stremio."@,
            ),
        ],
{
    reveal_strlit("https://web.stremio.com/");
    reveal_strlit("https://web.stremio.com");
    let full = "https://web.stremio.com/"@;
    let bare = "https://web.stremio.com"@;
    assert(full.len() == 24 && full[23] == '/' && full[22] == 'm');
    assert(bare.len() == 23 && bare[22] == 'm');
    law_trim_end(full, '/');
    law_trim_end(bare, '/');
    assert(trim_end(full, '/').len() == 23);
    assert(trim_end(full, '/') =~= bare);
    assert(trim_end(bare, '/').len() == 23);
    assert(trim_end(bare, '/') =~= bare);
}

/// The model of the window is that of its own fields, and the models of steps are those of their
/// own texts.
pub proof fn law_models_of_the_window(
    window: MainWindow,
    page: String,
    text: String,
    list: Seq<WebuiStep>,
)
    ensures
        window@.fullscreen == window.requested_fullscreen,
        window@.interface_scale == window.requested_interface_scale,
        window@.discord == window.discord@,
        window.autoupdater_setup_file matches Some(path) ==> window@.setup_file == Some(path@),
        window.autoupdater_setup_file is None ==> window@.setup_file is None,
        window.local_server_url matches Some(url) ==> window@.local_server == Some(url@),
        window.local_server_url is None ==> window@.local_server is None,
        window.requested_cache_directory matches Some(asked) ==> window@.cache_directory == Some(
            asked@,
        ),
        window.requested_cache_directory is None ==> window@.cache_directory is None,
        WebuiStep::Reset@ == WebuiStepModel::Reset,
        WebuiStep::Open(page)@ == WebuiStepModel::Open(page@),
        WebuiStep::Ask(text)@ == WebuiStepModel::Ask(text@),
        webui_steps(list).len() == list.len(),
        forall|i: int| 0 <= i < list.len() ==> #[trigger] webui_steps(list)[i] == list[i]@,
{
}

/// Windows have the same settings exactly if they show the same page, and hide their splash screen
/// and themselves at the start alike.
pub proof fn law_settings_are_three(a: MainWindow, b: MainWindow)
    ensures
        a.same_settings(b) <==> a.webui_url == b.webui_url && a.no_splash == b.no_splash
            && a.start_hidden == b.start_hidden,
{
}

} // verus!
