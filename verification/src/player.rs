//! What the player does about a message of the web interface, and what the web interface is told
//! about an event of the player.
use crate::ipc::{video_ready_response, PropertyValue, WebResponse};
use crate::messages::{CmdVal, InMsg, InMsgArgs, InMsgFn, PropKey, PropVal};
use crate::subtitles::{is_conversion, SubtitleCommand};
use crate::text::same_text;
use crate::video_output::{option_text, outputs_of, with_fallback, with_gpu_next_fallback};
use crate::video_output::{law_fallback_keeps_outputs, law_option_reads_back};
use crate::video_ready::{law_step_keeps_wf, lemma_starts, starts, VideoEvent};
use crate::video_ready::{VideoReadyModel, VideoReadyState};
use vstd::prelude::*;

verus! {

/// The state of the player that its messages and events share.
pub struct Player {
    /// How far the player has come with the latest load.
    pub video_ready: VideoReadyState,
    /// Whether the graphics card is to process the video.
    pub gpu_video_processing: bool,
}

impl Default for Player {
    fn default() -> (player: Self)
        ensures
            player.video_ready@ == VideoReadyModel::initial(),
            !player.gpu_video_processing,
    {
        Player { video_ready: VideoReadyState::default(), gpu_video_processing: false }
    }
}

/// The type of a property.
#[derive(Debug, Clone, Copy, PartialEq, Eq, Structural)]
pub enum PropFormat {
    Flag,
    Int64,
    Double,
    Text,
}

/// A command that is not about subtitles.
pub struct MediaCommand {
    /// Whether the command changes what is played, and if so, whether it loads a file.
    pub media_transition: Option<bool>,
    /// The name of the command, followed by its arguments.
    pub parts: Vec<String>,
}

/// What has to be done about a message.
pub enum PlayerAction {
    /// Observe a property.
    Observe { name: String, format: PropFormat },
    /// Set a property to a truth value.
    SetFlag { name: String, value: bool },
    /// Set a property to the number with these bits.
    SetNumber { name: String, bits: u64 },
    /// Set a property to a text.
    SetText { name: String, value: String },
    /// Set the video output. The player then forgets its colors, so that the properties that
    /// follow the display have to be set again.
    SetVideoOutput { name: String, value: String, gpu_video_processing: bool },
    /// Set the properties that follow the display.
    ApplyDisplay { gpu_video_processing: bool },
    /// Hand a command to the subtitle worker.
    Subtitle(SubtitleCommand),
    /// Ask the subtitle worker for a media change, then go on with its answer.
    BeginMediaChange(MediaCommand),
    /// Nothing: the message asks for something else than its arguments are for.
    Unsupported,
}

/// The property that is observed, and its type.
pub open spec fn observation(key: PropKey) -> PlayerAction {
    match key {
        PropKey::Bool(name) => PlayerAction::Observe { name, format: PropFormat::Flag },
        PropKey::Int(name) => PlayerAction::Observe { name, format: PropFormat::Int64 },
        PropKey::Fp(name) => PlayerAction::Observe { name, format: PropFormat::Double },
        PropKey::Str(name) => PlayerAction::Observe { name, format: PropFormat::Text },
    }
}

/// Whether `action` sets the property `name` to `value`. The list of video outputs gets its
/// fallback first.
pub open spec fn is_setting(
    name: String,
    value: PropVal,
    gpu_video_processing: bool,
    action: PlayerAction,
) -> bool {
    match value {
        PropVal::Bool(value) => action == (PlayerAction::SetFlag { name, value }),
        PropVal::Num(bits) => action == (PlayerAction::SetNumber { name, bits }),
        PropVal::Str(value) => if name@ == "vo"@ {
            action matches PlayerAction::SetVideoOutput {
                name: set,
                value: option,
                gpu_video_processing: gpu,
            } && set == name && option@ == option_text(with_fallback(outputs_of(value@))) && gpu
                == gpu_video_processing
        } else {
            action == (PlayerAction::SetText { name, value })
        },
    }
}

/// Whether `action` is what has to be done about a message.
pub open spec fn answers(msg: InMsg, gpu_video_processing: bool, action: PlayerAction) -> bool {
    match (msg.0, msg.1) {
        (InMsgFn::MpvObserveProp, InMsgArgs::ObProp(key)) => action == observation(key),
        (InMsgFn::MpvSetProp, InMsgArgs::StProp(name, value)) => is_setting(
            name,
            value,
            gpu_video_processing,
            action,
        ),
        (InMsgFn::MpvSetGpuVideoProcessing, InMsgArgs::Flag(enabled)) => action == (
        PlayerAction::ApplyDisplay { gpu_video_processing: enabled }),
        (InMsgFn::MpvCommand, InMsgArgs::Cmd(command)) => match command {
            CmdVal::Other { media_transition, parts } => action == PlayerAction::BeginMediaChange(
                MediaCommand { media_transition, parts },
            ),
            _ => action matches PlayerAction::Subtitle(subtitle) && is_conversion(
                command,
                subtitle,
            ),
        },
        _ => action == PlayerAction::Unsupported,
    }
}

/// What follows when the subtitle worker has answered the request for a media change.
pub struct CommandPlan {
    /// First: the load that the web interface is told about, whose video is not ready.
    pub announce: Option<WebResponse>,
    /// Then: the command of the player, and its arguments.
    pub call: Option<(String, Vec<String>)>,
    /// Last: whether the subtitle worker is told that the media has changed.
    pub end_media_change: bool,
}

/// Something that the player reports.
pub enum MpvEvent {
    StartFile,
    FileLoaded,
    PlaybackRestart,
    PropertyChange { name: String, value: PropertyValue },
    EndFile { reason: u32 },
    Shutdown,
    Other,
}

/// What has to be done about an event.
pub enum EventOutcome {
    /// Nothing.
    Continue,
    /// Tell the web interface.
    Send(WebResponse),
    /// Stop listening.
    Stop,
}

/// How an event changes what is known about the latest load.
pub open spec fn ready_after(state: VideoReadyModel, event: MpvEvent) -> VideoReadyModel {
    match event {
        MpvEvent::StartFile => state.start_file(),
        MpvEvent::FileLoaded => state.file_loaded(),
        MpvEvent::PlaybackRestart => state.restarted(),
        _ => state,
    }
}

/// What has to be done about an event.
pub open spec fn outcome(state: VideoReadyModel, event: MpvEvent) -> EventOutcome {
    match event {
        MpvEvent::PlaybackRestart => match state.ready_on_restart() {
            Some(load_id) => EventOutcome::Send(WebResponse::VideoReady { load_id, ready: true }),
            None => EventOutcome::Continue,
        },
        MpvEvent::PropertyChange { name, value } => EventOutcome::Send(
            WebResponse::PropertyChange { name, value },
        ),
        MpvEvent::EndFile { reason } => EventOutcome::Send(WebResponse::Ended { reason }),
        MpvEvent::Shutdown => EventOutcome::Stop,
        _ => EventOutcome::Continue,
    }
}

/// Whether the player is no longer listened to once this message could not be sent. The message
/// that a video is ready or not is given up instead.
pub fn stops_on_failed_send(response: &WebResponse) -> (stops: bool)
    ensures
        stops == !(*response is VideoReady),
{
    match response {
        WebResponse::VideoReady { .. } => false,
        _ => true,
    }
}

impl Player {
    /// Takes a message of the web interface.
    pub fn on_message(&mut self, msg: InMsg) -> (action: PlayerAction)
        ensures
            answers(msg, old(self).gpu_video_processing, action),
            msg matches InMsg(
                InMsgFn::MpvSetProp,
                InMsgArgs::StProp(name, PropVal::Bool(value)),
            ) ==> action == (PlayerAction::SetFlag { name, value }),
            msg matches InMsg(
                InMsgFn::MpvSetProp,
                InMsgArgs::StProp(name, PropVal::Num(bits)),
            ) ==> action == (PlayerAction::SetNumber { name, bits }),
            msg matches InMsg(
                InMsgFn::MpvSetProp,
                InMsgArgs::StProp(name, PropVal::Str(value)),
            ) ==> (name@ != "vo"@ ==> action == (PlayerAction::SetText { name, value })),
            final(self).video_ready == old(self).video_ready,
            final(self).gpu_video_processing == match (msg.0, msg.1) {
                (InMsgFn::MpvSetGpuVideoProcessing, InMsgArgs::Flag(enabled)) => enabled,
                _ => old(self).gpu_video_processing,
            },
    {
        match msg {
            InMsg(InMsgFn::MpvObserveProp, InMsgArgs::ObProp(PropKey::Bool(name))) => {
                PlayerAction::Observe { name, format: PropFormat::Flag }
            },
            InMsg(InMsgFn::MpvObserveProp, InMsgArgs::ObProp(PropKey::Int(name))) => {
                PlayerAction::Observe { name, format: PropFormat::Int64 }
            },
            InMsg(InMsgFn::MpvObserveProp, InMsgArgs::ObProp(PropKey::Fp(name))) => {
                PlayerAction::Observe { name, format: PropFormat::Double }
            },
            InMsg(InMsgFn::MpvObserveProp, InMsgArgs::ObProp(PropKey::Str(name))) => {
                PlayerAction::Observe { name, format: PropFormat::Text }
            },
            InMsg(InMsgFn::MpvSetProp, InMsgArgs::StProp(name, PropVal::Bool(value))) => {
                PlayerAction::SetFlag { name, value }
            },
            InMsg(InMsgFn::MpvSetProp, InMsgArgs::StProp(name, PropVal::Num(bits))) => {
                PlayerAction::SetNumber { name, bits }
            },
            InMsg(InMsgFn::MpvSetProp, InMsgArgs::StProp(name, PropVal::Str(value))) => {
                if same_text(name.as_str(), "vo") {
                    PlayerAction::SetVideoOutput {
                        name,
                        value: with_gpu_next_fallback(value),
                        gpu_video_processing: self.gpu_video_processing,
                    }
                } else {
                    PlayerAction::SetText { name, value }
                }
            },
            InMsg(InMsgFn::MpvSetGpuVideoProcessing, InMsgArgs::Flag(enabled)) => {
                self.gpu_video_processing = enabled;
                PlayerAction::ApplyDisplay { gpu_video_processing: enabled }
            },
            InMsg(InMsgFn::MpvCommand, InMsgArgs::Cmd(command)) => {
                match SubtitleCommand::try_from(command) {
                    Ok(subtitle) => PlayerAction::Subtitle(subtitle),
                    Err(CmdVal::Other { media_transition, parts }) => {
                        PlayerAction::BeginMediaChange(MediaCommand { media_transition, parts })
                    },
                    Err(_) => PlayerAction::Unsupported,
                }
            },
            _ => PlayerAction::Unsupported,
        }
    }

    /// Goes on with a command once the subtitle worker has answered the request for a media
    /// change, or has gone away instead. A command that changes what is played begins a new load,
    /// of which the web interface is told in front of the command.
    pub fn on_media_change(&mut self, command: MediaCommand, acknowledged: bool) -> (plan:
        CommandPlan)
        requires
            acknowledged && command.parts@.len() > 0 && command.media_transition is Some ==> old(
                self,
            ).video_ready@.next_load_id < u64::MAX,
        ensures
            final(self).gpu_video_processing == old(self).gpu_video_processing,
            plan.end_media_change == acknowledged,
            ({
                let runs = acknowledged && command.parts@.len() > 0;
                &&& match plan.call {
                    Some((name, args)) => runs && name == command.parts@[0] && args@
                        == command.parts@.skip(1),
                    None => !runs,
                }
                &&& if runs && command.media_transition is Some {
                    &&& final(self).video_ready@ == old(self).video_ready@.begin(
                        command.media_transition->0,
                    )
                    &&& plan.announce == Some(
                        WebResponse::VideoReady {
                            load_id: (old(self).video_ready@.next_load_id + 1) as u64,
                            ready: false,
                        },
                    )
                } else {
                    &&& final(self).video_ready@ == old(self).video_ready@
                    &&& plan.announce is None
                }
            }),
    {
        let mut parts = command.parts;
        if !acknowledged || parts.len() == 0 {
            return CommandPlan { announce: None, call: None, end_media_change: acknowledged };
        }
        let announce = match command.media_transition {
            Some(loads_file) => {
                let load_id = self.video_ready.begin_transition(loads_file);
                Some(video_ready_response(load_id, false))
            },
            None => None,
        };
        let name = parts.remove(0);
        assert(parts@ =~= command.parts@.skip(1));
        CommandPlan { announce, call: Some((name, parts)), end_media_change: true }
    }

    /// Takes an event of the player.
    pub fn on_event(&mut self, event: MpvEvent) -> (done: EventOutcome)
        ensures
            done == outcome(old(self).video_ready@, event),
            event is PlaybackRestart ==> match old(self).video_ready@.ready_on_restart() {
                Some(load_id) => done == EventOutcome::Send(
                    WebResponse::VideoReady { load_id, ready: true },
                ),
                None => done == EventOutcome::Continue,
            },
            final(self).video_ready@ == ready_after(old(self).video_ready@, event),
            final(self).gpu_video_processing == old(self).gpu_video_processing,
    {
        match event {
            MpvEvent::StartFile => {
                self.video_ready.start_file();
                EventOutcome::Continue
            },
            MpvEvent::FileLoaded => {
                self.video_ready.file_loaded();
                EventOutcome::Continue
            },
            MpvEvent::PlaybackRestart => {
                match self.video_ready.playback_restarted() {
                    Some(load_id) => EventOutcome::Send(video_ready_response(load_id, true)),
                    None => EventOutcome::Continue,
                }
            },
            MpvEvent::PropertyChange { name, value } => {
                EventOutcome::Send(WebResponse::PropertyChange { name, value })
            },
            MpvEvent::EndFile { reason } => EventOutcome::Send(WebResponse::Ended { reason }),
            MpvEvent::Shutdown => EventOutcome::Stop,
            MpvEvent::Other => EventOutcome::Continue,
        }
    }
}

/// A video is reported as ready only for the load that the web interface was told of last.
pub proof fn law_ready_is_of_the_latest_load(state: VideoReadyModel, event: MpvEvent)
    requires
        state.wf(),
    ensures
        outcome(state, event) matches EventOutcome::Send(
            WebResponse::VideoReady { load_id, ready },
        ) ==> ready && load_id == state.next_load_id && ready_after(state, event).ready_sent
            == Some(load_id),
{
}

/// No event of the player begins a load, and none breaks what holds of the loads.
pub proof fn law_events_keep_loads(state: VideoReadyModel, event: MpvEvent)
    requires
        state.wf(),
    ensures
        ready_after(state, event).wf(),
        ready_after(state, event).next_load_id == state.next_load_id,
        ready_after(state, event).current == state.current,
{
    match event {
        MpvEvent::StartFile => law_step_keeps_wf(state, VideoEvent::StartFile),
        MpvEvent::FileLoaded => law_step_keeps_wf(state, VideoEvent::FileLoaded),
        MpvEvent::PlaybackRestart => law_step_keeps_wf(state, VideoEvent::Restarted),
        _ => {},
    }
}

/// The loads after a run of events.
pub open spec fn after_events(state: VideoReadyModel, events: Seq<MpvEvent>) -> VideoReadyModel
    decreases events.len(),
{
    if events.len() == 0 {
        state
    } else {
        ready_after(after_events(state, events.drop_last()), events.last())
    }
}

/// So many starts of a file, and then its end of loading.
pub open spec fn loading(n: nat) -> Seq<MpvEvent> {
    Seq::new(n, |i: int| MpvEvent::StartFile).push(MpvEvent::FileLoaded)
}

/// The starts of files change the loads as they do in `VideoReadyModel`.
proof fn lemma_after_starts(state: VideoReadyModel, n: nat)
    ensures
        after_events(state, Seq::new(n, |i: int| MpvEvent::StartFile)) == state.run(starts(n)),
    decreases n,
{
    let events = Seq::new(n, |i: int| MpvEvent::StartFile);
    if n > 0 {
        lemma_after_starts(state, (n - 1) as nat);
        assert(events.drop_last() =~= Seq::new((n - 1) as nat, |i: int| MpvEvent::StartFile));
        assert(starts(n).drop_last() =~= starts((n - 1) as nat));
    }
}

/// Every load is reported as ready, however many there were before it: once the files that were
/// asked for before have been started, and its own file has been started and loaded, the restart of
/// playback tells the web interface that the load is ready. The restart after that tells nothing.
pub proof fn law_every_load_is_reported(state: VideoReadyModel)
    requires
        state.wf(),
        state.next_load_id < u64::MAX,
    ensures
        ({
            let id = (state.next_load_id + 1) as u64;
            let loaded = after_events(state.begin(true), loading(state.pending.len() + 1));
            &&& outcome(loaded, MpvEvent::PlaybackRestart) == EventOutcome::Send(
                WebResponse::VideoReady { load_id: id, ready: true },
            )
            &&& outcome(
                ready_after(loaded, MpvEvent::PlaybackRestart),
                MpvEvent::PlaybackRestart,
            ) == EventOutcome::Continue
        }),
{
    let begun = state.begin(true);
    let n = state.pending.len() + 1;
    let events = loading(n);
    assert(events.drop_last() =~= Seq::new(n, |i: int| MpvEvent::StartFile));
    lemma_after_starts(begun, n);
    lemma_starts(begun, n);
    assert(begun.pending[state.pending.len() as int] == (state.next_load_id + 1) as u64);
}

/// A restart of playback is reported exactly if the file of what the web interface waits for has
/// been loaded and was not reported before; then it is that load that is reported, and it is
/// remembered as reported.
pub proof fn law_restart_is_reported(state: VideoReadyModel)
    ensures
        ({
            let told = outcome(state, MpvEvent::PlaybackRestart);
            let after = ready_after(state, MpvEvent::PlaybackRestart);
            let ready = state.current is Some && state.file_loaded == state.current
                && state.ready_sent != state.current;
            &&& ready ==> told == EventOutcome::Send(
                WebResponse::VideoReady { load_id: state.current->0, ready: true },
            ) && after.ready_sent == state.current
            &&& !ready ==> told == EventOutcome::Continue && after.ready_sent == state.ready_sent
            &&& after == (VideoReadyModel { ready_sent: after.ready_sent, ..state })
        }),
{
}

/// The web interface is told of every change of a property and of every end of a file, with the
/// name, value and reason that the player gave. The player is listened to until it shuts down, and
/// nothing is told of any other event.
pub proof fn law_events_are_told(state: VideoReadyModel, event: MpvEvent)
    ensures
        match event {
            MpvEvent::PropertyChange { name, value } => outcome(state, event) matches
                EventOutcome::Send(WebResponse::PropertyChange { name: told, value: given })
                && told == name && given == value,
            MpvEvent::EndFile { reason } => outcome(state, event) matches EventOutcome::Send(
                WebResponse::Ended { reason: told },
            ) && told == reason,
            MpvEvent::Shutdown => outcome(state, event) is Stop,
            MpvEvent::PlaybackRestart => !(outcome(state, event) is Stop),
            _ => outcome(state, event) is Continue,
        },
        match event {
            MpvEvent::StartFile => ready_after(state, event) == state.start_file(),
            MpvEvent::FileLoaded => ready_after(state, event) == state.file_loaded(),
            MpvEvent::PlaybackRestart => ready_after(state, event) == state.restarted(),
            _ => ready_after(state, event) == state,
        },
{
}

/// A property is set to the value that the message gives, whatever it is: a truth value to itself,
/// a number to itself, a text to itself, under the name that the message gives. Only the list of
/// video outputs gets more: it begins with the outputs that the message names, in their order, and
/// the colors are set again for the processing that is in force.
pub proof fn law_property_is_set_to_the_value_of_the_message(
    name: String,
    value: PropVal,
    gpu: bool,
    action: PlayerAction,
)
    requires
        answers(InMsg(InMsgFn::MpvSetProp, InMsgArgs::StProp(name, value)), gpu, action),
    ensures
        match value {
            PropVal::Bool(flag) => action matches PlayerAction::SetFlag { name: n, value: v } && n
                == name && v == flag,
            PropVal::Num(number) => action matches PlayerAction::SetNumber { name: n, bits: b } && n
                == name && b == number,
            PropVal::Str(text) => if name@ != "vo"@ {
                action matches PlayerAction::SetText { name: n, value: v } && n == name && v == text
            } else {
                action matches PlayerAction::SetVideoOutput {
                    name: n,
                    value: v,
                    gpu_video_processing: g,
                } && n == name && g == gpu && outputs_of(text@).is_prefix_of(outputs_of(v@)) && v@
                    == option_text(with_fallback(outputs_of(text@)))
            },
        },
{
    if let PropVal::Str(text) = value {
        law_option_reads_back(text@);
        law_fallback_keeps_outputs(outputs_of(text@));
    }
}

/// A property is observed under the name that the message gives, as the type that the message
/// gives.
pub proof fn law_property_is_observed_as_asked(name: String, gpu: bool, action: PlayerAction)
    ensures
        answers(
            InMsg(InMsgFn::MpvObserveProp, InMsgArgs::ObProp(PropKey::Bool(name))),
            gpu,
            action,
        ) ==> action == (PlayerAction::Observe { name, format: PropFormat::Flag }),
        answers(
            InMsg(InMsgFn::MpvObserveProp, InMsgArgs::ObProp(PropKey::Int(name))),
            gpu,
            action,
        ) ==> action == (PlayerAction::Observe { name, format: PropFormat::Int64 }),
        answers(
            InMsg(InMsgFn::MpvObserveProp, InMsgArgs::ObProp(PropKey::Fp(name))),
            gpu,
            action,
        ) ==> action == (PlayerAction::Observe { name, format: PropFormat::Double }),
        answers(
            InMsg(InMsgFn::MpvObserveProp, InMsgArgs::ObProp(PropKey::Str(name))),
            gpu,
            action,
        ) ==> action == (PlayerAction::Observe { name, format: PropFormat::Text }),
{
}

/// Every command reaches the player or the subtitle worker as it was asked for: one that is not
/// about subtitles with all of its parts and its transition, one that is with its arguments. The
/// switch for the processing of the video is applied as it is set.
pub proof fn law_commands_are_passed_on(
    command: CmdVal,
    enabled: bool,
    gpu: bool,
    action: PlayerAction,
)
    ensures
        answers(InMsg(InMsgFn::MpvCommand, InMsgArgs::Cmd(command)), gpu, action) ==> match command {
            CmdVal::Other { media_transition, parts } => action matches
                PlayerAction::BeginMediaChange(passed) && passed.media_transition
                == media_transition && passed.parts == parts,
            _ => action matches PlayerAction::Subtitle(passed) && is_conversion(command, passed),
        },
        answers(
            InMsg(InMsgFn::MpvSetGpuVideoProcessing, InMsgArgs::Flag(enabled)),
            gpu,
            action,
        ) ==> action == (PlayerAction::ApplyDisplay { gpu_video_processing: enabled }),
{
}

/// A message is carried out exactly if its arguments are of the kind that it asks for.
pub proof fn law_mismatched_messages_do_nothing(msg: InMsg, gpu: bool, action: PlayerAction)
    requires
        answers(msg, gpu, action),
    ensures
        action is Unsupported <==> !((msg.0 is MpvObserveProp && msg.1 is ObProp) || (
        msg.0 is MpvSetProp && msg.1 is StProp) || (msg.0 is MpvSetGpuVideoProcessing
            && msg.1 is Flag) || (msg.0 is MpvCommand && msg.1 is Cmd)),
{
}

} // verus!
