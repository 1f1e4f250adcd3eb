//! What the user hands to the shell to be opened, kept until the web interface can take it.
use crate::ipc::WebResponse;
use crate::outside::text_from_utf8;
use vstd::prelude::*;
use vstd::utf8::{decode_utf8, valid_utf8};

verus! {

/// What happens to the hand-over.
pub enum OpenRequest {
    /// Something is to be opened.
    Input(String),
    /// The web interface is ready.
    Ready,
    /// The web interface is loaded anew.
    Reset,
}

/// The latest input that has not been handed over, and whether the web interface is ready.
pub struct OpenMedia {
    ready: bool,
    pending: Option<String>,
}

/// What an `OpenMedia` stands for.
#[verifier::ext_equal]
pub struct OpenMediaModel {
    pub ready: bool,
    pub pending: Option<Seq<char>>,
}

/// The texts of an `OpenRequest`.
pub enum OpenEvent {
    Input(Seq<char>),
    Ready,
    Reset,
}

impl View for OpenRequest {
    type V = OpenEvent;

    open spec fn view(&self) -> OpenEvent {
        match *self {
            OpenRequest::Input(input) => OpenEvent::Input(input@),
            OpenRequest::Ready => OpenEvent::Ready,
            OpenRequest::Reset => OpenEvent::Reset,
        }
    }
}

impl View for OpenMedia {
    type V = OpenMediaModel;

    closed spec fn view(&self) -> OpenMediaModel {
        OpenMediaModel {
            ready: self.ready,
            pending: match self.pending {
                Some(input) => Some(input@),
                None => None,
            },
        }
    }
}

impl OpenMediaModel {
    /// At the start: what the command line asks for, if anything, and nobody to take it.
    pub open spec fn initial(command: Seq<char>) -> Self {
        OpenMediaModel {
            ready: false,
            pending: if command.len() > 0 {
                Some(command)
            } else {
                None
            },
        }
    }

    /// A request is noted; a new input takes the place of an older one.
    pub open spec fn noted(self, event: OpenEvent) -> Self {
        match event {
            OpenEvent::Input(input) => OpenMediaModel { pending: Some(input), ..self },
            OpenEvent::Ready => OpenMediaModel { ready: true, ..self },
            OpenEvent::Reset => OpenMediaModel { ready: false, ..self },
        }
    }

    /// What is handed over after a request.
    pub open spec fn handed_over(self, event: OpenEvent) -> Option<Seq<char>> {
        if self.noted(event).ready {
            self.noted(event).pending
        } else {
            None
        }
    }

    /// The state after a request: what is handed over, is pending no more.
    pub open spec fn step(self, event: OpenEvent) -> Self {
        let noted = self.noted(event);
        if noted.ready {
            OpenMediaModel { pending: None, ..noted }
        } else {
            noted
        }
    }

    /// A run of requests.
    pub open spec fn run(self, events: Seq<OpenEvent>) -> Self
        decreases events.len(),
    {
        if events.len() == 0 {
            self
        } else {
            self.run(events.drop_last()).step(events.last())
        }
    }

    /// What is handed over during a run of requests, in order.
    pub open spec fn all_handed_over(self, events: Seq<OpenEvent>) -> Seq<Seq<char>>
        decreases events.len(),
    {
        if events.len() == 0 {
            Seq::empty()
        } else {
            let earlier = events.drop_last();
            match self.run(earlier).handed_over(events.last()) {
                Some(input) => self.all_handed_over(earlier).push(input),
                None => self.all_handed_over(earlier),
            }
        }
    }
}

impl OpenMedia {
    /// The hand-over at the start of the shell, with what its command line asks for.
    pub fn new(command: String) -> (media: Self)
        ensures
            media@ == OpenMediaModel::initial(command@),
    {
        let pending = if command.as_str().is_empty() {
            None
        } else {
            Some(command)
        };
        OpenMedia { ready: false, pending }
    }

    /// Takes a request. Returns what is handed to the web interface by that, if anything.
    pub fn on_request(&mut self, request: OpenRequest) -> (response: Option<WebResponse>)
        ensures
            final(self)@ == old(self)@.step(request@),
            match old(self)@.handed_over(request@) {
                Some(handed) => response matches Some(WebResponse::OpenMedia { input }) && input@
                    == handed,
                None => response is None,
            },
    {
        match request {
            OpenRequest::Input(input) => {
                self.pending = Some(input);
            },
            OpenRequest::Ready => {
                self.ready = true;
            },
            OpenRequest::Reset => {
                self.ready = false;
            },
        }
        if self.ready {
            if let Some(input) = self.pending.take() {
                return Some(WebResponse::OpenMedia { input });
            }
        }
        None
    }
}

/// What another start of the shell makes of the running one.
pub enum PipeInput {
    /// Nothing.
    Ignored,
    /// Its window is shown.
    Focus,
    /// Its window is shown, and this is opened.
    FocusAndOpen(OpenRequest),
}

/// What another start of the shell has written into the pipe of the running one.
pub fn pipe_input(bytes: Vec<u8>) -> (input: PipeInput)
    ensures
        match input {
            PipeInput::Ignored => !valid_utf8(bytes@),
            PipeInput::Focus => bytes@.len() == 0,
            PipeInput::FocusAndOpen(request) => valid_utf8(bytes@) && bytes@.len() > 0 && request@
                == OpenEvent::Input(decode_utf8(bytes@)),
        },
{
    let empty = bytes.len() == 0;
    match text_from_utf8(bytes) {
        Some(text) => if empty {
            PipeInput::Focus
        } else {
            PipeInput::FocusAndOpen(OpenRequest::Input(text))
        },
        None => PipeInput::Ignored,
    }
}

/// How many inputs there are in a run of requests.
pub open spec fn inputs(events: Seq<OpenEvent>) -> nat
    decreases events.len(),
{
    if events.len() == 0 {
        0
    } else {
        inputs(events.drop_last()) + if events.last() is Input {
            1nat
        } else {
            0
        }
    }
}

/// The last input in a run of requests.
pub open spec fn last_input(start: Option<Seq<char>>, events: Seq<OpenEvent>) -> Option<Seq<char>>
    decreases events.len(),
{
    if events.len() == 0 {
        start
    } else {
        match events.last() {
            OpenEvent::Input(input) => Some(input),
            _ => last_input(start, events.drop_last()),
        }
    }
}

/// While the web interface is ready, nothing stays pending.
pub proof fn law_nothing_waits_for_a_ready_interface(state: OpenMediaModel, event: OpenEvent)
    ensures
        state.step(event).ready ==> state.step(event).pending is None,
{
}

/// Whatever is handed over is the latest input, and what is pending is the latest input too.
pub proof fn law_latest_input_wins(
    command: Seq<char>,
    events: Seq<OpenEvent>,
    event: OpenEvent,
)
    ensures
        ({
            let start = OpenMediaModel::initial(command);
            let state = start.run(events);
            &&& state.pending is Some ==> state.pending == last_input(start.pending, events)
            &&& state.handed_over(event) is Some ==> state.handed_over(event) == last_input(
                start.pending,
                events.push(event),
            )
        }),
    decreases events.len(),
{
    assert(events.push(event).drop_last() =~= events);
    if events.len() > 0 {
        law_latest_input_wins(command, events.drop_last(), events.last());
        assert(events.drop_last().push(events.last()) =~= events);
    }
}

/// Each input is handed over at most once: there are never more hand-overs than inputs, the
/// command line among them, less the one that is pending.
pub proof fn law_handed_over_once(command: Seq<char>, events: Seq<OpenEvent>)
    ensures
        ({
            let start = OpenMediaModel::initial(command);
            let pending = |state: OpenMediaModel|
                if state.pending is Some {
                    1nat
                } else {
                    0
                };
            start.all_handed_over(events).len() + pending(start.run(events)) <= inputs(events)
                + pending(start)
        }),
    decreases events.len(),
{
    if events.len() > 0 {
        law_handed_over_once(command, events.drop_last());
    }
}

/// An input reaches the web interface: at once if that is ready, otherwise as soon as it becomes
/// ready, unless a later input takes its place.
pub proof fn law_input_is_handed_over(state: OpenMediaModel, input: Seq<char>)
    ensures
        state.ready ==> state.handed_over(OpenEvent::Input(input)) == Some(input),
        !state.ready ==> {
            let waiting = state.step(OpenEvent::Input(input));
            &&& state.handed_over(OpenEvent::Input(input)) is None
            &&& waiting.step(OpenEvent::Reset) == waiting
            &&& waiting.handed_over(OpenEvent::Ready) == Some(input)
        },
{
}

/// The run of requests in which the web interface does not become ready.
pub open spec fn never_ready(events: Seq<OpenEvent>) -> bool {
    forall|i: int| 0 <= i < events.len() ==> !(#[trigger] events[i] is Ready)
}

/// Once the web interface is loaded anew, nothing is handed over until it becomes ready, whatever
/// comes in meanwhile: no page is handed what is meant for another.
pub proof fn law_reset_holds_inputs_back(state: OpenMediaModel, events: Seq<OpenEvent>)
    requires
        never_ready(events),
    ensures
        state.handed_over(OpenEvent::Reset) is None,
        !state.step(OpenEvent::Reset).run(events).ready,
        state.step(OpenEvent::Reset).all_handed_over(events) == Seq::<Seq<char>>::empty(),
    decreases events.len(),
{
    if events.len() > 0 {
        let earlier = events.drop_last();
        assert(never_ready(earlier)) by {
            assert forall|i: int| 0 <= i < earlier.len() implies !(#[trigger] earlier[i] is Ready) by {
                assert(earlier[i] == events[i]);
            }
        }
        law_reset_holds_inputs_back(state, earlier);
        assert(!(events[events.len() - 1] is Ready));
    }
}

/// What the command line asks for is handed over when the web interface first becomes ready, if it
/// asks for anything and no input came before.
pub proof fn law_command_line_is_handed_over(command: Seq<char>)
    ensures
        ({
            let start = OpenMediaModel::initial(command);
            &&& !start.ready
            &&& command.len() > 0 ==> start.handed_over(OpenEvent::Ready) == Some(command)
            &&& command.len() == 0 ==> start.handed_over(OpenEvent::Ready) is None
            &&& start.handed_over(OpenEvent::Reset) is None
        }),
{
}

/// The web interface is ready once it says so and until it is loaded anew, whatever comes in
/// meanwhile; an input that waits is kept when it is loaded anew.
pub proof fn law_readiness_lasts(state: OpenMediaModel, input: Seq<char>, text: String)
    ensures
        state.step(OpenEvent::Ready).ready,
        !state.step(OpenEvent::Reset).ready,
        state.step(OpenEvent::Input(input)).ready == state.ready,
        state.step(OpenEvent::Reset).pending == state.pending,
        OpenRequest::Ready@ == OpenEvent::Ready,
        OpenRequest::Reset@ == OpenEvent::Reset,
        OpenRequest::Input(text)@ == OpenEvent::Input(text@),
{
}

} // verus!
