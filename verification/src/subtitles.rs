//! Subtitle commands, which the player carries out one at a time and never while the media
//! changes.
use crate::constants::literals;
use crate::messages::CmdVal;
use crate::text::{has_char, texts};
use std::collections::VecDeque;
use vstd::prelude::*;

verus! {

/// A command on the subtitle tracks.
#[derive(Debug, PartialEq, Eq)]
pub struct SubtitleCommand {
    /// The name of the command.
    pub name: &'static str,
    /// The name of the command again, followed by its arguments.
    pub args: Vec<String>,
}

/// The subtitle command for the player that `command` asks for.
pub open spec fn is_conversion(command: CmdVal, converted: SubtitleCommand) -> bool {
    match command {
        CmdVal::SubAdd(url, title, language) => converted.name@ == "sub-add"@ && texts(
            converted.args@,
        ) == seq!["sub-add"@, url@, "auto"@, title@, language@],
        CmdVal::SubRemove(track) => converted.name@ == "sub-remove"@ && texts(converted.args@)
            == seq!["sub-remove"@, track@],
        CmdVal::Other { .. } => false,
    }
}

impl SubtitleCommand {
    /// The subtitle command that `command` is; any other command is handed back.
    pub fn try_from(command: CmdVal) -> (converted: Result<SubtitleCommand, CmdVal>)
        ensures
            match converted {
                Ok(subtitle) => is_conversion(command, subtitle),
                Err(back) => command is Other && back == command,
            },
    {
        match command {
            CmdVal::SubAdd(url, title, language) => {
                let args = vec![
                    "sub-add".to_owned(),
                    url,
                    "auto".to_owned(),
                    title,
                    language,
                ];
                assert(texts(args@) =~= seq!["sub-add"@, url@, "auto"@, title@, language@]);
                Ok(SubtitleCommand { name: "sub-add", args })
            },
            CmdVal::SubRemove(track_id) => {
                let args = vec!["sub-remove".to_owned(), track_id];
                assert(texts(args@) =~= seq!["sub-remove"@, track_id@]);
                Ok(SubtitleCommand { name: "sub-remove", args })
            },
            command => Err(command),
        }
    }

    /// Whether the command can be handed to the player: a text with a NUL character cannot.
    pub open spec fn sendable(self) -> bool {
        forall|i: int| 0 <= i < self.args@.len() ==> !(#[trigger] self.args@[i])@.contains('\0')
    }

    /// Whether the command can be handed to the player.
    pub fn is_sendable(&self) -> (sendable: bool)
        ensures
            sendable == self.sendable(),
            sendable <==> forall|i: int|
                0 <= i < self.args@.len() ==> !(#[trigger] self.args@[i])@.contains('\0'),
    {
        let mut i: usize = 0;
        while i < self.args.len()
            invariant
                i <= self.args.len(),
                forall|k: int| 0 <= k < i ==> !(#[trigger] self.args@[k])@.contains('\0'),
            decreases self.args.len() - i,
        {
            if has_char(self.args[i].as_str(), '\0') {
                return false;
            }
            i += 1;
        }
        true
    }
}

/// What the worker is asked to do.
pub enum SubtitleWorkerRequest {
    /// Carry out this command.
    Command(SubtitleCommand),
    /// The media is about to change: drop what is queued, stop what is running, then acknowledge
    /// to the asker that goes by this number.
    BeginMediaChange(u64),
    /// The media has changed.
    EndMediaChange,
}

/// The command that the player is busy with.
#[derive(Clone, Copy)]
pub struct InFlightSubtitle {
    pub reply_id: u64,
    pub name: &'static str,
}

/// What has to be done about a request.
pub enum SubtitleAction {
    /// Nothing.
    Idle,
    /// Tell the asker that goes by this number that the media may change.
    Acknowledge(u64),
    /// Abort the running command that has this reply identifier.
    Abort(u64),
}

/// A command that is to be handed to the player now, with the identifier of its reply.
pub struct SubtitleStart {
    pub reply_id: u64,
    pub command: SubtitleCommand,
}

/// What came of a reply of the player.
pub struct SubtitleReply {
    /// The command that is done by it.
    pub finished: Option<InFlightSubtitle>,
    /// The asker that is told that the media may change.
    pub acknowledge: Option<u64>,
}

/// The queue of subtitle commands and the state of the one that the player is busy with.
pub struct SubtitleWorker {
    queue: VecDeque<SubtitleCommand>,
    in_flight: Option<InFlightSubtitle>,
    next_reply_id: u64,
    media_change: bool,
    media_change_ack: Option<u64>,
}

/// What a `SubtitleWorker` stands for.
#[verifier::ext_equal]
pub struct SubtitleModel {
    pub queue: Seq<SubtitleCommand>,
    pub in_flight: Option<InFlightSubtitle>,
    pub next_reply_id: u64,
    pub media_change: bool,
    /// The asker that waits for the running command to end.
    pub waiting: Option<u64>,
}

/// The names of a list of commands.
pub open spec fn command_names(commands: Seq<SubtitleCommand>) -> Seq<Seq<char>> {
    commands.map_values(|command: SubtitleCommand| command.name@)
}

/// The index of the first command that can be handed to the player, or the length if none can.
pub open spec fn first_sendable(queue: Seq<SubtitleCommand>) -> int
    decreases queue.len(),
{
    if queue.len() == 0 || queue[0].sendable() {
        0
    } else {
        1 + first_sendable(queue.drop_first())
    }
}

/// The index of the first command that can be handed to the player and that the player accepts, or
/// the length if there is none.
pub open spec fn first_accepted(queue: Seq<SubtitleCommand>, accepts: Seq<bool>) -> int
    decreases queue.len(),
{
    if queue.len() == 0 || (queue[0].sendable() && accepts[0]) {
        0
    } else {
        1 + first_accepted(queue.drop_first(), accepts.drop_first())
    }
}

/// The identifier behind `n` others that were given away, from `id` on.
pub open spec fn id_behind(id: u64, n: nat) -> u64
    decreases n,
{
    if n == 0 {
        id
    } else {
        id_behind(next_id(id), (n - 1) as nat)
    }
}

/// How many of the first `n` commands can be handed to the player.
pub open spec fn sendable_among(queue: Seq<SubtitleCommand>, n: int) -> nat
    decreases queue.len(),
{
    if n <= 0 || queue.len() == 0 {
        0
    } else {
        sendable_among(queue.drop_first(), n - 1) + if queue[0].sendable() {
            1nat
        } else {
            0
        }
    }
}

/// The identifier behind `id`; zero is left out when the identifiers wrap round.
pub open spec fn next_id(id: u64) -> u64 {
    if id == u64::MAX {
        1
    } else {
        (id + 1) as u64
    }
}

impl SubtitleModel {
    /// Nothing queued, nothing running.
    pub open spec fn initial() -> Self {
        SubtitleModel {
            queue: Seq::empty(),
            in_flight: None,
            next_reply_id: 1,
            media_change: false,
            waiting: None,
        }
    }

    /// What holds in every state: zero is never the identifier of a reply, and an asker is kept
    /// waiting only by a running command.
    pub open spec fn wf(self) -> bool {
        &&& self.next_reply_id > 0
        &&& self.in_flight matches Some(running) ==> running.reply_id > 0
        &&& self.waiting is Some ==> self.in_flight is Some
    }

    /// The state after a request.
    pub open spec fn request(self, request: SubtitleWorkerRequest) -> Self {
        match request {
            SubtitleWorkerRequest::Command(command) => SubtitleModel {
                queue: self.queue.push(command),
                ..self
            },
            SubtitleWorkerRequest::BeginMediaChange(asker) => SubtitleModel {
                queue: Seq::empty(),
                media_change: true,
                waiting: if self.in_flight is Some {
                    Some(asker)
                } else {
                    self.waiting
                },
                ..self
            },
            SubtitleWorkerRequest::EndMediaChange => SubtitleModel { media_change: false, ..self },
        }
    }

    /// What has to be done about a request.
    pub open spec fn action(self, request: SubtitleWorkerRequest) -> SubtitleAction {
        match request {
            SubtitleWorkerRequest::BeginMediaChange(asker) => match self.in_flight {
                Some(running) => SubtitleAction::Abort(running.reply_id),
                None => SubtitleAction::Acknowledge(asker),
            },
            _ => SubtitleAction::Idle,
        }
    }

    /// Whether the reply with this identifier is the one of the running command.
    pub open spec fn awaits(self, reply_id: u64) -> bool {
        self.in_flight matches Some(running) && running.reply_id == reply_id
    }

    /// The state after a reply.
    pub open spec fn reply(self, reply_id: u64) -> Self {
        if self.awaits(reply_id) {
            SubtitleModel { in_flight: None, waiting: None, ..self }
        } else {
            self
        }
    }

    /// Whether a command may be handed to the player.
    pub open spec fn may_start(self) -> bool {
        !self.media_change && self.in_flight is None
    }

    /// Whether there is a command to hand to the player, and it may be handed over.
    pub open spec fn starts(self) -> bool {
        self.may_start() && first_sendable(self.queue) < self.queue.len()
    }

    /// The state once the next command has been taken from the queue.
    pub open spec fn taken(self) -> Self {
        if !self.may_start() {
            self
        } else if first_sendable(self.queue) < self.queue.len() {
            SubtitleModel {
                queue: self.queue.skip(first_sendable(self.queue) + 1),
                next_reply_id: next_id(self.next_reply_id),
                ..self
            }
        } else {
            SubtitleModel { queue: Seq::empty(), ..self }
        }
    }

    /// The state once the next command, if there is one, has been handed to the player.
    pub open spec fn attempted(self, accepted: bool) -> Self {
        SubtitleModel {
            in_flight: if self.starts() && accepted {
                Some(
                    InFlightSubtitle {
                        reply_id: self.next_reply_id,
                        name: self.queue[first_sendable(self.queue)].name,
                    },
                )
            } else {
                self.in_flight
            },
            ..self.taken()
        }
    }

    /// The state once commands have been handed to the player until it is busy or none is left;
    /// `accepts` says of each command in the queue whether the player accepts it.
    pub open spec fn settled(self, accepts: Seq<bool>) -> Self
        decreases self.queue.len(),
    {
        let k = first_sendable(self.queue);
        if self.starts() && 0 <= k {
            self.attempted(accepts[k]).settled(accepts.skip(k + 1))
        } else {
            self.taken()
        }
    }

    /// One event.
    pub open spec fn step(self, event: SubtitleEvent) -> Self {
        match event {
            SubtitleEvent::Request(request) => self.request(request),
            SubtitleEvent::Reply(reply_id) => self.reply(reply_id),
            SubtitleEvent::Attempt(accepted) => self.attempted(accepted),
        }
    }

    /// The asker that one event acknowledges to.
    pub open spec fn acknowledged(self, event: SubtitleEvent) -> Option<u64> {
        match event {
            SubtitleEvent::Request(request) => match self.action(request) {
                SubtitleAction::Acknowledge(asker) => Some(asker),
                _ => None,
            },
            SubtitleEvent::Reply(reply_id) => if self.awaits(reply_id) {
                self.waiting
            } else {
                None
            },
            SubtitleEvent::Attempt(_) => None,
        }
    }

    /// A run of events.
    pub open spec fn run(self, events: Seq<SubtitleEvent>) -> Self
        decreases events.len(),
    {
        if events.len() == 0 {
            self
        } else {
            self.run(events.drop_last()).step(events.last())
        }
    }
}

/// Something that happens to the worker.
pub enum SubtitleEvent {
    /// A request comes in.
    Request(SubtitleWorkerRequest),
    /// The player replies.
    Reply(u64),
    /// The worker hands the next command to the player if it may; the flag says whether the
    /// player accepts it.
    Attempt(bool),
}

impl View for SubtitleWorker {
    type V = SubtitleModel;

    closed spec fn view(&self) -> SubtitleModel {
        SubtitleModel {
            queue: self.queue@,
            in_flight: self.in_flight,
            next_reply_id: self.next_reply_id,
            media_change: self.media_change,
            waiting: self.media_change_ack,
        }
    }
}

/// Commands in front of the first that can be handed over are skipped one by one.
proof fn lemma_skip_unsendable(queue: Seq<SubtitleCommand>)
    requires
        queue.len() > 0,
        !queue[0].sendable(),
    ensures
        first_sendable(queue) == 1 + first_sendable(queue.skip(1)),
{
    assert(queue.drop_first() =~= queue.skip(1));
}

/// `first_sendable` is an index of the queue, or its length.
proof fn lemma_first_sendable(queue: Seq<SubtitleCommand>)
    ensures
        0 <= first_sendable(queue) <= queue.len(),
        first_sendable(queue) < queue.len() ==> queue[first_sendable(queue)].sendable(),
        forall|i: int| 0 <= i < first_sendable(queue) ==> !(#[trigger] queue[i]).sendable(),
    decreases queue.len(),
{
    if queue.len() > 0 && !queue[0].sendable() {
        let rest = queue.drop_first();
        lemma_first_sendable(rest);
        assert forall|i: int| 0 <= i < first_sendable(queue) implies !(
        #[trigger] queue[i]).sendable() by {
            if i > 0 {
                assert(rest[i - 1] == queue[i]);
            }
        }
    }
}

impl SubtitleWorker {
    /// A worker with nothing to do.
    pub fn new() -> (worker: Self)
        ensures
            worker@ == SubtitleModel::initial(),
    {
        SubtitleWorker {
            queue: VecDeque::new(),
            in_flight: None,
            next_reply_id: 1,
            media_change: false,
            media_change_ack: None,
        }
    }

    /// Takes a request.
    pub fn on_request(&mut self, request: SubtitleWorkerRequest) -> (action: SubtitleAction)
        ensures
            final(self)@ == old(self)@.request(request),
            action == old(self)@.action(request),
    {
        match request {
            SubtitleWorkerRequest::Command(command) => {
                self.queue.push_back(command);
                SubtitleAction::Idle
            },
            SubtitleWorkerRequest::BeginMediaChange(asker) => {
                self.media_change = true;
                self.queue.clear();
                match self.in_flight {
                    Some(command) => {
                        self.media_change_ack = Some(asker);
                        SubtitleAction::Abort(command.reply_id)
                    },
                    None => SubtitleAction::Acknowledge(asker),
                }
            },
            SubtitleWorkerRequest::EndMediaChange => {
                self.media_change = false;
                SubtitleAction::Idle
            },
        }
    }

    /// Takes a reply of the player. A reply to anything but the running command is ignored.
    pub fn on_reply(&mut self, reply_id: u64) -> (reply: SubtitleReply)
        ensures
            final(self)@ == old(self)@.reply(reply_id),
            reply.finished == if old(self)@.awaits(reply_id) {
                old(self)@.in_flight
            } else {
                None
            },
            reply.acknowledge == if old(self)@.awaits(reply_id) {
                old(self)@.waiting
            } else {
                None
            },
    {
        match self.in_flight {
            Some(command) => {
                if command.reply_id != reply_id {
                    return SubtitleReply { finished: None, acknowledge: None };
                }
                self.in_flight = None;
                let acknowledge = self.media_change_ack.take();
                SubtitleReply { finished: Some(command), acknowledge }
            },
            None => SubtitleReply { finished: None, acknowledge: None },
        }
    }

    /// The names of the commands that `take_next` drops now, since they cannot be handed over:
    /// those in front of the first that can, if commands may be handed over.
    pub fn dropped_names(&self) -> (names: Vec<&'static str>)
        ensures
            literals(names@) == if self@.may_start() {
                command_names(self@.queue.take(first_sendable(self@.queue)))
            } else {
                Seq::empty()
            },
    {
        let mut names: Vec<&'static str> = Vec::new();
        assert(literals(names@) =~= Seq::empty());
        if self.media_change || self.in_flight.is_some() {
            return names;
        }
        proof {
            lemma_first_sendable(self@.queue);
            assert(self@.queue.take(0) =~= Seq::empty());
            assert(command_names(self@.queue.take(0)) =~= Seq::empty());
        }
        let mut i: usize = 0;
        while i < self.queue.len() && !self.queue[i].is_sendable()
            invariant
                i <= self.queue@.len(),
                self@.queue == self.queue@,
                self.queue.len() == self.queue@.len(),
                forall|k: int| 0 <= k < i ==> !(#[trigger] self.queue@[k]).sendable(),
                literals(names@) == command_names(self.queue@.take(i as int)),
            decreases self.queue@.len() - i,
        {
            let ghost before = names@;
            names.push(self.queue[i].name);
            assert(literals(names@) =~= literals(before).push(self.queue@[i as int].name@));
            assert(command_names(self.queue@.take(i + 1)) =~= command_names(
                self.queue@.take(i as int),
            ).push(self.queue@[i as int].name@));
            i += 1;
        }
        proof {
            let k = first_sendable(self@.queue);
            if k < i {
                assert(!self.queue@[k].sendable());
            }
            if i < k {
                assert(!self@.queue[i as int].sendable());
            }
        }
        names
    }

    /// The command that is to be handed to the player now, if there is one and it may be handed
    /// over. Commands that cannot be handed over are dropped on the way.
    pub fn take_next(&mut self) -> (start: Option<SubtitleStart>)
        ensures
            final(self)@ == old(self)@.taken(),
            match start {
                Some(s) => old(self)@.starts() && s.reply_id == old(self)@.next_reply_id
                    && s.command == old(self)@.queue[first_sendable(old(self)@.queue)],
                None => !old(self)@.starts(),
            },
    {
        if self.media_change || self.in_flight.is_some() {
            return None;
        }
        let ghost all = self.queue@;
        let ghost mut skipped: int = 0;
        proof {
            lemma_first_sendable(all);
            assert(all.skip(0) =~= all);
        }
        loop
            invariant
                0 <= skipped <= all.len(),
                all == old(self)@.queue,
                self.queue@ == all.skip(skipped),
                first_sendable(all) == skipped + first_sendable(all.skip(skipped)),
                old(self)@.may_start(),
                self.in_flight == old(self)@.in_flight,
                self.next_reply_id == old(self)@.next_reply_id,
                self.media_change == old(self)@.media_change,
                self.media_change_ack == old(self)@.waiting,
            decreases all.len() - skipped,
        {
            let ghost rest = self.queue@;
            let command = match self.queue.pop_front() {
                Some(command) => command,
                None => {
                    assert(self.queue@ =~= Seq::empty());
                    assert(self@ =~= old(self)@.taken());
                    return None;
                },
            };
            if !command.is_sendable() {
                proof {
                    lemma_skip_unsendable(rest);
                    assert(rest.skip(1) =~= all.skip(skipped + 1));
                    assert(self.queue@ =~= all.skip(skipped + 1));
                    skipped = skipped + 1;
                }
                continue;
            }
            let reply_id = self.next_reply_id;
            self.next_reply_id = if reply_id == u64::MAX {
                1
            } else {
                reply_id + 1
            };
            proof {
                assert(self.queue@ =~= all.skip(skipped + 1));
                assert(self@ =~= old(self)@.taken());
            }
            return Some(SubtitleStart { reply_id, command });
        }
    }

    /// What the player made of a command that it was handed: a negative result is a refusal.
    pub fn started(&mut self, start: &SubtitleStart, result: i32)
        ensures
            final(self)@ == (SubtitleModel {
                in_flight: if result < 0 {
                    old(self)@.in_flight
                } else {
                    Some(InFlightSubtitle { reply_id: start.reply_id, name: start.command.name })
                },
                ..old(self)@
            }),
    {
        if result < 0 {
            return;
        }
        self.in_flight = Some(
            InFlightSubtitle { reply_id: start.reply_id, name: start.command.name },
        );
    }
}

/// The run of events in which no media change ends.
pub open spec fn change_goes_on(events: Seq<SubtitleEvent>) -> bool {
    forall|i: int|
        0 <= i < events.len() ==> #[trigger] events[i] != SubtitleEvent::Request(
            SubtitleWorkerRequest::EndMediaChange,
        )
}

/// Every event keeps the state well formed.
pub proof fn law_step_keeps_wf(state: SubtitleModel, event: SubtitleEvent)
    requires
        state.wf(),
    ensures
        state.step(event).wf(),
{
}

/// Every state that a run of events leads to is well formed.
pub proof fn law_run_keeps_wf(state: SubtitleModel, events: Seq<SubtitleEvent>)
    requires
        state.wf(),
    ensures
        state.run(events).wf(),
    decreases events.len(),
{
    if events.len() > 0 {
        law_run_keeps_wf(state, events.drop_last());
        law_step_keeps_wf(state.run(events.drop_last()), events.last());
    }
}

/// A command that the player accepts is the one that it is busy with, under an identifier that the
/// next command does not get.
pub proof fn law_started_command_is_awaited(state: SubtitleModel)
    requires
        state.wf(),
        state.starts(),
    ensures
        ({
            let after = state.attempted(true);
            &&& after.awaits(state.next_reply_id)
            &&& after.next_reply_id != state.next_reply_id
            &&& !after.starts()
        }),
{
}

/// No command is handed to the player while the media changes: between the request that begins
/// the change and the one that ends it, the worker never starts one, and a player that has become
/// idle stays so.
pub proof fn law_no_start_during_media_change(
    state: SubtitleModel,
    asker: u64,
    events: Seq<SubtitleEvent>,
)
    requires
        change_goes_on(events),
    ensures
        ({
            let begun = state.request(SubtitleWorkerRequest::BeginMediaChange(asker));
            &&& begun.run(events).media_change
            &&& !begun.run(events).starts()
            &&& state.in_flight is None ==> begun.run(events).in_flight is None
        }),
    decreases events.len(),
{
    if events.len() > 0 {
        let earlier = events.drop_last();
        assert(change_goes_on(earlier)) by {
            assert forall|i: int| 0 <= i < earlier.len() implies #[trigger] earlier[i]
                != SubtitleEvent::Request(SubtitleWorkerRequest::EndMediaChange) by {
                assert(earlier[i] == events[i]);
            }
        }
        law_no_start_during_media_change(state, asker, earlier);
        assert(events[events.len() - 1] != SubtitleEvent::Request(
            SubtitleWorkerRequest::EndMediaChange,
        ));
    }
}

/// An asker is told that the media may change only when the player is idle.
pub proof fn law_acknowledged_when_idle(state: SubtitleModel, event: SubtitleEvent)
    requires
        state.acknowledged(event) is Some,
    ensures
        state.step(event).in_flight is None,
{
}

/// The run of events in which no media change begins and no reply with this identifier comes.
pub open spec fn keeps_waiting(events: Seq<SubtitleEvent>, reply_id: u64) -> bool {
    forall|i: int|
        0 <= i < events.len() ==> match #[trigger] events[i] {
            SubtitleEvent::Request(SubtitleWorkerRequest::BeginMediaChange(_)) => false,
            SubtitleEvent::Reply(id) => id != reply_id,
            _ => true,
        }
}

/// The request for a media change is answered at once if the player is idle.
pub proof fn law_idle_player_is_acknowledged(state: SubtitleModel, asker: u64)
    requires
        state.in_flight is None,
    ensures
        state.acknowledged(SubtitleEvent::Request(SubtitleWorkerRequest::BeginMediaChange(asker)))
            == Some(asker),
{
}

/// If the player is busy, the request for a media change aborts the running command, and the
/// reply of that command brings the answer, whatever else happened in between.
pub proof fn law_busy_player_is_acknowledged(
    state: SubtitleModel,
    asker: u64,
    events: Seq<SubtitleEvent>,
)
    requires
        state.in_flight is Some,
        keeps_waiting(events, state.in_flight->0.reply_id),
    ensures
        ({
            let begin = SubtitleWorkerRequest::BeginMediaChange(asker);
            let reply_id = state.in_flight->0.reply_id;
            &&& state.action(begin) == SubtitleAction::Abort(reply_id)
            &&& state.request(begin).run(events).in_flight == state.in_flight
            &&& state.request(begin).run(events).waiting == Some(asker)
            &&& state.request(begin).run(events).acknowledged(SubtitleEvent::Reply(reply_id))
                == Some(asker)
        }),
    decreases events.len(),
{
    if events.len() > 0 {
        let reply_id = state.in_flight->0.reply_id;
        let earlier = events.drop_last();
        assert(keeps_waiting(earlier, reply_id)) by {
            assert forall|i: int| 0 <= i < earlier.len() implies match #[trigger] earlier[i] {
                SubtitleEvent::Request(SubtitleWorkerRequest::BeginMediaChange(_)) => false,
                SubtitleEvent::Reply(id) => id != reply_id,
                _ => true,
            } by {
                assert(earlier[i] == events[i]);
            }
        }
        law_busy_player_is_acknowledged(state, asker, earlier);
        let last = events[events.len() - 1];
        assert(events.last() == last);
    }
}

/// Nobody is told twice: once an asker was told, nobody waits any more.
pub proof fn law_acknowledged_once(state: SubtitleModel, event: SubtitleEvent)
    requires
        state.wf(),
        state.acknowledged(event) is Some,
    ensures
        state.step(event).waiting is None,
{
}

/// Commands are handed over in the order in which they were asked for, none twice: what is taken
/// from the queue stood in front of all that is left in it, and what was passed over could not
/// be handed over.
pub proof fn law_commands_keep_their_order(state: SubtitleModel)
    requires
        state.starts(),
    ensures
        ({
            let k = first_sendable(state.queue);
            &&& 0 <= k < state.queue.len()
            &&& state.queue[k].sendable()
            &&& forall|i: int| 0 <= i < k ==> !(#[trigger] state.queue[i]).sendable()
            &&& state.queue == state.queue.take(k).push(state.queue[k]) + state.taken().queue
        }),
{
    lemma_first_sendable(state.queue);
    let k = first_sendable(state.queue);
    assert(state.queue =~= state.queue.take(k).push(state.queue[k]) + state.queue.skip(k + 1));
}

/// `first_accepted` is an index of the queue, or its length.
proof fn lemma_first_accepted(queue: Seq<SubtitleCommand>, accepts: Seq<bool>)
    requires
        accepts.len() == queue.len(),
    ensures
        0 <= first_accepted(queue, accepts) <= queue.len(),
        first_accepted(queue, accepts) < queue.len() ==> queue[first_accepted(
            queue,
            accepts,
        )].sendable() && accepts[first_accepted(queue, accepts)],
        forall|i: int|
            0 <= i < first_accepted(queue, accepts) ==> !((#[trigger] queue[i]).sendable()
                && accepts[i]),
    decreases queue.len(),
{
    if queue.len() > 0 && !(queue[0].sendable() && accepts[0]) {
        let rest = queue.drop_first();
        let answers = accepts.drop_first();
        lemma_first_accepted(rest, answers);
        assert forall|i: int| 0 <= i < first_accepted(queue, accepts) implies !((
        #[trigger] queue[i]).sendable() && accepts[i]) by {
            if i > 0 {
                assert(rest[i - 1] == queue[i] && answers[i - 1] == accepts[i]);
            }
        }
    }
}

/// A command that cannot be handed over, or that the player refuses, is passed over.
proof fn lemma_pass_over(queue: Seq<SubtitleCommand>, accepts: Seq<bool>)
    requires
        accepts.len() == queue.len(),
    ensures
        ({
            let k = first_sendable(queue);
            &&& 0 <= k <= queue.len()
            &&& k == queue.len() ==> first_accepted(queue, accepts) == queue.len()
                && sendable_among(queue, queue.len() as int) == 0
            &&& k < queue.len() && accepts[k] ==> first_accepted(queue, accepts) == k
                && sendable_among(queue, k) == 0
            &&& k < queue.len() && !accepts[k] ==> first_accepted(queue, accepts) == k + 1
                + first_accepted(queue.skip(k + 1), accepts.skip(k + 1)) && forall|n: int|
                n > k ==> #[trigger] sendable_among(queue, n) == 1 + sendable_among(
                    queue.skip(k + 1),
                    n - k - 1,
                )
        }),
    decreases queue.len(),
{
    if queue.len() > 0 {
        let rest = queue.drop_first();
        let answers = accepts.drop_first();
        if queue[0].sendable() {
            assert(queue.skip(1) =~= rest);
            assert(accepts.skip(1) =~= answers);
        } else {
            lemma_pass_over(rest, answers);
            let k = first_sendable(queue);
            assert(first_sendable(rest) == k - 1);
            if k < queue.len() {
                assert(answers[k - 1] == accepts[k]);
                assert(queue.skip(k + 1) =~= rest.skip(k));
                assert(accepts.skip(k + 1) =~= answers.skip(k));
                if !accepts[k] {
                    assert forall|n: int| n > k implies #[trigger] sendable_among(queue, n) == 1
                        + sendable_among(queue.skip(k + 1), n - k - 1) by {
                        assert(sendable_among(rest, n - 1) == 1 + sendable_among(
                            rest.skip(k),
                            n - 1 - (k - 1) - 1,
                        ));
                    }
                }
            }
        }
    }
}

/// Where the worker may hand over commands, it goes on until the player is busy or the queue is
/// empty: the command that runs in the end is the first that can be handed over and that the player
/// accepts, under the identifier behind those that the refused ones got, and all that stood behind
/// it still waits. If there is no such command, nothing runs and nothing waits. Elsewhere nothing
/// changes.
pub proof fn law_first_accepted_command_runs(state: SubtitleModel, accepts: Seq<bool>)
    requires
        accepts.len() == state.queue.len(),
    ensures
        ({
            let k = first_accepted(state.queue, accepts);
            let after = state.settled(accepts);
            &&& !state.may_start() ==> after == state
            &&& state.may_start() ==> {
                &&& 0 <= k <= state.queue.len()
                &&& forall|i: int|
                    0 <= i < k ==> !((#[trigger] state.queue[i]).sendable() && accepts[i])
                &&& after.media_change == state.media_change
                &&& after.waiting == state.waiting
                &&& k < state.queue.len() ==> {
                    let tried = sendable_among(state.queue, k);
                    &&& state.queue[k].sendable() && accepts[k]
                    &&& after.queue == state.queue.skip(k + 1)
                    &&& after.in_flight == Some(
                        InFlightSubtitle {
                            reply_id: id_behind(state.next_reply_id, tried),
                            name: state.queue[k].name,
                        },
                    )
                    &&& after.next_reply_id == next_id(id_behind(state.next_reply_id, tried))
                }
                &&& k == state.queue.len() ==> {
                    &&& after.queue == Seq::<SubtitleCommand>::empty()
                    &&& after.in_flight is None
                    &&& after.next_reply_id == id_behind(
                        state.next_reply_id,
                        sendable_among(state.queue, k),
                    )
                }
            }
        }),
    decreases state.queue.len(),
{
    if state.may_start() {
        lemma_first_sendable(state.queue);
        lemma_first_accepted(state.queue, accepts);
        lemma_pass_over(state.queue, accepts);
        let j = first_sendable(state.queue);
        if j < state.queue.len() {
            let next = state.attempted(accepts[j]);
            let answers = accepts.skip(j + 1);
            assert(next.queue == state.queue.skip(j + 1));
            law_first_accepted_command_runs(next, answers);
            if !accepts[j] {
                let k = first_accepted(next.queue, answers);
                if k < next.queue.len() {
                    assert(state.queue.skip(j + 1).skip(k + 1) =~= state.queue.skip(j + k + 2));
                }
                assert(sendable_among(state.queue, j + 1 + k) == 1 + sendable_among(
                    next.queue,
                    k,
                ));
            } else {
                assert(next.settled(answers) == next.taken());
            }
        }
    }
}

/// Whether no argument of a command holds the character NUL.
pub open spec fn is_free_of_nul(command: SubtitleCommand) -> bool {
    forall|j: int, k: int|
        0 <= j < command.args@.len() && 0 <= k < command.args@[j]@.len()
            ==> #[trigger] command.args@[j]@[k] != '\0'
}

/// A command can be handed over exactly if none of its arguments holds the character NUL, whatever
/// else they hold. So an idle player outside of a media change is handed the first command of the
/// queue, under the next identifier, if that command is free of NUL; otherwise the command is
/// dropped, and what follows is as if it had never been asked for.
pub proof fn law_commands_free_of_nul_are_handed_over(state: SubtitleModel)
    requires
        !state.media_change,
        state.in_flight is None,
        state.queue.len() > 0,
    ensures
        state.queue[0].sendable() <==> is_free_of_nul(state.queue[0]),
        is_free_of_nul(state.queue[0]) ==> {
            let after = state.attempted(true);
            &&& state.starts()
            &&& first_sendable(state.queue) == 0
            &&& state.taken().queue == state.queue.drop_first()
            &&& after.queue == state.queue.drop_first()
            &&& after.in_flight is Some && after.in_flight->0.reply_id == state.next_reply_id
                && after.in_flight->0.name == state.queue[0].name
            &&& state.attempted(false).in_flight is None
            &&& state.attempted(false).queue == state.queue.drop_first()
            &&& after.next_reply_id == next_id(state.next_reply_id)
            &&& state.attempted(false).next_reply_id == next_id(state.next_reply_id)
            &&& !after.media_change && after.waiting == state.waiting
        },
        !is_free_of_nul(state.queue[0]) ==> {
            let without = SubtitleModel { queue: state.queue.drop_first(), ..state };
            &&& state.starts() == without.starts()
            &&& state.taken() == without.taken()
            &&& forall|accepted: bool| #[trigger]
                state.attempted(accepted) == without.attempted(accepted)
        },
{
    let command = state.queue[0];
    if command.sendable() {
        assert forall|j: int, k: int|
            0 <= j < command.args@.len() && 0 <= k < command.args@[j]@.len() implies
            #[trigger] command.args@[j]@[k] != '\0' by {
            let arg = command.args@[j]@;
            assert(!arg.contains('\0'));
            assert(arg.contains(arg[k]));
        }
    }
    if is_free_of_nul(command) {
        assert forall|j: int| 0 <= j < command.args@.len() implies !(
        #[trigger] command.args@[j])@.contains('\0') by {
            if command.args@[j]@.contains('\0') {
                let k = choose|k: int|
                    0 <= k < command.args@[j]@.len() && command.args@[j]@[k] == '\0';
                assert(command.args@[j]@[k] == '\0');
            }
        }
        assert(state.queue.skip(1) =~= state.queue.drop_first());
    } else {
        let without = SubtitleModel { queue: state.queue.drop_first(), ..state };
        lemma_first_sendable(without.queue);
        let k = first_sendable(without.queue);
        assert(first_sendable(state.queue) == k + 1);
        if k < without.queue.len() {
            assert(state.queue[k + 1] == without.queue[k]);
            assert(state.queue.skip(k + 2) =~= without.queue.skip(k + 1));
        }
    }
}

/// All commands of a queue are handed over one after the other, in the order in which they were
/// asked for, if they are free of NUL and the player accepts each of them: none is lost or passed
/// over, and each is running before its reply lets the next one in.
pub proof fn law_no_command_is_lost(state: SubtitleModel, n: int)
    requires
        !state.media_change,
        state.in_flight is None,
        0 <= n < state.queue.len(),
        forall|i: int| 0 <= i < state.queue.len() ==> is_free_of_nul(#[trigger] state.queue[i]),
    ensures
        ({
            let running = carried_out(state, n as nat).attempted(true);
            &&& running.in_flight is Some
            &&& running.in_flight->0.name == state.queue[n].name
            &&& running.queue == state.queue.skip(n + 1)
        }),
        carried_out(state, n as nat).queue == state.queue.skip(n),
        carried_out(state, n as nat).in_flight is None,
        !carried_out(state, n as nat).media_change,
    decreases n,
{
    if n == 0 {
        assert(state.queue.skip(0) =~= state.queue);
        law_commands_free_of_nul_are_handed_over(state);
        assert(state.queue.drop_first() =~= state.queue.skip(1));
    } else {
        law_no_command_is_lost(state, n - 1);
        let earlier = carried_out(state, (n - 1) as nat);
        let now = carried_out(state, n as nat);
        assert(is_free_of_nul(state.queue[n - 1]));
        assert(earlier.queue[0] == state.queue[n - 1]);
        law_commands_free_of_nul_are_handed_over(earlier);
        assert(now.queue =~= state.queue.skip(n));
        assert(is_free_of_nul(state.queue[n]));
        assert(now.queue[0] == state.queue[n]);
        law_commands_free_of_nul_are_handed_over(now);
        assert(now.queue.drop_first() =~= state.queue.skip(n + 1));
    }
}

/// The state once the player has accepted `n` commands and replied to each.
pub open spec fn carried_out(state: SubtitleModel, n: nat) -> SubtitleModel
    decreases n,
{
    if n == 0 {
        state
    } else {
        let earlier = carried_out(state, (n - 1) as nat);
        let running = earlier.attempted(true);
        match running.in_flight {
            Some(command) => running.reply(command.reply_id),
            None => running,
        }
    }
}

/// A command that is asked for waits behind all others. The beginning of a media change empties the
/// queue, so that no command that was asked for before it is carried out after it; its end lets
/// commands through again. No request touches the running command.
pub proof fn law_requests_change_the_queue(
    state: SubtitleModel,
    command: SubtitleCommand,
    asker: u64,
)
    ensures
        ({
            let asked = state.request(SubtitleWorkerRequest::Command(command));
            let begun = state.request(SubtitleWorkerRequest::BeginMediaChange(asker));
            let ended = state.request(SubtitleWorkerRequest::EndMediaChange);
            &&& asked.queue.len() == state.queue.len() + 1 && asked.queue.last() == command
                && asked.queue.drop_last() == state.queue
            &&& asked.media_change == state.media_change && asked.waiting == state.waiting
            &&& begun.queue.len() == 0 && begun.media_change
            &&& state.in_flight is Some ==> begun.waiting == Some(asker)
            &&& state.in_flight is None ==> begun.waiting == state.waiting
            &&& !ended.media_change && ended.queue == state.queue && ended.waiting == state.waiting
            &&& asked.in_flight == state.in_flight && begun.in_flight == state.in_flight
                && ended.in_flight == state.in_flight
            &&& asked.next_reply_id == state.next_reply_id && begun.next_reply_id
                == state.next_reply_id && ended.next_reply_id == state.next_reply_id
            &&& state.action(SubtitleWorkerRequest::Command(command)) == SubtitleAction::Idle
            &&& state.action(SubtitleWorkerRequest::EndMediaChange) == SubtitleAction::Idle
        }),
{
    assert(state.queue.push(command).drop_last() =~= state.queue);
}

/// The reply to the running command ends it and frees its asker; the reply to anything else
/// changes nothing. The queue stays as it is.
pub proof fn law_replies_end_the_running_command(state: SubtitleModel, reply_id: u64)
    ensures
        ({
            let after = state.reply(reply_id);
            let awaited = state.in_flight is Some && state.in_flight->0.reply_id == reply_id;
            &&& awaited == state.awaits(reply_id)
            &&& awaited ==> after.in_flight is None && after.waiting is None
            &&& !awaited ==> after == state
            &&& after.queue == state.queue && after.media_change == state.media_change
                && after.next_reply_id == state.next_reply_id
        }),
{
}

/// Nothing is taken from the queue while the media changes or the player is busy.
pub proof fn law_queue_waits(state: SubtitleModel, accepted: bool)
    requires
        state.media_change || state.in_flight is Some,
    ensures
        !state.starts(),
        state.taken() == state,
        state.attempted(accepted) == state,
{
}

/// Identifiers go up by one, and from the largest to one.
pub proof fn law_identifiers_go_up(id: u64)
    ensures
        id < u64::MAX ==> next_id(id) == id + 1,
        id == u64::MAX ==> next_id(id) == 1,
{
}

/// A request to add a subtitle track becomes the command that adds it without selecting it, under
/// its title and language; a request to remove one becomes the command that removes it. No other
/// command becomes one on subtitles.
pub proof fn law_conversion_keeps_arguments(command: CmdVal, converted: SubtitleCommand)
    requires
        is_conversion(command, converted),
    ensures
        match command {
            CmdVal::SubAdd(url, title, language) => {
                &&& converted.name@ == "sub-add"@ && converted.args@.len() == 5
                &&& converted.args@[0]@ == "sub-add"@ && converted.args@[1]@ == url@
                &&& converted.args@[2]@ == "auto"@
                &&& converted.args@[3]@ == title@ && converted.args@[4]@ == language@
            },
            CmdVal::SubRemove(track) => {
                &&& converted.name@ == "sub-remove"@ && converted.args@.len() == 2
                &&& converted.args@[0]@ == "sub-remove"@ && converted.args@[1]@ == track@
            },
            CmdVal::Other { .. } => false,
        },
{
    let list = texts(converted.args@);
    assert(list.len() == converted.args@.len());
    assert forall|i: int| 0 <= i < list.len() implies list[i] == (#[trigger] converted.args@[i])@ by {
    }
    match command {
        CmdVal::SubAdd(url, title, language) => {
            assert(list[0] == "sub-add"@ && list[1] == url@ && list[2] == "auto"@ && list[3]
                == title@ && list[4] == language@);
        },
        CmdVal::SubRemove(track) => {
            assert(list[0] == "sub-remove"@ && list[1] == track@);
        },
        CmdVal::Other { .. } => {},
    }
}

/// A new worker has nothing to do, may start at once, and gives away the identifier one first; an
/// empty queue stays empty.
pub proof fn law_new_worker_is_idle()
    ensures
        ({
            let state = SubtitleModel::initial();
            &&& state.wf()
            &&& state.queue.len() == 0 && state.in_flight is None && state.waiting is None
            &&& !state.media_change && state.next_reply_id == 1
            &&& state.may_start() && !state.starts() && state.taken() == state
        }),
{
    assert(SubtitleModel::initial().taken() =~= SubtitleModel::initial());
}

/// A command may be handed over exactly if the media does not change and the player is idle.
pub proof fn law_idle_player_may_start(state: SubtitleModel)
    ensures
        state.may_start() <==> !state.media_change && state.in_flight is None,
        state.may_start() && state.queue.len() == 0 ==> !state.starts() && state.taken().queue.len()
            == 0 && state.taken().next_reply_id == state.next_reply_id,
{
}

} // verus!
