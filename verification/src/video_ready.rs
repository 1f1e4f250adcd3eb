//! When the video that the web interface asked for is ready to be shown.
//!
//! Every media transition gets a load identifier. The video of a load is ready once its own file
//! has been started, loaded, and playback has restarted, and that is reported once.
use std::collections::VecDeque;
use vstd::prelude::*;

verus! {

/// The loads that were asked for, and how far the player has come with the latest one.
#[derive(Debug)]
pub struct VideoReadyState {
    next_load_id: u64,
    current_load_id: Option<u64>,
    pending_load_ids: VecDeque<u64>,
    active_load_id: Option<u64>,
    file_loaded_id: Option<u64>,
    ready_sent_id: Option<u64>,
}

/// What a `VideoReadyState` stands for.
#[verifier::ext_equal]
pub struct VideoReadyModel {
    /// The identifier of the latest transition, zero before the first.
    pub next_load_id: nat,
    /// The transition that the web interface is waiting for.
    pub current: Option<u64>,
    /// The loads whose files have not been started yet, oldest first.
    pub pending: Seq<u64>,
    /// The load whose file was started last.
    pub active: Option<u64>,
    /// The load whose file has been loaded.
    pub file_loaded: Option<u64>,
    /// The load that was reported as ready.
    pub ready_sent: Option<u64>,
}

/// Something that happens to the player.
pub enum VideoEvent {
    /// A media transition begins; the flag says whether it loads a file.
    Begin(bool),
    /// The player starts the next file.
    StartFile,
    /// The started file is loaded.
    FileLoaded,
    /// Playback restarts.
    Restarted,
}

impl View for VideoReadyState {
    type V = VideoReadyModel;

    closed spec fn view(&self) -> VideoReadyModel {
        VideoReadyModel {
            next_load_id: self.next_load_id as nat,
            current: self.current_load_id,
            pending: self.pending_load_ids@,
            active: self.active_load_id,
            file_loaded: self.file_loaded_id,
            ready_sent: self.ready_sent_id,
        }
    }
}

impl VideoReadyModel {
    /// Before the first transition.
    pub open spec fn initial() -> Self {
        VideoReadyModel {
            next_load_id: 0,
            current: None,
            pending: Seq::empty(),
            active: None,
            file_loaded: None,
            ready_sent: None,
        }
    }

    /// What holds in every state that the events lead to.
    pub open spec fn wf(self) -> bool {
        // The latest transition is the current one.
        &&& self.current == if self.next_load_id == 0 {
            None
        } else {
            Some(self.next_load_id as u64)
        }
        &&& self.next_load_id <= u64::MAX
        // Files are started in the order in which their loads were asked for.
        &&& forall|i: int| 0 <= i < self.pending.len() ==> 0 < #[trigger] self.pending[i]
            <= self.next_load_id
        &&& forall|i: int, j: int|
            0 <= i < j < self.pending.len() ==> self.pending[i] < self.pending[j]
        &&& self.active matches Some(active) ==> {
            &&& 0 < active <= self.next_load_id
            &&& forall|i: int| 0 <= i < self.pending.len() ==> active < #[trigger] self.pending[i]
        }
        // Only the file of the current load counts as loaded.
        &&& self.file_loaded is Some ==> self.file_loaded == self.current && self.file_loaded
            == self.active
        &&& self.ready_sent is Some ==> self.ready_sent == self.current
    }

    /// A new transition: it takes the next identifier and becomes the current one.
    pub open spec fn begin(self, loads_file: bool) -> Self {
        let id = (self.next_load_id + 1) as u64;
        VideoReadyModel {
            next_load_id: self.next_load_id + 1,
            current: Some(id),
            pending: if loads_file {
                self.pending.push(id)
            } else {
                self.pending
            },
            active: self.active,
            file_loaded: None,
            ready_sent: None,
        }
    }

    /// The file of the oldest pending load is started.
    pub open spec fn start_file(self) -> Self {
        VideoReadyModel {
            pending: if self.pending.len() > 0 {
                self.pending.skip(1)
            } else {
                self.pending
            },
            active: if self.pending.len() > 0 {
                Some(self.pending[0])
            } else {
                None
            },
            file_loaded: None,
            ..self
        }
    }

    /// The started file is loaded, which counts if it belongs to the current load.
    pub open spec fn file_loaded(self) -> Self {
        VideoReadyModel {
            file_loaded: if self.active == self.current {
                self.active
            } else {
                self.file_loaded
            },
            ..self
        }
    }

    /// The load that becomes ready when playback restarts now.
    pub open spec fn ready_on_restart(self) -> Option<u64> {
        if self.current is Some && self.file_loaded == self.current && self.ready_sent
            != self.current {
            self.current
        } else {
            None
        }
    }

    /// Playback restarts.
    pub open spec fn restarted(self) -> Self {
        VideoReadyModel {
            ready_sent: if self.ready_on_restart() is Some {
                self.current
            } else {
                self.ready_sent
            },
            ..self
        }
    }

    /// One event.
    pub open spec fn step(self, event: VideoEvent) -> Self {
        match event {
            VideoEvent::Begin(loads_file) => self.begin(loads_file),
            VideoEvent::StartFile => self.start_file(),
            VideoEvent::FileLoaded => self.file_loaded(),
            VideoEvent::Restarted => self.restarted(),
        }
    }

    /// A run of events.
    pub open spec fn run(self, events: Seq<VideoEvent>) -> Self
        decreases events.len(),
    {
        if events.len() == 0 {
            self
        } else {
            self.run(events.drop_last()).step(events.last())
        }
    }

    /// The loads that are reported as ready during a run of events, in order.
    pub open spec fn reports(self, events: Seq<VideoEvent>) -> Seq<u64>
        decreases events.len(),
    {
        if events.len() == 0 {
            Seq::empty()
        } else {
            let earlier = events.drop_last();
            let ready = self.run(earlier).ready_on_restart();
            if events.last() is Restarted && ready is Some {
                self.reports(earlier).push(ready->0)
            } else {
                self.reports(earlier)
            }
        }
    }
}

impl Default for VideoReadyState {
    fn default() -> (state: Self)
        ensures
            state@ == VideoReadyModel::initial(),
    {
        VideoReadyState {
            next_load_id: 0,
            current_load_id: None,
            pending_load_ids: VecDeque::new(),
            active_load_id: None,
            file_loaded_id: None,
            ready_sent_id: None,
        }
    }
}

impl VideoReadyState {
    /// Whether there is an identifier left for another transition.
    pub fn can_begin(&self) -> (can: bool)
        ensures
            can == (self@.next_load_id < u64::MAX),
    {
        self.next_load_id < u64::MAX
    }

    /// A media transition begins. Returns its load identifier.
    pub fn begin_transition(&mut self, loads_file: bool) -> (load_id: u64)
        requires
            old(self)@.next_load_id < u64::MAX,
        ensures
            final(self)@ == old(self)@.begin(loads_file),
            load_id == old(self)@.next_load_id + 1,
    {
        self.next_load_id += 1;
        self.current_load_id = Some(self.next_load_id);
        self.file_loaded_id = None;
        self.ready_sent_id = None;
        if loads_file {
            self.pending_load_ids.push_back(self.next_load_id);
        }
        self.next_load_id
    }

    /// The player starts the next file.
    pub fn start_file(&mut self)
        ensures
            final(self)@ == old(self)@.start_file(),
    {
        self.active_load_id = self.pending_load_ids.pop_front();
        self.file_loaded_id = None;
        assert(self@ =~= old(self)@.start_file());
    }

    /// The started file is loaded.
    pub fn file_loaded(&mut self)
        ensures
            final(self)@ == old(self)@.file_loaded(),
    {
        if self.active_load_id == self.current_load_id {
            self.file_loaded_id = self.active_load_id;
        }
    }

    /// Playback restarts. Returns the load that is ready by that, if one is.
    pub fn playback_restarted(&mut self) -> (ready: Option<u64>)
        ensures
            final(self)@ == old(self)@.restarted(),
            ready == old(self)@.ready_on_restart(),
    {
        let load_id = match self.current_load_id {
            Some(load_id) => load_id,
            None => {
                return None;
            },
        };
        if self.file_loaded_id != Some(load_id) || self.ready_sent_id == Some(load_id) {
            return None;
        }
        self.ready_sent_id = Some(load_id);
        Some(load_id)
    }
}

/// The run of events that holds no new transition.
pub open spec fn no_transition(events: Seq<VideoEvent>) -> bool {
    forall|i: int| 0 <= i < events.len() ==> !(#[trigger] events[i] is Begin)
}

/// How many files are started during a run of events.
pub open spec fn files_started(events: Seq<VideoEvent>) -> nat
    decreases events.len(),
{
    if events.len() == 0 {
        0
    } else {
        files_started(events.drop_last()) + if events.last() is StartFile {
            1nat
        } else {
            0
        }
    }
}

/// Every event keeps the state well formed, as long as there are identifiers left.
pub proof fn law_step_keeps_wf(state: VideoReadyModel, event: VideoEvent)
    requires
        state.wf(),
        event is Begin ==> state.next_load_id < u64::MAX,
    ensures
        state.step(event).wf(),
{
    let after = state.step(event);
    match event {
        VideoEvent::Begin(loads_file) => {
            assert forall|i: int, j: int| 0 <= i < j < after.pending.len() implies after.pending[i]
                < after.pending[j] by {
                assert(state.pending[i] == after.pending[i]);
            }
        },
        VideoEvent::StartFile => {
            if state.pending.len() > 0 {
                assert(after.pending =~= state.pending.skip(1));
                assert forall|i: int| 0 <= i < after.pending.len() implies 0
                    < #[trigger] after.pending[i] <= after.next_load_id && state.pending[0]
                    < after.pending[i] by {
                    assert(after.pending[i] == state.pending[i + 1]);
                }
            }
        },
        _ => {},
    }
}

/// Every state that a run of events leads to is well formed, as long as there are identifiers
/// left.
pub proof fn law_run_keeps_wf(state: VideoReadyModel, events: Seq<VideoEvent>)
    requires
        state.wf(),
        state.run(events).next_load_id <= u64::MAX,
    ensures
        state.run(events).wf(),
    decreases events.len(),
{
    if events.len() > 0 {
        let earlier = events.drop_last();
        assert(state.run(events) == state.run(earlier).step(events.last()));
        assert(state.run(earlier).next_load_id <= state.run(events).next_load_id);
        law_run_keeps_wf(state, earlier);
        law_step_keeps_wf(state.run(earlier), events.last());
    }
}

/// Readiness is reported at most once for each load, and for later loads later.
pub proof fn law_ready_is_reported_once(state: VideoReadyModel, events: Seq<VideoEvent>)
    requires
        state.wf(),
        state.run(events).next_load_id <= u64::MAX,
    ensures
        forall|i: int, j: int|
            0 <= i < j < state.reports(events).len() ==> state.reports(events)[i]
                < state.reports(events)[j],
        state.reports(events).no_duplicates(),
{
    lemma_reports(state, events);
}

/// What a report leaves behind: it is not newer than the current load, and the current load is
/// marked once it was reported.
proof fn lemma_reports(state: VideoReadyModel, events: Seq<VideoEvent>)
    requires
        state.wf(),
        state.run(events).next_load_id <= u64::MAX,
    ensures
        forall|i: int, j: int|
            0 <= i < j < state.reports(events).len() ==> state.reports(events)[i]
                < state.reports(events)[j],
        forall|i: int|
            0 <= i < state.reports(events).len() ==> {
                let id = #[trigger] state.reports(events)[i];
                &&& id <= state.run(events).next_load_id
                &&& id == state.run(events).next_load_id ==> state.run(events).ready_sent == Some(
                    id,
                )
            },
    decreases events.len(),
{
    if events.len() > 0 {
        let earlier = events.drop_last();
        let before = state.run(earlier);
        let after = state.run(events);
        assert(after == before.step(events.last()));
        assert(before.next_load_id <= after.next_load_id);
        lemma_reports(state, earlier);
        law_run_keeps_wf(state, earlier);
        let reports = state.reports(events);
        let earlier_reports = state.reports(earlier);
        assert forall|i: int| 0 <= i < reports.len() implies {
            let id = #[trigger] reports[i];
            &&& id <= after.next_load_id
            &&& id == after.next_load_id ==> after.ready_sent == Some(id)
        } by {
            if i < earlier_reports.len() {
                assert(reports[i] == earlier_reports[i]);
            }
        }
        assert forall|i: int, j: int| 0 <= i < j < reports.len() implies reports[i] < reports[j] by {
            assert(reports[i] == earlier_reports[i]);
            if j < earlier_reports.len() {
                assert(reports[j] == earlier_reports[j]);
            }
        }
    }
}

/// A transition that loads no file never becomes ready, whatever the player still does with
/// files that were asked for before.
pub proof fn law_stop_never_becomes_ready(state: VideoReadyModel, events: Seq<VideoEvent>)
    requires
        state.wf(),
        state.next_load_id < u64::MAX,
        no_transition(events),
    ensures
        state.begin(false).reports(events) == Seq::<u64>::empty(),
{
    lemma_stopped(state, events);
}

/// After a stop its identifier is neither pending nor active, and no file counts as loaded.
proof fn lemma_stopped(state: VideoReadyModel, events: Seq<VideoEvent>)
    requires
        state.wf(),
        state.next_load_id < u64::MAX,
        no_transition(events),
    ensures
        state.begin(false).reports(events) == Seq::<u64>::empty(),
        state.begin(false).run(events).current == state.begin(false).current,
        state.begin(false).run(events).file_loaded is None,
        state.begin(false).run(events).active != state.begin(false).current,
        forall|i: int|
            0 <= i < state.begin(false).run(events).pending.len()
                ==> #[trigger] state.begin(false).run(events).pending[i] <= state.next_load_id,
    decreases events.len(),
{
    if events.len() > 0 {
        let earlier = events.drop_last();
        assert(no_transition(earlier)) by {
            assert forall|i: int| 0 <= i < earlier.len() implies !(#[trigger] earlier[i] is Begin) by {
                assert(earlier[i] == events[i]);
            }
        }
        lemma_stopped(state, earlier);
        assert(!(events[events.len() - 1] is Begin));
        let before = state.begin(false).run(earlier);
        let after = state.begin(false).run(events);
        assert(after == before.step(events.last()));
        if events.last() is StartFile && before.pending.len() > 0 {
            assert(before.pending[0] <= state.next_load_id);
            assert forall|i: int| 0 <= i < after.pending.len() implies #[trigger] after.pending[i]
                <= state.next_load_id by {
                assert(after.pending[i] == before.pending[i + 1]);
            }
        }
    }
}

/// As long as the file of a new load has not been started, nothing that the player does makes the
/// load ready: what happens then belongs to files that were asked for before.
pub proof fn law_events_of_previous_files_are_ignored(
    state: VideoReadyModel,
    events: Seq<VideoEvent>,
)
    requires
        state.wf(),
        state.next_load_id < u64::MAX,
        no_transition(events),
        files_started(events) <= state.pending.len(),
    ensures
        state.begin(true).reports(events) == Seq::<u64>::empty(),
{
    lemma_waiting(state, events);
}

/// While the new load is pending, it is the last of the pending ones.
proof fn lemma_waiting(state: VideoReadyModel, events: Seq<VideoEvent>)
    requires
        state.wf(),
        state.next_load_id < u64::MAX,
        no_transition(events),
        files_started(events) <= state.pending.len(),
    ensures
        state.begin(true).reports(events) == Seq::<u64>::empty(),
        state.begin(true).run(events).current == state.begin(true).current,
        state.begin(true).run(events).file_loaded is None,
        state.begin(true).run(events).active != state.begin(true).current,
        state.begin(true).run(events).pending == state.begin(true).pending.skip(
            files_started(events) as int,
        ),
    decreases events.len(),
{
    let begun = state.begin(true);
    if events.len() == 0 {
        assert(begun.pending.skip(0) =~= begun.pending);
    } else {
        let earlier = events.drop_last();
        assert(no_transition(earlier)) by {
            assert forall|i: int| 0 <= i < earlier.len() implies !(#[trigger] earlier[i] is Begin) by {
                assert(earlier[i] == events[i]);
            }
        }
        lemma_waiting(state, earlier);
        assert(!(events[events.len() - 1] is Begin));
        let before = begun.run(earlier);
        let after = begun.run(events);
        assert(after == before.step(events.last()));
        if events.last() is StartFile {
            let k = files_started(earlier) as int;
            assert(before.pending[0] == state.pending[k]);
            assert(after.pending =~= begun.pending.skip(k + 1));
        }
    }
}

/// So many starts of a file.
pub open spec fn starts(n: nat) -> Seq<VideoEvent> {
    Seq::new(n, |i: int| VideoEvent::StartFile)
}

/// After `n` starts the active load is the last one that was taken from the pending ones.
pub proof fn lemma_starts(state: VideoReadyModel, n: nat)
    requires
        n <= state.pending.len(),
    ensures
        state.run(starts(n)).pending == state.pending.skip(n as int),
        n > 0 ==> state.run(starts(n)).active == Some(state.pending[n - 1]),
        n > 0 ==> state.run(starts(n)).file_loaded is None,
        state.run(starts(n)).current == state.current,
        state.run(starts(n)).ready_sent == state.ready_sent,
        state.reports(starts(n)) == Seq::<u64>::empty(),
    decreases n,
{
    if n == 0 {
        assert(state.pending.skip(0) =~= state.pending);
    } else {
        let earlier = starts((n - 1) as nat);
        assert(starts(n).drop_last() =~= earlier);
        lemma_starts(state, (n - 1) as nat);
        let before = state.run(earlier);
        assert(before.pending[0] == state.pending[n - 1]);
        assert(before.pending.skip(1) =~= state.pending.skip(n as int));
    }
}

/// Once the file of a load has been started and loaded, the next restart of playback reports the
/// load as ready, and the restart after that reports nothing.
pub proof fn law_ready_follows_file_loaded(state: VideoReadyModel)
    requires
        state.wf(),
        state.next_load_id < u64::MAX,
    ensures
        ({
            let id = (state.next_load_id + 1) as u64;
            let started = starts(state.pending.len() + 1);
            let loaded = started.push(VideoEvent::FileLoaded);
            let restarted = loaded.push(VideoEvent::Restarted);
            &&& state.begin(true).reports(started.push(VideoEvent::Restarted))
                == Seq::<u64>::empty()
            &&& state.begin(true).reports(restarted) == seq![id]
            &&& state.begin(true).reports(restarted.push(VideoEvent::Restarted)) == seq![id]
        }),
{
    let begun = state.begin(true);
    let id = (state.next_load_id + 1) as u64;
    let started = starts(state.pending.len() + 1);
    let loaded = started.push(VideoEvent::FileLoaded);
    let restarted = loaded.push(VideoEvent::Restarted);
    lemma_starts(begun, state.pending.len() + 1);
    assert(begun.pending[state.pending.len() as int] == id);
    assert(started.push(VideoEvent::Restarted).drop_last() =~= started);
    assert(loaded.drop_last() =~= started);
    assert(restarted.drop_last() =~= loaded);
    assert(restarted.push(VideoEvent::Restarted).drop_last() =~= restarted);
    assert(begun.reports(loaded) =~= begun.reports(started));
    assert(begun.run(loaded) == begun.run(started).file_loaded());
    assert(begun.reports(restarted) =~= seq![id]);
    assert(begun.run(restarted) == begun.run(loaded).restarted());
}

/// A transition takes the number behind the last one and is what the web interface waits for. If
/// it loads a file, it queues up behind the loads whose files have not been started. Nothing is
/// loaded or reported for it yet.
pub proof fn law_transition_takes_the_next_number(state: VideoReadyModel, loads_file: bool)
    requires
        state.next_load_id < u64::MAX,
    ensures
        ({
            let after = state.begin(loads_file);
            &&& after.next_load_id == state.next_load_id + 1
            &&& after.current matches Some(id) && id as int == state.next_load_id + 1
            &&& after.file_loaded is None && after.ready_sent is None
            &&& after.active == state.active
            &&& loads_file ==> after.pending.len() == state.pending.len() + 1
                && after.pending.last() as int == state.next_load_id + 1 && after.pending.drop_last()
                == state.pending
            &&& !loads_file ==> after.pending == state.pending
        }),
{
    assert(state.begin(true).pending.drop_last() =~= state.pending);
}

/// Each start of a file takes up the oldest load that waits for one, and none if none waits; it
/// changes neither what the web interface waits for nor what was reported.
pub proof fn law_files_start_in_order(state: VideoReadyModel)
    ensures
        ({
            let after = state.start_file();
            &&& state.pending.len() > 0 ==> after.active == Some(state.pending[0]) && seq![
                state.pending[0],
            ] + after.pending == state.pending
            &&& state.pending.len() == 0 ==> after.active is None && after.pending.len() == 0
            &&& after.file_loaded is None
            &&& after.current == state.current && after.ready_sent == state.ready_sent
            &&& after.next_load_id == state.next_load_id
        }),
{
    if state.pending.len() > 0 {
        assert(seq![state.pending[0]] + state.pending.skip(1) =~= state.pending);
    }
}

/// A file that was started for what the web interface waits for, counts as loaded once it is; any
/// other does not. Nothing else changes by it.
pub proof fn law_loaded_file_belongs_to_the_current_load(state: VideoReadyModel)
    ensures
        ({
            let after = state.file_loaded();
            &&& state.active == state.current ==> after.file_loaded == state.current
            &&& state.active != state.current ==> after.file_loaded == state.file_loaded
            &&& after == (VideoReadyModel { file_loaded: after.file_loaded, ..state })
        }),
{
}

/// Once a file is started for which no load waits, the player makes nothing ready until the next
/// transition, whatever it does.
pub proof fn law_foreign_files_are_ignored(state: VideoReadyModel, events: Seq<VideoEvent>)
    requires
        state.pending.len() == 0,
        no_transition(events),
    ensures
        state.start_file().reports(events) == Seq::<u64>::empty(),
        state.start_file().run(events).active is None,
        state.start_file().run(events).pending.len() == 0,
        state.start_file().run(events).file_loaded is None,
    decreases events.len(),
{
    if events.len() > 0 {
        let earlier = events.drop_last();
        assert(no_transition(earlier)) by {
            assert forall|i: int| 0 <= i < earlier.len() implies !(#[trigger] earlier[i] is Begin) by {
                assert(earlier[i] == events[i]);
            }
        }
        law_foreign_files_are_ignored(state, earlier);
        assert(!(events[events.len() - 1] is Begin));
    }
}

/// Before the first transition nothing is asked for, started, loaded or reported.
pub proof fn law_nothing_is_asked_for_at_first()
    ensures
        ({
            let state = VideoReadyModel::initial();
            &&& state.wf()
            &&& state.next_load_id == 0 && state.current is None && state.pending.len() == 0
            &&& state.active is None && state.file_loaded is None && state.ready_sent is None
        }),
{
}

} // verus!
