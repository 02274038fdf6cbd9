//! The recording lifecycle controller: the single "is recording" flag
//! and the synchronous decisions taken on toggle and cancel requests.
//!
//! The flag is owned by the controller and can only change through the
//! transition methods, so at most one start, stop or cancel flow is in
//! flight per recording session: a handler flips the flag before it asks
//! the host to spawn anything, and a second trigger therefore sees the
//! new flag.

use vstd::prelude::*;
use crate::indicator::AppState;
use crate::notifs::Notif;
use crate::pipeline::Action;
use crate::pipeline::cancel_spawn_count;
use crate::pipeline::lemma_projections_concat;
use crate::pipeline::lemma_projections_empty;
use crate::pipeline::lemma_projections_singleton;

verus! {

/// The owner of the global "is recording" flag.
pub struct Controller {
    recording: bool,
}

impl Controller {
    /// Whether a recording session is in progress.
    pub closed spec fn is_recording(self) -> bool {
        self.recording
    }

    /// The controller state after one toggle request.
    pub closed spec fn toggled(self) -> Controller {
        Controller { recording: !self.recording }
    }

    /// The controller state after one cancel request.
    pub closed spec fn cancelled(self) -> Controller {
        Controller { recording: false }
    }

    /// The controller state after the start flow reported its result:
    /// a failed start flips the flag back, a successful one keeps it.
    pub closed spec fn start_resolved(self, ok: bool) -> Controller {
        if ok {
            self
        } else {
            Controller { recording: false }
        }
    }

    /// What one toggle request asks the host to do: begin a recording
    /// session when none is in progress, otherwise begin the stop flow.
    /// The indicator push comes before the spawn, on the triggering
    /// thread.
    pub open spec fn toggle_actions(self) -> Seq<Action> {
        if self.is_recording() {
            seq![Action::SetIndicator(AppState::Transcribing), Action::SpawnStopFlow]
        } else {
            seq![Action::SetIndicator(AppState::Recording), Action::SpawnStartFlow]
        }
    }

    /// What one cancel request asks the host to do: nothing at all when
    /// no recording is in progress, otherwise return the indicator to
    /// idle and spawn the cancel flow.
    pub open spec fn cancel_actions(self) -> Seq<Action> {
        if self.is_recording() {
            seq![Action::SetIndicator(AppState::Idle), Action::SpawnCancelFlow]
        } else {
            Seq::empty()
        }
    }

    /// What the start flow's result asks the host to do: nothing on
    /// success; on failure, return the indicator to idle and report the
    /// failed start, so the flag is never left set without a running
    /// capture.
    pub open spec fn start_result_actions(ok: bool) -> Seq<Action> {
        if ok {
            Seq::empty()
        } else {
            seq![
                Action::SetIndicator(AppState::Idle),
                Action::Notify(Notif::FailedToStartRecording),
            ]
        }
    }

    /// A controller with no recording in progress, as at process start.
    pub fn new() -> (c: Controller)
        ensures
            !c.is_recording(),
    {
        Controller { recording: false }
    }

    /// Read the flag.
    pub fn recording_now(&self) -> (b: bool)
        ensures
            b == self.is_recording(),
    {
        self.recording
    }

    /// The toggle entry point. Flips the flag before returning, so a
    /// rapid second trigger observes the new state, and hands back the
    /// actions the host must perform: push the indicator state, then
    /// spawn the start or stop flow.
    pub fn on_toggle(&mut self) -> (acts: Vec<Action>)
        ensures
            *final(self) == old(self).toggled(),
            final(self).is_recording() == !old(self).is_recording(),
            acts@ == old(self).toggle_actions(),
    {
        let ghost g = *self;
        let mut acts: Vec<Action> = Vec::new();
        if self.recording {
            self.recording = false;
            acts.push(Action::SetIndicator(AppState::Transcribing));
            acts.push(Action::SpawnStopFlow);
        } else {
            self.recording = true;
            acts.push(Action::SetIndicator(AppState::Recording));
            acts.push(Action::SpawnStartFlow);
        }
        proof {
            assert(acts@ =~= g.toggle_actions());
        }
        acts
    }

    /// The cancel entry point. Safe to invoke at any time: when nothing
    /// is recording it is a no-op and asks for no gateway call at all;
    /// otherwise it clears the flag, returns the indicator to idle and
    /// spawns the cancel flow.
    pub fn on_cancel(&mut self) -> (acts: Vec<Action>)
        ensures
            *final(self) == old(self).cancelled(),
            !final(self).is_recording(),
            acts@ == old(self).cancel_actions(),
    {
        let ghost g = *self;
        let mut acts: Vec<Action> = Vec::new();
        if self.recording {
            self.recording = false;
            acts.push(Action::SetIndicator(AppState::Idle));
            acts.push(Action::SpawnCancelFlow);
        }
        proof {
            assert(acts@ =~= g.cancel_actions());
        }
        acts
    }

    /// The start flow reports whether the capture gateway accepted the
    /// start call. On failure the flag is flipped back, the indicator
    /// returned to idle and the failure reported.
    pub fn on_start_result(&mut self, ok: bool) -> (acts: Vec<Action>)
        ensures
            *final(self) == old(self).start_resolved(ok),
            ok ==> *final(self) == *old(self),
            !ok ==> !final(self).is_recording(),
            acts@ == Controller::start_result_actions(ok),
    {
        let mut acts: Vec<Action> = Vec::new();
        if !ok {
            self.recording = false;
            acts.push(Action::SetIndicator(AppState::Idle));
            acts.push(Action::Notify(Notif::FailedToStartRecording));
        }
        proof {
            assert(acts@ =~= Controller::start_result_actions(ok));
        }
        acts
    }
}

/// The controller state after `n` toggle requests.
pub closed spec fn toggled_times(c: Controller, n: nat) -> Controller
    decreases n,
{
    if n == 0 {
        c
    } else {
        toggled_times(c, (n - 1) as nat).toggled()
    }
}

/// Over any sequence of toggle requests the flag alternates strictly:
/// consecutive toggles always observe opposite flag values, so no two
/// consecutive toggles can both begin a stop flow (and none can both
/// begin a start flow).
pub proof fn lemma_toggle_alternates(c: Controller, n: nat)
    ensures
        toggled_times(c, n + 1).is_recording() == !toggled_times(c, n).is_recording(),
        toggled_times(c, n).is_recording() == (if n % 2 == 0 {
            c.is_recording()
        } else {
            !c.is_recording()
        }),
    decreases n,
{
    if n > 0 {
        lemma_toggle_alternates(c, (n - 1) as nat);
    }
}

/// A cancel request while nothing is recording is a no-op: the
/// controller state is unchanged and the host is asked to perform no
/// action, so no gateway call happens.
pub proof fn lemma_cancel_is_noop_when_idle(c: Controller)
    requires
        !c.is_recording(),
    ensures
        c.cancelled() == c,
        c.cancel_actions() == Seq::<Action>::empty(),
{
    assert(c.cancelled() == c);
}

/// Two cancel requests in a row spawn exactly one cancel flow: the
/// first request clears the flag, so the second is a no-op.
pub proof fn lemma_cancel_idempotent(c: Controller)
    ensures
        cancel_spawn_count(c.cancel_actions()) + cancel_spawn_count(c.cancelled().cancel_actions())
            == (if c.is_recording() {
            1nat
        } else {
            0nat
        }),
{
    assert(c.cancelled().cancel_actions() == Seq::<Action>::empty());
    lemma_projections_empty(None);
    assert(cancel_spawn_count(Seq::<Action>::empty()) == 0);
    if c.is_recording() {
        let acts = c.cancel_actions();
        assert(acts =~= seq![Action::SetIndicator(AppState::Idle)] + seq![
            Action::SpawnCancelFlow,
        ]);
        lemma_projections_concat(seq![Action::SetIndicator(AppState::Idle)], seq![
            Action::SpawnCancelFlow,
        ]);
        lemma_projections_singleton(Action::SetIndicator(AppState::Idle), None);
        lemma_projections_singleton(Action::SpawnCancelFlow, None);
        assert(cancel_spawn_count(acts) == 1);
    }
}

/// A failed capture start never leaves the flag set: after the start
/// flow reports failure the controller is idle again and the host is
/// told to show the idle indicator and report the failure.
pub proof fn lemma_start_failure_recovers(c: Controller)
    ensures
        !c.start_resolved(false).is_recording(),
        Controller::start_result_actions(false) == seq![
            Action::SetIndicator(AppState::Idle),
            Action::Notify(Notif::FailedToStartRecording),
        ],
{
}

} // verus!
