//! Plans for the asynchronous flows of the recording lifecycle.
//!
//! A spawned flow performs gateway calls, then feeds each result into one
//! of the functions here. The function returns the exact ordered list of
//! [`Action`]s the flow must carry out next; the host process interprets
//! the list against the real gateways. Keeping the decisions here and the
//! I/O outside makes every branch of the failure handling checkable.

use vstd::prelude::*;
use crate::dispatcher::PasteRequest;
use crate::dispatcher::restored_clipboard;
use crate::indicator::AppState;
use crate::notifs::Notif;
use crate::transcript::TranscriptError;

verus! {

/// Error reported by the audio capture gateway, reduced to its message.
#[derive(Clone, Debug, PartialEq, Eq)]
pub struct GatewayError {
    pub message: String,
}

/// One step a flow asks the host process to perform, in order.
#[derive(Clone, Debug, PartialEq, Eq)]
pub enum Action {
    /// Push this state to the status indicator.
    SetIndicator(AppState),
    /// Spawn the asynchronous start flow.
    SpawnStartFlow,
    /// Spawn the asynchronous stop flow.
    SpawnStopFlow,
    /// Spawn the asynchronous cancel flow.
    SpawnCancelFlow,
    /// Run the transcription engine on this audio file.
    CallTranscribe(String),
    /// Best-effort deletion of this temporary audio file.
    DeleteArtifact(String),
    /// Write this text to the clipboard.
    WriteClipboard(String),
    /// Hand this paste request to the main-thread dispatcher.
    EnqueuePaste(PasteRequest),
    /// Raise this notification.
    Notify(Notif),
}

/// The notifications a plan raises, in order.
pub open spec fn notifications_of(acts: Seq<Action>) -> Seq<Notif>
    decreases acts.len(),
{
    if acts.len() == 0 {
        Seq::empty()
    } else {
        (match acts[0] {
            Action::Notify(n) => seq![n],
            _ => Seq::empty(),
        }) + notifications_of(acts.drop_first())
    }
}

/// The paste requests a plan enqueues, in order.
pub open spec fn enqueues_of(acts: Seq<Action>) -> Seq<PasteRequest>
    decreases acts.len(),
{
    if acts.len() == 0 {
        Seq::empty()
    } else {
        (match acts[0] {
            Action::EnqueuePaste(r) => seq![r],
            _ => Seq::empty(),
        }) + enqueues_of(acts.drop_first())
    }
}

/// The audio files a plan runs the transcription engine on, in order.
pub open spec fn transcribe_calls_of(acts: Seq<Action>) -> Seq<String>
    decreases acts.len(),
{
    if acts.len() == 0 {
        Seq::empty()
    } else {
        (match acts[0] {
            Action::CallTranscribe(p) => seq![p],
            _ => Seq::empty(),
        }) + transcribe_calls_of(acts.drop_first())
    }
}

/// The audio files a plan deletes, in order.
pub open spec fn deletes_of(acts: Seq<Action>) -> Seq<String>
    decreases acts.len(),
{
    if acts.len() == 0 {
        Seq::empty()
    } else {
        (match acts[0] {
            Action::DeleteArtifact(p) => seq![p],
            _ => Seq::empty(),
        }) + deletes_of(acts.drop_first())
    }
}

/// How many cancel flows a plan spawns.
pub open spec fn cancel_spawn_count(acts: Seq<Action>) -> nat
    decreases acts.len(),
{
    if acts.len() == 0 {
        0
    } else {
        (if acts[0] is SpawnCancelFlow {
            1nat
        } else {
            0nat
        }) + cancel_spawn_count(acts.drop_first())
    }
}

/// The clipboard content after the host process has carried out `acts`,
/// starting from content `cb`: only `WriteClipboard` changes it.
pub open spec fn clipboard_after(acts: Seq<Action>, cb: Option<String>) -> Option<String>
    decreases acts.len(),
{
    if acts.len() == 0 {
        cb
    } else {
        match acts.last() {
            Action::WriteClipboard(t) => Some(t),
            _ => clipboard_after(acts.drop_last(), cb),
        }
    }
}

/// The projections and the clipboard model on the empty plan.
pub proof fn lemma_projections_empty(cb: Option<String>)
    ensures
        notifications_of(Seq::<Action>::empty()) == Seq::<Notif>::empty(),
        enqueues_of(Seq::<Action>::empty()) == Seq::<PasteRequest>::empty(),
        transcribe_calls_of(Seq::<Action>::empty()) == Seq::<String>::empty(),
        deletes_of(Seq::<Action>::empty()) == Seq::<String>::empty(),
        cancel_spawn_count(Seq::<Action>::empty()) == 0,
        clipboard_after(Seq::<Action>::empty(), cb) == cb,
{
}

/// The projections and the clipboard model on a plan of one action.
pub proof fn lemma_projections_singleton(a: Action, cb: Option<String>)
    ensures
        notifications_of(seq![a]) == (match a {
            Action::Notify(n) => seq![n],
            _ => Seq::<Notif>::empty(),
        }),
        enqueues_of(seq![a]) == (match a {
            Action::EnqueuePaste(r) => seq![r],
            _ => Seq::<PasteRequest>::empty(),
        }),
        transcribe_calls_of(seq![a]) == (match a {
            Action::CallTranscribe(p) => seq![p],
            _ => Seq::<String>::empty(),
        }),
        deletes_of(seq![a]) == (match a {
            Action::DeleteArtifact(p) => seq![p],
            _ => Seq::<String>::empty(),
        }),
        cancel_spawn_count(seq![a]) == (if a is SpawnCancelFlow {
            1nat
        } else {
            0nat
        }),
        clipboard_after(seq![a], cb) == (match a {
            Action::WriteClipboard(t) => Some(t),
            _ => cb,
        }),
{
    lemma_projections_empty(cb);
    assert(seq![a].drop_first() =~= Seq::<Action>::empty());
    assert(seq![a].drop_last() =~= Seq::<Action>::empty());
    assert(seq![a][0] == a);
    assert(seq![a].last() == a);
    assert(notifications_of(seq![a]) =~= (match a {
        Action::Notify(n) => seq![n],
        _ => Seq::<Notif>::empty(),
    }));
    assert(enqueues_of(seq![a]) =~= (match a {
        Action::EnqueuePaste(r) => seq![r],
        _ => Seq::<PasteRequest>::empty(),
    }));
    assert(transcribe_calls_of(seq![a]) =~= (match a {
        Action::CallTranscribe(p) => seq![p],
        _ => Seq::<String>::empty(),
    }));
    assert(deletes_of(seq![a]) =~= (match a {
        Action::DeleteArtifact(p) => seq![p],
        _ => Seq::<String>::empty(),
    }));
}

/// The projections distribute over concatenation of plans.
pub proof fn lemma_projections_concat(a: Seq<Action>, b: Seq<Action>)
    ensures
        notifications_of(a + b) == notifications_of(a) + notifications_of(b),
        enqueues_of(a + b) == enqueues_of(a) + enqueues_of(b),
        transcribe_calls_of(a + b) == transcribe_calls_of(a) + transcribe_calls_of(b),
        deletes_of(a + b) == deletes_of(a) + deletes_of(b),
        cancel_spawn_count(a + b) == cancel_spawn_count(a) + cancel_spawn_count(b),
    decreases a.len(),
{
    if a.len() == 0 {
        assert(a + b =~= b);
        assert(notifications_of(a) + notifications_of(b) =~= notifications_of(b));
        assert(enqueues_of(a) + enqueues_of(b) =~= enqueues_of(b));
        assert(transcribe_calls_of(a) + transcribe_calls_of(b) =~= transcribe_calls_of(b));
        assert(deletes_of(a) + deletes_of(b) =~= deletes_of(b));
    } else {
        lemma_projections_concat(a.drop_first(), b);
        assert((a + b)[0] == a[0]);
        assert((a + b).drop_first() =~= a.drop_first() + b);
        assert(notifications_of(a + b) =~= notifications_of(a) + notifications_of(b));
        assert(enqueues_of(a + b) =~= enqueues_of(a) + enqueues_of(b));
        assert(transcribe_calls_of(a + b) =~= transcribe_calls_of(a) + transcribe_calls_of(b));
        assert(deletes_of(a + b) =~= deletes_of(a) + deletes_of(b));
    }
}

/// The clipboard model composes over concatenation of plans.
pub proof fn lemma_clipboard_after_concat(a: Seq<Action>, b: Seq<Action>, cb: Option<String>)
    ensures
        clipboard_after(a + b, cb) == clipboard_after(b, clipboard_after(a, cb)),
    decreases b.len(),
{
    if b.len() == 0 {
        assert(a + b =~= a);
    } else {
        lemma_clipboard_after_concat(a, b.drop_last(), cb);
        assert((a + b).last() == b.last());
        assert((a + b).drop_last() =~= a + b.drop_last());
    }
}

/// What the stop flow does with the capture gateway's stop result: on
/// success the transcription engine is run on the returned file; on
/// failure the flow raises the failed-to-stop notification and returns
/// the indicator to idle without ever invoking the engine.
pub open spec fn stop_result_actions(r: Result<String, GatewayError>) -> Seq<Action> {
    match r {
        Ok(path) => seq![Action::CallTranscribe(path)],
        Err(_) => seq![
            Action::Notify(Notif::FailedToStopRecording),
            Action::SetIndicator(AppState::Idle),
        ],
    }
}

/// Decide what the stop flow does next, given the capture gateway's stop
/// result.
pub fn on_stop_result(r: Result<String, GatewayError>) -> (acts: Vec<Action>)
    ensures
        acts@ == stop_result_actions(r),
{
    let ghost gr = r;
    let mut acts: Vec<Action> = Vec::new();
    match r {
        Ok(path) => {
            acts.push(Action::CallTranscribe(path));
            proof {
                assert(acts@ =~= stop_result_actions(gr));
            }
        },
        Err(_) => {
            acts.push(Action::Notify(Notif::FailedToStopRecording));
            acts.push(Action::SetIndicator(AppState::Idle));
            proof {
                assert(acts@ =~= stop_result_actions(gr));
            }
        },
    }
    acts
}

/// What the stop flow does once the transcription engine has finished,
/// for the audio file `path`. The file is deleted whatever the outcome.
/// On success the transcript goes to the clipboard, a paste request is
/// enqueued when auto-paste is on, and the ready notification is raised
/// unless the flow runs silently. On failure the transcription-failed
/// notification is raised. Every branch ends by returning the indicator
/// to idle.
pub open spec fn transcribe_result_actions(
    path: String,
    r: Result<String, TranscriptError>,
    original: Option<String>,
    auto_paste: bool,
    silent: bool,
) -> Seq<Action> {
    match r {
        Ok(text) => seq![Action::DeleteArtifact(path), Action::WriteClipboard(text)] + (
        if auto_paste {
            seq![Action::EnqueuePaste(PasteRequest { original })]
        } else {
            Seq::empty()
        }) + (if !silent {
            seq![Action::Notify(Notif::TranscriptionReady(text))]
        } else {
            Seq::empty()
        }) + seq![Action::SetIndicator(AppState::Idle)],
        Err(_) => seq![
            Action::DeleteArtifact(path),
            Action::Notify(Notif::TranscriptionFailed),
            Action::SetIndicator(AppState::Idle),
        ],
    }
}

/// Decide what the stop flow does after the transcription engine's
/// result for the audio file `path` came in. `original` is the clipboard
/// snapshot taken before the flow started.
pub fn on_transcribe_result(
    path: String,
    r: Result<String, TranscriptError>,
    original: Option<String>,
    auto_paste: bool,
    silent: bool,
) -> (acts: Vec<Action>)
    ensures
        acts@ == transcribe_result_actions(path, r, original, auto_paste, silent),
{
    let ghost gpath = path;
    let ghost gr = r;
    let ghost goriginal = original;
    let mut acts: Vec<Action> = Vec::new();
    match r {
        Ok(text) => {
            acts.push(Action::DeleteArtifact(path));
            acts.push(Action::WriteClipboard(text.clone()));
            if auto_paste {
                acts.push(Action::EnqueuePaste(PasteRequest { original }));
            }
            if !silent {
                acts.push(Action::Notify(Notif::TranscriptionReady(text)));
            }
            acts.push(Action::SetIndicator(AppState::Idle));
            proof {
                assert(acts@ =~= transcribe_result_actions(
                    gpath,
                    gr,
                    goriginal,
                    auto_paste,
                    silent,
                ));
            }
        },
        Err(_) => {
            acts.push(Action::DeleteArtifact(path));
            acts.push(Action::Notify(Notif::TranscriptionFailed));
            acts.push(Action::SetIndicator(AppState::Idle));
            proof {
                assert(acts@ =~= transcribe_result_actions(
                    gpath,
                    gr,
                    goriginal,
                    auto_paste,
                    silent,
                ));
            }
        },
    }
    acts
}

/// What the cancel flow does with the capture gateway's stop result: on
/// success the audio file is discarded and the user-cancelled
/// notification raised; on failure the failed-to-stop notification is
/// raised. The indicator was already returned to idle by the cancel
/// handler itself.
pub open spec fn cancel_stop_actions(r: Result<String, GatewayError>) -> Seq<Action> {
    match r {
        Ok(path) => seq![
            Action::DeleteArtifact(path),
            Action::Notify(Notif::UserCancelledRecording),
        ],
        Err(_) => seq![Action::Notify(Notif::FailedToStopRecording)],
    }
}

/// Decide what the cancel flow does next, given the capture gateway's
/// stop result.
pub fn on_cancel_stop_result(r: Result<String, GatewayError>) -> (acts: Vec<Action>)
    ensures
        acts@ == cancel_stop_actions(r),
{
    let ghost gr = r;
    let mut acts: Vec<Action> = Vec::new();
    match r {
        Ok(path) => {
            acts.push(Action::DeleteArtifact(path));
            acts.push(Action::Notify(Notif::UserCancelledRecording));
            proof {
                assert(acts@ =~= cancel_stop_actions(gr));
            }
        },
        Err(_) => {
            acts.push(Action::Notify(Notif::FailedToStopRecording));
            proof {
                assert(acts@ =~= cancel_stop_actions(gr));
            }
        },
    }
    acts
}

/// When the capture gateway fails to stop, the stop flow raises exactly
/// the failed-to-stop notification, never invokes the transcription
/// engine, and its plan ends with the idle indicator.
pub proof fn lemma_stop_failure_plan(e: GatewayError)
    ensures
        ({
            let acts = stop_result_actions(Err(e));
            &&& notifications_of(acts) == seq![Notif::FailedToStopRecording]
            &&& transcribe_calls_of(acts) == Seq::<String>::empty()
            &&& enqueues_of(acts) == Seq::<PasteRequest>::empty()
            &&& acts.last() == Action::SetIndicator(AppState::Idle)
        }),
{
    let note = Action::Notify(Notif::FailedToStopRecording);
    let idle = Action::SetIndicator(AppState::Idle);
    let acts = stop_result_actions(Err(e));
    assert(acts =~= seq![note] + seq![idle]);
    lemma_projections_concat(seq![note], seq![idle]);
    lemma_projections_singleton(note, None);
    lemma_projections_singleton(idle, None);
    assert(notifications_of(acts) =~= seq![Notif::FailedToStopRecording]);
    assert(transcribe_calls_of(acts) =~= Seq::<String>::empty());
    assert(enqueues_of(acts) =~= Seq::<PasteRequest>::empty());
}

/// When the capture stopped but the transcription engine failed, the
/// stop flow raises exactly the transcription-failed notification, still
/// deletes the audio artifact, pastes nothing, and its plan ends with
/// the idle indicator.
pub proof fn lemma_transcribe_failure_plan(
    path: String,
    e: TranscriptError,
    original: Option<String>,
    auto_paste: bool,
    silent: bool,
)
    ensures
        ({
            let acts = transcribe_result_actions(path, Err(e), original, auto_paste, silent);
            &&& notifications_of(acts) == seq![Notif::TranscriptionFailed]
            &&& deletes_of(acts) == seq![path]
            &&& enqueues_of(acts) == Seq::<PasteRequest>::empty()
            &&& acts.last() == Action::SetIndicator(AppState::Idle)
        }),
{
    let del = Action::DeleteArtifact(path);
    let note = Action::Notify(Notif::TranscriptionFailed);
    let idle = Action::SetIndicator(AppState::Idle);
    let acts = transcribe_result_actions(path, Err(e), original, auto_paste, silent);
    assert(acts =~= (seq![del] + seq![note]) + seq![idle]);
    lemma_projections_concat(seq![del] + seq![note], seq![idle]);
    lemma_projections_concat(seq![del], seq![note]);
    lemma_projections_singleton(del, None);
    lemma_projections_singleton(note, None);
    lemma_projections_singleton(idle, None);
    assert(notifications_of(acts) =~= seq![Notif::TranscriptionFailed]);
    assert(deletes_of(acts) =~= seq![path]);
    assert(enqueues_of(acts) =~= Seq::<PasteRequest>::empty());
}

/// The plan of a completed stop flow, successful or not, ends by
/// pushing the idle indicator: the last action of every branch is
/// `SetIndicator(Idle)`.
pub proof fn lemma_stop_flow_ends_idle(
    path: String,
    r: Result<String, TranscriptError>,
    original: Option<String>,
    auto_paste: bool,
    silent: bool,
)
    ensures
        transcribe_result_actions(path, r, original, auto_paste, silent).last()
            == Action::SetIndicator(AppState::Idle),
{
    let acts = transcribe_result_actions(path, r, original, auto_paste, silent);
    match r {
        Ok(text) => {
            assert(acts.last() == Action::SetIndicator(AppState::Idle));
        },
        Err(_) => {
            assert(acts.last() == Action::SetIndicator(AppState::Idle));
        },
    }
}

/// On a successful transcription the plan deletes the artifact, puts the
/// transcript on the clipboard, enqueues exactly one paste request
/// (carrying the pre-transcript snapshot) exactly when auto-paste is on,
/// notifies exactly when not silent, and ends with the idle indicator.
pub proof fn lemma_success_plan(
    path: String,
    text: String,
    original: Option<String>,
    auto_paste: bool,
    silent: bool,
    cb0: Option<String>,
)
    ensures
        ({
            let acts = transcribe_result_actions(path, Ok(text), original, auto_paste, silent);
            &&& deletes_of(acts) == seq![path]
            &&& clipboard_after(acts, cb0) == Some(text)
            &&& enqueues_of(acts) == (if auto_paste {
                seq![PasteRequest { original }]
            } else {
                Seq::<PasteRequest>::empty()
            })
            &&& notifications_of(acts) == (if silent {
                Seq::<Notif>::empty()
            } else {
                seq![Notif::TranscriptionReady(text)]
            })
            &&& transcribe_calls_of(acts) == Seq::<String>::empty()
            &&& acts.last() == Action::SetIndicator(AppState::Idle)
        }),
{
    let base = seq![Action::DeleteArtifact(path), Action::WriteClipboard(text)];
    let paste: Seq<Action> = if auto_paste {
        seq![Action::EnqueuePaste(PasteRequest { original })]
    } else {
        Seq::empty()
    };
    let note: Seq<Action> = if !silent {
        seq![Action::Notify(Notif::TranscriptionReady(text))]
    } else {
        Seq::empty()
    };
    let idle = seq![Action::SetIndicator(AppState::Idle)];
    let acts = transcribe_result_actions(path, Ok(text), original, auto_paste, silent);
    assert(acts == base + paste + note + idle);

    lemma_projection_pieces(path, text, original, auto_paste, silent);

    lemma_clipboard_after_concat(base + paste + note, idle, cb0);
    lemma_clipboard_after_concat(base + paste, note, cb0);
    lemma_clipboard_after_concat(base, paste, cb0);
    lemma_clipboard_after_concat(seq![Action::DeleteArtifact(path)], seq![
        Action::WriteClipboard(text),
    ], cb0);
    assert(base =~= seq![Action::DeleteArtifact(path)] + seq![Action::WriteClipboard(text)]);
    lemma_projections_singleton(Action::DeleteArtifact(path), cb0);
    lemma_projections_singleton(Action::WriteClipboard(text), cb0);
    assert(clipboard_after(base, cb0) == Some(text));
    if auto_paste {
        lemma_projections_singleton(Action::EnqueuePaste(PasteRequest { original }), Some(text));
        assert(clipboard_after(paste, Some(text)) == Some(text));
    } else {
        lemma_projections_empty(Some(text));
        assert(clipboard_after(paste, Some(text)) == Some(text));
    }
    if !silent {
        lemma_projections_singleton(
            Action::Notify(Notif::TranscriptionReady(text)),
            Some(text),
        );
        assert(clipboard_after(note, Some(text)) == Some(text));
    } else {
        lemma_projections_empty(Some(text));
        assert(clipboard_after(note, Some(text)) == Some(text));
    }
    lemma_projections_singleton(Action::SetIndicator(AppState::Idle), Some(text));
    assert(clipboard_after(idle, Some(text)) == Some(text));
}

/// Shared unfolding for `lemma_success_plan`: the projections of the
/// four pieces of the success plan and of their concatenation.
proof fn lemma_projection_pieces(
    path: String,
    text: String,
    original: Option<String>,
    auto_paste: bool,
    silent: bool,
)
    ensures
        ({
            let acts = transcribe_result_actions(path, Ok(text), original, auto_paste, silent);
            &&& deletes_of(acts) == seq![path]
            &&& enqueues_of(acts) == (if auto_paste {
                seq![PasteRequest { original }]
            } else {
                Seq::<PasteRequest>::empty()
            })
            &&& notifications_of(acts) == (if silent {
                Seq::<Notif>::empty()
            } else {
                seq![Notif::TranscriptionReady(text)]
            })
            &&& transcribe_calls_of(acts) == Seq::<String>::empty()
            &&& acts.last() == Action::SetIndicator(AppState::Idle)
        }),
{
    let base = seq![Action::DeleteArtifact(path), Action::WriteClipboard(text)];
    let paste: Seq<Action> = if auto_paste {
        seq![Action::EnqueuePaste(PasteRequest { original })]
    } else {
        Seq::empty()
    };
    let note: Seq<Action> = if !silent {
        seq![Action::Notify(Notif::TranscriptionReady(text))]
    } else {
        Seq::empty()
    };
    let idle = seq![Action::SetIndicator(AppState::Idle)];
    let acts = transcribe_result_actions(path, Ok(text), original, auto_paste, silent);
    assert(acts == base + paste + note + idle);

    lemma_projections_concat(base + paste + note, idle);
    lemma_projections_concat(base + paste, note);
    lemma_projections_concat(base, paste);
    lemma_projections_concat(seq![Action::DeleteArtifact(path)], seq![
        Action::WriteClipboard(text),
    ]);
    assert(base =~= seq![Action::DeleteArtifact(path)] + seq![Action::WriteClipboard(text)]);
    lemma_projections_singleton(Action::DeleteArtifact(path), None);
    lemma_projections_singleton(Action::WriteClipboard(text), None);
    if auto_paste {
        lemma_projections_singleton(Action::EnqueuePaste(PasteRequest { original }), None);
    } else {
        lemma_projections_empty(None);
    }
    if !silent {
        lemma_projections_singleton(Action::Notify(Notif::TranscriptionReady(text)), None);
    } else {
        lemma_projections_empty(None);
    }
    lemma_projections_singleton(Action::SetIndicator(AppState::Idle), None);
    assert(deletes_of(acts) =~= seq![path]);
    assert(enqueues_of(acts) =~= (if auto_paste {
        seq![PasteRequest { original }]
    } else {
        Seq::<PasteRequest>::empty()
    }));
    assert(notifications_of(acts) =~= (if silent {
        Seq::<Notif>::empty()
    } else {
        seq![Notif::TranscriptionReady(text)]
    }));
    assert(transcribe_calls_of(acts) =~= Seq::<String>::empty());
    assert(acts.len() == base.len() + paste.len() + note.len() + 1);
    assert(acts.last() == idle[0]);
}

/// With auto-paste enabled the clipboard holds the transcript only
/// transiently: right after the stop flow the clipboard is the
/// transcript, and after the main-thread consumer handles the one
/// enqueued paste request the clipboard is the pre-transcript snapshot
/// again, or still the transcript when no snapshot existed.
pub proof fn lemma_autopaste_round_trip(
    path: String,
    text: String,
    original: Option<String>,
    silent: bool,
    cb0: Option<String>,
)
    ensures
        ({
            let acts = transcribe_result_actions(path, Ok(text), original, true, silent);
            let cb_after_flow = clipboard_after(acts, cb0);
            &&& cb_after_flow == Some(text)
            &&& enqueues_of(acts) == seq![PasteRequest { original }]
            &&& restored_clipboard(cb_after_flow, PasteRequest { original }) == (
            match original {
                Some(snapshot) => Some(snapshot),
                None => Some(text),
            })
        }),
{
    lemma_success_plan(path, text, original, true, silent, cb0);
}

} // verus!
