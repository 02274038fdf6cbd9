use lala_lib::controller::Controller;
use lala_lib::dispatcher::{paste_key_sequence, restore_target, Dispatcher, KeyStep, PasteRequest};
use lala_lib::indicator::AppState;
use lala_lib::notifs::Notif;
use lala_lib::pipeline::{
    on_cancel_stop_result, on_stop_result, on_transcribe_result, Action, GatewayError,
};
use lala_lib::transcript::{classify_engine_output, TranscriptError};

fn gateway_err(msg: &str) -> GatewayError {
    GatewayError {
        message: String::from(msg),
    }
}

#[test]
fn toggle_alternates_start_stop() {
    let mut c = Controller::new();
    assert!(!c.recording_now());

    let acts = c.on_toggle();
    assert_eq!(
        acts,
        vec![
            Action::SetIndicator(AppState::Recording),
            Action::SpawnStartFlow
        ]
    );
    assert!(c.recording_now());

    let acts = c.on_toggle();
    assert_eq!(
        acts,
        vec![
            Action::SetIndicator(AppState::Transcribing),
            Action::SpawnStopFlow
        ]
    );
    assert!(!c.recording_now());

    let acts = c.on_toggle();
    assert_eq!(
        acts,
        vec![
            Action::SetIndicator(AppState::Recording),
            Action::SpawnStartFlow
        ]
    );
    assert!(c.recording_now());
}

#[test]
fn cancel_when_idle_is_noop() {
    let mut c = Controller::new();
    let acts = c.on_cancel();
    assert!(acts.is_empty());
    assert!(!c.recording_now());
}

#[test]
fn cancel_twice_spawns_one_discard() {
    let mut c = Controller::new();
    c.on_toggle();
    assert!(c.recording_now());

    let first = c.on_cancel();
    assert_eq!(
        first,
        vec![Action::SetIndicator(AppState::Idle), Action::SpawnCancelFlow]
    );
    assert!(!c.recording_now());

    let second = c.on_cancel();
    assert!(second.is_empty());
    assert!(!c.recording_now());
}

#[test]
fn start_failure_resets_flag_and_indicator() {
    let mut c = Controller::new();
    c.on_toggle();
    assert!(c.recording_now());

    let acts = c.on_start_result(false);
    assert_eq!(
        acts,
        vec![
            Action::SetIndicator(AppState::Idle),
            Action::Notify(Notif::FailedToStartRecording)
        ]
    );
    assert!(!c.recording_now());
}

#[test]
fn start_success_keeps_flag() {
    let mut c = Controller::new();
    c.on_toggle();
    let acts = c.on_start_result(true);
    assert!(acts.is_empty());
    assert!(c.recording_now());
}

#[test]
fn stop_failure_notifies_and_skips_engine() {
    let acts = on_stop_result(Err(gateway_err("stop recording failed")));
    assert_eq!(
        acts,
        vec![
            Action::Notify(Notif::FailedToStopRecording),
            Action::SetIndicator(AppState::Idle)
        ]
    );
    assert!(!acts
        .iter()
        .any(|a| matches!(a, Action::CallTranscribe(_))));
}

#[test]
fn stop_success_runs_engine_on_returned_path() {
    let acts = on_stop_result(Ok(String::from("/tmp/a.wav")));
    assert_eq!(acts, vec![Action::CallTranscribe(String::from("/tmp/a.wav"))]);
}

#[test]
fn transcribe_failure_still_deletes_artifact() {
    let acts = on_transcribe_result(
        String::from("/tmp/a.wav"),
        Err(TranscriptError::EngineFailed {
            stderr: String::from("boom"),
        }),
        Some(String::from("before")),
        true,
        false,
    );
    assert_eq!(
        acts,
        vec![
            Action::DeleteArtifact(String::from("/tmp/a.wav")),
            Action::Notify(Notif::TranscriptionFailed),
            Action::SetIndicator(AppState::Idle)
        ]
    );
}

#[test]
fn success_plan_with_autopaste_in_order() {
    let acts = on_transcribe_result(
        String::from("/tmp/a.wav"),
        Ok(String::from("hello world")),
        Some(String::from("old clip")),
        true,
        false,
    );
    assert_eq!(
        acts,
        vec![
            Action::DeleteArtifact(String::from("/tmp/a.wav")),
            Action::WriteClipboard(String::from("hello world")),
            Action::EnqueuePaste(PasteRequest {
                original: Some(String::from("old clip")),
            }),
            Action::Notify(Notif::TranscriptionReady(String::from("hello world"))),
            Action::SetIndicator(AppState::Idle)
        ]
    );
}

#[test]
fn success_plan_silent_without_autopaste() {
    let acts = on_transcribe_result(
        String::from("/tmp/a.wav"),
        Ok(String::from("hi")),
        None,
        false,
        true,
    );
    assert_eq!(
        acts,
        vec![
            Action::DeleteArtifact(String::from("/tmp/a.wav")),
            Action::WriteClipboard(String::from("hi")),
            Action::SetIndicator(AppState::Idle)
        ]
    );
}

// The clipboard is only transiently the transcript: interpreting the
// success plan over a mock clipboard, then running the paste/restore
// cycle, brings the pre-transcript snapshot back.
#[test]
fn autopaste_restores_original_clipboard() {
    let mut clipboard: Option<String> = Some(String::from("old clip"));
    let mut queue = Dispatcher::new();

    let acts = on_transcribe_result(
        String::from("/tmp/a.wav"),
        Ok(String::from("the transcript")),
        clipboard.clone(),
        true,
        false,
    );
    for act in acts {
        match act {
            Action::WriteClipboard(t) => clipboard = Some(t),
            Action::EnqueuePaste(req) => queue.enqueue(req),
            _ => {}
        }
    }
    assert_eq!(clipboard, Some(String::from("the transcript")));

    let req = queue.take_next().expect("one paste request is queued");
    assert_eq!(queue.take_next(), None);
    if let Some(snapshot) = restore_target(req) {
        clipboard = Some(snapshot);
    }
    assert_eq!(clipboard, Some(String::from("old clip")));
}

#[test]
fn autopaste_without_snapshot_leaves_clipboard() {
    let req = PasteRequest { original: None };
    assert_eq!(restore_target(req), None);
}

#[test]
fn cancel_flow_discards_artifact_on_success() {
    let acts = on_cancel_stop_result(Ok(String::from("/tmp/a.wav")));
    assert_eq!(
        acts,
        vec![
            Action::DeleteArtifact(String::from("/tmp/a.wav")),
            Action::Notify(Notif::UserCancelledRecording)
        ]
    );
}

#[test]
fn cancel_flow_reports_stop_failure() {
    let acts = on_cancel_stop_result(Err(gateway_err("no recording")));
    assert_eq!(acts, vec![Action::Notify(Notif::FailedToStopRecording)]);
}

#[test]
fn dispatcher_is_first_in_first_out() {
    let mut d = Dispatcher::new();
    assert_eq!(d.len(), 0);
    assert_eq!(d.take_next(), None);

    d.enqueue(PasteRequest {
        original: Some(String::from("one")),
    });
    d.enqueue(PasteRequest { original: None });
    assert_eq!(d.len(), 2);

    assert_eq!(
        d.take_next(),
        Some(PasteRequest {
            original: Some(String::from("one")),
        })
    );
    assert_eq!(d.take_next(), Some(PasteRequest { original: None }));
    assert_eq!(d.take_next(), None);
}

// One whole session: start, stop, engine output cleaned, transcript
// delivered, paste request consumed, snapshot restored.
#[test]
fn full_session_delivers_and_restores() {
    let mut c = Controller::new();
    let mut clipboard: Option<String> = Some(String::from("before"));
    let mut queue = Dispatcher::new();

    let acts = c.on_toggle();
    assert_eq!(acts[0], Action::SetIndicator(AppState::Recording));
    assert!(c.on_start_result(true).is_empty());
    assert!(c.recording_now());

    let acts = c.on_toggle();
    assert_eq!(acts[0], Action::SetIndicator(AppState::Transcribing));
    assert!(!c.recording_now());

    let original = clipboard.clone();
    let stop_acts = on_stop_result(Ok(String::from("/tmp/a.wav")));
    assert_eq!(
        stop_acts,
        vec![Action::CallTranscribe(String::from("/tmp/a.wav"))]
    );

    let engine = classify_engine_output(
        true,
        String::from("[00:00:00.000 --> 00:00:02.000]  hello world"),
        String::new(),
    );
    let acts = on_transcribe_result(String::from("/tmp/a.wav"), engine, original, true, false);

    let mut deleted: Vec<String> = Vec::new();
    let mut notified: Vec<Notif> = Vec::new();
    let mut last_indicator = None;
    for act in acts {
        match act {
            Action::DeleteArtifact(p) => deleted.push(p),
            Action::WriteClipboard(t) => clipboard = Some(t),
            Action::EnqueuePaste(req) => queue.enqueue(req),
            Action::Notify(n) => notified.push(n),
            Action::SetIndicator(s) => last_indicator = Some(s),
            other => panic!("unexpected action {other:?}"),
        }
    }
    assert_eq!(deleted, vec![String::from("/tmp/a.wav")]);
    assert_eq!(clipboard, Some(String::from("hello world")));
    assert_eq!(
        notified,
        vec![Notif::TranscriptionReady(String::from("hello world"))]
    );
    assert_eq!(last_indicator, Some(AppState::Idle));

    let req = queue.take_next().expect("one paste request");
    if let Some(snapshot) = restore_target(req) {
        clipboard = Some(snapshot);
    }
    assert_eq!(clipboard, Some(String::from("before")));
}

#[test]
fn paste_chord_presses_taps_releases() {
    assert_eq!(
        paste_key_sequence(),
        vec![
            KeyStep::PressModifier,
            KeyStep::TapPasteKey,
            KeyStep::ReleaseModifier
        ]
    );
}
