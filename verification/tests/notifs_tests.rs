use lala_lib::notifs::{payload_for, preview, Notif, PREVIEW_LEN};

#[test]
fn preview_keeps_short_text() {
    assert_eq!(preview("hello"), String::from("hello"));
    assert_eq!(preview(""), String::from(""));
}

#[test]
fn preview_cuts_long_text_to_limit() {
    let long: String = "x".repeat(80);
    let cut = preview(&long);
    assert_eq!(cut.chars().count(), PREVIEW_LEN);
    assert_eq!(cut, "x".repeat(PREVIEW_LEN));
}

#[test]
fn preview_counts_characters_not_bytes() {
    let long: String = "é".repeat(60);
    let cut = preview(&long);
    assert_eq!(cut.chars().count(), PREVIEW_LEN);
}

#[test]
fn failed_start_payload() {
    let p = payload_for(&Notif::FailedToStartRecording);
    assert_eq!(p.title, "❌");
    assert_eq!(p.body, "Failed to start recording. Please try again.");
}

#[test]
fn failed_stop_payload() {
    let p = payload_for(&Notif::FailedToStopRecording);
    assert_eq!(p.title, "❌");
    assert_eq!(p.body, "Failed to stop recording. Please try again.");
}

#[test]
fn cancelled_payload() {
    let p = payload_for(&Notif::UserCancelledRecording);
    assert_eq!(p.title, "🔇 Recording cancelled");
    assert_eq!(p.body, "   Audio discarded");
}

#[test]
fn transcription_failed_payload() {
    let p = payload_for(&Notif::TranscriptionFailed);
    assert_eq!(p.title, "❌");
    assert_eq!(p.body, "Transcription failed. Please try again.");
}

#[test]
fn transcription_ready_payload_shows_preview() {
    let p = payload_for(&Notif::TranscriptionReady(String::from("short text")));
    assert_eq!(p.title, "🎞️ Transcription ready");
    assert_eq!(p.body, "short text");

    let long: String = "y".repeat(75);
    let p = payload_for(&Notif::TranscriptionReady(long));
    assert_eq!(p.body, "y".repeat(PREVIEW_LEN));
}
