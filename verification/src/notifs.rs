//! User-visible notifications: the notification kinds the lifecycle can
//! raise and the title/body payload shown for each of them.

use vstd::prelude::*;

verus! {

/// The character length at which a transcript is cut off when it is shown
/// inside a notification.
pub const PREVIEW_LEN: usize = 50;

/// A notification the lifecycle controller can raise.
#[derive(Clone, Debug, PartialEq, Eq)]
pub enum Notif {
    FailedToStartRecording,
    FailedToStopRecording,
    TranscriptionReady(String),
    TranscriptionFailed,
    UserCancelledRecording,
}

/// Title and body of a notification as handed to the notification sink.
#[derive(Clone, Debug, PartialEq, Eq)]
pub struct Payload {
    pub title: &'static str,
    pub body: String,
}

/// The transcript as shown in a notification body: the full text when it
/// is short, otherwise its first `PREVIEW_LEN` characters.
pub open spec fn preview_spec(s: Seq<char>) -> Seq<char> {
    if s.len() <= PREVIEW_LEN {
        s
    } else {
        s.subrange(0, PREVIEW_LEN as int)
    }
}

/// Cut a transcript down to the length shown in a notification.
pub fn preview(s: &str) -> (r: String)
    ensures
        r@ == preview_spec(s@),
{
    let n = s.unicode_len();
    if n <= PREVIEW_LEN {
        String::from_str(s)
    } else {
        String::from_str(s.substring_char(0, PREVIEW_LEN))
    }
}

/// The payload shown for each notification kind.
pub fn payload_for(notif: &Notif) -> (p: Payload)
    ensures
        notif is FailedToStartRecording ==> p.title@ == "❌"@ && p.body@
            == "Failed to start recording. Please try again."@,
        notif is FailedToStopRecording ==> p.title@ == "❌"@ && p.body@
            == "Failed to stop recording. Please try again."@,
        notif is UserCancelledRecording ==> p.title@ == "🔇 Recording cancelled"@ && p.body@
            == "   Audio discarded"@,
        notif matches Notif::TranscriptionReady(text) ==> p.title@ == "🎞️ Transcription ready"@
            && p.body@ == preview_spec(text@),
        notif is TranscriptionFailed ==> p.title@ == "❌"@ && p.body@
            == "Transcription failed. Please try again."@,
{
    match notif {
        Notif::FailedToStartRecording => Payload {
            title: "❌",
            body: String::from_str("Failed to start recording. Please try again."),
        },
        Notif::FailedToStopRecording => Payload {
            title: "❌",
            body: String::from_str("Failed to stop recording. Please try again."),
        },
        Notif::UserCancelledRecording => Payload {
            title: "🔇 Recording cancelled",
            body: String::from_str("   Audio discarded"),
        },
        Notif::TranscriptionReady(text) => Payload {
            title: "🎞️ Transcription ready",
            body: preview(text.as_str()),
        },
        Notif::TranscriptionFailed => Payload {
            title: "❌",
            body: String::from_str("Transcription failed. Please try again."),
        },
    }
}

} // verus!
