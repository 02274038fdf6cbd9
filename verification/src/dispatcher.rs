//! The main-thread dispatcher: a first-in-first-out queue of paste
//! requests consumed by the one thread allowed to synthesize keystrokes,
//! the key chord that consumer must play, and the clipboard-restore
//! decision it takes afterwards.

use vstd::prelude::*;

verus! {

/// One paste request, created by a completed stop-flow and consumed
/// exactly once by the main-thread consumer. It carries the clipboard
/// content that existed before the transcript overwrote it, or nothing
/// if the clipboard was empty or unreadable at that moment.
#[derive(Clone, Debug, PartialEq, Eq)]
pub struct PasteRequest {
    pub original: Option<String>,
}

/// One step of the synthesized paste chord.
#[derive(Clone, Copy, Debug, PartialEq, Eq, Structural)]
pub enum KeyStep {
    PressModifier,
    TapPasteKey,
    ReleaseModifier,
}

/// The key chord the main-thread consumer plays for one paste request:
/// press the platform paste modifier, tap the paste key, release the
/// modifier.
pub fn paste_key_sequence() -> (steps: Vec<KeyStep>)
    ensures
        steps@ == seq![KeyStep::PressModifier, KeyStep::TapPasteKey, KeyStep::ReleaseModifier],
{
    let mut steps: Vec<KeyStep> = Vec::new();
    steps.push(KeyStep::PressModifier);
    steps.push(KeyStep::TapPasteKey);
    steps.push(KeyStep::ReleaseModifier);
    proof {
        assert(steps@ =~= seq![
            KeyStep::PressModifier,
            KeyStep::TapPasteKey,
            KeyStep::ReleaseModifier,
        ]);
    }
    steps
}

/// The clipboard content after the consumer finishes one paste request:
/// the saved snapshot is written back, and a request without a snapshot
/// leaves the clipboard as it is.
pub open spec fn restored_clipboard(current: Option<String>, req: PasteRequest) -> Option<String> {
    match req.original {
        Some(snapshot) => Some(snapshot),
        None => current,
    }
}

/// What the consumer must write to the clipboard after the paste chord:
/// the saved snapshot, or nothing when no snapshot was captured.
pub fn restore_target(req: PasteRequest) -> (r: Option<String>)
    ensures
        r == req.original,
        forall|current: Option<String>| r is None ==> #[trigger] restored_clipboard(current, req)
            == current,
        forall|current: Option<String>| r matches Some(snapshot) ==> #[trigger] restored_clipboard(
            current,
            req,
        ) == Some(snapshot),
{
    req.original
}

/// The queue between the stop-flow tasks and the main-thread consumer.
/// Producers append at the back; the single consumer takes from the
/// front, so requests are pasted in the order the flows completed.
pub struct Dispatcher {
    queue: Vec<PasteRequest>,
}

impl View for Dispatcher {
    type V = Seq<PasteRequest>;

    closed spec fn view(&self) -> Seq<PasteRequest> {
        self.queue@
    }
}

impl Dispatcher {
    /// An empty queue.
    pub fn new() -> (d: Dispatcher)
        ensures
            d@ == Seq::<PasteRequest>::empty(),
    {
        Dispatcher { queue: Vec::new() }
    }

    /// Number of requests waiting.
    pub fn len(&self) -> (n: usize)
        ensures
            n == self@.len(),
    {
        self.queue.len()
    }

    /// A stop-flow hands its paste request over: it is appended at the
    /// back of the queue, exactly once per completed flow.
    pub fn enqueue(&mut self, req: PasteRequest)
        ensures
            final(self)@ == old(self)@.push(req),
    {
        self.queue.push(req);
    }

    /// The consumer takes the oldest waiting request, or nothing when
    /// the queue is empty.
    pub fn take_next(&mut self) -> (r: Option<PasteRequest>)
        ensures
            old(self)@.len() == 0 ==> r is None && final(self)@ == old(self)@,
            old(self)@.len() > 0 ==> r == Some(old(self)@[0]) && final(self)@ == old(
                self,
            )@.drop_first(),
    {
        if self.queue.len() == 0 {
            None
        } else {
            let req = self.queue.remove(0);
            proof {
                assert(self@ =~= old(self)@.drop_first());
            }
            Some(req)
        }
    }
}

} // verus!
