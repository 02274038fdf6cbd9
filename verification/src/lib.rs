//! Recording lifecycle library for a push-to-transcribe utility.
//!
//! The library owns the logic of the recording lifecycle: the single
//! "is recording" flag, the decisions taken on toggle and cancel requests,
//! the plans the asynchronous stop/cancel flows must carry out, the
//! cleanup of raw transcription engine output, the notification payloads,
//! and the queue that hands paste work to the main thread. The host
//! process performs the actual I/O (audio capture, the transcription
//! engine, clipboard, notifications, tray icon, keystrokes) and feeds
//! the results back into these functions.

pub mod controller;
pub mod dispatcher;
pub mod indicator;
pub mod logconfig;
pub mod notifs;
pub mod pipeline;
pub mod text;
pub mod transcript;
