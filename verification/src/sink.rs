//! Where progress and results are announced.

use vstd::prelude::*;

verus! {

/// The entry that an announcement is about.
#[derive(Clone, Debug, PartialEq, Eq)]
pub struct EntryInfo {
    /// Place of the entry in the manifest, counted from zero.
    pub index: usize,
    /// Path of the entry as the manifest gives it.
    pub path: String,
}

/// Receives the announcements of a run. They are for the eyes of a user or of
/// a test: nothing that a sink does changes what the run decides, and a sink
/// that ignores every call is a good sink.
pub trait ReportSink {
    /// A run over `total` entries begins.
    fn batch_start(&mut self, total: usize);

    /// The run is over.
    fn batch_end(&mut self);

    /// Work on an entry begins.
    fn entry_start(&mut self, info: &EntryInfo);

    /// Something is to be said about an entry while it is worked on.
    fn entry_info(&mut self, info: &EntryInfo, message: &str);

    /// An entry is done; `message` is its report line.
    fn entry_end(&mut self, info: &EntryInfo, message: &str);

    /// An entry has failed; `message` is its report line.
    fn entry_error(&mut self, info: &EntryInfo, message: &str);
}

/// The sink that ignores every call.
#[derive(Clone, Copy, Debug, Default)]
pub struct NullSink;

impl ReportSink for NullSink {
    fn batch_start(&mut self, total: usize) {
    }

    fn batch_end(&mut self) {
    }

    fn entry_start(&mut self, info: &EntryInfo) {
    }

    fn entry_info(&mut self, info: &EntryInfo, message: &str) {
    }

    fn entry_end(&mut self, info: &EntryInfo, message: &str) {
    }

    fn entry_error(&mut self, info: &EntryInfo, message: &str) {
    }
}

} // verus!
