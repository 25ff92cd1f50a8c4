//! The last known pose of the arm, as the actuator reported it.
use crate::data_structure::{FeedbackData, LogEntry};
use vstd::prelude::*;

verus! {

/// The latest feedback, replaced whole by each new report and read whole.
#[derive(Clone, Copy, Debug, PartialEq, Eq)]
pub struct FeedbackState {
    pub latest: Option<FeedbackData>,
}

impl FeedbackState {
    /// No feedback before the first actuator cycle ends.
    pub fn new() -> (r: FeedbackState)
        ensures
            r.latest is None,
    {
        FeedbackState { latest: None }
    }

    /// Takes in a report, replacing the previous one, and returns the
    /// reception latency of the report at `now`.
    pub fn replace(&mut self, feedback: FeedbackData, now: u128) -> (r: LogEntry)
        ensures
            final(self).latest == Some(feedback),
            r.task@ == "reception latency"@,
            r.latency == if now >= feedback.timestamp {
                now - feedback.timestamp
            } else {
                0
            },
    {
        self.latest = Some(feedback);
        LogEntry::from_timestamps("reception latency".to_string(), feedback.timestamp, now)
    }

    pub fn snapshot(&self) -> (r: Option<FeedbackData>)
        ensures
            r == self.latest,
    {
        self.latest
    }
}

} // verus!
