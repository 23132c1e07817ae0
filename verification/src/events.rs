//! The events that a lens emits while it runs.
//!
//! The vocabulary is closed: a run starts, reports progress, emits data under
//! the keys of its output contract, may mark checkpoints, and ends by
//! completing or failing. Every event names its lens and carries the time at
//! which it was made.

use vstd::prelude::*;
use crate::clock::now;

verus! {

/// The bit pattern of the single-precision number 100.
pub const HUNDRED_PERCENT: u32 = 0x42c8_0000;

/// The bit pattern of positive infinity; every greater magnitude is not a
/// number.
pub const INFINITY_BITS: u32 = 0x7f80_0000;

/// The bit pattern of negative zero: the sign bit alone.
pub const SIGN_BIT: u32 = 0x8000_0000;

/// Whether a single-precision bit pattern is not a number: its magnitude,
/// the pattern without the sign bit, lies above that of infinity.
pub open spec fn is_nan_bits(bits: u32) -> bool {
    bits % SIGN_BIT > INFINITY_BITS
}

/// Whether a bit pattern stands for a number below zero: the sign bit is set
/// and the magnitude is neither zero nor beyond infinity.
pub open spec fn is_below_zero(bits: u32) -> bool {
    bits > SIGN_BIT && !is_nan_bits(bits)
}

/// Whether a bit pattern stands for a number above one hundred. Among the
/// patterns without the sign bit, the numbers grow with the patterns, up to
/// infinity.
pub open spec fn is_above_hundred(bits: u32) -> bool {
    HUNDRED_PERCENT < bits <= INFINITY_BITS
}

/// Whether a bit pattern stands for a number from zero to one hundred, zero
/// of either sign included.
pub open spec fn is_percent(bits: u32) -> bool {
    bits <= HUNDRED_PERCENT || bits == SIGN_BIT
}

/// A percent value brought into the range from zero to one hundred: what is
/// below becomes zero, what is above becomes one hundred, and everything
/// else, what is not a number included, stays as it is.
pub open spec fn clamped_percent(bits: u32) -> u32 {
    if is_below_zero(bits) {
        0
    } else if is_above_hundred(bits) {
        HUNDRED_PERCENT
    } else {
        bits
    }
}

/// Clamping leaves every number within the range, and leaves a value within
/// the range as it is.
pub proof fn lemma_clamped_percent(bits: u32)
    ensures
        !is_nan_bits(bits) ==> is_percent(clamped_percent(bits)),
        is_percent(bits) ==> clamped_percent(bits) == bits,
        is_nan_bits(bits) ==> clamped_percent(bits) == bits,
        clamped_percent(clamped_percent(bits)) == clamped_percent(bits),
{
}

/// Bring a percent value, given as the bit pattern of a single-precision
/// number, into the range from zero to one hundred.
pub fn clamp_percent(bits: u32) -> (r: u32)
    ensures
        r == clamped_percent(bits),
        !is_nan_bits(bits) ==> is_percent(r),
{
    let magnitude = bits % SIGN_BIT;
    if magnitude > INFINITY_BITS {
        bits
    } else if bits > SIGN_BIT {
        0
    } else if bits > HUNDRED_PERCENT && bits <= INFINITY_BITS {
        HUNDRED_PERCENT
    } else {
        bits
    }
}

/// Events emitted during lens execution.
#[derive(Debug, Clone)]
pub enum LensEvent {
    /// Lens started execution.
    Started { lens: String, task: String, timestamp: std::time::SystemTime },
    /// Progress update. The percent, where there is one, is the bit pattern
    /// of a single-precision number. The constructor clamps every number
    /// into the range from 0 to 100; a pattern that is not a number is kept
    /// as it is.
    Progress { lens: String, message: String, percent: Option<u32>, timestamp: std::time::SystemTime },
    /// Data event for a lens-specific message type: the key names an output
    /// of the output contract, the value is its payload.
    Data { lens: String, key: String, value: serde_json::Value, timestamp: std::time::SystemTime },
    /// Task completed successfully.
    Completed { lens: String, duration: std::time::Duration, timestamp: std::time::SystemTime },
    /// Task failed with an error. Whether it is recoverable is a hint to the
    /// host.
    Failed { lens: String, error: String, recoverable: bool, timestamp: std::time::SystemTime },
    /// Checkpoint for user review: a phase has completed, and the host may
    /// show its data. It is informational; the run does not wait.
    Checkpoint {
        lens: String,
        phase: String,
        data: serde_json::Value,
        message: String,
        timestamp: std::time::SystemTime,
    },
}

/// What an event holds, as plain values.
pub enum LensEventView {
    Started { lens: Seq<char>, task: Seq<char>, timestamp: std::time::SystemTime },
    Progress {
        lens: Seq<char>,
        message: Seq<char>,
        percent: Option<u32>,
        timestamp: std::time::SystemTime,
    },
    Data {
        lens: Seq<char>,
        key: Seq<char>,
        value: serde_json::Value,
        timestamp: std::time::SystemTime,
    },
    Completed { lens: Seq<char>, duration: std::time::Duration, timestamp: std::time::SystemTime },
    Failed {
        lens: Seq<char>,
        error: Seq<char>,
        recoverable: bool,
        timestamp: std::time::SystemTime,
    },
    Checkpoint {
        lens: Seq<char>,
        phase: Seq<char>,
        data: serde_json::Value,
        message: Seq<char>,
        timestamp: std::time::SystemTime,
    },
}

impl View for LensEvent {
    type V = LensEventView;

    open spec fn view(&self) -> LensEventView {
        match self {
            LensEvent::Started { lens, task, timestamp } => LensEventView::Started {
                lens: lens@,
                task: task@,
                timestamp: *timestamp,
            },
            LensEvent::Progress { lens, message, percent, timestamp } => LensEventView::Progress {
                lens: lens@,
                message: message@,
                percent: *percent,
                timestamp: *timestamp,
            },
            LensEvent::Data { lens, key, value, timestamp } => LensEventView::Data {
                lens: lens@,
                key: key@,
                value: *value,
                timestamp: *timestamp,
            },
            LensEvent::Completed { lens, duration, timestamp } => LensEventView::Completed {
                lens: lens@,
                duration: *duration,
                timestamp: *timestamp,
            },
            LensEvent::Failed { lens, error, recoverable, timestamp } => LensEventView::Failed {
                lens: lens@,
                error: error@,
                recoverable: *recoverable,
                timestamp: *timestamp,
            },
            LensEvent::Checkpoint { lens, phase, data, message, timestamp } => {
                LensEventView::Checkpoint {
                    lens: lens@,
                    phase: phase@,
                    data: *data,
                    message: message@,
                    timestamp: *timestamp,
                }
            },
        }
    }
}

impl LensEvent {
    /// The id of the lens that the event is about.
    pub open spec fn lens_id(&self) -> Seq<char> {
        match self {
            LensEvent::Started { lens, .. } => lens@,
            LensEvent::Progress { lens, .. } => lens@,
            LensEvent::Data { lens, .. } => lens@,
            LensEvent::Completed { lens, .. } => lens@,
            LensEvent::Failed { lens, .. } => lens@,
            LensEvent::Checkpoint { lens, .. } => lens@,
        }
    }

    /// The time at which the event was made.
    pub open spec fn made_at(&self) -> std::time::SystemTime {
        match self {
            LensEvent::Started { timestamp, .. } => *timestamp,
            LensEvent::Progress { timestamp, .. } => *timestamp,
            LensEvent::Data { timestamp, .. } => *timestamp,
            LensEvent::Completed { timestamp, .. } => *timestamp,
            LensEvent::Failed { timestamp, .. } => *timestamp,
            LensEvent::Checkpoint { timestamp, .. } => *timestamp,
        }
    }

    /// The percent of a progress event, where it has one.
    pub open spec fn percent_bits(&self) -> Option<u32> {
        match self {
            LensEvent::Progress { percent, .. } => *percent,
            _ => None,
        }
    }

    /// The name of the kind of the event.
    pub open spec fn kind_name(&self) -> Seq<char> {
        match self {
            LensEvent::Started { .. } => "Started"@,
            LensEvent::Progress { .. } => "Progress"@,
            LensEvent::Data { .. } => "Data"@,
            LensEvent::Completed { .. } => "Completed"@,
            LensEvent::Failed { .. } => "Failed"@,
            LensEvent::Checkpoint { .. } => "Checkpoint"@,
        }
    }

    /// Whether the event ends a run.
    pub open spec fn is_terminal(&self) -> bool {
        self is Completed || self is Failed
    }

    /// Whether the event reports on a run that is under way.
    pub open spec fn is_update(&self) -> bool {
        self is Progress || self is Data || self is Checkpoint
    }

    /// Create a Started event.
    pub fn started(lens: &str, task: &str) -> (r: Self)
        ensures
            r@ == (LensEventView::Started { lens: lens@, task: task@, timestamp: r.made_at() }),
    {
        LensEvent::Started {
            lens: String::from_str(lens),
            task: String::from_str(task),
            timestamp: now(),
        }
    }

    /// Create a Progress event without percent.
    pub fn progress(lens: &str, message: &str) -> (r: Self)
        ensures
            r@ == (LensEventView::Progress {
                lens: lens@,
                message: message@,
                percent: None,
                timestamp: r.made_at(),
            }),
    {
        LensEvent::Progress {
            lens: String::from_str(lens),
            message: String::from_str(message),
            percent: None,
            timestamp: now(),
        }
    }

    /// Create a Progress event with percent. The percent is given as the bit
    /// pattern of a single-precision number and is clamped into the range
    /// from 0 to 100; a pattern that is not a number is kept as it is.
    pub fn progress_with_percent(lens: &str, message: &str, percent: u32) -> (r: Self)
        ensures
            r@ == (LensEventView::Progress {
                lens: lens@,
                message: message@,
                percent: Some(clamped_percent(percent)),
                timestamp: r.made_at(),
            }),
            !is_nan_bits(percent) ==> is_percent(r.percent_bits().unwrap()),
    {
        LensEvent::Progress {
            lens: String::from_str(lens),
            message: String::from_str(message),
            percent: Some(clamp_percent(percent)),
            timestamp: now(),
        }
    }

    /// Create a Data event with a custom message type.
    pub fn data(lens: &str, key: &str, value: serde_json::Value) -> (r: Self)
        ensures
            r@ == (LensEventView::Data {
                lens: lens@,
                key: key@,
                value,
                timestamp: r.made_at(),
            }),
    {
        LensEvent::Data {
            lens: String::from_str(lens),
            key: String::from_str(key),
            value,
            timestamp: now(),
        }
    }

    /// Create a Completed event.
    pub fn completed(lens: &str, duration: std::time::Duration) -> (r: Self)
        ensures
            r@ == (LensEventView::Completed { lens: lens@, duration, timestamp: r.made_at() }),
    {
        LensEvent::Completed { lens: String::from_str(lens), duration, timestamp: now() }
    }

    /// Create a Failed event.
    pub fn failed(lens: &str, error: &str, recoverable: bool) -> (r: Self)
        ensures
            r@ == (LensEventView::Failed {
                lens: lens@,
                error: error@,
                recoverable,
                timestamp: r.made_at(),
            }),
    {
        LensEvent::Failed {
            lens: String::from_str(lens),
            error: String::from_str(error),
            recoverable,
            timestamp: now(),
        }
    }

    /// Create a Checkpoint event for user review.
    pub fn checkpoint(lens: &str, phase: &str, data: serde_json::Value, message: &str) -> (r: Self)
        ensures
            r@ == (LensEventView::Checkpoint {
                lens: lens@,
                phase: phase@,
                data,
                message: message@,
                timestamp: r.made_at(),
            }),
    {
        LensEvent::Checkpoint {
            lens: String::from_str(lens),
            phase: String::from_str(phase),
            data,
            message: String::from_str(message),
            timestamp: now(),
        }
    }

    /// Get the lens id from this event.
    pub fn lens(&self) -> (r: &str)
        ensures
            r@ == self.lens_id(),
    {
        match self {
            LensEvent::Started { lens, .. } => lens.as_str(),
            LensEvent::Progress { lens, .. } => lens.as_str(),
            LensEvent::Data { lens, .. } => lens.as_str(),
            LensEvent::Completed { lens, .. } => lens.as_str(),
            LensEvent::Failed { lens, .. } => lens.as_str(),
            LensEvent::Checkpoint { lens, .. } => lens.as_str(),
        }
    }

    /// Get the timestamp from this event.
    pub fn timestamp(&self) -> (r: std::time::SystemTime)
        ensures
            r == self.made_at(),
    {
        match self {
            LensEvent::Started { timestamp, .. } => *timestamp,
            LensEvent::Progress { timestamp, .. } => *timestamp,
            LensEvent::Data { timestamp, .. } => *timestamp,
            LensEvent::Completed { timestamp, .. } => *timestamp,
            LensEvent::Failed { timestamp, .. } => *timestamp,
            LensEvent::Checkpoint { timestamp, .. } => *timestamp,
        }
    }

    /// Get the kind of the event as a string.
    pub fn event_type(&self) -> (r: &'static str)
        ensures
            r@ == self.kind_name(),
    {
        match self {
            LensEvent::Started { .. } => "Started",
            LensEvent::Progress { .. } => "Progress",
            LensEvent::Data { .. } => "Data",
            LensEvent::Completed { .. } => "Completed",
            LensEvent::Failed { .. } => "Failed",
            LensEvent::Checkpoint { .. } => "Checkpoint",
        }
    }
}

/// The events of one run that has ended, in the order in which they were
/// emitted: one Started event, then any number of updates, then one terminal
/// event, and nothing else.
pub open spec fn is_complete_run(events: Seq<LensEvent>) -> bool {
    &&& events.len() >= 2
    &&& events[0] is Started
    &&& events.last().is_terminal()
    &&& forall|i: int| 0 < i < events.len() - 1 ==> (#[trigger] events[i]).is_update()
}

/// In the events of a complete run, exactly one is a Started event and
/// exactly one is terminal: the first and the last.
pub proof fn lemma_complete_run_shape(events: Seq<LensEvent>, i: int)
    requires
        is_complete_run(events),
        0 <= i < events.len(),
    ensures
        events[i] is Started <==> i == 0,
        events[i].is_terminal() <==> i == events.len() - 1,
{
    if 0 < i < events.len() - 1 {
        assert(events[i].is_update());
    }
}

/// Whether a drained event sequence is that of one complete run.
pub fn check_complete_run(events: &Vec<LensEvent>) -> (r: bool)
    ensures
        r == is_complete_run(events@),
{
    let n = events.len();
    if n < 2 {
        return false;
    }
    match &events[0] {
        LensEvent::Started { .. } => {},
        _ => {
            return false;
        },
    }
    match &events[n - 1] {
        LensEvent::Completed { .. } => {},
        LensEvent::Failed { .. } => {},
        _ => {
            return false;
        },
    }
    let mut i: usize = 1;
    while i < n - 1
        invariant
            n == events@.len(),
            n >= 2,
            1 <= i <= n - 1,
            forall|j: int| 0 < j < i ==> (#[trigger] events@[j]).is_update(),
        decreases n - i,
    {
        match &events[i] {
            LensEvent::Progress { .. } => {},
            LensEvent::Data { .. } => {},
            LensEvent::Checkpoint { .. } => {},
            _ => {
                assert(!events@[i as int].is_update());
                return false;
            },
        }
        i += 1;
    }
    true
}

} // verus!
