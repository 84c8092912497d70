use vstd::prelude::*;

verus! {

/// One replay (past broadcast video) of a channel.
#[derive(Debug, Clone)]
pub struct Replay {
    pub title: String,
    pub start: String,
    pub end: String,
    pub video_no: u64,
    pub thumbnail: Option<String>,
    pub tags: Vec<String>,
    pub category_ko: Option<String>,
}

/// A channel with its replays.
#[derive(Debug, Clone)]
pub struct ChannelWithReplays {
    pub name: String,
    pub follower: u64,
    pub channel_id: String,
    pub image: Option<String>,
    pub replays: Vec<Replay>,
}

/// Seconds in a day.
pub const SECONDS_PER_DAY: i32 = 86400;

/// Nanoseconds in a second.
pub const NANOS_PER_SECOND: u32 = 1_000_000_000;

/// An instant with the UTC offset it was recorded in.
#[derive(Debug, Clone, Copy, PartialEq, Eq, Structural)]
pub struct Timestamp {
    /// Seconds since the Unix epoch, in UTC.
    pub unix_seconds: i64,
    /// Nanoseconds past `unix_seconds`; above a second only in a leap second.
    pub nanos: u32,
    /// Offset east of UTC, in seconds.
    pub offset_seconds: i32,
}

impl Timestamp {
    /// The offset lies strictly within a day either way, and the nanoseconds
    /// below two seconds.
    pub open spec fn wf(self) -> bool {
        &&& -SECONDS_PER_DAY < self.offset_seconds < SECONDS_PER_DAY
        &&& self.nanos < 2 * NANOS_PER_SECOND
    }

    /// A timestamp, if its parts are in range.
    pub fn new(unix_seconds: i64, nanos: u32, offset_seconds: i32) -> (r: Option<Timestamp>)
        ensures
            r is Some <==> (-SECONDS_PER_DAY < offset_seconds < SECONDS_PER_DAY && nanos < 2
                * NANOS_PER_SECOND),
            r matches Some(t) ==> t.wf() && t.unix_seconds == unix_seconds && t.nanos == nanos
                && t.offset_seconds == offset_seconds,
    {
        if -SECONDS_PER_DAY < offset_seconds && offset_seconds < SECONDS_PER_DAY && nanos < 2
            * NANOS_PER_SECOND {
            Some(Timestamp { unix_seconds, nanos, offset_seconds })
        } else {
            None
        }
    }
}

/// One chat message.
#[derive(Debug, Clone)]
pub struct ChatMessage {
    pub timestamp: Timestamp,
    pub nickname: String,
    pub message: String,
    pub user_id: String,
}

/// All chat messages of one video.
#[derive(Debug, Clone)]
pub struct ChatLog {
    pub video_id: u64,
    pub messages: Vec<ChatMessage>,
}

} // verus!
