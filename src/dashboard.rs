//! State and decisions of the terminal display that are not drawing.

use vstd::prelude::*;

verus! {

/// The display's own state.
#[derive(Debug, Clone, Copy, PartialEq, Eq, Structural)]
pub struct Dashboard {
    pub should_quit: bool,
}

impl Dashboard {
    pub fn new() -> (r: Self)
        ensures
            !r.should_quit,
    {
        Dashboard { should_quit: false }
    }

    pub fn quit(&mut self)
        ensures
            final(self).should_quit,
    {
        self.should_quit = true;
    }
}

/// Seconds since the latest block at unix time `now_secs`; zero for a
/// block stamped in the future.
pub open spec fn delay_of(now_secs: u64, latest_block_timestamp: Option<u64>) -> Option<u64> {
    match latest_block_timestamp {
        Some(ts) => Some(if now_secs > ts {
            (now_secs - ts) as u64
        } else {
            0
        }),
        None => None,
    }
}

/// Seconds since the latest observed block, if any was observed.
pub fn block_delay(now_secs: u64, latest_block_timestamp: Option<u64>) -> (r: Option<u64>)
    ensures
        r == delay_of(now_secs, latest_block_timestamp),
{
    match latest_block_timestamp {
        Some(ts) => Some(now_secs.saturating_sub(ts)),
        None => None,
    }
}

/// Whether the delay alert shows: a block was observed and the delay is
/// past the threshold.
pub fn delay_alert(delay: Option<u64>, threshold: u64) -> (r: bool)
    ensures
        r == (delay is Some && delay.unwrap() > threshold),
{
    match delay {
        Some(d) => d > threshold,
        None => false,
    }
}

} // verus!
