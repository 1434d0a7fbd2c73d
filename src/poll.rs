//! Watch entries for the multiplexed readiness check.

use vstd::prelude::*;

verus! {

/// A watch entry: a socket handle or a raw file descriptor, the events
/// asked for, and the events seen, which the native poll fills in.
#[derive(Clone, Copy, Debug, PartialEq, Eq, Structural)]
pub struct PollItem {
    /// Native handle of the watched socket; `0` to watch `fd` instead.
    pub socket: usize,
    /// Raw file descriptor watched when `socket` is `0`.
    pub fd: i32,
    /// Events asked for: a mask of `POLLIN`, `POLLOUT`, `POLLERR`.
    pub events: i16,
    /// Events seen by the last poll.
    pub revents: i16,
}

impl PollItem {
    /// A watch entry for the raw file descriptor `fd`, asking for `events`.
    pub fn for_fd(fd: i32, events: i16) -> (r: PollItem)
        ensures
            r == (PollItem { socket: 0, fd, events, revents: 0 }),
    {
        PollItem { socket: 0, fd, events, revents: 0 }
    }

    /// Whether the last poll saw any of the events in `mask`.
    pub fn saw(&self, mask: i16) -> (r: bool)
        ensures
            r == (self.revents & mask != 0),
    {
        self.revents & mask != 0
    }
}

} // verus!
