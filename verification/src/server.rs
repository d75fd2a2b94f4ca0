//! Decision logic of the command server.
//!
//! The server owns a datagram socket and a backend connection.  For
//! every datagram it decides, from the connection's liveness, a fresh
//! playback status and the raw payload, whether to execute a command,
//! drop the datagram, or put the connection back together first.  The
//! socket itself is bound with a port-retry scheme whose model lives
//! here as well; the surrounding process performs the binds, receives
//! the datagrams and issues the backend calls.

use vstd::prelude::*;
use crate::commands::SongCommand;
use crate::commands::spec_decode;
use crate::status::PlaybackStatus;

verus! {

/// What the server does with one received datagram.
#[derive(Clone, Copy, Debug, PartialEq, Eq, Structural)]
pub enum DatagramOutcome {
    /// The connection is dead: re-acquire it, wait, and drop the
    /// datagram without executing it.
    Reconnect,
    /// The payload did not decode, or playback is stopped or unknown to
    /// the backend: drop the datagram silently.
    Drop,
    /// Execute the decoded command against the backend.
    Execute(SongCommand),
}

/// The decision taken for one datagram: a command is executed exactly
/// when the connection is live, the payload decodes, and a status was
/// fetched that is not `Stopped`.
pub open spec fn spec_outcome(
    live: bool,
    status: Option<PlaybackStatus>,
    payload: Seq<u8>,
) -> DatagramOutcome {
    if !live {
        DatagramOutcome::Reconnect
    } else {
        match spec_decode(payload) {
            None => DatagramOutcome::Drop,
            Some(c) => match status {
                Some(s) => if s == PlaybackStatus::Stopped {
                    DatagramOutcome::Drop
                } else {
                    DatagramOutcome::Execute(c)
                },
                None => DatagramOutcome::Drop,
            },
        }
    }
}

/// Decides what to do with one datagram, given whether the backend
/// connection answered its liveness probe, the freshly fetched playback
/// status (`None` when the fetch failed), and the raw payload.
pub fn handle_datagram(
    live: bool,
    status: Option<PlaybackStatus>,
    payload: &[u8],
) -> (out: DatagramOutcome)
    ensures
        out == spec_outcome(live, status, payload@),
{
    if !live {
        return DatagramOutcome::Reconnect;
    }
    match SongCommand::decode(payload) {
        None => DatagramOutcome::Drop,
        Some(c) => match status {
            Some(s) => if s == PlaybackStatus::Stopped {
                DatagramOutcome::Drop
            } else {
                DatagramOutcome::Execute(c)
            },
            None => DatagramOutcome::Drop,
        },
    }
}

/// A payload that encodes no command is dropped: it produces no backend
/// call and no output, whatever the connection and playback state.
pub proof fn lemma_invalid_payload_dropped(
    live: bool,
    status: Option<PlaybackStatus>,
    payload: Seq<u8>,
)
    requires
        spec_decode(payload) is None,
    ensures
        live ==> spec_outcome(live, status, payload) == DatagramOutcome::Drop,
        !(spec_outcome(live, status, payload) is Execute),
{
}

/// A syntactically valid command received while playback is stopped, or
/// while no status could be fetched, is dropped without execution.
pub proof fn lemma_stopped_guard(live: bool, status: Option<PlaybackStatus>, payload: Seq<u8>)
    requires
        status is None || status == Some(PlaybackStatus::Stopped),
    ensures
        !(spec_outcome(live, status, payload) is Execute),
{
}

/// A port is usable for the command server when it lies strictly
/// between 1024 and 63335.
pub open spec fn spec_port_in_range(port: u32) -> bool {
    1024 < port < 63335
}

/// Validates the configured command-server port before any loop starts.
pub fn port_in_range(port: u32) -> (ok: bool)
    ensures
        ok == spec_port_in_range(port),
{
    1024 < port && port < 63335
}

/// The port the retry scheme ends on: the first port from `start`
/// upward, one at a time, whose bind attempt succeeds.  `free[i]` says
/// whether the attempt on `start + i` succeeds; `None` means every
/// attempt in `free` failed.
pub open spec fn spec_bound_port(start: int, free: Seq<bool>) -> Option<int>
    decreases free.len(),
{
    if free.len() == 0 {
        None
    } else if free[0] {
        Some(start)
    } else {
        spec_bound_port(start + 1, free.drop_first())
    }
}

/// The next port the server tries after a failed bind.
pub fn retry_port(port: u32) -> (next: u32)
    requires
        port < u32::MAX,
    ensures
        next == port + 1,
{
    port + 1
}

/// Replays the retry scheme over recorded bind outcomes: walks the
/// ports from `start` upward and returns the first that binds.
pub fn find_port(start: u32, free: &Vec<bool>) -> (r: Option<u32>)
    requires
        start + free@.len() <= u32::MAX,
    ensures
        match r {
            Some(p) => spec_bound_port(start as int, free@) == Some(p as int),
            None => spec_bound_port(start as int, free@) is None,
        },
{
    let n = free.len();
    let mut i: usize = 0;
    proof {
        assert(free@.skip(0) =~= free@);
    }
    while i < n
        invariant
            i <= n,
            n == free@.len(),
            start + n <= u32::MAX,
            spec_bound_port(start as int, free@) == spec_bound_port(
                start as int + i,
                free@.skip(i as int),
            ),
        decreases n - i,
    {
        if free[i] {
            proof {
                assert(free@.skip(i as int)[0]);
            }
            return Some(start + (i as u32));
        }
        proof {
            assert(free@.skip(i as int).drop_first() =~= free@.skip(i as int + 1));
        }
        i += 1;
    }
    proof {
        assert(free@.skip(n as int).len() == 0);
    }
    None
}

/// A port at which the retry scheme ends is never below the port it
/// started from.
pub proof fn lemma_bound_port_at_least_start(start: int, free: Seq<bool>)
    requires
        spec_bound_port(start, free) is Some,
    ensures
        spec_bound_port(start, free)->Some_0 >= start,
    decreases free.len(),
{
    if free.len() == 0 {
    } else if free[0] {
    } else {
        lemma_bound_port_at_least_start(start + 1, free.drop_first());
    }
}

/// When the configured port is already bound, the retry scheme ends on
/// a port that differs from it by at least one.
pub proof fn lemma_port_retry(start: int, free: Seq<bool>)
    requires
        free.len() > 0,
        !free[0],
        spec_bound_port(start, free) is Some,
    ensures
        spec_bound_port(start, free)->Some_0 >= start + 1,
{
    lemma_bound_port_at_least_start(start + 1, free.drop_first());
}

/// As long as some port in reach is free, the retry scheme does bind:
/// it never gives up before a successful attempt.
pub proof fn lemma_retry_finds_free_port(start: int, free: Seq<bool>)
    requires
        exists|i: int| 0 <= i < free.len() && free[i],
    ensures
        spec_bound_port(start, free) is Some,
    decreases free.len(),
{
    let i = choose|i: int| 0 <= i < free.len() && free[i];
    if free[0] {
    } else {
        assert(free.drop_first()[i - 1]);
        lemma_retry_finds_free_port(start + 1, free.drop_first());
    }
}

} // verus!
