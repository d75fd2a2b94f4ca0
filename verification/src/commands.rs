//! The closed set of control commands and their wire format.
//!
//! A command arrives as one datagram whose payload is the command name
//! wrapped in double quotes, the serialized form of the plain enum
//! variant.  Any other payload is invalid and is dropped by the server
//! without a response.

use vstd::prelude::*;
use vstd::utf8::is_ascii_chars;
use vstd::utf8::is_ascii_chars_encode_utf8;
use vstd::string::StringSliceAdditionalSpecFns;

verus! {

/// The six control operations the bridge can ask of the backend, each a
/// thin mapping onto one backend control call.
#[derive(Clone, Copy, Debug, PartialEq, Eq, Structural)]
pub enum SongCommand {
    /// Skip to the next song; without a next song the call has no effect.
    Next,
    /// Go back to the previous song, or rewind the current one.
    Previous,
    /// Pause the current song; a no-op when already paused.
    Pause,
    /// Pause a playing song, or resume a paused one.
    PlayPause,
    /// Stop playback; a no-op when already stopped.
    Stop,
    /// Resume playback; a no-op when already playing.
    Play,
}

/// The bytes of an ASCII character sequence, one byte per character.
pub open spec fn ascii_bytes(s: Seq<char>) -> Seq<u8> {
    s.map_values(|c: char| c as u8)
}

/// The quoted tag that encodes a command on the wire.
pub open spec fn spec_tag(c: SongCommand) -> Seq<char> {
    match c {
        SongCommand::Next => "\"Next\""@,
        SongCommand::Previous => "\"Previous\""@,
        SongCommand::Pause => "\"Pause\""@,
        SongCommand::PlayPause => "\"PlayPause\""@,
        SongCommand::Stop => "\"Stop\""@,
        SongCommand::Play => "\"Play\""@,
    }
}

/// The datagram payload that encodes a command.
pub open spec fn spec_wire(c: SongCommand) -> Seq<u8> {
    ascii_bytes(spec_tag(c))
}

/// The command a payload stands for: exactly the six encodings are
/// valid, and every other payload decodes to nothing.
pub open spec fn spec_decode(p: Seq<u8>) -> Option<SongCommand> {
    if p == spec_wire(SongCommand::Next) {
        Some(SongCommand::Next)
    } else if p == spec_wire(SongCommand::Previous) {
        Some(SongCommand::Previous)
    } else if p == spec_wire(SongCommand::Pause) {
        Some(SongCommand::Pause)
    } else if p == spec_wire(SongCommand::PlayPause) {
        Some(SongCommand::PlayPause)
    } else if p == spec_wire(SongCommand::Stop) {
        Some(SongCommand::Stop)
    } else if p == spec_wire(SongCommand::Play) {
        Some(SongCommand::Play)
    } else {
        None
    }
}

fn bytes_eq(a: &[u8], b: &[u8]) -> (r: bool)
    ensures
        r == (a@ == b@),
{
    let n = a.len();
    if n != b.len() {
        return false;
    }
    let mut i: usize = 0;
    while i < n
        invariant
            i <= n,
            n == a@.len(),
            n == b@.len(),
            forall|j: int| 0 <= j < i ==> a@[j] == b@[j],
        decreases n - i,
    {
        if a[i] != b[i] {
            return false;
        }
        i += 1;
    }
    proof {
        assert(a@ =~= b@);
    }
    true
}

/// The bytes of an ASCII string, one byte per character.
fn ascii_bytes_of(s: &str) -> (r: &[u8])
    requires
        s.is_ascii(),
    ensures
        r@ == ascii_bytes(s@),
{
    proof {
        is_ascii_chars_encode_utf8(s@);
        assert(s.spec_bytes() =~= ascii_bytes(s@));
    }
    s.as_bytes()
}

impl SongCommand {
    /// The exact payload that encodes this command on the wire.
    pub fn wire_bytes(&self) -> (r: &'static [u8])
        ensures
            r@ == spec_wire(*self),
    {
        match self {
            SongCommand::Next => {
                let s = "\"Next\"";
                proof {
                    reveal_strlit("\"Next\"");
                    assert(is_ascii_chars(s@));
                }
                ascii_bytes_of(s)
            },
            SongCommand::Previous => {
                let s = "\"Previous\"";
                proof {
                    reveal_strlit("\"Previous\"");
                    assert(is_ascii_chars(s@));
                }
                ascii_bytes_of(s)
            },
            SongCommand::Pause => {
                let s = "\"Pause\"";
                proof {
                    reveal_strlit("\"Pause\"");
                    assert(is_ascii_chars(s@));
                }
                ascii_bytes_of(s)
            },
            SongCommand::PlayPause => {
                let s = "\"PlayPause\"";
                proof {
                    reveal_strlit("\"PlayPause\"");
                    assert(is_ascii_chars(s@));
                }
                ascii_bytes_of(s)
            },
            SongCommand::Stop => {
                let s = "\"Stop\"";
                proof {
                    reveal_strlit("\"Stop\"");
                    assert(is_ascii_chars(s@));
                }
                ascii_bytes_of(s)
            },
            SongCommand::Play => {
                let s = "\"Play\"";
                proof {
                    reveal_strlit("\"Play\"");
                    assert(is_ascii_chars(s@));
                }
                ascii_bytes_of(s)
            },
        }
    }

    /// Decodes a datagram payload into a command; every payload that is
    /// not one of the six exact encodings decodes to `None`.
    pub fn decode(payload: &[u8]) -> (r: Option<SongCommand>)
        ensures
            r == spec_decode(payload@),
    {
        if bytes_eq(payload, SongCommand::Next.wire_bytes()) {
            Some(SongCommand::Next)
        } else if bytes_eq(payload, SongCommand::Previous.wire_bytes()) {
            Some(SongCommand::Previous)
        } else if bytes_eq(payload, SongCommand::Pause.wire_bytes()) {
            Some(SongCommand::Pause)
        } else if bytes_eq(payload, SongCommand::PlayPause.wire_bytes()) {
            Some(SongCommand::PlayPause)
        } else if bytes_eq(payload, SongCommand::Stop.wire_bytes()) {
            Some(SongCommand::Stop)
        } else if bytes_eq(payload, SongCommand::Play.wire_bytes()) {
            Some(SongCommand::Play)
        } else {
            None
        }
    }

    /// The name of the backend control call this command maps onto.
    pub fn method_name(&self) -> (r: &'static str)
        ensures
            r@ == spec_method_name(*self),
    {
        match self {
            SongCommand::Next => "Next",
            SongCommand::Previous => "Previous",
            SongCommand::Pause => "Pause",
            SongCommand::PlayPause => "PlayPause",
            SongCommand::Stop => "Stop",
            SongCommand::Play => "Play",
        }
    }
}

/// The backend control method a command delegates to.
pub open spec fn spec_method_name(c: SongCommand) -> Seq<char> {
    match c {
        SongCommand::Next => "Next"@,
        SongCommand::Previous => "Previous"@,
        SongCommand::Pause => "Pause"@,
        SongCommand::PlayPause => "PlayPause"@,
        SongCommand::Stop => "Stop"@,
        SongCommand::Play => "Play"@,
    }
}

/// Every payload that is not the encoding of some command decodes to
/// nothing, so it reaches neither the backend nor the output.
pub proof fn lemma_decode_robust(p: Seq<u8>)
    requires
        forall|c: SongCommand| p != spec_wire(c),
    ensures
        spec_decode(p) is None,
{
    assert(p != spec_wire(SongCommand::Next));
    assert(p != spec_wire(SongCommand::Previous));
    assert(p != spec_wire(SongCommand::Pause));
    assert(p != spec_wire(SongCommand::PlayPause));
    assert(p != spec_wire(SongCommand::Stop));
    assert(p != spec_wire(SongCommand::Play));
}

/// Decoding is the inverse of encoding: the wire form of each command
/// decodes back to that command and to no other.
pub proof fn lemma_wire_round_trip(c: SongCommand)
    ensures
        spec_decode(spec_wire(c)) == Some(c),
{
    reveal_strlit("\"Next\"");
    reveal_strlit("\"Previous\"");
    reveal_strlit("\"Pause\"");
    reveal_strlit("\"PlayPause\"");
    reveal_strlit("\"Stop\"");
    reveal_strlit("\"Play\"");
    assert(spec_wire(SongCommand::Next).len() == 6);
    assert(spec_wire(SongCommand::Previous).len() == 10);
    assert(spec_wire(SongCommand::Pause).len() == 7);
    assert(spec_wire(SongCommand::PlayPause).len() == 11);
    assert(spec_wire(SongCommand::Stop).len() == 6);
    assert(spec_wire(SongCommand::Play).len() == 6);
    match c {
        SongCommand::Next => {
            assert(spec_decode(spec_wire(c)) == Some(c));
        },
        SongCommand::Previous => {
            assert(spec_decode(spec_wire(c)) == Some(c));
        },
        SongCommand::Pause => {
            assert(spec_decode(spec_wire(c)) == Some(c));
        },
        SongCommand::PlayPause => {
            assert(spec_decode(spec_wire(c)) == Some(c));
        },
        SongCommand::Stop => {
            assert(spec_wire(SongCommand::Stop)[1] != spec_wire(SongCommand::Next)[1]);
            assert(spec_decode(spec_wire(c)) == Some(c));
        },
        SongCommand::Play => {
            assert(spec_wire(SongCommand::Play)[1] != spec_wire(SongCommand::Next)[1]);
            assert(spec_wire(SongCommand::Play)[1] != spec_wire(SongCommand::Stop)[1]);
            assert(spec_decode(spec_wire(c)) == Some(c));
        },
    }
}

} // verus!
