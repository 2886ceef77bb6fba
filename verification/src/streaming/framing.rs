//! Framing of the stream: one JSON object per line.
//!
//! A frame ends at a line feed. A frame that holds nothing but line padding
//! (carriage return, space, tab) is a keepalive: it proves that the
//! connection is alive and carries no payload.

use vstd::prelude::*;

verus! {

/// The byte that ends a frame.
pub const LINE_FEED: u8 = 10;

/// A frame found in a buffer: its bytes are those from `start` up to, but not
/// including, `end`; the next frame begins at `next`.
#[derive(Debug, Clone, Copy, PartialEq, Eq, Structural)]
pub struct Frame {
    /// Where the frame begins.
    pub start: usize,
    /// Where the frame ends: the position of its line feed.
    pub end: usize,
    /// Where the next frame begins.
    pub next: usize,
}

/// Whether none of the bytes from `from` up to `to` is a line feed.
pub open spec fn no_line_feed(bytes: Seq<u8>, from: int, to: int) -> bool {
    forall|i: int| from <= i < to && 0 <= i < bytes.len() ==> bytes[i] != 10
}

/// Whether `b` is line padding: carriage return, line feed, space or tab.
pub open spec fn is_padding(b: u8) -> bool {
    b == 13 || b == 10 || b == 32 || b == 9
}

/// Whether a frame holds nothing but line padding.
pub open spec fn is_keepalive_frame(frame: Seq<u8>) -> bool {
    forall|i: int| 0 <= i < frame.len() ==> is_padding(#[trigger] frame[i])
}

/// The position of the first line feed at or after `from`, or `None` if the
/// rest of the buffer holds none.
pub fn find_line_feed(buffer: &[u8], from: usize) -> (found: Option<usize>)
    ensures
        found matches Some(i) ==> from <= i < buffer@.len() && buffer@[i as int] == 10
            && no_line_feed(buffer@, from as int, i as int),
        found is None ==> no_line_feed(buffer@, from as int, buffer@.len() as int),
{
    let mut i: usize = from;
    while i < buffer.len()
        invariant
            from <= i,
            no_line_feed(buffer@, from as int, i as int),
        decreases buffer@.len() - i,
    {
        if buffer[i] == LINE_FEED {
            return Some(i);
        }
        i += 1;
    }
    None
}

/// The first complete frame at or after `from`: the bytes up to the first
/// line feed. `None` if the line is not complete yet.
pub fn next_frame(buffer: &[u8], from: usize) -> (frame: Option<Frame>)
    ensures
        frame matches Some(f) ==> f.start == from && from <= f.end < buffer@.len() && f.next
            == f.end + 1 && buffer@[f.end as int] == 10 && no_line_feed(
            buffer@,
            from as int,
            f.end as int,
        ),
        frame is None ==> no_line_feed(buffer@, from as int, buffer@.len() as int),
{
    let length = buffer.len();
    match find_line_feed(buffer, from) {
        Some(end) => {
            assert(end < length);
            Some(Frame { start: from, end, next: end + 1 })
        },
        None => None,
    }
}

/// Whether the frame holds nothing but line padding, the empty frame
/// included.
pub fn is_keepalive(frame: &[u8]) -> (keepalive: bool)
    ensures
        keepalive == is_keepalive_frame(frame@),
{
    let mut i: usize = 0;
    while i < frame.len()
        invariant
            i <= frame@.len(),
            forall|j: int| 0 <= j < i ==> is_padding(#[trigger] frame@[j]),
        decreases frame@.len() - i,
    {
        let b = frame[i];
        if !(b == 13 || b == 10 || b == 32 || b == 9) {
            assert(!is_padding(frame@[i as int]));
            return false;
        }
        i += 1;
    }
    true
}

} // verus!
