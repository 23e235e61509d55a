//! Frames: one message per line, each ended by a line feed, and no line
//! longer than `MAX_LINE_LENGTH`.

use crate::utils::text::{is_first, lemma_first_index, split_first};
use vstd::prelude::*;

verus! {

/// The most bytes that a line may have, not counting the line feed.
pub const MAX_LINE_LENGTH: usize = 4096;

/// The byte that ends a line.
pub const LINE_END: u8 = 10;

/// What stands at the start of a buffer.
pub enum Frame {
    /// A whole line, without its line feed, and what follows the line feed.
    Line(Seq<u8>, Seq<u8>),
    /// The start of a line that may yet become whole.
    Pending,
    /// More than `MAX_LINE_LENGTH` bytes and no line feed among the first
    /// `MAX_LINE_LENGTH + 1`.
    TooLong,
}

/// A payload as a frame: the payload and a line feed.
pub open spec fn frame(payload: Seq<u8>) -> Seq<u8> {
    payload.push(LINE_END)
}

/// The part of a buffer in which the end of the first line is looked for:
/// its first `MAX_LINE_LENGTH + 1` bytes.
pub open spec fn window(buffer: Seq<u8>) -> Seq<u8> {
    if buffer.len() > MAX_LINE_LENGTH + 1 {
        buffer.take(MAX_LINE_LENGTH + 1)
    } else {
        buffer
    }
}

/// What stands at the start of `buffer`.
pub open spec fn next_frame(buffer: Seq<u8>) -> Frame {
    match split_first(window(buffer), LINE_END) {
        Some((line, _)) => Frame::Line(line, buffer.skip(line.len() as int + 1)),
        None => if buffer.len() > MAX_LINE_LENGTH {
            Frame::TooLong
        } else {
            Frame::Pending
        },
    }
}

/// What is left of `buffer` when the rest of a line that was too long has
/// been dropped: what follows the first line feed, or nothing to go on with
/// where no line feed has come yet.
pub open spec fn after_discard(buffer: Seq<u8>) -> Option<Seq<u8>> {
    match split_first(buffer, LINE_END) {
        Some((_, rest)) => Some(rest),
        None => None,
    }
}

/// More than `MAX_LINE_LENGTH` bytes without a line feed are too long a
/// line, whatever follows them.
pub proof fn lemma_long_line(buffer: Seq<u8>)
    requires
        buffer.len() > MAX_LINE_LENGTH,
        forall|i: int| 0 <= i <= MAX_LINE_LENGTH ==> buffer[i] != LINE_END,
    ensures
        next_frame(buffer) == Frame::TooLong,
{
    let w = window(buffer);
    if w.contains(LINE_END) {
        let i = choose|i: int| 0 <= i < w.len() && w[i] == LINE_END;
        assert(w[i] == buffer[i]);
    }
}

/// A payload of at most `MAX_LINE_LENGTH` bytes without a line feed, written
/// as a frame, is read as that line, and what followed the frame is left.
pub proof fn lemma_frame_roundtrip(payload: Seq<u8>, rest: Seq<u8>)
    requires
        payload.len() <= MAX_LINE_LENGTH,
        !payload.contains(LINE_END),
    ensures
        next_frame(frame(payload) + rest) == Frame::Line(payload, rest),
{
    let buffer = frame(payload) + rest;
    let w = window(buffer);
    let n = payload.len() as int;
    assert(w[n] == LINE_END);
    assert forall|j: int| 0 <= j < n implies w[j] != LINE_END by {
        assert(w[j] == payload[j]);
        if payload[j] == LINE_END {
            assert(payload.contains(LINE_END));
        }
    }
    assert(is_first(w, LINE_END, n));
    lemma_first_index(w, LINE_END, n);
    assert(w.take(n) =~= payload);
    assert(buffer.skip(n + 1) =~= rest);
}

/// The position of the first line feed among the first `limit` bytes.
pub fn find_line_end(bytes: &[u8], limit: usize) -> (at: Option<usize>)
    requires
        limit <= bytes@.len(),
    ensures
        match at {
            Some(i) => i < limit && is_first(bytes@, LINE_END, i as int),
            None => forall|j: int| 0 <= j < limit ==> bytes@[j] != LINE_END,
        },
{
    let mut i: usize = 0;
    while i < limit
        invariant
            i <= limit <= bytes@.len(),
            forall|j: int| 0 <= j < i ==> bytes@[j] != LINE_END,
        decreases limit - i,
    {
        if bytes[i] == LINE_END {
            return Some(i);
        }
        i += 1;
    }
    None
}

/// Where the search of `find_line_end` in the window of a buffer ends, the
/// buffer starts as `next_frame` says.
pub proof fn lemma_window_search(buffer: Seq<u8>, limit: int, at: Option<int>)
    requires
        limit == window(buffer).len(),
        match at {
            Some(i) => 0 <= i < limit && is_first(buffer, LINE_END, i),
            None => forall|j: int| 0 <= j < limit ==> buffer[j] != LINE_END,
        },
    ensures
        match at {
            Some(i) => next_frame(buffer) == Frame::Line(buffer.take(i), buffer.skip(i + 1)),
            None => !(next_frame(buffer) is Line),
        },
{
    let w = window(buffer);
    match at {
        Some(i) => {
            assert(w[i] == buffer[i]);
            assert forall|j: int| 0 <= j < i implies w[j] != LINE_END by {
                assert(w[j] == buffer[j]);
            }
            assert(is_first(w, LINE_END, i));
            lemma_first_index(w, LINE_END, i);
            assert(w.take(i) =~= buffer.take(i));
        },
        None => {
            if w.contains(LINE_END) {
                let j = choose|j: int| 0 <= j < w.len() && w[j] == LINE_END;
                assert(w[j] == buffer[j]);
            }
        },
    }
}

/// Where the search of `find_line_end` in a whole buffer ends, dropping the
/// rest of a line leaves what `after_discard` says.
pub proof fn lemma_discard_search(buffer: Seq<u8>, at: Option<int>)
    requires
        match at {
            Some(i) => is_first(buffer, LINE_END, i),
            None => forall|j: int| 0 <= j < buffer.len() ==> buffer[j] != LINE_END,
        },
    ensures
        match at {
            Some(i) => after_discard(buffer) == Some(buffer.skip(i + 1)),
            None => after_discard(buffer) is None,
        },
{
    match at {
        Some(i) => {
            lemma_first_index(buffer, LINE_END, i);
        },
        None => {
            if buffer.contains(LINE_END) {
                let j = choose|j: int| 0 <= j < buffer.len() && buffer[j] == LINE_END;
            }
        },
    }
}

} // verus!
