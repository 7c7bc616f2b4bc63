//! Text in buffers of UTF-16 units, as the shell hands it out: the text ends
//! at the first zero unit, or with the buffer where no unit is zero.

use vstd::prelude::*;

verus! {

/// Whether the text in `buffer` is `n` units long: no unit before `n` is zero,
/// and at `n` the buffer ends or holds a zero.
pub open spec fn is_text_len(buffer: Seq<u16>, n: int) -> bool {
    &&& 0 <= n <= buffer.len()
    &&& forall|i: int| 0 <= i < n ==> #[trigger] buffer[i] != 0
    &&& n < buffer.len() ==> buffer[n] == 0
}

/// The length of the text in `buffer`.
pub open spec fn text_len_of(buffer: Seq<u16>) -> int {
    choose|n: int| is_text_len(buffer, n)
}

/// The text in `buffer`: its units up to the first zero.
pub open spec fn text_of(buffer: Seq<u16>) -> Seq<u16> {
    buffer.take(text_len_of(buffer))
}

/// Whether `text` holds no zero unit, so that a zero can end it.
pub open spec fn zero_free(text: Seq<u16>) -> bool {
    forall|i: int| 0 <= i < text.len() ==> #[trigger] text[i] != 0
}

/// A buffer holds text of one length only.
pub proof fn text_len_is_unique(buffer: Seq<u16>, a: int, b: int)
    requires
        is_text_len(buffer, a),
        is_text_len(buffer, b),
    ensures
        a == b,
{
    if a < b {
        assert(buffer[a] != 0);
    } else if b < a {
        assert(buffer[b] != 0);
    }
}

/// Text that holds no zero is the whole of its buffer.
pub proof fn zero_free_text_is_whole(text: Seq<u16>)
    requires
        zero_free(text),
    ensures
        text_of(text) == text,
{
    assert(is_text_len(text, text.len() as int));
    text_len_is_unique(text, text.len() as int, text_len_of(text));
    assert(text.take(text.len() as int) =~= text);
}

/// Text that is ended by a zero reads back as it was, whatever follows the
/// zero in the buffer.
pub proof fn terminated_text_reads_back(text: Seq<u16>, rest: Seq<u16>)
    requires
        zero_free(text),
    ensures
        text_of(text.push(0) + rest) == text,
{
    let buffer = text.push(0) + rest;
    assert forall|i: int| 0 <= i < text.len() implies #[trigger] buffer[i] != 0 by {
        assert(buffer[i] == text[i]);
    }
    assert(buffer[text.len() as int] == 0);
    assert(is_text_len(buffer, text.len() as int));
    text_len_is_unique(buffer, text.len() as int, text_len_of(buffer));
    assert(buffer.take(text.len() as int) =~= text);
}

/// The number of units before the first zero in `buffer`, or the length of
/// `buffer` where it holds none.
pub fn text_len(buffer: &[u16]) -> (n: usize)
    ensures
        is_text_len(buffer@, n as int),
        n == text_len_of(buffer@),
{
    let mut n: usize = 0;
    while n < buffer.len() && buffer[n] != 0
        invariant
            n <= buffer.len(),
            forall|i: int| 0 <= i < n ==> #[trigger] buffer@[i] != 0,
        decreases buffer.len() - n,
    {
        n = n + 1;
    }
    proof {
        assert(is_text_len(buffer@, n as int));
        text_len_is_unique(buffer@, n as int, text_len_of(buffer@));
    }
    n
}

/// Copies the text out of `buffer`.
pub fn text(buffer: &[u16]) -> (units: Vec<u16>)
    ensures
        units@ == text_of(buffer@),
        zero_free(units@),
{
    let n = text_len(buffer);
    let mut units: Vec<u16> = Vec::new();
    let mut i: usize = 0;
    while i < n
        invariant
            i <= n <= buffer.len(),
            units@ == buffer@.take(i as int),
        decreases n - i,
    {
        units.push(buffer[i]);
        i = i + 1;
        assert(buffer@.take(i as int) =~= buffer@.take(i - 1).push(buffer@[i - 1]));
    }
    units
}

/// Copies `text` and ends the copy with a zero, as the shell takes its
/// strings.
pub fn terminated(text: &Vec<u16>) -> (buffer: Vec<u16>)
    ensures
        buffer@ == text@.push(0),
{
    let mut buffer: Vec<u16> = Vec::new();
    let mut i: usize = 0;
    while i < text.len()
        invariant
            i <= text.len(),
            buffer@ == text@.take(i as int),
        decreases text.len() - i,
    {
        buffer.push(text[i]);
        i = i + 1;
        assert(text@.take(i as int) =~= text@.take(i - 1).push(text@[i - 1]));
    }
    assert(text@.take(text.len() as int) =~= text@);
    buffer.push(0);
    buffer
}

} // verus!
