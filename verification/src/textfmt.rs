//! Fixed-width padding in the style of the table's column layout.

use vstd::prelude::*;
use vstd::string::StringExecFns;

verus! {

/// `n` copies of the character `c`.
pub open spec fn repeat_char(c: char, n: nat) -> Seq<char> {
    Seq::new(n, |i: int| c)
}

/// `s` padded on the right with `fill` up to `width` columns; content
/// that is already wider is kept whole, not truncated.
pub open spec fn left_aligned(s: Seq<char>, width: nat, fill: char) -> Seq<char> {
    if s.len() >= width {
        s
    } else {
        s + repeat_char(fill, (width - s.len()) as nat)
    }
}

/// `s` centered in `width` columns, padded with `fill`; an odd leftover
/// column goes to the right side. Wider content is kept whole.
pub open spec fn centered(s: Seq<char>, width: nat, fill: char) -> Seq<char> {
    if s.len() >= width {
        s
    } else {
        let pad = width - s.len();
        repeat_char(fill, (pad / 2) as nat) + s + repeat_char(fill, (pad - pad / 2) as nat)
    }
}

/// Appends `n` copies of the one-character string `fill` to `out`.
pub(crate) fn append_fill(out: &mut String, fill: &str, n: usize, Ghost(fc): Ghost<char>)
    requires
        fill@ == seq![fc],
    ensures
        final(out)@ == old(out)@ + repeat_char(fc, n as nat),
{
    let mut k: usize = 0;
    while k < n
        invariant
            k <= n,
            fill@ == seq![fc],
            out@ == old(out)@ + repeat_char(fc, k as nat),
        decreases n - k,
    {
        out.append(fill);
        proof {
            assert(old(out)@ + repeat_char(fc, k as nat) + fill@
                =~= old(out)@ + repeat_char(fc, (k + 1) as nat));
        }
        k = k + 1;
    }
}

/// `s` left-aligned in `width` columns, padded with `fill`.
pub(crate) fn pad_left_aligned(s: &str, width: usize, fill: &str, Ghost(fc): Ghost<char>) -> (r:
    String)
    requires
        fill@ == seq![fc],
    ensures
        r@ == left_aligned(s@, width as nat, fc),
{
    let len = s.unicode_len();
    let mut out = s.to_owned();
    if len < width {
        append_fill(&mut out, fill, width - len, Ghost(fc));
    }
    out
}

/// `s` centered in `width` columns, padded with `fill`.
pub(crate) fn pad_centered(s: &str, width: usize, fill: &str, Ghost(fc): Ghost<char>) -> (r:
    String)
    requires
        fill@ == seq![fc],
    ensures
        r@ == centered(s@, width as nat, fc),
{
    let len = s.unicode_len();
    if len >= width {
        return s.to_owned();
    }
    let pad = width - len;
    let left = pad / 2;
    let mut out = String::new();
    append_fill(&mut out, fill, left, Ghost(fc));
    out.append(s);
    append_fill(&mut out, fill, pad - left, Ghost(fc));
    proof {
        assert(out@ =~= centered(s@, width as nat, fc));
    }
    out
}

} // verus!
