//! Elements of the byte grammar that the modem's notifications are written in.
//!
//! Each element is recognised at a position of a buffer that may still grow:
//! it either matches and ends at a new position, needs more bytes to decide,
//! or cannot match whatever follows.
use vstd::prelude::*;

verus! {

/// What recognising one element at a position gives.
pub enum Scan {
    Done(nat),
    More,
    Fail,
}

/// Why a frame was not recognised.
#[derive(Clone, Copy, Debug, PartialEq, Eq, Structural)]
pub enum FrameError {
    /// The bytes so far are a beginning of a frame: more are needed.
    Incomplete,
    /// No continuation of the bytes makes a frame.
    Invalid,
}

/// Sequencing: the second element starts where the first one ended.
pub open spec fn and_then(a: Scan, f: spec_fn(nat) -> Scan) -> Scan {
    match a {
        Scan::Done(p) => f(p),
        Scan::More => Scan::More,
        Scan::Fail => Scan::Fail,
    }
}

/// An optional element: where it cannot match, nothing is consumed.
pub open spec fn optional(a: Scan, pos: nat) -> Scan {
    match a {
        Scan::Fail => Scan::Done(pos),
        _ => a,
    }
}

/// The exec result `r` reports the outcome `s`.
pub open spec fn reports(r: Result<usize, FrameError>, s: Scan) -> bool {
    match s {
        Scan::Done(p) => match r {
            Ok(q) => q as nat == p,
            Err(_) => false,
        },
        Scan::More => r == Err::<usize, FrameError>(FrameError::Incomplete),
        Scan::Fail => r == Err::<usize, FrameError>(FrameError::Invalid),
    }
}

/// A fixed byte string at `pos`.
pub open spec fn scan_tag(s: Seq<u8>, pos: nat, t: Seq<u8>) -> Scan {
    if pos + t.len() <= s.len() {
        if s.subrange(pos as int, (pos + t.len()) as int) == t {
            Scan::Done(pos + t.len())
        } else {
            Scan::Fail
        }
    } else if pos <= s.len() && s.subrange(pos as int, s.len() as int) == t.subrange(
        0,
        s.len() - pos,
    ) {
        Scan::More
    } else {
        Scan::Fail
    }
}

/// An optional single space at `pos`.
pub open spec fn scan_opt_space(s: Seq<u8>, pos: nat) -> Scan {
    if pos >= s.len() {
        Scan::More
    } else if s[pos as int] == 32u8 {
        Scan::Done(pos + 1)
    } else {
        Scan::Done(pos)
    }
}

/// One byte at `pos`, an ASCII digit from `lo` to `hi`.
pub open spec fn scan_digit_in(s: Seq<u8>, pos: nat, lo: u8, hi: u8) -> Scan {
    if pos >= s.len() {
        Scan::More
    } else if lo <= s[pos as int] <= hi {
        Scan::Done(pos + 1)
    } else {
        Scan::Fail
    }
}

/// Exactly `n` bytes of payload at `pos`.
pub open spec fn scan_take(s: Seq<u8>, pos: nat, n: nat) -> Scan {
    if pos + n <= s.len() {
        Scan::Done(pos + n)
    } else {
        Scan::More
    }
}

pub open spec fn is_digit(b: u8) -> bool {
    48u8 <= b <= 57u8
}

/// Where the run of ASCII digits that starts at `pos` ends.
pub open spec fn run_end(s: Seq<u8>, pos: nat) -> nat
    decreases s.len() - pos,
{
    if pos < s.len() && is_digit(s[pos as int]) {
        run_end(s, pos + 1)
    } else {
        pos
    }
}

/// The value of a string of ASCII digits, read in base ten.
pub open spec fn decimal(d: Seq<u8>) -> nat
    decreases d.len(),
{
    if d.len() == 0 {
        0
    } else {
        decimal(d.drop_last()) * 10 + (d.last() - 48) as nat
    }
}

/// The value of the digit run at `pos`.
pub open spec fn number_at(s: Seq<u8>, pos: nat) -> nat {
    decimal(s.subrange(pos as int, run_end(s, pos) as int))
}

/// An unsigned decimal number at `pos` that must not exceed `max`. It needs
/// more bytes while its digits reach the end of the buffer.
pub open spec fn scan_number(s: Seq<u8>, pos: nat, max: nat) -> Scan {
    let e = run_end(s, pos);
    if e > pos && number_at(s, pos) > max {
        Scan::Fail
    } else if e == s.len() {
        Scan::More
    } else if e == pos {
        Scan::Fail
    } else {
        Scan::Done(e)
    }
}

proof fn lemma_run_end(s: Seq<u8>, pos: nat, i: nat)
    requires
        pos <= i <= s.len(),
        forall|j: int| pos <= j < i ==> is_digit(#[trigger] s[j]),
        i == s.len() || !is_digit(s[i as int]),
    ensures
        run_end(s, pos) == i,
    decreases i - pos,
{
    if pos < i {
        lemma_run_end(s, pos + 1, i);
    }
}

proof fn lemma_run_end_bounds(s: Seq<u8>, pos: nat)
    requires
        pos <= s.len(),
    ensures
        pos <= run_end(s, pos) <= s.len(),
        forall|j: int| pos <= j < run_end(s, pos) ==> is_digit(#[trigger] s[j]),
    decreases s.len() - pos,
{
    if pos < s.len() && is_digit(s[pos as int]) {
        lemma_run_end_bounds(s, pos + 1);
    }
}

proof fn lemma_run_end_ge(s: Seq<u8>, pos: nat, i: nat)
    requires
        pos <= i <= s.len(),
        forall|j: int| pos <= j < i ==> is_digit(#[trigger] s[j]),
    ensures
        run_end(s, pos) >= i,
    decreases i - pos,
{
    if pos < i {
        assert(is_digit(s[pos as int]));
        lemma_run_end_ge(s, pos + 1, i);
    } else {
        lemma_run_end_bounds(s, pos);
    }
}

proof fn lemma_decimal_prefix_le(d: Seq<u8>, j: nat)
    requires
        j <= d.len(),
        forall|k: int| 0 <= k < d.len() ==> is_digit(#[trigger] d[k]),
    ensures
        decimal(d.subrange(0, j as int)) <= decimal(d),
    decreases d.len() - j,
{
    if j < d.len() {
        lemma_decimal_prefix_le(d, j + 1);
        assert(d.subrange(0, (j + 1) as int).drop_last() =~= d.subrange(0, j as int));
    } else {
        assert(d.subrange(0, j as int) =~= d);
    }
}

/// Recognises the fixed string `t` at `pos`.
pub fn scan_tag_at(s: &[u8], pos: usize, t: &[u8]) -> (r: Result<usize, FrameError>)
    requires
        pos <= s@.len(),
    ensures
        reports(r, scan_tag(s@, pos as nat, t@)),
{
    let slen = s.len();
    let mut i: usize = 0;
    while i < t.len()
        invariant
            slen == s@.len(),
            pos <= s@.len(),
            i <= t@.len(),
            pos + i <= s@.len(),
            forall|j: int| 0 <= j < i ==> s@[pos + j] == t@[j],
        decreases t@.len() - i,
    {
        if pos + i == slen {
            proof {
                assert(s@.subrange(pos as int, s@.len() as int) =~= t@.subrange(
                    0,
                    s@.len() - pos,
                ));
            }
            return Err(FrameError::Incomplete);
        }
        if s[pos + i] != t[i] {
            proof {
                if pos + t@.len() <= s@.len() {
                    assert(s@.subrange(pos as int, pos + t@.len())[i as int] != t@[i as int]);
                } else {
                    assert(s@.subrange(pos as int, s@.len() as int)[i as int] != t@.subrange(
                        0,
                        s@.len() - pos,
                    )[i as int]);
                }
            }
            return Err(FrameError::Invalid);
        }
        i = i + 1;
    }
    proof {
        assert(s@.subrange(pos as int, pos + t@.len()) =~= t@);
    }
    Ok(pos + i)
}

/// Recognises an optional space at `pos`.
pub fn scan_opt_space_at(s: &[u8], pos: usize) -> (r: Result<usize, FrameError>)
    requires
        pos <= s@.len(),
    ensures
        reports(r, scan_opt_space(s@, pos as nat)),
{
    if pos >= s.len() {
        Err(FrameError::Incomplete)
    } else if s[pos] == 32u8 {
        Ok(pos + 1)
    } else {
        Ok(pos)
    }
}

/// Recognises one digit from `lo` to `hi` at `pos`.
pub fn scan_digit_in_at(s: &[u8], pos: usize, lo: u8, hi: u8) -> (r: Result<usize, FrameError>)
    requires
        pos <= s@.len(),
    ensures
        reports(r, scan_digit_in(s@, pos as nat, lo, hi)),
{
    if pos >= s.len() {
        Err(FrameError::Incomplete)
    } else if lo <= s[pos] && s[pos] <= hi {
        Ok(pos + 1)
    } else {
        Err(FrameError::Invalid)
    }
}

/// Recognises `n` bytes of payload at `pos`.
pub fn scan_take_at(s: &[u8], pos: usize, n: usize) -> (r: Result<usize, FrameError>)
    requires
        pos <= s@.len(),
    ensures
        reports(r, scan_take(s@, pos as nat, n as nat)),
{
    if n <= s.len() - pos {
        Ok(pos + n)
    } else {
        Err(FrameError::Incomplete)
    }
}

/// Recognises a decimal number no larger than `max` at `pos`, and gives its
/// value with the position after it.
pub fn scan_number_at(s: &[u8], pos: usize, max: u32) -> (r: Result<(usize, u32), FrameError>)
    requires
        pos <= s@.len(),
        max <= 65535,
    ensures
        match r {
            Ok((p, v)) => reports(Ok(p), scan_number(s@, pos as nat, max as nat)) && v as nat
                == number_at(s@, pos as nat) && p <= s@.len(),
            Err(e) => reports(Err(e), scan_number(s@, pos as nat, max as nat)),
        },
{
    let mut i: usize = pos;
    let mut v: u32 = 0;
    while i < s.len() && 48u8 <= s[i] && s[i] <= 57u8
        invariant
            pos <= i <= s@.len(),
            max <= 65535,
            v <= max,
            v as nat == decimal(s@.subrange(pos as int, i as int)),
            forall|j: int| pos <= j < i ==> is_digit(#[trigger] s@[j]),
        decreases s@.len() - i,
    {
        let nv: u32 = v * 10 + (s[i] - 48u8) as u32;
        proof {
            assert(s@.subrange(pos as int, i + 1).drop_last() =~= s@.subrange(
                pos as int,
                i as int,
            ));
        }
        if nv > max {
            proof {
                lemma_run_end_bounds(s@, pos as nat);
                lemma_run_end_ge(s@, pos as nat, (i + 1) as nat);
                let e = run_end(s@, pos as nat);
                let run = s@.subrange(pos as int, e as int);
                assert(forall|k: int| 0 <= k < run.len() ==> is_digit(#[trigger] run[k]));
                lemma_decimal_prefix_le(run, (i + 1 - pos) as nat);
                assert(run.subrange(0, i + 1 - pos) =~= s@.subrange(pos as int, i + 1));
                assert(decimal(s@.subrange(pos as int, i + 1)) == nv);
            }
            return Err(FrameError::Invalid);
        }
        v = nv;
        i = i + 1;
    }
    proof {
        lemma_run_end(s@, pos as nat, i as nat);
    }
    if i == s.len() {
        return Err(FrameError::Incomplete);
    }
    if i == pos {
        return Err(FrameError::Invalid);
    }
    Ok((i, v))
}

/// An optional space at `pos` in a buffer that is complete.
pub open spec fn complete_opt_space(s: Seq<u8>, pos: nat) -> Scan {
    if pos < s.len() && s[pos as int] == 32u8 {
        Scan::Done(pos + 1)
    } else {
        Scan::Done(pos)
    }
}

/// A decimal number no larger than `max` at `pos` in a buffer that is
/// complete: its digits may run to the end.
pub open spec fn complete_number(s: Seq<u8>, pos: nat, max: nat) -> Scan {
    let e = run_end(s, pos);
    if e == pos {
        Scan::Fail
    } else if number_at(s, pos) > max {
        Scan::Fail
    } else {
        Scan::Done(e)
    }
}

/// Recognises an optional space at `pos` of a complete buffer.
pub fn complete_opt_space_at(s: &[u8], pos: usize) -> (r: usize)
    requires
        pos <= s@.len(),
    ensures
        reports(Ok(r), complete_opt_space(s@, pos as nat)),
        r <= s@.len(),
{
    if pos < s.len() && s[pos] == 32u8 {
        pos + 1
    } else {
        pos
    }
}

/// Recognises a decimal number no larger than `max` at `pos` of a complete
/// buffer, and gives its value with the position after it.
pub fn complete_number_at(s: &[u8], pos: usize, max: u32) -> (r: Option<(usize, u32)>)
    requires
        pos <= s@.len(),
        max <= 65535,
    ensures
        match r {
            Some((p, v)) => reports(Ok(p), complete_number(s@, pos as nat, max as nat)) && v as nat
                == number_at(s@, pos as nat) && p <= s@.len(),
            None => complete_number(s@, pos as nat, max as nat) is Fail,
        },
{
    let mut i: usize = pos;
    let mut v: u32 = 0;
    while i < s.len() && 48u8 <= s[i] && s[i] <= 57u8
        invariant
            pos <= i <= s@.len(),
            max <= 65535,
            v <= max,
            v as nat == decimal(s@.subrange(pos as int, i as int)),
            forall|j: int| pos <= j < i ==> is_digit(#[trigger] s@[j]),
        decreases s@.len() - i,
    {
        let nv: u32 = v * 10 + (s[i] - 48u8) as u32;
        proof {
            assert(s@.subrange(pos as int, i + 1).drop_last() =~= s@.subrange(
                pos as int,
                i as int,
            ));
        }
        if nv > max {
            proof {
                lemma_run_end_bounds(s@, pos as nat);
                lemma_run_end_ge(s@, pos as nat, (i + 1) as nat);
                let e = run_end(s@, pos as nat);
                let run = s@.subrange(pos as int, e as int);
                assert(forall|k: int| 0 <= k < run.len() ==> is_digit(#[trigger] run[k]));
                lemma_decimal_prefix_le(run, (i + 1 - pos) as nat);
                assert(run.subrange(0, i + 1 - pos) =~= s@.subrange(pos as int, i + 1));
                assert(decimal(s@.subrange(pos as int, i + 1)) == nv);
            }
            return None;
        }
        v = nv;
        i = i + 1;
    }
    proof {
        lemma_run_end(s@, pos as nat, i as nat);
    }
    if i == pos {
        return None;
    }
    Some((i, v))
}

} // verus!
