//! Byte-level scanning primitives shared by the counter-text parsers: splitting
//! a byte stream into newline-terminated lines, splitting a line into
//! whitespace-separated tokens, and reading unsigned decimal numbers.

use vstd::prelude::*;

verus! {

/// Bytes that separate tokens within one line: space, tab, carriage return.
pub open spec fn is_ws(b: u8) -> bool {
    b == 32 || b == 9 || b == 13
}

/// ASCII decimal digit.
pub open spec fn is_digit(b: u8) -> bool {
    48 <= b <= 57
}

/// Number of bytes from `pos` up to (excluding) the next newline, or to the
/// end of `s` when no newline follows.
pub open spec fn line_len(s: Seq<u8>, pos: int) -> nat
    decreases s.len() - pos,
{
    if pos < 0 || pos >= s.len() || s[pos] == 10 {
        0
    } else {
        1 + line_len(s, pos + 1)
    }
}

/// Length of the whitespace run starting at `pos`.
pub open spec fn ws_len(s: Seq<u8>, pos: int) -> nat
    decreases s.len() - pos,
{
    if pos < 0 || pos >= s.len() || !is_ws(s[pos]) {
        0
    } else {
        1 + ws_len(s, pos + 1)
    }
}

/// Length of the token (run of non-whitespace bytes) starting at `pos`.
pub open spec fn tok_len(s: Seq<u8>, pos: int) -> nat
    decreases s.len() - pos,
{
    if pos < 0 || pos >= s.len() || is_ws(s[pos]) {
        0
    } else {
        1 + tok_len(s, pos + 1)
    }
}

/// Start position of the `k`-th whitespace-separated token at or after `pos`.
/// When fewer than `k + 1` tokens remain, this ends up at `s.len()`.
pub open spec fn tok_start(s: Seq<u8>, pos: int, k: nat) -> int
    decreases k,
{
    let start = pos + ws_len(s, pos);
    if k == 0 {
        start
    } else {
        tok_start(s, start + tok_len(s, start), (k - 1) as nat)
    }
}

/// The `k`-th whitespace-separated token of `s` (empty when missing).
pub open spec fn token(s: Seq<u8>, k: nat) -> Seq<u8> {
    let st = tok_start(s, 0, k);
    s.subrange(st, st + tok_len(s, st))
}

/// Value of a digit string, most significant digit first.
pub open spec fn digits_val(t: Seq<u8>) -> int
    decreases t.len(),
{
    if t.len() == 0 {
        0
    } else {
        digits_val(t.drop_last()) * 10 + (t.last() - 48)
    }
}

/// Every byte of `t` is an ASCII decimal digit.
pub open spec fn all_digits(t: Seq<u8>) -> bool {
    forall|i: int| 0 <= i < t.len() ==> is_digit(#[trigger] t[i])
}

/// The number a token stands for: its decimal value when it is a non-empty
/// digit string whose value fits in a `u64`, and 0 otherwise (missing,
/// malformed and overflowing fields all default to 0).
pub open spec fn num_of(t: Seq<u8>) -> u64 {
    if t.len() > 0 && all_digits(t) && digits_val(t) <= u64::MAX {
        digits_val(t) as u64
    } else {
        0
    }
}

/// The number carried by the `k`-th token of a line.
pub open spec fn field_num(line: Seq<u8>, k: nat) -> u64 {
    num_of(token(line, k))
}

/// Find the end of the line that starts at `pos`.
pub fn find_line_end(s: &[u8], pos: usize) -> (e: usize)
    requires
        pos <= s@.len(),
    ensures
        e == pos + line_len(s@, pos as int),
        pos <= e <= s@.len(),
{
    let mut j: usize = pos;
    while j < s.len() && *vstd::slice::slice_index_get(s, j) != 10
        invariant
            pos <= j <= s@.len(),
            line_len(s@, pos as int) == (j - pos) + line_len(s@, j as int),
        decreases s@.len() - j,
    {
        assert(line_len(s@, j as int) == 1 + line_len(s@, j + 1));
        j = j + 1;
    }
    assert(line_len(s@, j as int) == 0);
    j
}

/// Runtime counterpart of [`is_ws`].
fn is_ws_byte(b: u8) -> (r: bool)
    ensures
        r == is_ws(b),
{
    b == 32 || b == 9 || b == 13
}

/// Find the end of the whitespace run that starts at `pos`.
pub fn skip_ws(s: &[u8], pos: usize) -> (e: usize)
    requires
        pos <= s@.len(),
    ensures
        e == pos + ws_len(s@, pos as int),
        pos <= e <= s@.len(),
{
    let mut j: usize = pos;
    while j < s.len() && is_ws_byte(*vstd::slice::slice_index_get(s, j))
        invariant
            pos <= j <= s@.len(),
            ws_len(s@, pos as int) == (j - pos) + ws_len(s@, j as int),
        decreases s@.len() - j,
    {
        assert(ws_len(s@, j as int) == 1 + ws_len(s@, j + 1));
        j = j + 1;
    }
    assert(ws_len(s@, j as int) == 0);
    j
}

/// Runtime counterpart of the negation of [`is_ws`].
fn is_tok_byte(b: u8) -> (r: bool)
    ensures
        r == !is_ws(b),
{
    !(b == 32 || b == 9 || b == 13)
}

/// Find the end of the token that starts at `pos`.
pub fn find_tok_end(s: &[u8], pos: usize) -> (e: usize)
    requires
        pos <= s@.len(),
    ensures
        e == pos + tok_len(s@, pos as int),
        pos <= e <= s@.len(),
{
    let mut j: usize = pos;
    while j < s.len() && is_tok_byte(*vstd::slice::slice_index_get(s, j))
        invariant
            pos <= j <= s@.len(),
            tok_len(s@, pos as int) == (j - pos) + tok_len(s@, j as int),
        decreases s@.len() - j,
    {
        assert(tok_len(s@, j as int) == 1 + tok_len(s@, j + 1));
        j = j + 1;
    }
    assert(tok_len(s@, j as int) == 0);
    j
}

proof fn lemma_digits_val_nonneg(t: Seq<u8>)
    requires
        all_digits(t),
    ensures
        digits_val(t) >= 0,
    decreases t.len(),
{
    if t.len() > 0 {
        assert(all_digits(t.drop_last()));
        lemma_digits_val_nonneg(t.drop_last());
    }
}

/// Read the decimal number written in `s[start..end]`, with 0 for anything
/// that is not a plain digit string that fits in a `u64`.
pub fn parse_u64_digits(s: &[u8], start: usize, end: usize) -> (v: u64)
    requires
        start <= end <= s@.len(),
    ensures
        v == num_of(s@.subrange(start as int, end as int)),
{
    let ghost t = s@.subrange(start as int, end as int);
    if start == end {
        assert(t.len() == 0);
        return 0;
    }
    let mut acc: u64 = 0;
    let mut overflow = false;
    let mut i: usize = start;
    while i < end
        invariant
            start <= i <= end <= s@.len(),
            t == s@.subrange(start as int, end as int),
            all_digits(t.take(i - start)),
            !overflow ==> acc == digits_val(t.take(i - start)),
            overflow ==> digits_val(t.take(i - start)) > u64::MAX,
        decreases end - i,
    {
        let b = *vstd::slice::slice_index_get(s, i);
        assert(t[i - start] == s@[i as int]);
        if !(48 <= b && b <= 57) {
            assert(!is_digit(t[i - start]));
            assert(!all_digits(t));
            return 0;
        }
        let d: u64 = (b - 48) as u64;
        proof {
            assert(t.take(i - start + 1).drop_last() =~= t.take(i - start));
            assert(t.take(i - start + 1).last() == t[i - start]);
            assert(digits_val(t.take(i - start + 1)) == digits_val(t.take(i - start)) * 10 + (
            b - 48));
        }
        if !overflow {
            match acc.checked_mul(10) {
                Some(m) => {
                    match m.checked_add(d) {
                        Some(n) => {
                            acc = n;
                        },
                        None => {
                            overflow = true;
                        },
                    }
                },
                None => {
                    overflow = true;
                },
            }
        } else {
            proof {
                assert(all_digits(t.take(i - start)));
                lemma_digits_val_nonneg(t.take(i - start));
                assert(digits_val(t.take(i - start)) * 10 >= digits_val(t.take(i - start)))
                    by {
                    assert(digits_val(t.take(i - start)) >= 0);
                }
            }
        }
        i = i + 1;
    }
    assert(t.take(end - start) =~= t);
    if overflow {
        assert(num_of(t) == 0);
        0
    } else {
        acc
    }
}

/// Do the bytes `s[start..end]` spell exactly the bytes of `lit`?
pub fn range_eq(s: &[u8], start: usize, end: usize, lit: &[u8]) -> (r: bool)
    requires
        start <= end <= s@.len(),
    ensures
        r == (s@.subrange(start as int, end as int) == lit@),
{
    let ghost t = s@.subrange(start as int, end as int);
    if end - start != lit.len() {
        assert(t.len() != lit@.len());
        return false;
    }
    let mut i: usize = 0;
    while i < lit.len()
        invariant
            0 <= i <= lit@.len(),
            start <= end <= s@.len(),
            end - start == lit@.len(),
            t == s@.subrange(start as int, end as int),
            forall|j: int| 0 <= j < i ==> t[j] == lit@[j],
        decreases lit@.len() - i,
    {
        if *vstd::slice::slice_index_get(s, start + i) != *vstd::slice::slice_index_get(lit, i) {
            assert(t[i as int] == s@[start + i]);
            return false;
        }
        assert(t[i as int] == s@[start + i]);
        i = i + 1;
    }
    proof {
        assert(t =~= lit@);
    }
    true
}

/// Bounds of the `k`-th token of `line`: its start and its end.
pub fn token_range(line: &[u8], k: usize) -> (r: (usize, usize))
    ensures
        r.0 == tok_start(line@, 0, k as nat),
        r.1 == r.0 + tok_len(line@, r.0 as int),
        0 <= r.0 <= r.1 <= line@.len(),
{
    let mut i: usize = 0;
    let mut pos: usize = 0;
    while i < k
        invariant
            0 <= i <= k,
            pos <= line@.len(),
            tok_start(line@, 0, k as nat) == tok_start(line@, pos as int, (k - i) as nat),
        decreases k - i,
    {
        let st = skip_ws(line, pos);
        let en = find_tok_end(line, st);
        assert(tok_start(line@, pos as int, (k - i) as nat) == tok_start(
            line@,
            st + tok_len(line@, st as int),
            (k - i - 1) as nat,
        ));
        pos = en;
        i = i + 1;
    }
    let st = skip_ws(line, pos);
    let en = find_tok_end(line, st);
    assert(tok_start(line@, pos as int, 0) == st);
    (st, en)
}

} // verus!
