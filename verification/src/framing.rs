//! The ISO 2709 record framing, as far as the upstream parser walks it:
//! a 24-byte leader, twelve-byte directory entries up to a field
//! separator, then the data section the entries point into, closed by a
//! record separator. The upstream parser trusts each entry's starting
//! position and length when it slices the data section, and so steps
//! outside its input on a directory that lies; `stream_safe` describes
//! the buffers on which it stays inside, and `stream_framing_ok` checks
//! that before the parser is ever called.

use vstd::prelude::*;

use crate::leader::{all_digits, lemma_decimal_value_bound, pow10, spec_decimal_value};

verus! {

/// Whether `b` is an ASCII decimal digit.
pub open spec fn digit_byte(b: u8) -> bool {
    0x30 <= b <= 0x39
}

/// The length of the run of leading digit bytes of `w`.
pub open spec fn digit_run_len(w: Seq<u8>) -> int
    decreases w.len(),
{
    if w.len() == 0 || !digit_byte(w[0]) {
        0
    } else {
        1 + digit_run_len(w.subrange(1, w.len() as int))
    }
}

/// The number written by the leading digit run of `w`. The upstream
/// parser reads each fixed-width numeric field of a directory entry as
/// the value of the field's leading digits.
pub open spec fn digit_run_value(w: Seq<u8>) -> int {
    spec_decimal_value(w.subrange(0, digit_run_len(w)))
}

proof fn lemma_digit_run_len_bounds(w: Seq<u8>)
    ensures
        0 <= digit_run_len(w) <= w.len(),
        all_digits(w.subrange(0, digit_run_len(w))),
    decreases w.len(),
{
    if w.len() == 0 || !digit_byte(w[0]) {
    } else {
        let t = w.subrange(1, w.len() as int);
        lemma_digit_run_len_bounds(t);
        let k = digit_run_len(t);
        assert forall|i: int| 0 <= i < 1 + k implies 0x30 <= #[trigger] w.subrange(
            0,
            1 + k,
        )[i] <= 0x39 by {
            if i == 0 {
            } else {
                assert(w.subrange(0, 1 + k)[i] == t.subrange(0, k)[i - 1]);
            }
        }
    }
}

proof fn lemma_digit_run_len_agrees(w: Seq<u8>, k: int)
    requires
        0 <= k <= w.len(),
        forall|i: int| 0 <= i < k ==> digit_byte(#[trigger] w[i]),
        k == w.len() || !digit_byte(w[k]),
    ensures
        digit_run_len(w) == k,
    decreases w.len(),
{
    if k == 0 {
    } else {
        let t = w.subrange(1, w.len() as int);
        lemma_digit_run_len_agrees(t, k - 1);
    }
}

/// The leading digit run's value is non-negative and bounded by ten to
/// the run's length.
proof fn lemma_digit_run_value_bounds(w: Seq<u8>)
    ensures
        0 <= digit_run_value(w) < pow10(digit_run_len(w) as nat),
        0 <= digit_run_len(w) <= w.len(),
{
    lemma_digit_run_len_bounds(w);
    lemma_decimal_value_bound(w.subrange(0, digit_run_len(w)));
}

proof fn lemma_pow10_pos(n: nat)
    ensures
        pow10(n) >= 1,
    decreases n,
{
    if n > 0 {
        lemma_pow10_pos((n - 1) as nat);
    }
}

proof fn lemma_pow10_le(a: nat, b: nat)
    requires
        a <= b,
    ensures
        pow10(a) <= pow10(b),
    decreases b,
{
    if a < b {
        lemma_pow10_le(a, (b - 1) as nat);
        lemma_pow10_pos((b - 1) as nat);
    }
}

/// The value of the four-byte length field of the directory entry at `q`.
pub open spec fn entry_len_val(data: Seq<u8>, q: int) -> int {
    digit_run_value(data.subrange(q + 3, q + 7))
}

/// The value of the five-byte starting-position field of the directory
/// entry at `q`.
pub open spec fn entry_start_val(data: Seq<u8>, q: int) -> int {
    digit_run_value(data.subrange(q + 7, q + 12))
}

/// Whether the upstream parser accepts a directory entry at `q`: twelve
/// bytes present, a three-digit tag, each numeric field opening with a
/// digit, and a starting position that fits sixteen bits.
pub open spec fn entry_parses(data: Seq<u8>, q: int) -> bool {
    &&& 0 <= q
    &&& q + 12 <= data.len()
    &&& digit_byte(data[q])
    &&& digit_byte(data[q + 1])
    &&& digit_byte(data[q + 2])
    &&& digit_byte(data[q + 3])
    &&& digit_byte(data[q + 7])
    &&& entry_start_val(data, q) <= 0xFFFF
}

/// Where the directory scan that started at `q` stops: the first
/// position that holds no further entry.
pub open spec fn dir_end(data: Seq<u8>, q: int) -> int
    decreases data.len() - q,
{
    if entry_parses(data, q) {
        dir_end(data, q + 12)
    } else {
        q
    }
}

/// The directory scan never moves backwards.
pub proof fn lemma_dir_end_ge(data: Seq<u8>, q: int)
    ensures
        dir_end(data, q) >= q,
    decreases data.len() - q,
{
    if entry_parses(data, q) {
        lemma_dir_end_ge(data, q + 12);
    }
}

/// Whether the directory entry at `q` is safe for the parser to act on:
/// the window it names lies inside the `rem` bytes of the data section,
/// and a control entry (tag opening `00`) is never empty.
pub open spec fn entry_safe(data: Seq<u8>, q: int, rem: int) -> bool {
    &&& entry_start_val(data, q) + entry_len_val(data, q) <= rem
    &&& !(data[q] == 0x30 && data[q + 1] == 0x30 && entry_len_val(data, q) == 0)
}

/// Whether every directory entry from `q` up to `d` is safe.
pub open spec fn entries_safe(data: Seq<u8>, q: int, d: int, rem: int) -> bool
    decreases d - q,
{
    if q + 12 <= d {
        entry_safe(data, q, rem) && entries_safe(data, q + 12, d, rem)
    } else {
        true
    }
}

/// The sum of the length fields of the directory entries from `q` up to
/// `d`: how much of the data section the parser consumes after the
/// fields are read.
pub open spec fn entries_total(data: Seq<u8>, q: int, d: int) -> int
    decreases d - q,
{
    if q + 12 <= d {
        entry_len_val(data, q) + entries_total(data, q + 12, d)
    } else {
        0
    }
}

/// The entries' total length is never negative.
pub proof fn lemma_entries_total_nonneg(data: Seq<u8>, q: int, d: int)
    ensures
        entries_total(data, q, d) >= 0,
    decreases d - q,
{
    if q + 12 <= d {
        lemma_digit_run_value_bounds(data.subrange(q + 3, q + 7));
        lemma_entries_total_nonneg(data, q + 12, d);
    }
}

/// Whether the upstream parser can walk the stream from `pos` on
/// without stepping outside it. Wherever a record's directory has the
/// shape the parser accepts, every entry must stay inside the data
/// section that follows; wherever an earlier stage would already stop
/// the parser with an ordinary error, the stream is safe as it stands.
pub open spec fn stream_safe(data: Seq<u8>, pos: int) -> bool
    decreases data.len() - pos,
{
    if pos < 0 || data.len() - pos < 24 {
        true
    } else {
        let d = dir_end(data, pos + 24);
        if !(d < data.len() && data[d] == 0x1E) {
            true
        } else {
            let rem = data.len() - (d + 1);
            if !entries_safe(data, pos + 24, d, rem) {
                false
            } else {
                let total = entries_total(data, pos + 24, d);
                if d + 1 + total >= data.len() {
                    true
                } else if data[d + 1 + total] != 0x1D {
                    true
                } else {
                    proof {
                        lemma_dir_end_ge(data, pos + 24);
                        lemma_entries_total_nonneg(data, pos + 24, d);
                    }
                    stream_safe(data, d + 2 + total)
                }
            }
        }
    }
}

fn window_value(data: &[u8], from: usize, width: usize) -> (v: u32)
    requires
        from + width <= data@.len(),
        width <= 5,
    ensures
        v as int == digit_run_value(data@.subrange(from as int, (from + width) as int)),
{
    let ghost w = data@.subrange(from as int, (from + width) as int);
    let n = data.len();
    let mut value: u32 = 0;
    let mut i: usize = 0;
    while i < width && 0x30 <= data[from + i] && data[from + i] <= 0x39
        invariant
            n == data@.len(),
            from + width <= n,
            width <= 5,
            i <= width,
            w == data@.subrange(from as int, (from + width) as int),
            w.len() == width,
            forall|j: int| 0 <= j < i ==> digit_byte(#[trigger] w[j]),
            value as int == spec_decimal_value(w.subrange(0, i as int)),
        decreases width - i,
    {
        proof {
            let prefix = w.subrange(0, i as int);
            assert(all_digits(prefix));
            lemma_decimal_value_bound(prefix);
            assert(pow10(0) == 1);
            assert(pow10(1) == 10);
            assert(pow10(2) == 100);
            assert(pow10(3) == 1000);
            assert(pow10(4) == 10000);
            assert(value < 10000);
            assert(w.subrange(0, i + 1).drop_last() =~= prefix);
            assert(w.subrange(0, i + 1).last() == w[i as int]);
            assert(w[i as int] == data@[(from + i) as int]);
        }
        value = value * 10 + (data[from + i] - 0x30) as u32;
        i = i + 1;
    }
    proof {
        if i < width {
            assert(w[i as int] == data@[(from + i) as int]);
        }
        lemma_digit_run_len_agrees(w, i as int);
    }
    value
}

fn entry_at(data: &[u8], q: usize) -> (b: bool)
    requires
        q <= data@.len(),
    ensures
        b == entry_parses(data@, q as int),
{
    if data.len() - q < 12 {
        return false;
    }
    if data[q] < 0x30 || data[q] > 0x39 {
        return false;
    }
    if data[q + 1] < 0x30 || data[q + 1] > 0x39 {
        return false;
    }
    if data[q + 2] < 0x30 || data[q + 2] > 0x39 {
        return false;
    }
    if data[q + 3] < 0x30 || data[q + 3] > 0x39 {
        return false;
    }
    if data[q + 7] < 0x30 || data[q + 7] > 0x39 {
        return false;
    }
    let start_val = window_value(data, q + 7, 5);
    start_val <= 0xFFFF
}

/// Walks the whole stream the way the upstream parser does and says
/// whether the parser would stay inside the buffer: true wherever the
/// parser either succeeds or stops with an ordinary error, false on the
/// buffers whose directory reaches outside the data.
pub fn stream_framing_ok(data: &[u8]) -> (b: bool)
    ensures
        b == stream_safe(data@, 0),
{
    let n = data.len();
    let mut pos: usize = 0;
    loop
        invariant
            n == data@.len(),
            pos <= n,
            stream_safe(data@, 0) == stream_safe(data@, pos as int),
        decreases n - pos,
    {
        if n - pos < 24 {
            return true;
        }
        let mut q: usize = pos + 24;
        while entry_at(data, q)
            invariant
                n == data@.len(),
                pos + 24 <= q <= n,
                dir_end(data@, (pos + 24) as int) == dir_end(data@, q as int),
            decreases n - q,
        {
            proof {
                assert(dir_end(data@, q as int) == dir_end(data@, q as int + 12));
            }
            q = q + 12;
        }
        proof {
            assert(dir_end(data@, q as int) == q as int);
        }
        if q >= n || data[q] != 0x1E {
            return true;
        }
        let rem = n - (q + 1);
        let mut e: usize = pos + 24;
        let mut total: u128 = 0;
        while q - e >= 12
            invariant
                n == data@.len(),
                pos + 24 <= e <= q,
                q < n,
                n - pos >= 24,
                stream_safe(data@, 0) == stream_safe(data@, pos as int),
                data@[q as int] == 0x1E,
                dir_end(data@, (pos + 24) as int) == q as int,
                rem == n - q - 1,
                entries_safe(data@, (pos + 24) as int, q as int, rem as int) == entries_safe(
                    data@,
                    e as int,
                    q as int,
                    rem as int,
                ),
                entries_total(data@, (pos + 24) as int, q as int) == total as int + entries_total(
                    data@,
                    e as int,
                    q as int,
                ),
                total as int <= (e as int) * 9999,
            decreases q - e,
        {
            let len_val = window_value(data, e + 3, 4);
            let start_val = window_value(data, e + 7, 5);
            proof {
                assert(len_val as int == entry_len_val(data@, e as int));
                assert(start_val as int == entry_start_val(data@, e as int));
                let w4 = data@.subrange(e as int + 3, e as int + 7);
                let w5 = data@.subrange(e as int + 7, e as int + 12);
                assert(w4.len() == 4);
                assert(w5.len() == 5);
                lemma_digit_run_value_bounds(w4);
                lemma_digit_run_value_bounds(w5);
                lemma_pow10_le(digit_run_len(w4) as nat, 4);
                lemma_pow10_le(digit_run_len(w5) as nat, 5);
                assert(pow10(0) == 1);
                assert(pow10(1) == 10);
                assert(pow10(2) == 100);
                assert(pow10(3) == 1000);
                assert(pow10(4) == 10000);
                assert(pow10(5) == 100000);
                assert(len_val <= 9999);
                assert(start_val <= 99999);
            }
            if (start_val as usize) + (len_val as usize) > rem {
                proof {
                    assert(!entry_safe(data@, e as int, rem as int));
                    assert(!entries_safe(data@, e as int, q as int, rem as int));
                    assert(!stream_safe(data@, pos as int));
                }
                return false;
            }
            if data[e] == 0x30 && data[e + 1] == 0x30 && len_val == 0 {
                proof {
                    assert(!entry_safe(data@, e as int, rem as int));
                    assert(!entries_safe(data@, e as int, q as int, rem as int));
                    assert(!stream_safe(data@, pos as int));
                }
                return false;
            }
            proof {
                assert(entry_safe(data@, e as int, rem as int));
                assert(entries_safe(data@, e as int, q as int, rem as int) == entries_safe(
                    data@,
                    e as int + 12,
                    q as int,
                    rem as int,
                ));
                assert(entries_total(data@, e as int, q as int) == entry_len_val(data@, e as int)
                    + entries_total(data@, e as int + 12, q as int));
            }
            total = total + len_val as u128;
            e = e + 12;
        }
        proof {
            assert(entries_safe(data@, e as int, q as int, rem as int));
            assert(entries_total(data@, e as int, q as int) == 0);
            lemma_entries_total_nonneg(data@, (pos + 24) as int, q as int);
        }
        if total > rem as u128 {
            return true;
        }
        let t: usize = total as usize;
        if q + 1 + t >= n {
            return true;
        }
        if data[q + 1 + t] != 0x1D {
            return true;
        }
        proof {
            assert(stream_safe(data@, pos as int) == stream_safe(data@, (q + 2 + t) as int));
        }
        pos = q + 2 + t;
    }
}

} // verus!
