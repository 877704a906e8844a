use vstd::prelude::*;
use vstd::string::*;

use crate::numbers::decimal_value;
use crate::numbers::digit_part;
use crate::numbers::is_decimal_literal;
use crate::numbers::parse_u64;

verus! {

#[verifier::external_type_specification]
#[verifier::external_body]
pub struct ExInstant(std::time::Instant);

/// Relies on `std::time::Instant::now`: a monotonic timestamp.
#[verifier::external_body]
pub fn clock_start() -> std::time::Instant {
    std::time::Instant::now()
}

/// Relies on `std::time::Instant::elapsed`: the wall-clock time since
/// `start`, converted to whole milliseconds.
#[verifier::external_body]
pub fn clock_elapsed_ms(start: &std::time::Instant) -> u128 {
    start.elapsed().as_millis()
}

/// The whitespace that separates the fields of a Linux statm record.
pub open spec fn is_space(c: char) -> bool {
    c == ' ' || c == '\t' || c == '\n' || c == '\r'
}

/// The first position at or after `i` that does not hold whitespace.
pub open spec fn skip_space(s: Seq<char>, i: int) -> int
    decreases s.len() - i,
{
    if i < 0 || i >= s.len() || !is_space(s[i]) {
        i
    } else {
        skip_space(s, i + 1)
    }
}

/// The first position at or after `i` that holds whitespace (or the end).
pub open spec fn skip_field(s: Seq<char>, i: int) -> int
    decreases s.len() - i,
{
    if i < 0 || i >= s.len() || is_space(s[i]) {
        i
    } else {
        skip_field(s, i + 1)
    }
}

/// The second whitespace-separated field of `s`; empty if `s` has fewer
/// than two fields.
pub open spec fn second_field(s: Seq<char>) -> Seq<char> {
    let a = skip_space(s, 0);
    let b = skip_field(s, a);
    let c = skip_space(s, b);
    let d = skip_field(s, c);
    s.subrange(c, d)
}

/// The resident-set size in kilobytes encoded in the contents of a Linux
/// statm record: the second field is the resident page count, and a page is
/// 4 KiB. The measurement is best-effort, so a missing, non-numeric or
/// overflowing field reads as zero rather than failing.
pub open spec fn resident_kb_of(s: Seq<char>) -> int {
    let f = second_field(s);
    if is_decimal_literal(f) && decimal_value(digit_part(f)) * 4 <= u64::MAX {
        decimal_value(digit_part(f)) * 4
    } else {
        0
    }
}

fn scan_space(s: &str, from: usize) -> (r: usize)
    requires
        from <= s@.len(),
    ensures
        from <= r <= s@.len(),
        r == skip_space(s@, from as int),
{
    let n = s.unicode_len();
    let mut i = from;
    while i < n
        invariant
            from <= i <= n,
            n == s@.len(),
            skip_space(s@, from as int) == skip_space(s@, i as int),
        decreases n - i,
    {
        let c = s.get_char(i);
        if !(c == ' ' || c == '\t' || c == '\n' || c == '\r') {
            return i;
        }
        i = i + 1;
    }
    i
}

fn scan_field(s: &str, from: usize) -> (r: usize)
    requires
        from <= s@.len(),
    ensures
        from <= r <= s@.len(),
        r == skip_field(s@, from as int),
{
    let n = s.unicode_len();
    let mut i = from;
    while i < n
        invariant
            from <= i <= n,
            n == s@.len(),
            skip_field(s@, from as int) == skip_field(s@, i as int),
        decreases n - i,
    {
        let c = s.get_char(i);
        if c == ' ' || c == '\t' || c == '\n' || c == '\r' {
            return i;
        }
        i = i + 1;
    }
    i
}

/// Reads the resident-set size, in kilobytes, out of the contents of a
/// Linux statm record.
pub fn statm_resident_kb(s: &str) -> (r: u64)
    ensures
        r == resident_kb_of(s@),
{
    let a = scan_space(s, 0);
    let b = scan_field(s, a);
    let c = scan_space(s, b);
    let d = scan_field(s, c);
    let field = s.substring_char(c, d);
    proof {
        assert(field@ =~= second_field(s@));
    }
    match parse_u64(field) {
        Some(v) => match v.checked_mul(4) {
            Some(kb) => kb,
            None => 0,
        },
        None => 0,
    }
}

} // verus!
