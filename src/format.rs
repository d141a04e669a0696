//! Human-readable sizes, rates and clipped labels.

use vstd::prelude::*;
use vstd::string::*;
use vstd::utf8::*;

verus! {

/// The character of a decimal digit.
pub open spec fn digit_char(d: int) -> char
    recommends
        0 <= d < 10,
{
    seq!['0', '1', '2', '3', '4', '5', '6', '7', '8', '9'][d]
}

/// The decimal notation of `n`, with no leading zeros.
pub open spec fn decimal(n: nat) -> Seq<char>
    decreases n,
{
    if n < 10 {
        seq![digit_char(n as int)]
    } else {
        decimal(n / 10).push(digit_char((n % 10) as int))
    }
}

fn digit_str(d: u128) -> (r: &'static str)
    requires
        d < 10,
    ensures
        r@ == seq![digit_char(d as int)],
{
    proof {
        reveal_strlit("0");
        reveal_strlit("1");
        reveal_strlit("2");
        reveal_strlit("3");
        reveal_strlit("4");
        reveal_strlit("5");
        reveal_strlit("6");
        reveal_strlit("7");
        reveal_strlit("8");
        reveal_strlit("9");
    }
    let r = if d == 0 {
        "0"
    } else if d == 1 {
        "1"
    } else if d == 2 {
        "2"
    } else if d == 3 {
        "3"
    } else if d == 4 {
        "4"
    } else if d == 5 {
        "5"
    } else if d == 6 {
        "6"
    } else if d == 7 {
        "7"
    } else if d == 8 {
        "8"
    } else {
        "9"
    };
    assert(r@ =~= seq![digit_char(d as int)]);
    r
}

/// Writes `n` in decimal.
pub fn decimal_string(n: u128) -> (r: String)
    ensures
        r@ == decimal(n as nat),
    decreases n,
{
    if n < 10 {
        String::from_str(digit_str(n))
    } else {
        let mut s = decimal_string(n / 10);
        s.append(digit_str(n % 10));
        s
    }
}


/// `bytes / unit` to two decimal places, rounded to nearest with ties to
/// even, as hundredths.
pub open spec fn hundredths(bytes: nat, unit: nat) -> nat
    recommends
        unit > 0,
{
    let h = (bytes * 100) / unit;
    let rem = (bytes * 100) % unit;
    if 2 * rem > unit || (2 * rem == unit && h % 2 == 1) {
        h + 1
    } else {
        h
    }
}

/// A count of hundredths written with two decimals.
pub open spec fn fixed2(h: nat) -> Seq<char> {
    decimal(h / 100) + seq!['.', digit_char(((h % 100) / 10) as int), digit_char((h % 10) as int)]
}

pub open spec fn kib() -> nat {
    1024
}

pub open spec fn mib() -> nat {
    1024 * 1024
}

pub open spec fn gib() -> nat {
    1024 * 1024 * 1024
}

/// A byte count in the largest binary unit that it reaches: whole bytes
/// below one KB, otherwise two decimals of KB, MB or GB.
pub open spec fn bytes_text(bytes: nat) -> Seq<char> {
    if bytes >= gib() {
        fixed2(hundredths(bytes, gib())) + " GB"@
    } else if bytes >= mib() {
        fixed2(hundredths(bytes, mib())) + " MB"@
    } else if bytes >= kib() {
        fixed2(hundredths(bytes, kib())) + " KB"@
    } else {
        decimal(bytes) + " B"@
    }
}

fn fixed2_string(h: u128) -> (r: String)
    ensures
        r@ == fixed2(h as nat),
{
    let mut s = decimal_string(h / 100);
    proof {
        reveal_strlit(".");
    }
    s.append(".");
    s.append(digit_str((h % 100) / 10));
    s.append(digit_str(h % 10));
    assert(s@ =~= fixed2(h as nat));
    s
}

fn scaled_string(bytes: u64, unit: u128) -> (r: String)
    requires
        0 < unit <= 1024 * 1024 * 1024,
    ensures
        r@ == fixed2(hundredths(bytes as nat, unit as nat)),
{
    let t: u128 = bytes as u128 * 100;
    let h = t / unit;
    let rem = t % unit;
    assert(h <= t) by (nonlinear_arith)
        requires
            h == t / unit,
            unit > 0,
    ;
    let rounded = if 2 * rem > unit || (2 * rem == unit && h % 2 == 1) {
        h + 1
    } else {
        h
    };
    fixed2_string(rounded)
}

/// Formats a byte count for display ("512 B", "1.50 KB", "3.00 GB").
pub fn format_bytes(bytes: u64) -> (r: String)
    ensures
        r@ == bytes_text(bytes as nat),
{
    let kb: u128 = 1024;
    let mb: u128 = 1024 * 1024;
    let gb: u128 = 1024 * 1024 * 1024;
    let b = bytes as u128;
    if b >= gb {
        let mut s = scaled_string(bytes, gb);
        s.append(" GB");
        s
    } else if b >= mb {
        let mut s = scaled_string(bytes, mb);
        s.append(" MB");
        s
    } else if b >= kb {
        let mut s = scaled_string(bytes, kb);
        s.append(" KB");
        s
    } else {
        let mut s = decimal_string(b);
        s.append(" B");
        s
    }
}

/// Formats a rate in bytes per second: the byte count followed by "/s".
pub fn format_speed(bytes_per_sec: u64) -> (r: String)
    ensures
        r@ == bytes_text(bytes_per_sec as nat) + "/s"@,
{
    let mut s = format_bytes(bytes_per_sec);
    s.append("/s");
    s
}


/// Whether `truncate_str(s, max_len)` is defined: a text that does not fit
/// must leave room for at least the ellipsis.
pub open spec fn truncatable(s: &str, max_len: usize) -> bool {
    s.spec_bytes().len() > max_len ==> max_len >= 1
}

/// `b` is the last character boundary of `bytes` at or before `limit`.
pub open spec fn last_boundary(bytes: Seq<u8>, limit: int, b: int) -> bool {
    &&& 0 <= b <= limit
    &&& is_char_boundary(bytes, b)
    &&& forall|c: int| b < c <= limit ==> !is_char_boundary(bytes, c)
}

/// Clips a label to `max_len` bytes: a text that fits is returned as it is;
/// a longer one keeps its bytes up to the last character boundary at or
/// before `max_len - 1`, followed by an ellipsis.
pub fn truncate_str(s: &str, max_len: usize) -> (r: String)
    requires
        truncatable(s, max_len),
    ensures
        s.spec_bytes().len() <= max_len ==> r@ == s@,
        s.spec_bytes().len() > max_len ==> r@.len() >= 1 && r@.last() == '…' && exists|b: int|
            #[trigger] last_boundary(s.spec_bytes(), max_len - 1, b) && encode_utf8(r@.drop_last())
                == s.spec_bytes().subrange(0, b),
{
    if s.as_bytes().len() > max_len {
        proof {
            encode_utf8_valid_utf8(s@);
            is_char_boundary_start_end_of_seq(s.spec_bytes());
        }
        let mut b: usize = max_len - 1;
        while !s.is_char_boundary(b)
            invariant
                b <= max_len - 1,
                max_len - 1 < s.spec_bytes().len(),
                is_char_boundary(s.spec_bytes(), 0),
                forall|c: int| b < c <= max_len - 1 ==> !is_char_boundary(s.spec_bytes(), c),
            decreases b,
        {
            b = b - 1;
        }
        assert(last_boundary(s.spec_bytes(), max_len - 1, b as int));
        let (head, _) = s.split_at(b);
        let r = String::from_str(head).concat("…");
        proof {
            reveal_strlit("…");
            assert("…"@ =~= seq!['…']);
            assert(r@.drop_last() =~= head@);
            assert(head.spec_bytes() == encode_utf8(head@));
        }
        r
    } else {
        String::from_str(s)
    }
}

} // verus!
