//! UTC timestamps and their rendering for destination keys, in the
//! fixed format `YYYY_MM_DD HH__MM__SS` with zero-padded fields.
//!
//! The current time itself comes from the clock through one trusted
//! call; everything the pipeline does with it — padding, formatting,
//! and the injectivity that keeps keys of different seconds distinct —
//! is proved here.

use vstd::arithmetic::div_mod::lemma_fundamental_div_mod;
use vstd::prelude::*;
use vstd::string::StringExecFns;

verus! {

/// The decimal digit character for `d` (digits 0 through 9).
pub open spec fn digit_char(d: nat) -> char {
    if d == 0 {
        '0'
    } else if d == 1 {
        '1'
    } else if d == 2 {
        '2'
    } else if d == 3 {
        '3'
    } else if d == 4 {
        '4'
    } else if d == 5 {
        '5'
    } else if d == 6 {
        '6'
    } else if d == 7 {
        '7'
    } else if d == 8 {
        '8'
    } else {
        '9'
    }
}

/// The decimal rendering of `n` in exactly `w` digit characters,
/// zero-padded on the left; digits above the width are dropped.
pub open spec fn pad_fixed(n: nat, w: nat) -> Seq<char>
    decreases w,
{
    if w == 0 {
        Seq::empty()
    } else {
        pad_fixed(n / 10, (w - 1) as nat).push(digit_char(n % 10))
    }
}

/// Ten to the `w`.
pub open spec fn pow10(w: nat) -> nat
    decreases w,
{
    if w == 0 {
        1
    } else {
        10 * pow10((w - 1) as nat)
    }
}

/// A fixed-width rendering has exactly its width of characters.
pub proof fn lemma_pad_fixed_len(n: nat, w: nat)
    ensures
        pad_fixed(n, w).len() == w,
    decreases w,
{
    if w > 0 {
        lemma_pad_fixed_len(n / 10, (w - 1) as nat);
    }
}

/// Two numbers below ten to the width render equally only if they are
/// equal: within its range, the fixed-width rendering is injective.
pub proof fn lemma_pad_fixed_injective(n1: nat, n2: nat, w: nat)
    requires
        n1 < pow10(w),
        n2 < pow10(w),
        pad_fixed(n1, w) == pad_fixed(n2, w),
    ensures
        n1 == n2,
    decreases w,
{
    if w == 0 {
        assert(pow10(0) == 1);
    } else {
        let p1 = pad_fixed(n1 / 10, (w - 1) as nat);
        let p2 = pad_fixed(n2 / 10, (w - 1) as nat);
        assert(p1.push(digit_char(n1 % 10)) == p2.push(digit_char(n2 % 10)));
        lemma_pad_fixed_len(n1 / 10, (w - 1) as nat);
        lemma_pad_fixed_len(n2 / 10, (w - 1) as nat);
        assert(p1.push(digit_char(n1 % 10)).last() == digit_char(n1 % 10));
        assert(digit_char(n1 % 10) == digit_char(n2 % 10));
        assert(n1 % 10 == n2 % 10);
        assert(p1 =~= p2) by {
            assert forall|i: int| 0 <= i < p1.len() implies p1[i] == p2[i] by {
                assert(p1.push(digit_char(n1 % 10))[i] == p1[i]);
                assert(p2.push(digit_char(n2 % 10))[i] == p2[i]);
            }
        }
        lemma_fundamental_div_mod(n1 as int, 10);
        lemma_fundamental_div_mod(n2 as int, 10);
        assert(n1 / 10 < pow10((w - 1) as nat));
        assert(n2 / 10 < pow10((w - 1) as nat));
        lemma_pad_fixed_injective(n1 / 10, n2 / 10, (w - 1) as nat);
    }
}

/// One UTC date and time, to whole seconds, as plain calendar fields.
#[derive(Clone, Copy, PartialEq, Eq, Structural, Debug)]
pub struct UtcTime {
    pub year: u32,
    pub month: u8,
    pub day: u8,
    pub hour: u8,
    pub minute: u8,
    pub second: u8,
}

impl UtcTime {
    /// A well-formed UTC time: calendar field ranges, with the year
    /// bounded below by the Unix epoch and above by the calendar the
    /// clock source supports.
    pub open spec fn wf(self) -> bool {
        &&& 1970 <= self.year <= 262142
        &&& 1 <= self.month <= 12
        &&& 1 <= self.day <= 31
        &&& self.hour <= 23
        &&& self.minute <= 59
        &&& self.second <= 59
    }

}

/// The year field of the timestamp: four zero-padded digits, or six
/// for the far-off years beyond 9999 that the calendar still allows.
pub open spec fn year_chars(y: nat) -> Seq<char> {
    if y < 10000 {
        pad_fixed(y, 4)
    } else {
        pad_fixed(y, 6)
    }
}

/// The rendering of a time in the destination-key timestamp format
/// `YYYY_MM_DD HH__MM__SS`.
pub open spec fn timestamp_chars(t: UtcTime) -> Seq<char> {
    year_chars(t.year as nat) + seq!['_'] + pad_fixed(t.month as nat, 2) + seq!['_'] + pad_fixed(
        t.day as nat,
        2,
    ) + seq![' '] + pad_fixed(t.hour as nat, 2) + seq!['_', '_'] + pad_fixed(t.minute as nat, 2)
        + seq!['_', '_'] + pad_fixed(t.second as nat, 2)
}

fn digit_str(d: u8) -> (s: &'static str)
    requires
        d < 10,
    ensures
        s@ == seq![digit_char(d as nat)],
{
    let s: &'static str = match d {
        0 => "0",
        1 => "1",
        2 => "2",
        3 => "3",
        4 => "4",
        5 => "5",
        6 => "6",
        7 => "7",
        8 => "8",
        _ => "9",
    };
    proof {
        reveal_strlit("0");
        reveal_strlit("1");
        reveal_strlit("2");
        reveal_strlit("3");
        reveal_strlit("4");
        reveal_strlit("5");
        reveal_strlit("6");
        reveal_strlit("7");
        reveal_strlit("8");
        reveal_strlit("9");
        assert(s@ =~= seq![digit_char(d as nat)]);
    }
    s
}

/// Render `n` as exactly two zero-padded decimal digits.
fn two_digits(n: u8) -> (s: String)
    requires
        n < 100,
    ensures
        s@ == pad_fixed(n as nat, 2),
{
    let s = String::from_str(digit_str(n / 10)).concat(digit_str(n % 10));
    proof {
        reveal_with_fuel(pad_fixed, 3);
        assert(s@ =~= pad_fixed(n as nat, 2));
    }
    s
}

/// Render `n` as exactly four zero-padded decimal digits.
fn four_digits(n: u32) -> (s: String)
    requires
        n < 10000,
    ensures
        s@ == pad_fixed(n as nat, 4),
{
    let q1 = n / 10;
    let q2 = q1 / 10;
    let q3 = q2 / 10;
    let s = String::from_str(digit_str((q3 % 10) as u8)).concat(digit_str((q2 % 10) as u8)).concat(
        digit_str((q1 % 10) as u8),
    ).concat(digit_str((n % 10) as u8));
    proof {
        reveal_with_fuel(pad_fixed, 5);
        assert(s@ =~= pad_fixed(n as nat, 4));
    }
    s
}

/// Render `n` as exactly six zero-padded decimal digits.
fn six_digits(n: u32) -> (s: String)
    requires
        n < 1000000,
    ensures
        s@ == pad_fixed(n as nat, 6),
{
    let q1 = n / 10;
    let q2 = q1 / 10;
    let q3 = q2 / 10;
    let q4 = q3 / 10;
    let q5 = q4 / 10;
    let s = String::from_str(digit_str((q5 % 10) as u8)).concat(digit_str((q4 % 10) as u8)).concat(
        digit_str((q3 % 10) as u8),
    ).concat(digit_str((q2 % 10) as u8)).concat(digit_str((q1 % 10) as u8)).concat(
        digit_str((n % 10) as u8),
    );
    proof {
        reveal_with_fuel(pad_fixed, 7);
        assert(s@ =~= pad_fixed(n as nat, 6));
    }
    s
}

/// Render a well-formed time in the timestamp format
/// `YYYY_MM_DD HH__MM__SS`.
pub fn format_timestamp(t: &UtcTime) -> (s: String)
    requires
        t.wf(),
    ensures
        s@ == timestamp_chars(*t),
{
    let mut s = if t.year < 10000 {
        four_digits(t.year)
    } else {
        six_digits(t.year)
    };
    s.append("_");
    s.append(two_digits(t.month).as_str());
    s.append("_");
    s.append(two_digits(t.day).as_str());
    s.append(" ");
    s.append(two_digits(t.hour).as_str());
    s.append("__");
    s.append(two_digits(t.minute).as_str());
    s.append("__");
    s.append(two_digits(t.second).as_str());
    proof {
        reveal_strlit("_");
        reveal_strlit(" ");
        reveal_strlit("__");
        assert(s@ =~= timestamp_chars(*t));
    }
    s
}

/// Relies on chrono's `Utc::now`, read through its `Datelike` and
/// `Timelike` accessors: the current UTC date and time, field by field.
/// `Utc::now` aborts when the system clock reads before the Unix epoch,
/// so a returned year is at least 1970; chrono's calendar keeps years
/// at or below 262142 and the remaining fields in their documented
/// calendar ranges.
#[verifier::external_body]
pub(crate) fn utc_now() -> (t: UtcTime)
    ensures
        t.wf(),
{
    let now = chrono::Utc::now().naive_utc();
    UtcTime {
        year: chrono::Datelike::year(&now) as u32,
        month: chrono::Datelike::month(&now) as u8,
        day: chrono::Datelike::day(&now) as u8,
        hour: chrono::Timelike::hour(&now) as u8,
        minute: chrono::Timelike::minute(&now) as u8,
        second: chrono::Timelike::second(&now) as u8,
    }
}

} // verus!
