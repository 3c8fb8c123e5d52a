//! Timestamped filename generation for stored uploads.
//!
//! A stored file is named `<timestamp>.<extension>`, with the timestamp at
//! one-second resolution (`YYYY-MM-DD_HH-MM-SS`). The generator makes no
//! uniqueness promise: two uploads of the same category within the same
//! second get the same name, and the later write overwrites the earlier
//! file. That weakness is deliberate and is stated as a law below.

use vstd::prelude::*;
use vstd::string::StringExecFns;
use crate::category::Category;
use crate::category::spec_extension;

verus! {

broadcast use vstd::string::group_string_axioms;

/// A wall-clock instant at one-second resolution, held as plain calendar
/// fields (UTC).
#[derive(Clone, Copy, PartialEq, Eq, Structural, Debug)]
pub struct Timestamp {
    pub year: i32,
    pub month: u32,
    pub day: u32,
    pub hour: u32,
    pub minute: u32,
    pub second: u32,
}

impl Timestamp {
    /// Every calendar field within its range. The year is unconstrained
    /// here: the clock may stand anywhere.
    pub open spec fn wf(&self) -> bool {
        &&& 1 <= self.month <= 12
        &&& 1 <= self.day <= 31
        &&& self.hour <= 23
        &&& self.minute <= 59
        &&& self.second <= 59
    }

    /// Well-formed, with a year that fits the four-digit `YYYY` field of
    /// the filename format.
    pub open spec fn formattable(&self) -> bool {
        self.wf() && 0 <= self.year <= 9999
    }

    /// Decides [`Self::formattable`].
    pub fn is_formattable(&self) -> (b: bool)
        ensures
            b == self.formattable(),
    {
        1 <= self.month && self.month <= 12 && 1 <= self.day && self.day <= 31 && self.hour <= 23
            && self.minute <= 59 && self.second <= 59 && 0 <= self.year && self.year <= 9999
    }
}

/// The decimal digit character for `d < 10`.
pub open spec fn digit_char(d: nat) -> char {
    if d == 0 {
        '0'
    } else if d == 1 {
        '1'
    } else if d == 2 {
        '2'
    } else if d == 3 {
        '3'
    } else if d == 4 {
        '4'
    } else if d == 5 {
        '5'
    } else if d == 6 {
        '6'
    } else if d == 7 {
        '7'
    } else if d == 8 {
        '8'
    } else {
        '9'
    }
}

/// `n < 100` rendered as exactly two decimal digits, zero-padded.
pub open spec fn spec_two_digits(n: nat) -> Seq<char> {
    seq![digit_char(n / 10), digit_char(n % 10)]
}

/// `n < 10000` rendered as exactly four decimal digits, zero-padded.
pub open spec fn spec_four_digits(n: nat) -> Seq<char> {
    spec_two_digits(n / 100) + spec_two_digits(n % 100)
}

/// The `YYYY-MM-DD_HH-MM-SS` rendering of a timestamp.
pub open spec fn spec_timestamp(ts: Timestamp) -> Seq<char> {
    spec_four_digits(ts.year as nat) + seq!['-'] + spec_two_digits(ts.month as nat) + seq!['-']
        + spec_two_digits(ts.day as nat) + seq!['_'] + spec_two_digits(ts.hour as nat)
        + seq!['-'] + spec_two_digits(ts.minute as nat) + seq!['-'] + spec_two_digits(
        ts.second as nat,
    )
}

/// The full filename for an upload: `<timestamp>.<extension>`.
pub open spec fn spec_file_name(ts: Timestamp, c: Category) -> Seq<char> {
    spec_timestamp(ts) + seq!['.'] + spec_extension(c)
}

fn digit_str(d: u32) -> (r: &'static str)
    requires
        d < 10,
    ensures
        r@ == seq![digit_char(d as nat)],
{
    proof {
        reveal_strlit("0");
        reveal_strlit("1");
        reveal_strlit("2");
        reveal_strlit("3");
        reveal_strlit("4");
        reveal_strlit("5");
        reveal_strlit("6");
        reveal_strlit("7");
        reveal_strlit("8");
        reveal_strlit("9");
    }
    let r = match d {
        0 => "0",
        1 => "1",
        2 => "2",
        3 => "3",
        4 => "4",
        5 => "5",
        6 => "6",
        7 => "7",
        8 => "8",
        _ => "9",
    };
    proof {
        assert(r@ =~= seq![digit_char(d as nat)]);
    }
    r
}

fn append_two_digits(out: &mut String, n: u32)
    requires
        n < 100,
    ensures
        final(out)@ == old(out)@ + spec_two_digits(n as nat),
{
    out.append(digit_str(n / 10));
    out.append(digit_str(n % 10));
    proof {
        assert(out@ =~= old(out)@ + spec_two_digits(n as nat));
    }
}

fn append_four_digits(out: &mut String, n: u32)
    requires
        n < 10000,
    ensures
        final(out)@ == old(out)@ + spec_four_digits(n as nat),
{
    append_two_digits(out, n / 100);
    append_two_digits(out, n % 100);
    proof {
        assert(out@ =~= old(out)@ + spec_four_digits(n as nat));
    }
}

/// Renders a timestamp as `YYYY-MM-DD_HH-MM-SS`, every field zero-padded.
pub fn format_timestamp(ts: &Timestamp) -> (r: String)
    requires
        ts.formattable(),
    ensures
        r@ == spec_timestamp(*ts),
{
    let mut out = String::new();
    append_four_digits(&mut out, ts.year as u32);
    out.append("-");
    append_two_digits(&mut out, ts.month);
    out.append("-");
    append_two_digits(&mut out, ts.day);
    out.append("_");
    append_two_digits(&mut out, ts.hour);
    out.append("-");
    append_two_digits(&mut out, ts.minute);
    out.append("-");
    append_two_digits(&mut out, ts.second);
    proof {
        reveal_strlit("-");
        reveal_strlit("_");
        assert(out@ =~= spec_timestamp(*ts));
    }
    out
}

/// Builds the storage filename `<timestamp>.<extension>` for a category.
/// No uniqueness is promised: the name depends only on the second and the
/// category.
pub fn generate_file_name(ts: &Timestamp, c: Category) -> (r: String)
    requires
        ts.formattable(),
    ensures
        r@ == spec_file_name(*ts, c),
{
    let mut out = format_timestamp(ts);
    out.append(".");
    out.append(c.extension());
    proof {
        reveal_strlit(".");
        assert(out@ =~= spec_file_name(*ts, c));
    }
    out
}

/// Law: the filename is determined by the second-resolution timestamp and
/// the category alone. Two uploads of the same category within the same
/// one-second window therefore get the same name, and the later write
/// overwrites the earlier file — expected behaviour, not a failure.
pub proof fn lemma_same_second_same_file_name(a: Timestamp, b: Timestamp, c: Category)
    requires
        a.year == b.year,
        a.month == b.month,
        a.day == b.day,
        a.hour == b.hour,
        a.minute == b.minute,
        a.second == b.second,
    ensures
        spec_file_name(a, c) == spec_file_name(b, c),
{
    assert(a == b);
}

/// Relies on chrono's `Utc::now` for the current instant and on its
/// `Datelike` / `Timelike` accessors, whose documentation bounds the
/// fields: month 1 to 12, day 1 to 31, hour 0 to 23, minute and second
/// 0 to 59. Nothing is promised of the year.
#[verifier::external_body]
pub(crate) fn now_timestamp() -> (ts: Timestamp)
    ensures
        ts.wf(),
{
    let now = chrono::Utc::now();
    Timestamp {
        year: chrono::Datelike::year(&now),
        month: chrono::Datelike::month(&now),
        day: chrono::Datelike::day(&now),
        hour: chrono::Timelike::hour(&now),
        minute: chrono::Timelike::minute(&now),
        second: chrono::Timelike::second(&now),
    }
}

/// Builds the storage filename for the given instant: `Some` of exactly
/// the formattable timestamps, with the exact name, and `None` of every
/// other.
pub fn file_name_for(ts: &Timestamp, c: Category) -> (r: Option<String>)
    ensures
        ts.formattable() ==> (r matches Some(name) && name@ == spec_file_name(*ts, c)),
        !ts.formattable() ==> r is None,
{
    if ts.is_formattable() {
        Some(generate_file_name(ts, c))
    } else {
        None
    }
}

/// Generates a filename for an upload arriving now. Returns `None` only
/// when the clock's year does not fit the four-digit `YYYY` field.
pub fn fresh_file_name(c: Category) -> (r: Option<String>)
    ensures
        r matches Some(name) ==> exists|ts: Timestamp|
            ts.formattable() && name@ == spec_file_name(ts, c),
{
    let ts = now_timestamp();
    let r = file_name_for(&ts, c);
    proof {
        assert(r matches Some(name) ==> ts.formattable() && name@ == spec_file_name(ts, c));
    }
    r
}

} // verus!
