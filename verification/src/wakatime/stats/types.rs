//! The snapshot that the statistics service answers with, and the range
//! tokens that it is asked for.

use vstd::prelude::*;
use vstd::string::StringExecFns;

use crate::error::{Error, ErrorKind};
use crate::text::{chars_of, same_text};

verus! {

/// The largest share an entry can have: 100 percent, in hundredths of a
/// percent.
pub const FULL_SHARE: u32 = 10000;

/// The number of cells of the bar that shows a share.
pub const BAR_LENGTH: usize = 25;

/// One entry of a breakdown: a language, an editor, an operating system or
/// a project, with its share of the time.
#[derive(Clone, Debug, PartialEq, Eq)]
pub struct StatItem {
    /// The name to display.
    pub name: String,
    /// The share of the whole, in hundredths of a percent.
    pub percent: u32,
    /// The share of the whole in cells of a bar, rounded to the nearest
    /// cell by whoever read the share.
    pub bar_cells: usize,
    /// The time spent, as the service words it.
    pub text: String,
    /// The time spent, in whole seconds.
    pub total_seconds: u64,
}

impl StatItem {
    /// The share is at most 100 percent, and at most a full bar.
    pub open spec fn wf(&self) -> bool {
        self.percent <= FULL_SHARE && self.bar_cells <= BAR_LENGTH
    }
}

/// Each entry of `items` has a share of at most 100 percent.
pub open spec fn all_wf(items: Seq<StatItem>) -> bool {
    forall|i: int| 0 <= i < items.len() ==> (#[trigger] items[i]).wf()
}

/// A snapshot of the statistics: the total, and four breakdowns, each
/// ranked by the service.
#[derive(Clone, Debug, PartialEq, Eq)]
pub struct StatsData {
    pub languages: Vec<StatItem>,
    pub editors: Vec<StatItem>,
    pub operating_systems: Vec<StatItem>,
    pub projects: Vec<StatItem>,
    /// The time spent in all, in whole seconds.
    pub total_seconds: u64,
    /// Whether the service has computed the snapshot from all the
    /// activity it has received.
    pub is_up_to_date: bool,
}

impl StatsData {
    /// Every share lies between 0 and 100 percent. The shares of one
    /// breakdown need not add up to 100 percent: the service rounds each
    /// on its own.
    pub open spec fn wf(&self) -> bool {
        &&& all_wf(self.languages@)
        &&& all_wf(self.editors@)
        &&& all_wf(self.operating_systems@)
        &&& all_wf(self.projects@)
    }

    /// Whether every share lies between 0 and 100 percent.
    pub fn is_well_formed(&self) -> (r: bool)
        ensures
            r == self.wf(),
    {
        entries_well_formed(&self.languages) && entries_well_formed(&self.editors)
            && entries_well_formed(&self.operating_systems) && entries_well_formed(&self.projects)
    }
}

fn entries_well_formed(items: &Vec<StatItem>) -> (r: bool)
    ensures
        r == all_wf(items@),
{
    let mut i: usize = 0;
    while i < items.len()
        invariant
            i <= items@.len(),
            forall|j: int| 0 <= j < i ==> (#[trigger] items@[j]).wf(),
        decreases items@.len() - i,
    {
        if items[i].percent > FULL_SHARE || items[i].bar_cells > BAR_LENGTH {
            return false;
        }
        i += 1;
    }
    true
}

/// The answer of the statistics service.
#[derive(Clone, Debug, PartialEq, Eq)]
pub struct StatsResponse {
    pub data: StatsData,
}

/// `c` is one of the ten decimal digits.
pub open spec fn is_digit(c: char) -> bool {
    '0' <= c <= '9'
}

/// The number that the decimal digit `c` stands for.
pub open spec fn digit_value(c: char) -> int {
    c as int - '0' as int
}

/// `s` is one of the five relative ranges the service knows by name.
pub open spec fn is_keyword(s: Seq<char>) -> bool {
    ||| s == "last_7_days"@
    ||| s == "last_30_days"@
    ||| s == "last_6_months"@
    ||| s == "last_year"@
    ||| s == "all_time"@
}

/// `s` is a year: exactly four decimal digits.
pub open spec fn is_year(s: Seq<char>) -> bool {
    &&& s.len() == 4
    &&& forall|i: int| 0 <= i < 4 ==> is_digit(#[trigger] s[i])
}

/// `s` is a year, a hyphen and a two-digit month from 01 to 12.
pub open spec fn is_year_month(s: Seq<char>) -> bool {
    &&& s.len() == 7
    &&& is_year(s.subrange(0, 4))
    &&& s[4] == '-'
    &&& is_digit(s[5])
    &&& is_digit(s[6])
    &&& 1 <= 10 * digit_value(s[5]) + digit_value(s[6]) <= 12
}

/// `s` is a range token that the service accepts.
pub open spec fn is_valid_range(s: Seq<char>) -> bool {
    is_keyword(s) || is_year(s) || is_year_month(s)
}

/// The description of the failure for the malformed range token `range`.
pub open spec fn invalid_range_message(range: Seq<char>) -> Seq<char> {
    "Invalid range format: '"@ + range
        + "'. Expected: YYYY, YYYY-MM, or one of: last_7_days, last_30_days, last_6_months, last_year, all_time"@
}

fn digit_at(s: &Vec<char>, i: usize) -> (r: Option<u32>)
    requires
        i < s@.len(),
    ensures
        r is Some <==> is_digit(s@[i as int]),
        r matches Some(d) ==> d == digit_value(s@[i as int]),
{
    let c: char = s[i];
    if c >= '0' && c <= '9' {
        Some(c as u32 - '0' as u32)
    } else {
        None
    }
}

fn all_digits(s: &Vec<char>, from: usize, to: usize) -> (r: bool)
    requires
        from <= to <= s@.len(),
    ensures
        r == forall|i: int| from <= i < to ==> is_digit(#[trigger] s@[i]),
{
    let mut i: usize = from;
    while i < to
        invariant
            from <= i <= to <= s@.len(),
            forall|j: int| from <= j < i ==> is_digit(#[trigger] s@[j]),
        decreases to - i,
    {
        if digit_at(s, i).is_none() {
            return false;
        }
        i += 1;
    }
    true
}

fn keyword(range: &str) -> (r: bool)
    ensures
        r == is_keyword(range@),
{
    same_text(range, "last_7_days") || same_text(range, "last_30_days") || same_text(
        range,
        "last_6_months",
    ) || same_text(range, "last_year") || same_text(range, "all_time")
}

fn year(s: &Vec<char>) -> (r: bool)
    ensures
        r == is_year(s@),
{
    s.len() == 4 && all_digits(s, 0, 4)
}

fn year_month(s: &Vec<char>) -> (r: bool)
    ensures
        r == is_year_month(s@),
{
    if s.len() != 7 {
        return false;
    }
    proof {
        assert forall|i: int| 0 <= i < 4 implies s@.subrange(0, 4)[i] == s@[i] by {}
    }
    if !all_digits(s, 0, 4) {
        proof {
            let i = choose|i: int| 0 <= i < 4 && !is_digit(#[trigger] s@[i]);
            assert(s@.subrange(0, 4)[i] == s@[i]);
        }
        return false;
    }
    if s[4] != '-' {
        return false;
    }
    match (digit_at(s, 5), digit_at(s, 6)) {
        (Some(tens), Some(ones)) => {
            let month: u32 = 10 * tens + ones;
            1 <= month && month <= 12
        },
        _ => false,
    }
}

/// Accepts exactly the five named ranges, a four-digit year, and a year
/// with a month from 01 to 12.
pub fn validate_range(range: &str) -> (r: Result<(), Error>)
    ensures
        r is Ok <==> is_valid_range(range@),
        r matches Err(e) ==> e.kind == ErrorKind::Validation && e.message@
            == invalid_range_message(range@),
{
    let s = chars_of(range);
    if keyword(range) || year(&s) || year_month(&s) {
        return Ok(());
    }
    let mut message = String::from_str("Invalid range format: '");
    message.append(range);
    message.append(
        "'. Expected: YYYY, YYYY-MM, or one of: last_7_days, last_30_days, last_6_months, last_year, all_time",
    );
    Err(Error::new(ErrorKind::Validation, message))
}

} // verus!
