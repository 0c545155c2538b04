use chrono::Datelike;
use vstd::prelude::*;

verus! {

/// The calendar date that chrono reads from `s` with the pattern `%Y-%m-%d`
/// (year, month, day), if it reads one.
pub uninterp spec fn iso_date_of(s: Seq<char>) -> Option<(int, int, int)>;

/// Relies on chrono's `NaiveDate::parse_from_str(s, "%Y-%m-%d")` to read an
/// ISO calendar date, and on `Datelike::month` (1 to 12) and
/// `Datelike::day` (1 to 31) for its fields.
#[verifier::external_body]
fn parse_iso_date(s: &str) -> (r: Option<(i32, u32, u32)>)
    ensures
        r.is_some() == iso_date_of(s@).is_some(),
        r.is_some() ==> iso_date_of(s@) == Some(
            (r.unwrap().0 as int, r.unwrap().1 as int, r.unwrap().2 as int),
        ),
        r.is_some() ==> 1 <= r.unwrap().1 <= 12 && 1 <= r.unwrap().2 <= 31,
{
    match chrono::NaiveDate::parse_from_str(s, "%Y-%m-%d") {
        Ok(d) => Some((d.year(), d.month(), d.day())),
        Err(_) => None,
    }
}

/// A validated calendar date.
#[derive(Clone, Copy, Debug, PartialEq, Eq, Structural)]
pub struct CalendarDate {
    pub year: i32,
    pub month: u32,
    pub day: u32,
}

impl CalendarDate {
    pub open spec fn wf(self) -> bool {
        1 <= self.month <= 12 && 1 <= self.day <= 31
    }

    pub open spec fn as_triple(self) -> (int, int, int) {
        (self.year as int, self.month as int, self.day as int)
    }
}

/// The message that rejects the date text `s`.
pub open spec fn date_error_text(s: Seq<char>) -> Seq<char> {
    "Invalid date format: '"@ + s + "'. Expected YYYY-MM-DD."@
}

/// `needle` occurs in `hay` as a contiguous run.
pub open spec fn contains_text(hay: Seq<char>, needle: Seq<char>) -> bool {
    exists|i: int|
        0 <= i && i + needle.len() <= hay.len() && #[trigger] hay.subrange(i, i + needle.len())
            == needle
}

/// The rejection message for a date always quotes the text it rejected.
pub proof fn lemma_date_error_quotes_input(s: Seq<char>)
    ensures
        contains_text(date_error_text(s), s),
{
    reveal_strlit("Invalid date format: '");
    let prefix = "Invalid date format: '"@;
    let t = date_error_text(s);
    assert(t.subrange(prefix.len() as int, (prefix.len() + s.len()) as int) =~= s);
}

/// Checks that `date_str` is an ISO `YYYY-MM-DD` calendar date.
pub fn validate_date(date_str: &str) -> (r: Result<CalendarDate, String>)
    ensures
        r.is_ok() == iso_date_of(date_str@).is_some(),
        r matches Ok(d) ==> d.wf() && iso_date_of(date_str@) == Some(d.as_triple()),
        r matches Err(m) ==> m@ == date_error_text(date_str@) && contains_text(m@, date_str@),
{
    match parse_iso_date(date_str) {
        Some((year, month, day)) => Ok(CalendarDate { year, month, day }),
        None => {
            let m = String::from_str("Invalid date format: '").concat(date_str).concat(
                "'. Expected YYYY-MM-DD.",
            );
            proof {
                lemma_date_error_quotes_input(date_str@);
            }
            Err(m)
        },
    }
}

} // verus!
