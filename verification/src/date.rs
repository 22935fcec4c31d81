use vstd::prelude::*;
use vstd::string::StrSliceExecFns;
use crate::error::ValidationError;
use crate::text::{digit_val, is_digit, spec_digit_val, spec_is_digit};

verus! {

/// Whether `s` has the `YYYY-MM-DD` shape: ten characters, hyphens after
/// the year and the month, digits everywhere else.
pub open spec fn date_shape_ok(s: Seq<char>) -> bool {
    &&& s.len() == 10
    &&& s[4] == '-'
    &&& s[7] == '-'
    &&& forall|i: int|
        0 <= i < 10 && i != 4 && i != 7 ==> spec_is_digit(s[i])
}

/// The year a well-shaped date string denotes.
pub open spec fn date_year_val(s: Seq<char>) -> int {
    1000 * spec_digit_val(s[0]) + 100 * spec_digit_val(s[1]) + 10 * spec_digit_val(s[2])
        + spec_digit_val(s[3])
}

/// The month a well-shaped date string denotes.
pub open spec fn date_month_val(s: Seq<char>) -> int {
    10 * spec_digit_val(s[5]) + spec_digit_val(s[6])
}

/// The day a well-shaped date string denotes.
pub open spec fn date_day_val(s: Seq<char>) -> int {
    10 * spec_digit_val(s[8]) + spec_digit_val(s[9])
}

/// A valid wire date: `YYYY-MM-DD` with a month and a day in range.
pub open spec fn date_text_ok(s: Seq<char>) -> bool {
    &&& date_shape_ok(s)
    &&& 1 <= date_month_val(s) <= 12
    &&& 1 <= date_day_val(s) <= 31
}

/// A calendar date, kept as its plain fields. The wire carries it as a
/// `YYYY-MM-DD` string.
#[derive(Clone, Copy, Debug, PartialEq, Eq, Structural)]
pub struct Date {
    pub year: u16,
    pub month: u8,
    pub day: u8,
}

impl DeepView for Date {
    type V = Date;

    open spec fn deep_view(&self) -> Date {
        *self
    }
}

impl Date {
    /// The invariant every parsed date satisfies.
    pub open spec fn valid(self) -> bool {
        &&& self.year <= 9999
        &&& 1 <= self.month <= 12
        &&& 1 <= self.day <= 31
    }

    /// Validates one wire date string and reads its three fields.
    pub fn parse(s: &str) -> (r: Result<Date, ValidationError>)
        ensures
            r is Ok <==> date_text_ok(s@),
            r matches Ok(d) ==> {
                &&& d.year == date_year_val(s@)
                &&& d.month == date_month_val(s@)
                &&& d.day == date_day_val(s@)
                &&& d.valid()
            },
            r matches Err(e) ==> (e matches ValidationError::InvalidDate { raw } && raw@ == s@),
    {
        let n = s.unicode_len();
        if n != 10 {
            return Err(ValidationError::InvalidDate { raw: s.to_owned() });
        }
        let mut i: usize = 0;
        while i < 10
            invariant
                0 <= i <= 10,
                s@.len() == 10,
                forall|k: int| 0 <= k < i && k != 4 && k != 7 ==> spec_is_digit(s@[k]),
                i > 4 ==> s@[4] == '-',
                i > 7 ==> s@[7] == '-',
            decreases 10 - i,
        {
            let c = s.get_char(i);
            if i == 4 || i == 7 {
                if c != '-' {
                    return Err(ValidationError::InvalidDate { raw: s.to_owned() });
                }
            } else {
                if !is_digit(c) {
                    return Err(ValidationError::InvalidDate { raw: s.to_owned() });
                }
            }
            i += 1;
        }
        let year: u32 = 1000 * digit_val(s.get_char(0)) + 100 * digit_val(s.get_char(1)) + 10
            * digit_val(s.get_char(2)) + digit_val(s.get_char(3));
        let month: u32 = 10 * digit_val(s.get_char(5)) + digit_val(s.get_char(6));
        let day: u32 = 10 * digit_val(s.get_char(8)) + digit_val(s.get_char(9));
        if month < 1 || month > 12 || day < 1 || day > 31 {
            return Err(ValidationError::InvalidDate { raw: s.to_owned() });
        }
        Ok(Date { year: year as u16, month: month as u8, day: day as u8 })
    }
}

} // verus!
