use vstd::prelude::*;
use vstd::string::StrSliceExecFns;
use crate::error::ValidationError;
use crate::text::{is_hex_digit, spec_is_hex_digit};

verus! {

/// Whether position `i` holds one of the four hyphens of the canonical
/// UUID textual form.
pub open spec fn uuid_hyphen_pos(i: int) -> bool {
    i == 8 || i == 13 || i == 18 || i == 23
}

/// The canonical UUID textual form: 36 characters, hyphens between the
/// five groups, hexadecimal digits (either case) everywhere else.
pub open spec fn uuid_ok(s: Seq<char>) -> bool {
    &&& s.len() == 36
    &&& forall|i: int|
        0 <= i < 36 ==> (if uuid_hyphen_pos(i) {
            s[i] == '-'
        } else {
            spec_is_hex_digit(s[i])
        })
}

/// A 128-bit identifier naming a card printing, an oracle identity, an
/// illustration, a card-back design or a set. The wire carries it in
/// canonical UUID textual form, which is kept exactly as it arrived.
#[derive(Debug, PartialEq)]
pub struct Uuid {
    raw: String,
}

impl View for Uuid {
    type V = Seq<char>;

    closed spec fn view(&self) -> Seq<char> {
        self.raw@
    }
}

impl DeepView for Uuid {
    type V = Seq<char>;

    open spec fn deep_view(&self) -> Seq<char> {
        self.view()
    }
}

impl Uuid {
    /// Validates one wire identifier string. Succeeds exactly on the
    /// canonical UUID textual form and keeps the accepted text unchanged.
    pub fn parse(s: String) -> (r: Result<Uuid, ValidationError>)
        ensures
            r is Ok <==> uuid_ok(s@),
            r matches Ok(u) ==> u@ == s@,
            r matches Err(e) ==> (e matches ValidationError::InvalidUuid { raw } && raw@ == s@),
    {
        let n = s.as_str().unicode_len();
        if n != 36 {
            return Err(ValidationError::InvalidUuid { raw: s });
        }
        let mut i: usize = 0;
        while i < 36
            invariant
                0 <= i <= 36,
                s@.len() == 36,
                forall|k: int|
                    0 <= k < i ==> (if uuid_hyphen_pos(k) {
                        s@[k] == '-'
                    } else {
                        spec_is_hex_digit(s@[k])
                    }),
            decreases 36 - i,
        {
            let c = s.as_str().get_char(i);
            if i == 8 || i == 13 || i == 18 || i == 23 {
                if c != '-' {
                    return Err(ValidationError::InvalidUuid { raw: s });
                }
            } else {
                if !is_hex_digit(c) {
                    return Err(ValidationError::InvalidUuid { raw: s });
                }
            }
            i += 1;
        }
        Ok(Uuid { raw: s })
    }

    /// The accepted wire text, exactly as it arrived.
    pub fn as_str(&self) -> (r: &str)
        ensures
            r@ == self@,
    {
        self.raw.as_str()
    }
}

} // verus!
