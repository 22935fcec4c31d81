use vstd::prelude::*;
use vstd::string::StrSliceExecFns;
use crate::error::ValidationError;
use crate::text::{is_alpha, is_digit, spec_is_alpha, spec_is_digit};

verus! {

/// Whether the URI syntax checker of the `http` crate accepts `s`.
/// Acceptance is a function of the characters alone.
pub uninterp spec fn http_uri_ok(s: Seq<char>) -> bool;

/// Relies on `http::Uri`'s `FromStr` impl: it accepts or rejects a string
/// by its bytes alone, returns a `Result` and never panics.
#[verifier::external_body]
fn http_uri_accepts(s: &str) -> (r: bool)
    ensures
        r == http_uri_ok(s@),
{
    s.parse::<http::Uri>().is_ok()
}

/// A character allowed after the first one of a URI scheme name.
pub open spec fn scheme_char_ok(c: char) -> bool {
    ||| spec_is_alpha(c)
    ||| spec_is_digit(c)
    ||| c == '+'
    ||| c == '-'
    ||| c == '.'
}

/// A colon at position `k` closing a well-formed scheme name: a letter
/// first, then letters, digits, `+`, `-` or `.` up to the colon.
pub open spec fn scheme_split_ok(s: Seq<char>, k: int) -> bool {
    &&& 1 <= k < s.len()
    &&& s[k] == ':'
    &&& spec_is_alpha(s[0])
    &&& forall|i: int| 0 < i < k ==> scheme_char_ok(s[i])
}

/// Whether `s` opens with a scheme name followed by a colon, the shape
/// every absolute URI must have.
pub open spec fn scheme_prefix_ok(s: Seq<char>) -> bool {
    exists|k: int| scheme_split_ok(s, k)
}

/// A valid wire URI: an absolute URI, i.e. one with a scheme, whose whole
/// text the URI syntax checker accepts.
pub open spec fn uri_valid(s: Seq<char>) -> bool {
    scheme_prefix_ok(s) && http_uri_ok(s)
}

/// A string with no colon anywhere has no scheme, so it is never a valid
/// absolute URI, whatever the rest of its syntax looks like.
pub proof fn lemma_missing_scheme_rejected(s: Seq<char>)
    requires
        forall|i: int| 0 <= i < s.len() ==> s[i] != ':',
    ensures
        !uri_valid(s),
{
    assert forall|k: int| !scheme_split_ok(s, k) by {
        if 1 <= k < s.len() {
            assert(s[k] != ':');
        }
    }
}

/// An absolute resource locator. The wire carries it as a string; the
/// accepted text is kept exactly as it arrived, so re-serializing is the
/// identity: no normalization of any kind is performed.
#[derive(Debug, PartialEq)]
pub struct Uri {
    raw: String,
}

impl View for Uri {
    type V = Seq<char>;

    closed spec fn view(&self) -> Seq<char> {
        self.raw@
    }
}

impl DeepView for Uri {
    type V = Seq<char>;

    open spec fn deep_view(&self) -> Seq<char> {
        self.view()
    }
}

/// Whether `s` opens with a well-formed scheme followed by a colon.
fn scheme_prefix(s: &str) -> (r: bool)
    ensures
        r == scheme_prefix_ok(s@),
{
    let n = s.unicode_len();
    if n == 0 {
        return false;
    }
    let c0 = s.get_char(0);
    if !is_alpha(c0) {
        return false;
    }
    let mut i: usize = 1;
    while i < n
        invariant
            1 <= i <= n,
            n == s@.len(),
            spec_is_alpha(s@[0]),
            forall|j: int| 0 < j < i ==> s@[j] != ':' && scheme_char_ok(s@[j]),
        decreases n - i,
    {
        let c = s.get_char(i);
        if c == ':' {
            proof {
                assert(scheme_split_ok(s@, i as int));
            }
            return true;
        }
        if !(is_alpha(c) || is_digit(c) || c == '+' || c == '-' || c == '.') {
            proof {
                assert forall|k: int| !scheme_split_ok(s@, k) by {
                    if 1 <= k < s@.len() && s@[k as int] == ':' {
                        assert(k > i);
                        assert(!scheme_char_ok(s@[i as int]));
                    }
                }
            }
            return false;
        }
        i += 1;
    }
    proof {
        assert forall|k: int| !scheme_split_ok(s@, k) by {
            if 1 <= k < s@.len() {
                assert(s@[k as int] != ':');
            }
        }
    }
    false
}

impl Uri {
    /// Validates one wire URI string. Succeeds exactly when the string
    /// opens with a scheme and the URI syntax checker accepts the whole
    /// text; the accepted text is stored unchanged.
    pub fn parse(s: String) -> (r: Result<Uri, ValidationError>)
        ensures
            r is Ok <==> uri_valid(s@),
            r matches Ok(u) ==> u@ == s@,
            r matches Err(e) ==> (e matches ValidationError::InvalidUri { raw } && raw@ == s@),
    {
        if !scheme_prefix(s.as_str()) {
            return Err(ValidationError::InvalidUri { raw: s });
        }
        if !http_uri_accepts(s.as_str()) {
            return Err(ValidationError::InvalidUri { raw: s });
        }
        Ok(Uri { raw: s })
    }

    /// The accepted wire text, exactly as it arrived.
    pub fn as_str(&self) -> (r: &str)
        ensures
            r@ == self@,
    {
        self.raw.as_str()
    }
}

} // verus!
