use vstd::prelude::*;
use vstd::string::StrSliceExecFns;
use crate::error::ValidationError;
use crate::text::{all_digits, digits_val, is_digit, spec_is_digit};

verus! {

/// Whether `s` opens with an explicit sign.
pub open spec fn has_sign(s: Seq<char>) -> bool {
    s.len() > 0 && (s[0] == '+' || s[0] == '-')
}

/// `s` without its optional leading sign.
pub open spec fn price_body(s: Seq<char>) -> Seq<char> {
    if has_sign(s) {
        s.skip(1)
    } else {
        s
    }
}

/// A split of the body at position `k`: a decimal point there, digits on
/// both sides, and at least one digit somewhere.
pub open spec fn dot_split_ok(b: Seq<char>, k: int) -> bool {
    &&& 0 <= k < b.len()
    &&& b[k] == '.'
    &&& all_digits(b.take(k))
    &&& all_digits(b.skip(k + 1))
    &&& b.len() >= 2
}

/// The body of a base-10 floating-point literal: digits with at most one
/// decimal point and at least one digit.
pub open spec fn price_body_ok(b: Seq<char>) -> bool {
    ||| (b.len() > 0 && all_digits(b))
    ||| (exists|k: int| dot_split_ok(b, k))
}

/// A valid wire price: an optional sign followed by a decimal literal.
/// The whole string must be consumed; nothing is trimmed.
pub open spec fn price_ok(s: Seq<char>) -> bool {
    price_body_ok(price_body(s))
}

/// Position of the decimal point of a valid dotted body.
pub open spec fn dot_pos(b: Seq<char>) -> int {
    choose|k: int| dot_split_ok(b, k)
}

/// The digits of a valid body with the decimal point removed.
pub open spec fn body_digits(b: Seq<char>) -> Seq<char> {
    if exists|k: int| dot_split_ok(b, k) {
        b.take(dot_pos(b)) + b.skip(dot_pos(b) + 1)
    } else {
        b
    }
}

/// The number of fractional digits a valid price denotes.
pub open spec fn price_scale(s: Seq<char>) -> int {
    let b = price_body(s);
    if exists|k: int| dot_split_ok(b, k) {
        b.len() - dot_pos(b) - 1
    } else {
        0
    }
}

/// The signed integer such that the numeric value of a valid price is
/// `price_mantissa(s) / 10^price_scale(s)`.
pub open spec fn price_mantissa(s: Seq<char>) -> int {
    let m = digits_val(body_digits(price_body(s)));
    if s.len() > 0 && s[0] == '-' {
        -m
    } else {
        m
    }
}

/// A non-negative (in the domain) decimal amount. The wire carries it as
/// a string; the whole string must be a base-10 floating-point literal
/// with an optional sign and an optional fractional part. The value is
/// kept exactly as given: no rounding and no currency interpretation.
#[derive(Debug, PartialEq)]
pub struct Price {
    raw: String,
}

impl View for Price {
    type V = Seq<char>;

    closed spec fn view(&self) -> Seq<char> {
        self.raw@
    }
}

impl DeepView for Price {
    type V = Seq<char>;

    open spec fn deep_view(&self) -> Seq<char> {
        self.view()
    }
}

proof fn lemma_body_rejects_char(b: Seq<char>, i: int)
    requires
        0 <= i < b.len(),
        !spec_is_digit(b[i]),
        b[i] != '.',
    ensures
        !price_body_ok(b),
{
    assert(!all_digits(b));
    assert forall|k: int| !dot_split_ok(b, k) by {
        if 0 <= k < b.len() && b[k] == '.' {
            if i < k {
                assert(b.take(k)[i] == b[i]);
            } else if i > k {
                assert(b.skip(k + 1)[i - k - 1] == b[i]);
            }
        }
    }
}

proof fn lemma_body_rejects_two_dots(b: Seq<char>, d1: int, d2: int)
    requires
        0 <= d1 < d2 < b.len(),
        b[d1] == '.',
        b[d2] == '.',
    ensures
        !price_body_ok(b),
{
    assert(!spec_is_digit('.'));
    assert(!all_digits(b));
    assert forall|k: int| !dot_split_ok(b, k) by {
        if 0 <= k < b.len() && b[k] == '.' {
            if k < d2 {
                assert(b.skip(k + 1)[d2 - k - 1] == b[d2]);
            } else {
                assert(d1 < k);
                assert(b.take(k)[d1] == b[d1]);
            }
        }
    }
}

impl Price {
    /// Validates one wire price string. Succeeds exactly on base-10
    /// decimal literals and keeps the accepted text unchanged, so the
    /// numeric value round-trips exactly as it arrived.
    pub fn parse(s: String) -> (r: Result<Price, ValidationError>)
        ensures
            r is Ok <==> price_ok(s@),
            r matches Ok(p) ==> p@ == s@,
            r matches Ok(p) ==> price_mantissa(p@) == price_mantissa(s@) && price_scale(p@)
                == price_scale(s@),
            r matches Err(e) ==> (e matches ValidationError::InvalidPrice { raw } && raw@ == s@),
    {
        let n = s.as_str().unicode_len();
        let st: usize = if n > 0 {
            let c0 = s.as_str().get_char(0);
            if c0 == '+' || c0 == '-' {
                1
            } else {
                0
            }
        } else {
            0
        };
        let ghost b = price_body(s@);
        proof {
            assert(b =~= s@.skip(st as int));
        }
        if n == st {
            proof {
                assert(b.len() == 0);
            }
            return Err(ValidationError::InvalidPrice { raw: s });
        }
        let mut dot: Option<usize> = None;
        let mut i: usize = st;
        while i < n
            invariant
                st <= i <= n,
                n == s@.len(),
                st <= 1,
                b == price_body(s@),
                b =~= s@.skip(st as int),
                match dot {
                    Option::None => forall|k: int| st <= k < i ==> spec_is_digit(s@[k]),
                    Option::Some(d) => {
                        &&& st <= d < i
                        &&& s@[d as int] == '.'
                        &&& forall|k: int| st <= k < i && k != d ==> spec_is_digit(s@[k])
                    },
                },
            decreases n - i,
        {
            let c = s.as_str().get_char(i);
            if is_digit(c) {
            } else if c == '.' {
                match dot {
                    Option::Some(d) => {
                        proof {
                            assert(b[d - st] == s@[d as int]);
                            assert(b[i - st] == s@[i as int]);
                            lemma_body_rejects_two_dots(b, d - st, i - st);
                        }
                        return Err(ValidationError::InvalidPrice { raw: s });
                    },
                    Option::None => {
                        dot = Some(i);
                    },
                }
            } else {
                proof {
                    assert(b[i - st] == s@[i as int]);
                    lemma_body_rejects_char(b, i - st);
                }
                return Err(ValidationError::InvalidPrice { raw: s });
            }
            i += 1;
        }
        match dot {
            Option::None => {
                proof {
                    assert(b.len() > 0);
                    assert forall|j: int| 0 <= j < b.len() implies spec_is_digit(b[j]) by {
                        assert(b[j] == s@[st + j]);
                    }
                    assert(all_digits(b));
                }
                Ok(Price { raw: s })
            },
            Option::Some(d) => {
                if n - st == 1 {
                    proof {
                        assert(b.len() == 1);
                        assert(b[0] == s@[d as int]);
                        assert(!spec_is_digit('.'));
                        assert(!all_digits(b));
                        assert(forall|k: int| !dot_split_ok(b, k));
                    }
                    return Err(ValidationError::InvalidPrice { raw: s });
                }
                proof {
                    let k = d - st;
                    assert(b[k] == s@[d as int]);
                    assert forall|j: int| 0 <= j < k implies spec_is_digit(b.take(k)[j]) by {
                        assert(b.take(k)[j] == s@[st + j]);
                    }
                    let tail = b.skip(k + 1);
                    assert forall|j: int| 0 <= j < tail.len() implies spec_is_digit(
                        #[trigger] tail[j],
                    ) by {
                        assert(tail[j] == s@[st + k + 1 + j]);
                    }
                    assert(all_digits(b.skip(k + 1)));
                    assert(dot_split_ok(b, k));
                }
                Ok(Price { raw: s })
            },
        }
    }

    /// The accepted wire text, exactly as it arrived.
    pub fn wire(&self) -> (r: &str)
        ensures
            r@ == self@,
    {
        self.raw.as_str()
    }
}

} // verus!
