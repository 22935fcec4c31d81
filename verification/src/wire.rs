use vstd::prelude::*;
use crate::date::{date_text_ok, date_day_val, date_month_val, date_year_val, Date};
use crate::enums::TagEnum;
use crate::error::ValidationError;
use crate::json::{lookup, spec_lookup, Json};
use crate::price::{price_ok, Price};
use crate::uri::{uri_valid, Uri};
use crate::uuid::{uuid_ok, Uuid};

verus! {

// ---------------------------------------------------------------------
// Error attribution
// ---------------------------------------------------------------------
/// `e` reports the required field `n` as absent.
pub open spec fn is_missing_err(e: ValidationError, n: Seq<char>) -> bool {
    match e {
        ValidationError::MissingRequiredField { field } => field@ == n,
        _ => false,
    }
}

/// `e` reports the field `n` as having the wrong JSON shape.
pub open spec fn is_wrong_type_err(e: ValidationError, n: Seq<char>) -> bool {
    match e {
        ValidationError::WrongType { field } => field@ == n,
        _ => false,
    }
}

/// `e` wraps the nested failure `cause` under the field `n`.
pub open spec fn is_nested_err(e: ValidationError, n: Seq<char>, cause: ValidationError) -> bool {
    match e {
        ValidationError::MalformedRecord { field, cause: c } => field@ == n && *c == cause,
        _ => false,
    }
}

/// `e` wraps some nested failure under the field `n`.
pub open spec fn is_nested_at(e: ValidationError, n: Seq<char>) -> bool {
    match e {
        ValidationError::MalformedRecord { field, cause: _ } => field@ == n,
        _ => false,
    }
}

pub(crate) fn missing_err(n: &str) -> (e: ValidationError)
    ensures
        is_missing_err(e, n@),
{
    ValidationError::MissingRequiredField { field: n.to_owned() }
}

pub(crate) fn wrong_type_err(n: &str) -> (e: ValidationError)
    ensures
        is_wrong_type_err(e, n@),
{
    ValidationError::WrongType { field: n.to_owned() }
}

pub(crate) fn nested_err(n: &str, cause: ValidationError) -> (e: ValidationError)
    ensures
        is_nested_err(e, n@, cause),
{
    ValidationError::MalformedRecord { field: n.to_owned(), cause: Box::new(cause) }
}

// ---------------------------------------------------------------------
// Leaf scalars carried as wire strings
// ---------------------------------------------------------------------
/// A domain value the wire carries as a JSON string, with its own
/// validity predicate stricter than the raw string type.
pub trait StrScalar: Sized {
    /// Whether the wire text is valid for this scalar.
    spec fn text_ok(t: Seq<char>) -> bool;

    /// What a correct parse of valid wire text is.
    spec fn text_rel(t: Seq<char>, v: Self) -> bool;

    /// The failure a parse of invalid wire text reports.
    spec fn text_err(t: Seq<char>, e: ValidationError) -> bool;

    /// Value equality for this scalar, as strong as parsing pins the
    /// value down.
    spec fn text_eq(a: Self, b: Self) -> bool;

    /// Law: parsing the same wire text twice yields equal values.
    proof fn text_unique(t: Seq<char>, a: Self, b: Self)
        requires
            Self::text_rel(t, a),
            Self::text_rel(t, b),
        ensures
            Self::text_eq(a, b),
    ;

    /// Parses one wire string.
    fn from_text(t: &String) -> (r: Result<Self, ValidationError>)
        ensures
            r is Ok <==> Self::text_ok(t@),
            r matches Ok(v) ==> Self::text_rel(t@, v),
            r matches Err(e) ==> Self::text_err(t@, e),
    ;
}

/// A plain string field: any wire string is acceptable as it is.
impl StrScalar for String {
    open spec fn text_ok(t: Seq<char>) -> bool {
        true
    }

    open spec fn text_rel(t: Seq<char>, v: String) -> bool {
        v@ == t
    }

    open spec fn text_err(t: Seq<char>, e: ValidationError) -> bool {
        false
    }

    open spec fn text_eq(a: String, b: String) -> bool {
        a@ == b@
    }

    proof fn text_unique(t: Seq<char>, a: String, b: String) {
    }

    fn from_text(t: &String) -> (r: Result<String, ValidationError>) {
        Ok(t.clone())
    }
}

impl StrScalar for Price {
    open spec fn text_ok(t: Seq<char>) -> bool {
        price_ok(t)
    }

    open spec fn text_rel(t: Seq<char>, v: Price) -> bool {
        v@ == t
    }

    open spec fn text_err(t: Seq<char>, e: ValidationError) -> bool {
        match e {
            ValidationError::InvalidPrice { raw } => raw@ == t,
            _ => false,
        }
    }

    open spec fn text_eq(a: Price, b: Price) -> bool {
        a@ == b@
    }

    proof fn text_unique(t: Seq<char>, a: Price, b: Price) {
    }

    fn from_text(t: &String) -> (r: Result<Price, ValidationError>) {
        Price::parse(t.clone())
    }
}

impl StrScalar for Uri {
    open spec fn text_ok(t: Seq<char>) -> bool {
        uri_valid(t)
    }

    open spec fn text_rel(t: Seq<char>, v: Uri) -> bool {
        v@ == t
    }

    open spec fn text_err(t: Seq<char>, e: ValidationError) -> bool {
        match e {
            ValidationError::InvalidUri { raw } => raw@ == t,
            _ => false,
        }
    }

    open spec fn text_eq(a: Uri, b: Uri) -> bool {
        a@ == b@
    }

    proof fn text_unique(t: Seq<char>, a: Uri, b: Uri) {
    }

    fn from_text(t: &String) -> (r: Result<Uri, ValidationError>) {
        Uri::parse(t.clone())
    }
}

impl StrScalar for Uuid {
    open spec fn text_ok(t: Seq<char>) -> bool {
        uuid_ok(t)
    }

    open spec fn text_rel(t: Seq<char>, v: Uuid) -> bool {
        v@ == t
    }

    open spec fn text_err(t: Seq<char>, e: ValidationError) -> bool {
        match e {
            ValidationError::InvalidUuid { raw } => raw@ == t,
            _ => false,
        }
    }

    open spec fn text_eq(a: Uuid, b: Uuid) -> bool {
        a@ == b@
    }

    proof fn text_unique(t: Seq<char>, a: Uuid, b: Uuid) {
    }

    fn from_text(t: &String) -> (r: Result<Uuid, ValidationError>) {
        Uuid::parse(t.clone())
    }
}

impl StrScalar for Date {
    open spec fn text_ok(t: Seq<char>) -> bool {
        date_text_ok(t)
    }

    open spec fn text_rel(t: Seq<char>, v: Date) -> bool {
        &&& v.year == date_year_val(t)
        &&& v.month == date_month_val(t)
        &&& v.day == date_day_val(t)
        &&& v.valid()
    }

    open spec fn text_err(t: Seq<char>, e: ValidationError) -> bool {
        match e {
            ValidationError::InvalidDate { raw } => raw@ == t,
            _ => false,
        }
    }

    open spec fn text_eq(a: Date, b: Date) -> bool {
        a.year == b.year && a.month == b.month && a.day == b.day
    }

    proof fn text_unique(t: Seq<char>, a: Date, b: Date) {
    }

    fn from_text(t: &String) -> (r: Result<Date, ValidationError>) {
        Date::parse(t.as_str())
    }
}

/// Every closed enumeration is a wire scalar through its tag mapping.
impl<T: TagEnum> StrScalar for T {
    open spec fn text_ok(t: Seq<char>) -> bool {
        Self::of_tag(t) is Some
    }

    open spec fn text_rel(t: Seq<char>, v: T) -> bool {
        Self::of_tag(t) == Some(v)
    }

    open spec fn text_err(t: Seq<char>, e: ValidationError) -> bool {
        match e {
            ValidationError::UnknownTag { field, raw } => field@ == Self::tag_context() && raw@
                == t,
            _ => false,
        }
    }

    open spec fn text_eq(a: T, b: T) -> bool {
        a == b
    }

    proof fn text_unique(t: Seq<char>, a: T, b: T) {
    }

    fn from_text(t: &String) -> (r: Result<T, ValidationError>) {
        Self::from_tag(t.as_str())
    }
}

// ---------------------------------------------------------------------
// Records parsed from whole wire values
// ---------------------------------------------------------------------
/// A record assembled from one wire value. A record fails as a whole:
/// no partial record is ever returned.
pub trait FromWire: Sized {
    /// Whether the wire value is a fully valid record.
    spec fn wire_ok(j: Json) -> bool;

    /// What a correct parse of a valid wire value is.
    spec fn wire_rel(j: Json, v: Self) -> bool;

    /// The failure a rejected wire value reports, attributed to the
    /// field that failed.
    spec fn wire_err(j: Json, e: ValidationError) -> bool;

    /// Value equality for this record, as strong as parsing pins the
    /// value down: field by field, up to the views of owned strings.
    spec fn value_eq(a: Self, b: Self) -> bool;

    /// Law: parsing the same wire value twice yields equal records.
    proof fn wire_unique(j: Json, a: Self, b: Self)
        requires
            Self::wire_rel(j, a),
            Self::wire_rel(j, b),
        ensures
            Self::value_eq(a, b),
    ;

    /// Parses one wire value.
    fn from_wire(j: &Json) -> (r: Result<Self, ValidationError>)
        ensures
            r is Ok <==> Self::wire_ok(*j),
            r matches Ok(v) ==> Self::wire_rel(*j, v),
            r matches Err(e) ==> Self::wire_err(*j, e),
    ;
}

// ---------------------------------------------------------------------
// Scalar fields of a wire object
// ---------------------------------------------------------------------
/// Whether a required scalar field is present as a valid wire string.
pub open spec fn req_scalar_ok<T: StrScalar>(o: Seq<(String, Json)>, n: Seq<char>) -> bool {
    match spec_lookup(o, n) {
        Some(Json::Str(s)) => T::text_ok(s@),
        _ => false,
    }
}

/// What a correct parse of a required scalar field is.
pub open spec fn req_scalar_rel<T: StrScalar>(o: Seq<(String, Json)>, n: Seq<char>, v: T) -> bool {
    match spec_lookup(o, n) {
        Some(Json::Str(s)) => T::text_rel(s@, v),
        _ => false,
    }
}

/// The exact failure a required scalar field reports: absent (or null)
/// fields are missing, non-string values are the wrong shape, and an
/// invalid string wraps the leaf validator's own failure.
pub open spec fn req_scalar_err<T: StrScalar>(
    o: Seq<(String, Json)>,
    n: Seq<char>,
    e: ValidationError,
) -> bool {
    match spec_lookup(o, n) {
        None => is_missing_err(e, n),
        Some(Json::Null) => is_missing_err(e, n),
        Some(Json::Str(s)) => match e {
            ValidationError::MalformedRecord { field, cause } => field@ == n && T::text_err(
                s@,
                *cause,
            ),
            _ => false,
        },
        Some(_) => is_wrong_type_err(e, n),
    }
}

/// Reads one required scalar field out of a wire object.
pub fn req_scalar<T: StrScalar>(o: &Vec<(String, Json)>, n: &str) -> (r: Result<
    T,
    ValidationError,
>)
    ensures
        r is Ok <==> req_scalar_ok::<T>(o@, n@),
        r matches Ok(v) ==> req_scalar_rel::<T>(o@, n@, v),
        r matches Err(e) ==> req_scalar_err::<T>(o@, n@, e),
{
    match lookup(o, n) {
        None => Err(missing_err(n)),
        Some(v) => match v {
            Json::Null => Err(missing_err(n)),
            Json::Str(s) => match T::from_text(s) {
                Ok(x) => Ok(x),
                Err(c) => Err(nested_err(n, c)),
            },
            _ => Err(wrong_type_err(n)),
        },
    }
}

/// Whether an optional scalar field is either not given or valid.
pub open spec fn opt_scalar_ok<T: StrScalar>(o: Seq<(String, Json)>, n: Seq<char>) -> bool {
    match spec_lookup(o, n) {
        None => true,
        Some(Json::Null) => true,
        Some(Json::Str(s)) => T::text_ok(s@),
        Some(_) => false,
    }
}

/// What a correct parse of an optional scalar field is.
pub open spec fn opt_scalar_rel<T: StrScalar>(
    o: Seq<(String, Json)>,
    n: Seq<char>,
    v: Option<T>,
) -> bool {
    match spec_lookup(o, n) {
        None => v is None,
        Some(Json::Null) => v is None,
        Some(Json::Str(s)) => match v {
            Some(x) => T::text_rel(s@, x),
            None => false,
        },
        Some(_) => false,
    }
}

/// The exact failure an optional scalar field reports. A field that is
/// present but malformed fails like a required field: there is no
/// best-effort partial hydration.
pub open spec fn opt_scalar_err<T: StrScalar>(
    o: Seq<(String, Json)>,
    n: Seq<char>,
    e: ValidationError,
) -> bool {
    match spec_lookup(o, n) {
        None => false,
        Some(Json::Null) => false,
        Some(Json::Str(s)) => match e {
            ValidationError::MalformedRecord { field, cause } => field@ == n && T::text_err(
                s@,
                *cause,
            ),
            _ => false,
        },
        Some(_) => is_wrong_type_err(e, n),
    }
}

/// Reads one optional scalar field out of a wire object. Absent and
/// null are both "not given".
pub fn opt_scalar<T: StrScalar>(o: &Vec<(String, Json)>, n: &str) -> (r: Result<
    Option<T>,
    ValidationError,
>)
    ensures
        r is Ok <==> opt_scalar_ok::<T>(o@, n@),
        r matches Ok(v) ==> opt_scalar_rel::<T>(o@, n@, v),
        r matches Err(e) ==> opt_scalar_err::<T>(o@, n@, e),
{
    match lookup(o, n) {
        None => Ok(None),
        Some(v) => match v {
            Json::Null => Ok(None),
            Json::Str(s) => match T::from_text(s) {
                Ok(x) => Ok(Some(x)),
                Err(c) => Err(nested_err(n, c)),
            },
            _ => Err(wrong_type_err(n)),
        },
    }
}

// ---------------------------------------------------------------------
// Number and boolean fields
// ---------------------------------------------------------------------
/// The `u32` a wire value denotes, if it is an integer in range.
pub open spec fn spec_u32_of(j: Json) -> Option<u32> {
    match j {
        Json::UInt(u) => if u <= 0xffff_ffffu64 {
            Some(u as u32)
        } else {
            None
        },
        _ => None,
    }
}

/// Whether an optional `u32` field is either not given or in range.
pub open spec fn opt_u32_ok(o: Seq<(String, Json)>, n: Seq<char>) -> bool {
    match spec_lookup(o, n) {
        None => true,
        Some(Json::Null) => true,
        Some(v) => spec_u32_of(v) is Some,
    }
}

/// What a correct parse of an optional `u32` field is.
pub open spec fn opt_u32_rel(o: Seq<(String, Json)>, n: Seq<char>, v: Option<u32>) -> bool {
    match spec_lookup(o, n) {
        None => v is None,
        Some(Json::Null) => v is None,
        Some(w) => v == spec_u32_of(w) && v is Some,
    }
}

/// Reads one optional unsigned number field out of a wire object.
pub fn opt_u32(o: &Vec<(String, Json)>, n: &str) -> (r: Result<Option<u32>, ValidationError>)
    ensures
        r is Ok <==> opt_u32_ok(o@, n@),
        r matches Ok(v) ==> opt_u32_rel(o@, n@, v),
        r matches Err(e) ==> is_wrong_type_err(e, n@),
{
    match lookup(o, n) {
        None => Ok(None),
        Some(v) => match v {
            Json::Null => Ok(None),
            Json::UInt(u) => {
                let u = *u;
                if u <= 0xffff_ffffu64 {
                    Ok(Some(u as u32))
                } else {
                    Err(wrong_type_err(n))
                }
            },
            _ => Err(wrong_type_err(n)),
        },
    }
}

/// Whether a required `u32` field is present and in range.
pub open spec fn req_u32_ok(o: Seq<(String, Json)>, n: Seq<char>) -> bool {
    match spec_lookup(o, n) {
        Some(v) => spec_u32_of(v) is Some,
        None => false,
    }
}

/// What a correct parse of a required `u32` field is.
pub open spec fn req_u32_rel(o: Seq<(String, Json)>, n: Seq<char>, v: u32) -> bool {
    match spec_lookup(o, n) {
        Some(w) => spec_u32_of(w) == Some(v),
        None => false,
    }
}

/// The exact failure a required `u32` field reports.
pub open spec fn req_u32_err(o: Seq<(String, Json)>, n: Seq<char>, e: ValidationError) -> bool {
    match spec_lookup(o, n) {
        None => is_missing_err(e, n),
        Some(Json::Null) => is_missing_err(e, n),
        Some(_) => is_wrong_type_err(e, n),
    }
}

/// Reads one required unsigned number field out of a wire object.
pub fn req_u32(o: &Vec<(String, Json)>, n: &str) -> (r: Result<u32, ValidationError>)
    ensures
        r is Ok <==> req_u32_ok(o@, n@),
        r matches Ok(v) ==> req_u32_rel(o@, n@, v),
        r matches Err(e) ==> req_u32_err(o@, n@, e),
{
    match lookup(o, n) {
        None => Err(missing_err(n)),
        Some(v) => match v {
            Json::Null => Err(missing_err(n)),
            Json::UInt(u) => {
                let u = *u;
                if u <= 0xffff_ffffu64 {
                    Ok(u as u32)
                } else {
                    Err(wrong_type_err(n))
                }
            },
            _ => Err(wrong_type_err(n)),
        },
    }
}

/// The `u16` a wire value denotes, if it is an integer in range.
pub open spec fn spec_u16_of(j: Json) -> Option<u16> {
    match j {
        Json::UInt(u) => if u <= 0xffffu64 {
            Some(u as u16)
        } else {
            None
        },
        _ => None,
    }
}

/// Whether a required `u16` field is present and in range.
pub open spec fn req_u16_ok(o: Seq<(String, Json)>, n: Seq<char>) -> bool {
    match spec_lookup(o, n) {
        Some(v) => spec_u16_of(v) is Some,
        None => false,
    }
}

/// What a correct parse of a required `u16` field is.
pub open spec fn req_u16_rel(o: Seq<(String, Json)>, n: Seq<char>, v: u16) -> bool {
    match spec_lookup(o, n) {
        Some(w) => spec_u16_of(w) == Some(v),
        None => false,
    }
}

/// Reads one required 16-bit number field out of a wire object.
pub fn req_u16(o: &Vec<(String, Json)>, n: &str) -> (r: Result<u16, ValidationError>)
    ensures
        r is Ok <==> req_u16_ok(o@, n@),
        r matches Ok(v) ==> req_u16_rel(o@, n@, v),
        r matches Err(e) ==> req_u32_err(o@, n@, e),
{
    match lookup(o, n) {
        None => Err(missing_err(n)),
        Some(v) => match v {
            Json::Null => Err(missing_err(n)),
            Json::UInt(u) => {
                let u = *u;
                if u <= 0xffffu64 {
                    Ok(u as u16)
                } else {
                    Err(wrong_type_err(n))
                }
            },
            _ => Err(wrong_type_err(n)),
        },
    }
}

/// Whether a required boolean field is present as a wire boolean.
pub open spec fn req_bool_ok(o: Seq<(String, Json)>, n: Seq<char>) -> bool {
    spec_lookup(o, n) matches Some(Json::Bool(_))
}

/// What a correct parse of a required boolean field is.
pub open spec fn req_bool_rel(o: Seq<(String, Json)>, n: Seq<char>, v: bool) -> bool {
    spec_lookup(o, n) == Some(Json::Bool(v))
}

/// Reads one required boolean field out of a wire object.
pub fn req_bool(o: &Vec<(String, Json)>, n: &str) -> (r: Result<bool, ValidationError>)
    ensures
        r is Ok <==> req_bool_ok(o@, n@),
        r matches Ok(v) ==> req_bool_rel(o@, n@, v),
        r matches Err(e) ==> req_u32_err(o@, n@, e),
{
    match lookup(o, n) {
        None => Err(missing_err(n)),
        Some(v) => match v {
            Json::Null => Err(missing_err(n)),
            Json::Bool(b) => Ok(*b),
            _ => Err(wrong_type_err(n)),
        },
    }
}

/// Whether an optional boolean field is either not given or a boolean.
pub open spec fn opt_bool_ok(o: Seq<(String, Json)>, n: Seq<char>) -> bool {
    match spec_lookup(o, n) {
        None => true,
        Some(Json::Null) => true,
        Some(v) => v is Bool,
    }
}

/// What a correct parse of an optional boolean field is.
pub open spec fn opt_bool_rel(o: Seq<(String, Json)>, n: Seq<char>, v: Option<bool>) -> bool {
    match spec_lookup(o, n) {
        None => v is None,
        Some(Json::Null) => v is None,
        Some(w) => match w {
            Json::Bool(b) => v == Some(b),
            _ => false,
        },
    }
}

/// Reads one optional boolean field out of a wire object.
pub fn opt_bool(o: &Vec<(String, Json)>, n: &str) -> (r: Result<Option<bool>, ValidationError>)
    ensures
        r is Ok <==> opt_bool_ok(o@, n@),
        r matches Ok(v) ==> opt_bool_rel(o@, n@, v),
        r matches Err(e) ==> is_wrong_type_err(e, n@),
{
    match lookup(o, n) {
        None => Ok(None),
        Some(v) => match v {
            Json::Null => Ok(None),
            Json::Bool(b) => Ok(Some(*b)),
            _ => Err(wrong_type_err(n)),
        },
    }
}

// ---------------------------------------------------------------------
// Arrays of scalars
// ---------------------------------------------------------------------
/// Whether one array element is a valid wire string for the scalar.
pub open spec fn str_elem_ok<T: StrScalar>(j: Json) -> bool {
    match j {
        Json::Str(s) => T::text_ok(s@),
        _ => false,
    }
}

/// Whether every element of a wire array is a valid scalar string.
pub open spec fn str_elems_ok<T: StrScalar>(a: Seq<Json>) -> bool {
    forall|i: int| 0 <= i < a.len() ==> str_elem_ok::<T>(a[i])
}

/// What a correct element-wise parse of a wire array is. Server order is
/// preserved exactly.
pub open spec fn str_elems_rel<T: StrScalar>(a: Seq<Json>, xs: Seq<T>) -> bool {
    &&& xs.len() == a.len()
    &&& forall|i: int|
        0 <= i < a.len() ==> match a[i] {
            Json::Str(s) => T::text_rel(s@, #[trigger] xs[i]),
            _ => false,
        }
}

/// Parses every element of a wire array as one scalar, in order,
/// failing the whole array on the first bad element.
fn parse_str_elems<T: StrScalar>(a: &Vec<Json>, n: &str) -> (r: Result<Vec<T>, ValidationError>)
    ensures
        r is Ok <==> str_elems_ok::<T>(a@),
        r matches Ok(xs) ==> str_elems_rel::<T>(a@, xs@),
        r matches Err(e) ==> (is_wrong_type_err(e, n@) || is_nested_at(e, n@)),
{
    let mut out: Vec<T> = Vec::new();
    let mut i: usize = 0;
    while i < a.len()
        invariant
            0 <= i <= a@.len(),
            out@.len() == i,
            forall|k: int| 0 <= k < i ==> str_elem_ok::<T>(a@[k]),
            forall|k: int|
                0 <= k < i ==> match a@[k] {
                    Json::Str(s) => T::text_rel(s@, #[trigger] out@[k]),
                    _ => false,
                },
        decreases a@.len() - i,
    {
        match &a[i] {
            Json::Str(s) => match T::from_text(s) {
                Ok(x) => out.push(x),
                Err(c) => {
                    proof {
                        assert(!str_elem_ok::<T>(a@[i as int]));
                    }
                    return Err(nested_err(n, c));
                },
            },
            _ => {
                proof {
                    assert(!str_elem_ok::<T>(a@[i as int]));
                }
                return Err(wrong_type_err(n));
            },
        }
        i += 1;
    }
    Ok(out)
}

/// Whether an optional array-of-scalars field is not given or valid.
pub open spec fn opt_scalar_arr_ok<T: StrScalar>(o: Seq<(String, Json)>, n: Seq<char>) -> bool {
    match spec_lookup(o, n) {
        None => true,
        Some(Json::Null) => true,
        Some(Json::Arr(a)) => str_elems_ok::<T>(a@),
        Some(_) => false,
    }
}

/// What a correct parse of an optional array-of-scalars field is.
pub open spec fn opt_scalar_arr_rel<T: StrScalar>(
    o: Seq<(String, Json)>,
    n: Seq<char>,
    v: Option<Vec<T>>,
) -> bool {
    match spec_lookup(o, n) {
        None => v is None,
        Some(Json::Null) => v is None,
        Some(Json::Arr(a)) => match v {
            Some(xs) => str_elems_rel::<T>(a@, xs@),
            None => false,
        },
        Some(_) => false,
    }
}

/// Reads one optional array-of-scalars field out of a wire object.
pub fn opt_scalar_arr<T: StrScalar>(o: &Vec<(String, Json)>, n: &str) -> (r: Result<
    Option<Vec<T>>,
    ValidationError,
>)
    ensures
        r is Ok <==> opt_scalar_arr_ok::<T>(o@, n@),
        r matches Ok(v) ==> opt_scalar_arr_rel::<T>(o@, n@, v),
        r matches Err(e) ==> (is_wrong_type_err(e, n@) || is_nested_at(e, n@)),
{
    match lookup(o, n) {
        None => Ok(None),
        Some(v) => match v {
            Json::Null => Ok(None),
            Json::Arr(a) => match parse_str_elems::<T>(a, n) {
                Ok(xs) => Ok(Some(xs)),
                Err(e) => Err(e),
            },
            _ => Err(wrong_type_err(n)),
        },
    }
}

/// Whether every element of a wire array is an integer in `u32` range.
pub open spec fn u32_elems_ok(a: Seq<Json>) -> bool {
    forall|i: int| 0 <= i < a.len() ==> spec_u32_of(#[trigger] a[i]) is Some
}

/// What a correct element-wise numeric parse of a wire array is.
pub open spec fn u32_elems_rel(a: Seq<Json>, xs: Seq<u32>) -> bool {
    &&& xs.len() == a.len()
    &&& forall|i: int| 0 <= i < a.len() ==> spec_u32_of(a[i]) == Some(#[trigger] xs[i])
}

/// Whether an optional array-of-numbers field is not given or valid.
pub open spec fn opt_u32_arr_ok(o: Seq<(String, Json)>, n: Seq<char>) -> bool {
    match spec_lookup(o, n) {
        None => true,
        Some(Json::Null) => true,
        Some(Json::Arr(a)) => u32_elems_ok(a@),
        Some(_) => false,
    }
}

/// What a correct parse of an optional array-of-numbers field is.
pub open spec fn opt_u32_arr_rel(
    o: Seq<(String, Json)>,
    n: Seq<char>,
    v: Option<Vec<u32>>,
) -> bool {
    match spec_lookup(o, n) {
        None => v is None,
        Some(Json::Null) => v is None,
        Some(Json::Arr(a)) => match v {
            Some(xs) => u32_elems_rel(a@, xs@),
            None => false,
        },
        Some(_) => false,
    }
}

/// Parses every element of a wire array as a `u32`, in order, failing
/// the whole array on the first element that is not a number in range.
fn parse_u32_elems(a: &Vec<Json>, n: &str) -> (r: Result<Vec<u32>, ValidationError>)
    ensures
        r is Ok <==> u32_elems_ok(a@),
        r matches Ok(xs) ==> u32_elems_rel(a@, xs@),
        r matches Err(e) ==> is_wrong_type_err(e, n@),
{
    let mut out: Vec<u32> = Vec::new();
    let mut i: usize = 0;
    while i < a.len()
        invariant
            0 <= i <= a@.len(),
            out@.len() == i,
            forall|k: int| 0 <= k < i ==> spec_u32_of(#[trigger] a@[k]) is Some,
            forall|k: int| 0 <= k < i ==> spec_u32_of(a@[k]) == Some(#[trigger] out@[k]),
        decreases a@.len() - i,
    {
        match &a[i] {
            Json::UInt(u) => {
                let u = *u;
                if u <= 0xffff_ffffu64 {
                    out.push(u as u32);
                } else {
                    proof {
                        assert(spec_u32_of(a@[i as int]) is None);
                    }
                    return Err(wrong_type_err(n));
                }
            },
            _ => {
                proof {
                    assert(spec_u32_of(a@[i as int]) is None);
                }
                return Err(wrong_type_err(n));
            },
        }
        i += 1;
    }
    Ok(out)
}

/// Reads one optional array-of-numbers field out of a wire object.
pub fn opt_u32_arr(o: &Vec<(String, Json)>, n: &str) -> (r: Result<
    Option<Vec<u32>>,
    ValidationError,
>)
    ensures
        r is Ok <==> opt_u32_arr_ok(o@, n@),
        r matches Ok(v) ==> opt_u32_arr_rel(o@, n@, v),
        r matches Err(e) ==> is_wrong_type_err(e, n@),
{
    match lookup(o, n) {
        None => Ok(None),
        Some(v) => match v {
            Json::Null => Ok(None),
            Json::Arr(a) => match parse_u32_elems(a, n) {
                Ok(xs) => Ok(Some(xs)),
                Err(e) => Err(e),
            },
            _ => Err(wrong_type_err(n)),
        },
    }
}

// ---------------------------------------------------------------------
// Record fields and arrays of records
// ---------------------------------------------------------------------
/// Whether every element of a wire array is a valid record.
pub open spec fn rec_elems_ok<T: FromWire>(a: Seq<Json>) -> bool {
    forall|i: int| 0 <= i < a.len() ==> T::wire_ok(#[trigger] a[i])
}

/// What a correct element-wise record parse of a wire array is. Server
/// order is preserved exactly.
pub open spec fn rec_elems_rel<T: FromWire>(a: Seq<Json>, xs: Seq<T>) -> bool {
    &&& xs.len() == a.len()
    &&& forall|i: int| 0 <= i < a.len() ==> T::wire_rel(a[i], #[trigger] xs[i])
}

/// Parses every element of a wire array as one record, in order,
/// failing the whole array on the first bad element.
pub fn parse_rec_elems<T: FromWire>(a: &Vec<Json>) -> (r: Result<Vec<T>, ValidationError>)
    ensures
        r is Ok <==> rec_elems_ok::<T>(a@),
        r matches Ok(xs) ==> rec_elems_rel::<T>(a@, xs@),
{
    let mut out: Vec<T> = Vec::new();
    let mut i: usize = 0;
    while i < a.len()
        invariant
            0 <= i <= a@.len(),
            out@.len() == i,
            forall|k: int| 0 <= k < i ==> T::wire_ok(#[trigger] a@[k]),
            forall|k: int| 0 <= k < i ==> T::wire_rel(a@[k], #[trigger] out@[k]),
        decreases a@.len() - i,
    {
        match T::from_wire(&a[i]) {
            Ok(x) => out.push(x),
            Err(e) => {
                proof {
                    assert(!T::wire_ok(a@[i as int]));
                }
                return Err(e);
            },
        }
        i += 1;
    }
    Ok(out)
}

/// Whether a required record field is present and fully valid.
pub open spec fn req_rec_ok<T: FromWire>(o: Seq<(String, Json)>, n: Seq<char>) -> bool {
    match spec_lookup(o, n) {
        None => false,
        Some(Json::Null) => false,
        Some(v) => T::wire_ok(v),
    }
}

/// What a correct parse of a required record field is.
pub open spec fn req_rec_rel<T: FromWire>(o: Seq<(String, Json)>, n: Seq<char>, v: T) -> bool {
    match spec_lookup(o, n) {
        None => false,
        Some(w) => T::wire_rel(w, v),
    }
}

/// Reads one required nested record field out of a wire object. A
/// nested failure is wrapped under this field's name.
pub fn req_rec<T: FromWire>(o: &Vec<(String, Json)>, n: &str) -> (r: Result<T, ValidationError>)
    ensures
        r is Ok <==> req_rec_ok::<T>(o@, n@),
        r matches Ok(v) ==> req_rec_rel::<T>(o@, n@, v),
        r matches Err(e) ==> (is_missing_err(e, n@) || is_nested_at(e, n@)),
{
    match lookup(o, n) {
        None => Err(missing_err(n)),
        Some(v) => match v {
            Json::Null => Err(missing_err(n)),
            _ => match T::from_wire(v) {
                Ok(x) => Ok(x),
                Err(c) => Err(nested_err(n, c)),
            },
        },
    }
}

/// Whether an optional record field is not given or fully valid.
pub open spec fn opt_rec_ok<T: FromWire>(o: Seq<(String, Json)>, n: Seq<char>) -> bool {
    match spec_lookup(o, n) {
        None => true,
        Some(Json::Null) => true,
        Some(v) => T::wire_ok(v),
    }
}

/// What a correct parse of an optional record field is.
pub open spec fn opt_rec_rel<T: FromWire>(
    o: Seq<(String, Json)>,
    n: Seq<char>,
    v: Option<T>,
) -> bool {
    match spec_lookup(o, n) {
        None => v is None,
        Some(Json::Null) => v is None,
        Some(w) => match v {
            Some(x) => T::wire_rel(w, x),
            None => false,
        },
    }
}

/// Reads one optional nested record field out of a wire object.
pub fn opt_rec<T: FromWire>(o: &Vec<(String, Json)>, n: &str) -> (r: Result<
    Option<T>,
    ValidationError,
>)
    ensures
        r is Ok <==> opt_rec_ok::<T>(o@, n@),
        r matches Ok(v) ==> opt_rec_rel::<T>(o@, n@, v),
        r matches Err(e) ==> is_nested_at(e, n@),
{
    match lookup(o, n) {
        None => Ok(None),
        Some(v) => match v {
            Json::Null => Ok(None),
            _ => match T::from_wire(v) {
                Ok(x) => Ok(Some(x)),
                Err(c) => Err(nested_err(n, c)),
            },
        },
    }
}

/// Whether an optional array-of-records field is not given or valid.
pub open spec fn opt_rec_arr_ok<T: FromWire>(o: Seq<(String, Json)>, n: Seq<char>) -> bool {
    match spec_lookup(o, n) {
        None => true,
        Some(Json::Null) => true,
        Some(Json::Arr(a)) => rec_elems_ok::<T>(a@),
        Some(_) => false,
    }
}

/// What a correct parse of an optional array-of-records field is.
pub open spec fn opt_rec_arr_rel<T: FromWire>(
    o: Seq<(String, Json)>,
    n: Seq<char>,
    v: Option<Vec<T>>,
) -> bool {
    match spec_lookup(o, n) {
        None => v is None,
        Some(Json::Null) => v is None,
        Some(Json::Arr(a)) => match v {
            Some(xs) => rec_elems_rel::<T>(a@, xs@),
            None => false,
        },
        Some(_) => false,
    }
}

/// Reads one optional array-of-records field out of a wire object. A
/// failure in any element fails the whole field, wrapped under this
/// field's name.
pub fn opt_rec_arr<T: FromWire>(o: &Vec<(String, Json)>, n: &str) -> (r: Result<
    Option<Vec<T>>,
    ValidationError,
>)
    ensures
        r is Ok <==> opt_rec_arr_ok::<T>(o@, n@),
        r matches Ok(v) ==> opt_rec_arr_rel::<T>(o@, n@, v),
        r matches Err(e) ==> (is_wrong_type_err(e, n@) || is_nested_at(e, n@)),
{
    match lookup(o, n) {
        None => Ok(None),
        Some(v) => match v {
            Json::Null => Ok(None),
            Json::Arr(a) => match parse_rec_elems::<T>(a) {
                Ok(xs) => Ok(Some(xs)),
                Err(c) => Err(nested_err(n, c)),
            },
            _ => Err(wrong_type_err(n)),
        },
    }
}

// ---------------------------------------------------------------------
// Uniqueness of parses
// ---------------------------------------------------------------------
/// Equality of two optional scalars.
pub open spec fn opt_text_eq<T: StrScalar>(a: Option<T>, b: Option<T>) -> bool {
    match (a, b) {
        (Option::None, Option::None) => true,
        (Option::Some(x), Option::Some(y)) => T::text_eq(x, y),
        _ => false,
    }
}

/// Element-wise equality of two scalar sequences.
pub open spec fn arr_text_eq<T: StrScalar>(a: Seq<T>, b: Seq<T>) -> bool {
    &&& a.len() == b.len()
    &&& forall|i: int| 0 <= i < a.len() ==> T::text_eq(a[i], #[trigger] b[i])
}

/// Equality of two optional scalar arrays.
pub open spec fn opt_arr_text_eq<T: StrScalar>(a: Option<Vec<T>>, b: Option<Vec<T>>) -> bool {
    match (a, b) {
        (Option::None, Option::None) => true,
        (Option::Some(x), Option::Some(y)) => arr_text_eq::<T>(x@, y@),
        _ => false,
    }
}

/// Equality of two optional records.
pub open spec fn opt_value_eq<T: FromWire>(a: Option<T>, b: Option<T>) -> bool {
    match (a, b) {
        (Option::None, Option::None) => true,
        (Option::Some(x), Option::Some(y)) => T::value_eq(x, y),
        _ => false,
    }
}

/// Element-wise equality of two record sequences.
pub open spec fn arr_value_eq<T: FromWire>(a: Seq<T>, b: Seq<T>) -> bool {
    &&& a.len() == b.len()
    &&& forall|i: int| 0 <= i < a.len() ==> T::value_eq(a[i], #[trigger] b[i])
}

/// Equality of two optional record arrays.
pub open spec fn opt_arr_value_eq<T: FromWire>(a: Option<Vec<T>>, b: Option<Vec<T>>) -> bool {
    match (a, b) {
        (Option::None, Option::None) => true,
        (Option::Some(x), Option::Some(y)) => arr_value_eq::<T>(x@, y@),
        _ => false,
    }
}

/// A required scalar field pins its value down.
pub proof fn lemma_req_scalar_unique<T: StrScalar>(
    o: Seq<(String, Json)>,
    n: Seq<char>,
    a: T,
    b: T,
)
    requires
        req_scalar_rel::<T>(o, n, a),
        req_scalar_rel::<T>(o, n, b),
    ensures
        T::text_eq(a, b),
{
    match spec_lookup(o, n) {
        Some(Json::Str(s)) => T::text_unique(s@, a, b),
        _ => (),
    }
}

/// An optional scalar field pins its value down.
pub proof fn lemma_opt_scalar_unique<T: StrScalar>(
    o: Seq<(String, Json)>,
    n: Seq<char>,
    a: Option<T>,
    b: Option<T>,
)
    requires
        opt_scalar_rel::<T>(o, n, a),
        opt_scalar_rel::<T>(o, n, b),
    ensures
        opt_text_eq::<T>(a, b),
{
    match spec_lookup(o, n) {
        Some(Json::Str(s)) => match (a, b) {
            (Option::Some(x), Option::Some(y)) => T::text_unique(s@, x, y),
            _ => (),
        },
        _ => (),
    }
}

/// An element-wise scalar parse pins every element down.
pub proof fn lemma_str_elems_unique<T: StrScalar>(a: Seq<Json>, xs: Seq<T>, ys: Seq<T>)
    requires
        str_elems_rel::<T>(a, xs),
        str_elems_rel::<T>(a, ys),
    ensures
        arr_text_eq::<T>(xs, ys),
{
    assert forall|i: int| 0 <= i < xs.len() implies T::text_eq(xs[i], #[trigger] ys[i]) by {
        match a[i] {
            Json::Str(s) => T::text_unique(s@, xs[i], ys[i]),
            _ => (),
        }
    }
}

/// An optional array-of-scalars field pins its value down.
pub proof fn lemma_opt_scalar_arr_unique<T: StrScalar>(
    o: Seq<(String, Json)>,
    n: Seq<char>,
    a: Option<Vec<T>>,
    b: Option<Vec<T>>,
)
    requires
        opt_scalar_arr_rel::<T>(o, n, a),
        opt_scalar_arr_rel::<T>(o, n, b),
    ensures
        opt_arr_text_eq::<T>(a, b),
{
    match spec_lookup(o, n) {
        Some(Json::Arr(w)) => match (a, b) {
            (Option::Some(x), Option::Some(y)) => lemma_str_elems_unique::<T>(w@, x@, y@),
            _ => (),
        },
        _ => (),
    }
}

/// An element-wise record parse pins every element down.
pub proof fn lemma_rec_elems_unique<T: FromWire>(a: Seq<Json>, xs: Seq<T>, ys: Seq<T>)
    requires
        rec_elems_rel::<T>(a, xs),
        rec_elems_rel::<T>(a, ys),
    ensures
        arr_value_eq::<T>(xs, ys),
{
    assert forall|i: int| 0 <= i < xs.len() implies T::value_eq(xs[i], #[trigger] ys[i]) by {
        T::wire_unique(a[i], xs[i], ys[i]);
    }
}

/// A required record field pins its value down.
pub proof fn lemma_req_rec_unique<T: FromWire>(o: Seq<(String, Json)>, n: Seq<char>, a: T, b: T)
    requires
        req_rec_rel::<T>(o, n, a),
        req_rec_rel::<T>(o, n, b),
    ensures
        T::value_eq(a, b),
{
    match spec_lookup(o, n) {
        Some(w) => T::wire_unique(w, a, b),
        None => (),
    }
}

/// An optional record field pins its value down.
pub proof fn lemma_opt_rec_unique<T: FromWire>(
    o: Seq<(String, Json)>,
    n: Seq<char>,
    a: Option<T>,
    b: Option<T>,
)
    requires
        opt_rec_rel::<T>(o, n, a),
        opt_rec_rel::<T>(o, n, b),
    ensures
        opt_value_eq::<T>(a, b),
{
    match spec_lookup(o, n) {
        Some(w) => match (a, b) {
            (Option::Some(x), Option::Some(y)) => T::wire_unique(w, x, y),
            _ => (),
        },
        None => (),
    }
}

/// An optional array-of-records field pins its value down.
pub proof fn lemma_opt_rec_arr_unique<T: FromWire>(
    o: Seq<(String, Json)>,
    n: Seq<char>,
    a: Option<Vec<T>>,
    b: Option<Vec<T>>,
)
    requires
        opt_rec_arr_rel::<T>(o, n, a),
        opt_rec_arr_rel::<T>(o, n, b),
    ensures
        opt_arr_value_eq::<T>(a, b),
{
    match spec_lookup(o, n) {
        Some(Json::Arr(w)) => match (a, b) {
            (Option::Some(x), Option::Some(y)) => lemma_rec_elems_unique::<T>(w@, x@, y@),
            _ => (),
        },
        _ => (),
    }
}

} // verus!
