use vstd::prelude::*;
use crate::json::Json;
use crate::wire::{
    opt_scalar, opt_scalar_arr, opt_scalar_arr_ok, opt_scalar_arr_rel, opt_scalar_ok,
    opt_scalar_rel, req_scalar, req_scalar_ok, req_scalar_rel, req_u16, req_u16_ok, req_u16_rel,
    FromWire,
};
use crate::wire::{
    lemma_opt_scalar_arr_unique, lemma_opt_scalar_unique, lemma_req_scalar_unique,
    opt_arr_text_eq, opt_text_eq,
};
use crate::wire::{
    is_nested_at, is_wrong_type_err, opt_scalar_err, req_scalar_err, req_u32_err,
};

verus! {

/// A validation failure raised while mapping a wire value into a typed
/// record. Every failure is a plain returned value that names the wire
/// field or tag that was rejected, so a caller can surface exactly which
/// part of the upstream data was unexpected.
#[derive(Debug, PartialEq)]
pub enum ValidationError {
    /// A price string that is not a plain base-10 decimal literal.
    InvalidPrice { raw: String },
    /// A string that is not a well-formed absolute URI.
    InvalidUri { raw: String },
    /// A string that is not an identifier in canonical UUID textual form.
    InvalidUuid { raw: String },
    /// A string that is not a calendar date in `YYYY-MM-DD` form.
    InvalidDate { raw: String },
    /// A wire tag outside the closed vocabulary of the enumeration named
    /// by `field`.
    UnknownTag { field: String, raw: String },
    /// A required field that is absent (or null) on the wire object.
    MissingRequiredField { field: String },
    /// A field whose wire value has the wrong JSON shape for its schema
    /// type, e.g. a number where a string is expected.
    WrongType { field: String },
    /// A nested validator failure, attributed to the field it occurred
    /// under so that the failing leaf keeps its full field path.
    MalformedRecord { field: String, cause: Box<ValidationError> },
}

impl ValidationError {
    /// A short machine-readable label for the failure kind.
    pub fn kind(&self) -> (r: &'static str)
        ensures
            r@ == self.kind_name(),
    {
        match self {
            ValidationError::InvalidPrice { .. } => "invalid_price",
            ValidationError::InvalidUri { .. } => "invalid_uri",
            ValidationError::InvalidUuid { .. } => "invalid_uuid",
            ValidationError::InvalidDate { .. } => "invalid_date",
            ValidationError::UnknownTag { .. } => "unknown_tag",
            ValidationError::MissingRequiredField { .. } => "missing_required_field",
            ValidationError::WrongType { .. } => "wrong_type",
            ValidationError::MalformedRecord { .. } => "malformed_record",
        }
    }

    /// The label `kind` returns, one per variant.
    pub open spec fn kind_name(&self) -> Seq<char> {
        match self {
            ValidationError::InvalidPrice { .. } => "invalid_price"@,
            ValidationError::InvalidUri { .. } => "invalid_uri"@,
            ValidationError::InvalidUuid { .. } => "invalid_uuid"@,
            ValidationError::InvalidDate { .. } => "invalid_date"@,
            ValidationError::UnknownTag { .. } => "unknown_tag"@,
            ValidationError::MissingRequiredField { .. } => "missing_required_field"@,
            ValidationError::WrongType { .. } => "wrong_type"@,
            ValidationError::MalformedRecord { .. } => "malformed_record"@,
        }
    }
}

/// The error body that accompanies a failed request. It mirrors the
/// server's 4xx/5xx error object one-to-one: it is ordinary returned
/// data that the transport layer surfaces to its callers, never an
/// exception-control object, and nothing in this layer retries it.
#[derive(Debug, PartialEq)]
pub struct Error {
    /// The HTTP-like status code of the failure.
    pub error: u16,
    /// A machine-readable label for the status code.
    pub code: String,
    /// A human-readable explanation.
    pub details: String,
    /// A label for the specific kind of failure, when one status code
    /// covers several.
    pub error_type: Option<String>,
    /// Non-fatal warnings the request also produced.
    pub warnings: Option<Vec<String>>,
}

impl Error {
    /// Whether a wire object is a valid error body.
    pub open spec fn obj_ok(o: Seq<(String, Json)>) -> bool {
        &&& req_u16_ok(o, "error"@)
        &&& req_scalar_ok::<String>(o, "code"@)
        &&& req_scalar_ok::<String>(o, "details"@)
        &&& opt_scalar_ok::<String>(o, "error_type"@)
        &&& opt_scalar_arr_ok::<String>(o, "warnings"@)
    }

    /// What a correct parse of a valid error body is.
    pub open spec fn obj_rel(o: Seq<(String, Json)>, v: Error) -> bool {
        &&& req_u16_rel(o, "error"@, v.error)
        &&& req_scalar_rel::<String>(o, "code"@, v.code)
        &&& req_scalar_rel::<String>(o, "details"@, v.details)
        &&& opt_scalar_rel::<String>(o, "error_type"@, v.error_type)
        &&& opt_scalar_arr_rel::<String>(o, "warnings"@, v.warnings)
    }

    /// The failure a rejected error wire object reports: the error of one
    /// of its fields.
    pub open spec fn obj_err(o: Seq<(String, Json)>, e: ValidationError) -> bool {
        ||| req_u32_err(o, "error"@, e)
        ||| req_scalar_err::<String>(o, "code"@, e)
        ||| req_scalar_err::<String>(o, "details"@, e)
        ||| opt_scalar_err::<String>(o, "error_type"@, e)
        ||| is_wrong_type_err(e, "warnings"@)
        ||| is_nested_at(e, "warnings"@)
    }

    /// Parses one whole error body.
    pub fn parse(j: &Json) -> (r: Result<Error, ValidationError>)
        ensures
            r is Ok <==> <Error as FromWire>::wire_ok(*j),
            r matches Ok(v) ==> <Error as FromWire>::wire_rel(*j, v),
    {
        <Error as FromWire>::from_wire(j)
    }
}

impl FromWire for Error {
    open spec fn value_eq(a: Error, b: Error) -> bool {
        &&& a.error == b.error
        &&& a.code@ == b.code@
        &&& a.details@ == b.details@
        &&& opt_text_eq::<String>(a.error_type, b.error_type)
        &&& opt_arr_text_eq::<String>(a.warnings, b.warnings)
    }

    proof fn wire_unique(j: Json, a: Error, b: Error) {
        match j {
            Json::Obj(o) => {
                lemma_req_scalar_unique::<String>(o@, "code"@, a.code, b.code);
                lemma_req_scalar_unique::<String>(o@, "details"@, a.details, b.details);
                lemma_opt_scalar_unique::<String>(o@, "error_type"@, a.error_type, b.error_type);
                lemma_opt_scalar_arr_unique::<String>(o@, "warnings"@, a.warnings, b.warnings);
            },
            _ => (),
        }
    }

    open spec fn wire_ok(j: Json) -> bool {
        match j {
            Json::Obj(o) => Error::obj_ok(o@),
            _ => false,
        }
    }

    open spec fn wire_rel(j: Json, v: Error) -> bool {
        match j {
            Json::Obj(o) => Error::obj_rel(o@, v),
            _ => false,
        }
    }

    open spec fn wire_err(j: Json, e: ValidationError) -> bool {
        match j {
            Json::Obj(o) => Error::obj_err(o@, e),
            _ => is_wrong_type_err(e, "error"@),
        }
    }

    fn from_wire(j: &Json) -> (r: Result<Error, ValidationError>) {
        let o = match j {
            Json::Obj(o) => o,
            _ => {
                return Err(ValidationError::WrongType { field: "error".to_owned() });
            },
        };
        let error = req_u16(o, "error")?;
        let code = req_scalar::<String>(o, "code")?;
        let details = req_scalar::<String>(o, "details")?;
        let error_type = opt_scalar::<String>(o, "error_type")?;
        let warnings = opt_scalar_arr::<String>(o, "warnings")?;
        Ok(Error { error, code, details, error_type, warnings })
    }
}

} // verus!
