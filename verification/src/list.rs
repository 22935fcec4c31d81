use vstd::prelude::*;
use crate::card::Card;
use crate::error::ValidationError;
use crate::json::{lookup, spec_given, spec_lookup, Json};
use crate::set::CardSet;
use crate::uri::Uri;
use crate::wire::{
    arr_value_eq, is_missing_err, is_nested_at, is_wrong_type_err, lemma_opt_scalar_arr_unique,
    lemma_opt_scalar_unique, lemma_rec_elems_unique, opt_arr_text_eq, opt_scalar_err, opt_text_eq,
    missing_err, nested_err, opt_scalar, opt_scalar_arr, opt_scalar_arr_ok, opt_scalar_arr_rel,
    opt_scalar_ok, opt_scalar_rel, opt_u32, opt_u32_ok, opt_u32_rel, parse_rec_elems, req_u32_err,
    rec_elems_ok, rec_elems_rel, req_bool, req_bool_ok, req_bool_rel, wrong_type_err, FromWire,
};

verus! {

/// One page of a paginated result: an ordered sequence of homogeneous
/// records, a continuation indicator and an optional forward link. The
/// envelope performs no transport work itself; it only hands the
/// continuation URI back for the caller to dispatch.
#[derive(Debug, PartialEq)]
pub struct List<T> {
    /// The requested records, in the server-given order.
    pub data: Vec<T>,
    /// Whether a page beyond this one exists.
    pub has_more: bool,
    /// The forward link to the next page, when one exists.
    pub next_page: Option<Uri>,
    /// The total number of cards across all pages; advisory, and only
    /// meaningful for card lists.
    pub total_card: Option<u32>,
    /// Non-fatal warnings the server issued for this request.
    pub warnings: Option<Vec<String>>,
}

/// A page of cards.
pub type CardList = List<Card>;

/// A page of sets.
pub type SetList = List<CardSet>;

impl<T: FromWire> List<T> {
    /// The invariant every parsed list satisfies: a page that claims a
    /// continuation carries the link to it.
    pub open spec fn wf(self) -> bool {
        self.has_more ==> self.next_page is Some
    }

    /// Whether a wire object is a fully valid page of `T` records. A
    /// page that sets `has_more` without a `next_page` link violates the
    /// protocol and is not accepted.
    pub open spec fn obj_ok(o: Seq<(String, Json)>) -> bool {
        &&& match spec_lookup(o, "data"@) {
            Some(Json::Arr(a)) => rec_elems_ok::<T>(a@),
            _ => false,
        }
        &&& req_bool_ok(o, "has_more"@)
        &&& opt_scalar_ok::<Uri>(o, "next_page"@)
        &&& opt_u32_ok(o, "total_card"@)
        &&& opt_scalar_arr_ok::<String>(o, "warnings"@)
        &&& (spec_lookup(o, "has_more"@) == Some(Json::Bool(true)) ==> spec_given(
            o,
            "next_page"@,
        ))
    }

    /// What a correct parse of a valid page is: every record in the
    /// server-given order, and the envelope fields as sent.
    pub open spec fn obj_rel(o: Seq<(String, Json)>, v: List<T>) -> bool {
        &&& match spec_lookup(o, "data"@) {
            Some(Json::Arr(a)) => rec_elems_rel::<T>(a@, v.data@),
            _ => false,
        }
        &&& req_bool_rel(o, "has_more"@, v.has_more)
        &&& opt_scalar_rel::<Uri>(o, "next_page"@, v.next_page)
        &&& opt_u32_rel(o, "total_card"@, v.total_card)
        &&& opt_scalar_arr_rel::<String>(o, "warnings"@, v.warnings)
    }

    /// The failure a rejected page reports: the error of one of its
    /// fields, or the missing continuation link of a page that claims a
    /// further page without naming one.
    pub open spec fn obj_err(o: Seq<(String, Json)>, e: ValidationError) -> bool {
        ||| is_missing_err(e, "data"@)
        ||| is_nested_at(e, "data"@)
        ||| is_wrong_type_err(e, "data"@)
        ||| req_u32_err(o, "has_more"@, e)
        ||| is_wrong_type_err(e, "has_more"@)
        ||| opt_scalar_err::<Uri>(o, "next_page"@, e)
        ||| is_wrong_type_err(e, "total_card"@)
        ||| is_wrong_type_err(e, "warnings"@)
        ||| is_nested_at(e, "warnings"@)
        ||| is_missing_err(e, "next_page"@)
    }

    /// Whether a wire value is a fully valid page.
    pub open spec fn wire_ok(j: Json) -> bool {
        match j {
            Json::Obj(o) => List::<T>::obj_ok(o@),
            _ => false,
        }
    }

    /// What a correct parse of a valid page wire value is.
    pub open spec fn wire_rel(j: Json, v: List<T>) -> bool {
        match j {
            Json::Obj(o) => List::<T>::obj_rel(o@, v),
            _ => false,
        }
    }

    /// The failure a rejected page wire value reports.
    pub open spec fn wire_err(j: Json, e: ValidationError) -> bool {
        match j {
            Json::Obj(o) => List::<T>::obj_err(o@, e),
            _ => is_wrong_type_err(e, "list"@),
        }
    }

    /// Parses one whole page. The record parser is supplied by the
    /// element type, so the same envelope serves every record kind. A
    /// page whose `has_more` is set without a continuation link is a
    /// protocol violation and is reported as a missing `next_page`, so
    /// it stays distinguishable from a page that simply ends.
    pub fn parse(j: &Json) -> (r: Result<List<T>, ValidationError>)
        ensures
            r is Ok <==> List::<T>::wire_ok(*j),
            r matches Ok(v) ==> List::<T>::wire_rel(*j, v) && v.wf(),
            r matches Err(e) ==> List::<T>::wire_err(*j, e),
    {
        let o = match j {
            Json::Obj(o) => o,
            _ => {
                return Err(ValidationError::WrongType { field: "list".to_owned() });
            },
        };
        let data = match lookup(o, "data") {
            None => {
                return Err(missing_err("data"));
            },
            Some(v) => match v {
                Json::Null => {
                    return Err(missing_err("data"));
                },
                Json::Arr(a) => match parse_rec_elems::<T>(a) {
                    Ok(xs) => xs,
                    Err(c) => {
                        return Err(nested_err("data", c));
                    },
                },
                _ => {
                    return Err(wrong_type_err("data"));
                },
            },
        };
        let has_more = req_bool(o, "has_more")?;
        let next_page = opt_scalar::<Uri>(o, "next_page")?;
        let total_card = opt_u32(o, "total_card")?;
        let warnings = opt_scalar_arr::<String>(o, "warnings")?;
        if has_more && next_page.is_none() {
            return Err(missing_err("next_page"));
        }
        Ok(List { data, has_more, next_page, total_card, warnings })
    }
}

/// Law: parsing the same wire page twice yields equal envelopes and
/// equal records, element by element in the same order.
pub proof fn lemma_list_parse_deterministic<T: FromWire>(j: Json, l1: List<T>, l2: List<T>)
    requires
        List::<T>::wire_rel(j, l1),
        List::<T>::wire_rel(j, l2),
    ensures
        arr_value_eq::<T>(l1.data@, l2.data@),
        l1.has_more == l2.has_more,
        opt_text_eq::<Uri>(l1.next_page, l2.next_page),
        l1.total_card == l2.total_card,
        opt_arr_text_eq::<String>(l1.warnings, l2.warnings),
{
    match j {
        Json::Obj(o) => {
            match spec_lookup(o@, "data"@) {
                Some(Json::Arr(a)) => lemma_rec_elems_unique::<T>(a@, l1.data@, l2.data@),
                _ => (),
            }
            lemma_opt_scalar_unique::<Uri>(o@, "next_page"@, l1.next_page, l2.next_page);
            lemma_opt_scalar_arr_unique::<String>(o@, "warnings"@, l1.warnings, l2.warnings);
        },
        _ => (),
    }
}

/// Law: any parsed list that claims a further page carries a
/// continuation URI; a wire page that violates this is never accepted,
/// so the violation surfaces as an error instead of a silent patch.
pub proof fn lemma_has_more_requires_next_page<T: FromWire>(j: Json, l: List<T>)
    requires
        List::<T>::wire_ok(j),
        List::<T>::wire_rel(j, l),
    ensures
        l.has_more ==> l.next_page is Some,
{
}

} // verus!
