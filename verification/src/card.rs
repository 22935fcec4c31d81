use vstd::prelude::*;
use crate::date::Date;
use crate::enums::{Color, Frame, FrameEffect, Game, Layout, Legality, Rarity};
use crate::error::ValidationError;
use crate::json::Json;
use crate::price::Price;
use crate::uri::Uri;
use crate::uuid::Uuid;
use crate::wire::{
    opt_bool, opt_bool_ok, opt_bool_rel, opt_rec, opt_rec_arr, opt_rec_arr_ok, opt_rec_arr_rel,
    opt_rec_ok, opt_rec_rel, opt_scalar, opt_scalar_arr, opt_scalar_arr_ok, opt_scalar_arr_rel,
    opt_scalar_ok, opt_scalar_rel, opt_u32, opt_u32_arr, opt_u32_arr_ok, opt_u32_arr_rel,
    opt_u32_ok, opt_u32_rel, req_rec, req_rec_ok, req_rec_rel, req_scalar, req_scalar_ok,
    req_scalar_rel, FromWire, StrScalar,
};
use crate::wire::{
    lemma_opt_rec_arr_unique, lemma_opt_rec_unique, lemma_opt_scalar_arr_unique,
    lemma_opt_scalar_unique, lemma_req_rec_unique, lemma_req_scalar_unique, opt_arr_text_eq,
    opt_arr_value_eq, opt_text_eq, opt_value_eq,
};
use crate::wire::{
    is_missing_err, is_nested_at, is_wrong_type_err, opt_scalar_err, req_scalar_err, req_u32_err,
};

verus! {

/// The available imagery of one card or card face. Every field is
/// independently present or absent; there is no further invariant.
#[derive(Debug, PartialEq)]
pub struct ImageUris {
    pub small: Option<Uri>,
    pub normal: Option<Uri>,
    pub large: Option<Uri>,
    pub png: Option<Uri>,
    pub art_crop: Option<Uri>,
    pub border_crop: Option<Uri>,
}

impl ImageUris {
    /// Whether a wire object is a valid imagery record.
    pub open spec fn obj_ok(o: Seq<(String, Json)>) -> bool {
        &&& opt_scalar_ok::<Uri>(o, "small"@)
        &&& opt_scalar_ok::<Uri>(o, "normal"@)
        &&& opt_scalar_ok::<Uri>(o, "large"@)
        &&& opt_scalar_ok::<Uri>(o, "png"@)
        &&& opt_scalar_ok::<Uri>(o, "art_crop"@)
        &&& opt_scalar_ok::<Uri>(o, "border_crop"@)
    }

    /// What a correct parse of a valid imagery record is.
    pub open spec fn obj_rel(o: Seq<(String, Json)>, v: ImageUris) -> bool {
        &&& opt_scalar_rel::<Uri>(o, "small"@, v.small)
        &&& opt_scalar_rel::<Uri>(o, "normal"@, v.normal)
        &&& opt_scalar_rel::<Uri>(o, "large"@, v.large)
        &&& opt_scalar_rel::<Uri>(o, "png"@, v.png)
        &&& opt_scalar_rel::<Uri>(o, "art_crop"@, v.art_crop)
        &&& opt_scalar_rel::<Uri>(o, "border_crop"@, v.border_crop)
    }

    /// The failure a rejected image uris wire object reports: the error of one
    /// of its fields.
    pub open spec fn obj_err(o: Seq<(String, Json)>, e: ValidationError) -> bool {
        ||| opt_scalar_err::<Uri>(o, "small"@, e)
        ||| opt_scalar_err::<Uri>(o, "normal"@, e)
        ||| opt_scalar_err::<Uri>(o, "large"@, e)
        ||| opt_scalar_err::<Uri>(o, "png"@, e)
        ||| opt_scalar_err::<Uri>(o, "art_crop"@, e)
        ||| opt_scalar_err::<Uri>(o, "border_crop"@, e)
    }
}

impl FromWire for ImageUris {
    open spec fn value_eq(a: ImageUris, b: ImageUris) -> bool {
        &&& opt_text_eq::<Uri>(a.small, b.small)
        &&& opt_text_eq::<Uri>(a.normal, b.normal)
        &&& opt_text_eq::<Uri>(a.large, b.large)
        &&& opt_text_eq::<Uri>(a.png, b.png)
        &&& opt_text_eq::<Uri>(a.art_crop, b.art_crop)
        &&& opt_text_eq::<Uri>(a.border_crop, b.border_crop)
    }

    proof fn wire_unique(j: Json, a: ImageUris, b: ImageUris) {
        match j {
            Json::Obj(o) => {
                lemma_opt_scalar_unique::<Uri>(o@, "small"@, a.small, b.small);
                lemma_opt_scalar_unique::<Uri>(o@, "normal"@, a.normal, b.normal);
                lemma_opt_scalar_unique::<Uri>(o@, "large"@, a.large, b.large);
                lemma_opt_scalar_unique::<Uri>(o@, "png"@, a.png, b.png);
                lemma_opt_scalar_unique::<Uri>(o@, "art_crop"@, a.art_crop, b.art_crop);
                lemma_opt_scalar_unique::<Uri>(o@, "border_crop"@, a.border_crop, b.border_crop);
            },
            _ => (),
        }
    }

    open spec fn wire_ok(j: Json) -> bool {
        match j {
            Json::Obj(o) => ImageUris::obj_ok(o@),
            _ => false,
        }
    }

    open spec fn wire_rel(j: Json, v: ImageUris) -> bool {
        match j {
            Json::Obj(o) => ImageUris::obj_rel(o@, v),
            _ => false,
        }
    }

    open spec fn wire_err(j: Json, e: ValidationError) -> bool {
        match j {
            Json::Obj(o) => ImageUris::obj_err(o@, e),
            _ => is_wrong_type_err(e, "image_uris"@),
        }
    }

    fn from_wire(j: &Json) -> (r: Result<ImageUris, ValidationError>) {
        let o = match j {
            Json::Obj(o) => o,
            _ => {
                return Err(ValidationError::WrongType { field: "image_uris".to_owned() });
            },
        };
        let small = opt_scalar::<Uri>(o, "small")?;
        let normal = opt_scalar::<Uri>(o, "normal")?;
        let large = opt_scalar::<Uri>(o, "large")?;
        let png = opt_scalar::<Uri>(o, "png")?;
        let art_crop = opt_scalar::<Uri>(o, "art_crop")?;
        let border_crop = opt_scalar::<Uri>(o, "border_crop")?;
        Ok(ImageUris { small, normal, large, png, art_crop, border_crop })
    }
}

/// The daily prices of one printing on the markets the catalog tracks.
/// Every field is independently present or absent.
#[derive(Debug, PartialEq)]
pub struct Prices {
    pub usd: Option<Price>,
    pub usd_foil: Option<Price>,
    pub eur: Option<Price>,
    pub tix: Option<Price>,
}

impl Prices {
    /// Whether a wire object is a valid prices record.
    pub open spec fn obj_ok(o: Seq<(String, Json)>) -> bool {
        &&& opt_scalar_ok::<Price>(o, "usd"@)
        &&& opt_scalar_ok::<Price>(o, "usd_foil"@)
        &&& opt_scalar_ok::<Price>(o, "eur"@)
        &&& opt_scalar_ok::<Price>(o, "tix"@)
    }

    /// What a correct parse of a valid prices record is.
    pub open spec fn obj_rel(o: Seq<(String, Json)>, v: Prices) -> bool {
        &&& opt_scalar_rel::<Price>(o, "usd"@, v.usd)
        &&& opt_scalar_rel::<Price>(o, "usd_foil"@, v.usd_foil)
        &&& opt_scalar_rel::<Price>(o, "eur"@, v.eur)
        &&& opt_scalar_rel::<Price>(o, "tix"@, v.tix)
    }

    /// The failure a rejected prices wire object reports: the error of one
    /// of its fields.
    pub open spec fn obj_err(o: Seq<(String, Json)>, e: ValidationError) -> bool {
        ||| opt_scalar_err::<Price>(o, "usd"@, e)
        ||| opt_scalar_err::<Price>(o, "usd_foil"@, e)
        ||| opt_scalar_err::<Price>(o, "eur"@, e)
        ||| opt_scalar_err::<Price>(o, "tix"@, e)
    }
}

impl FromWire for Prices {
    open spec fn value_eq(a: Prices, b: Prices) -> bool {
        &&& opt_text_eq::<Price>(a.usd, b.usd)
        &&& opt_text_eq::<Price>(a.usd_foil, b.usd_foil)
        &&& opt_text_eq::<Price>(a.eur, b.eur)
        &&& opt_text_eq::<Price>(a.tix, b.tix)
    }

    proof fn wire_unique(j: Json, a: Prices, b: Prices) {
        match j {
            Json::Obj(o) => {
                lemma_opt_scalar_unique::<Price>(o@, "usd"@, a.usd, b.usd);
                lemma_opt_scalar_unique::<Price>(o@, "usd_foil"@, a.usd_foil, b.usd_foil);
                lemma_opt_scalar_unique::<Price>(o@, "eur"@, a.eur, b.eur);
                lemma_opt_scalar_unique::<Price>(o@, "tix"@, a.tix, b.tix);
            },
            _ => (),
        }
    }

    open spec fn wire_ok(j: Json) -> bool {
        match j {
            Json::Obj(o) => Prices::obj_ok(o@),
            _ => false,
        }
    }

    open spec fn wire_rel(j: Json, v: Prices) -> bool {
        match j {
            Json::Obj(o) => Prices::obj_rel(o@, v),
            _ => false,
        }
    }

    open spec fn wire_err(j: Json, e: ValidationError) -> bool {
        match j {
            Json::Obj(o) => Prices::obj_err(o@, e),
            _ => is_wrong_type_err(e, "prices"@),
        }
    }

    fn from_wire(j: &Json) -> (r: Result<Prices, ValidationError>) {
        let o = match j {
            Json::Obj(o) => o,
            _ => {
                return Err(ValidationError::WrongType { field: "prices".to_owned() });
            },
        };
        let usd = opt_scalar::<Price>(o, "usd")?;
        let usd_foil = opt_scalar::<Price>(o, "usd_foil")?;
        let eur = opt_scalar::<Price>(o, "eur")?;
        let tix = opt_scalar::<Price>(o, "tix")?;
        Ok(Prices { usd, usd_foil, eur, tix })
    }
}

/// Marketplace listings of one printing.
#[derive(Debug, PartialEq)]
pub struct PurchaseUris {
    pub tcgplayer: Option<Uri>,
    pub cardmarket: Option<Uri>,
    pub cardhoarder: Option<Uri>,
}

impl PurchaseUris {
    /// Whether a wire object is a valid purchase-links record.
    pub open spec fn obj_ok(o: Seq<(String, Json)>) -> bool {
        &&& opt_scalar_ok::<Uri>(o, "tcgplayer"@)
        &&& opt_scalar_ok::<Uri>(o, "cardmarket"@)
        &&& opt_scalar_ok::<Uri>(o, "cardhoarder"@)
    }

    /// What a correct parse of a valid purchase-links record is.
    pub open spec fn obj_rel(o: Seq<(String, Json)>, v: PurchaseUris) -> bool {
        &&& opt_scalar_rel::<Uri>(o, "tcgplayer"@, v.tcgplayer)
        &&& opt_scalar_rel::<Uri>(o, "cardmarket"@, v.cardmarket)
        &&& opt_scalar_rel::<Uri>(o, "cardhoarder"@, v.cardhoarder)
    }

    /// The failure a rejected purchase uris wire object reports: the error of one
    /// of its fields.
    pub open spec fn obj_err(o: Seq<(String, Json)>, e: ValidationError) -> bool {
        ||| opt_scalar_err::<Uri>(o, "tcgplayer"@, e)
        ||| opt_scalar_err::<Uri>(o, "cardmarket"@, e)
        ||| opt_scalar_err::<Uri>(o, "cardhoarder"@, e)
    }
}

impl FromWire for PurchaseUris {
    open spec fn value_eq(a: PurchaseUris, b: PurchaseUris) -> bool {
        &&& opt_text_eq::<Uri>(a.tcgplayer, b.tcgplayer)
        &&& opt_text_eq::<Uri>(a.cardmarket, b.cardmarket)
        &&& opt_text_eq::<Uri>(a.cardhoarder, b.cardhoarder)
    }

    proof fn wire_unique(j: Json, a: PurchaseUris, b: PurchaseUris) {
        match j {
            Json::Obj(o) => {
                lemma_opt_scalar_unique::<Uri>(o@, "tcgplayer"@, a.tcgplayer, b.tcgplayer);
                lemma_opt_scalar_unique::<Uri>(o@, "cardmarket"@, a.cardmarket, b.cardmarket);
                lemma_opt_scalar_unique::<Uri>(o@, "cardhoarder"@, a.cardhoarder, b.cardhoarder);
            },
            _ => (),
        }
    }

    open spec fn wire_ok(j: Json) -> bool {
        match j {
            Json::Obj(o) => PurchaseUris::obj_ok(o@),
            _ => false,
        }
    }

    open spec fn wire_rel(j: Json, v: PurchaseUris) -> bool {
        match j {
            Json::Obj(o) => PurchaseUris::obj_rel(o@, v),
            _ => false,
        }
    }

    open spec fn wire_err(j: Json, e: ValidationError) -> bool {
        match j {
            Json::Obj(o) => PurchaseUris::obj_err(o@, e),
            _ => is_wrong_type_err(e, "purchase_uris"@),
        }
    }

    fn from_wire(j: &Json) -> (r: Result<PurchaseUris, ValidationError>) {
        let o = match j {
            Json::Obj(o) => o,
            _ => {
                return Err(ValidationError::WrongType { field: "purchase_uris".to_owned() });
            },
        };
        let tcgplayer = opt_scalar::<Uri>(o, "tcgplayer")?;
        let cardmarket = opt_scalar::<Uri>(o, "cardmarket")?;
        let cardhoarder = opt_scalar::<Uri>(o, "cardhoarder")?;
        Ok(PurchaseUris { tcgplayer, cardmarket, cardhoarder })
    }
}

/// Listings of one printing on other community resources.
#[derive(Debug, PartialEq)]
pub struct RelatedUris {
    pub tcgplayer_decks: Option<Uri>,
    pub edhrec: Option<Uri>,
    pub mtgtop8: Option<Uri>,
}

impl RelatedUris {
    /// Whether a wire object is a valid related-links record.
    pub open spec fn obj_ok(o: Seq<(String, Json)>) -> bool {
        &&& opt_scalar_ok::<Uri>(o, "tcgplayer_decks"@)
        &&& opt_scalar_ok::<Uri>(o, "edhrec"@)
        &&& opt_scalar_ok::<Uri>(o, "mtgtop8"@)
    }

    /// What a correct parse of a valid related-links record is.
    pub open spec fn obj_rel(o: Seq<(String, Json)>, v: RelatedUris) -> bool {
        &&& opt_scalar_rel::<Uri>(o, "tcgplayer_decks"@, v.tcgplayer_decks)
        &&& opt_scalar_rel::<Uri>(o, "edhrec"@, v.edhrec)
        &&& opt_scalar_rel::<Uri>(o, "mtgtop8"@, v.mtgtop8)
    }

    /// The failure a rejected related uris wire object reports: the error of one
    /// of its fields.
    pub open spec fn obj_err(o: Seq<(String, Json)>, e: ValidationError) -> bool {
        ||| opt_scalar_err::<Uri>(o, "tcgplayer_decks"@, e)
        ||| opt_scalar_err::<Uri>(o, "edhrec"@, e)
        ||| opt_scalar_err::<Uri>(o, "mtgtop8"@, e)
    }
}

impl FromWire for RelatedUris {
    open spec fn value_eq(a: RelatedUris, b: RelatedUris) -> bool {
        &&& opt_text_eq::<Uri>(a.tcgplayer_decks, b.tcgplayer_decks)
        &&& opt_text_eq::<Uri>(a.edhrec, b.edhrec)
        &&& opt_text_eq::<Uri>(a.mtgtop8, b.mtgtop8)
    }

    proof fn wire_unique(j: Json, a: RelatedUris, b: RelatedUris) {
        match j {
            Json::Obj(o) => {
                lemma_opt_scalar_unique::<Uri>(
                    o@,
                    "tcgplayer_decks"@,
                    a.tcgplayer_decks,
                    b.tcgplayer_decks,
                );
                lemma_opt_scalar_unique::<Uri>(o@, "edhrec"@, a.edhrec, b.edhrec);
                lemma_opt_scalar_unique::<Uri>(o@, "mtgtop8"@, a.mtgtop8, b.mtgtop8);
            },
            _ => (),
        }
    }

    open spec fn wire_ok(j: Json) -> bool {
        match j {
            Json::Obj(o) => RelatedUris::obj_ok(o@),
            _ => false,
        }
    }

    open spec fn wire_rel(j: Json, v: RelatedUris) -> bool {
        match j {
            Json::Obj(o) => RelatedUris::obj_rel(o@, v),
            _ => false,
        }
    }

    open spec fn wire_err(j: Json, e: ValidationError) -> bool {
        match j {
            Json::Obj(o) => RelatedUris::obj_err(o@, e),
            _ => is_wrong_type_err(e, "related_uris"@),
        }
    }

    fn from_wire(j: &Json) -> (r: Result<RelatedUris, ValidationError>) {
        let o = match j {
            Json::Obj(o) => o,
            _ => {
                return Err(ValidationError::WrongType { field: "related_uris".to_owned() });
            },
        };
        let tcgplayer_decks = opt_scalar::<Uri>(o, "tcgplayer_decks")?;
        let edhrec = opt_scalar::<Uri>(o, "edhrec")?;
        let mtgtop8 = opt_scalar::<Uri>(o, "mtgtop8")?;
        Ok(RelatedUris { tcgplayer_decks, edhrec, mtgtop8 })
    }
}

/// One legality value per supported play format. This record is always
/// fully populated: a missing format is not a valid wire state.
#[derive(Clone, Copy, Debug, PartialEq, Eq, Structural)]
pub struct Legalities {
    pub standard: Legality,
    pub future: Legality,
    pub modern: Legality,
    pub legacy: Legality,
    pub pauper: Legality,
    pub vintage: Legality,
    pub penny: Legality,
    pub commander: Legality,
    pub brawl: Legality,
    pub duel: Legality,
    pub oldschool: Legality,
}

impl DeepView for Legalities {
    type V = Legalities;

    open spec fn deep_view(&self) -> Legalities {
        *self
    }
}

impl Legalities {
    /// Whether a wire object carries a valid legality tag for every one
    /// of the supported formats.
    pub open spec fn obj_ok(o: Seq<(String, Json)>) -> bool {
        &&& req_scalar_ok::<Legality>(o, "standard"@)
        &&& req_scalar_ok::<Legality>(o, "future"@)
        &&& req_scalar_ok::<Legality>(o, "modern"@)
        &&& req_scalar_ok::<Legality>(o, "legacy"@)
        &&& req_scalar_ok::<Legality>(o, "pauper"@)
        &&& req_scalar_ok::<Legality>(o, "vintage"@)
        &&& req_scalar_ok::<Legality>(o, "penny"@)
        &&& req_scalar_ok::<Legality>(o, "commander"@)
        &&& req_scalar_ok::<Legality>(o, "brawl"@)
        &&& req_scalar_ok::<Legality>(o, "duel"@)
        &&& req_scalar_ok::<Legality>(o, "oldschool"@)
    }

    /// What a correct parse of a valid legalities record is.
    pub open spec fn obj_rel(o: Seq<(String, Json)>, v: Legalities) -> bool {
        &&& req_scalar_rel::<Legality>(o, "standard"@, v.standard)
        &&& req_scalar_rel::<Legality>(o, "future"@, v.future)
        &&& req_scalar_rel::<Legality>(o, "modern"@, v.modern)
        &&& req_scalar_rel::<Legality>(o, "legacy"@, v.legacy)
        &&& req_scalar_rel::<Legality>(o, "pauper"@, v.pauper)
        &&& req_scalar_rel::<Legality>(o, "vintage"@, v.vintage)
        &&& req_scalar_rel::<Legality>(o, "penny"@, v.penny)
        &&& req_scalar_rel::<Legality>(o, "commander"@, v.commander)
        &&& req_scalar_rel::<Legality>(o, "brawl"@, v.brawl)
        &&& req_scalar_rel::<Legality>(o, "duel"@, v.duel)
        &&& req_scalar_rel::<Legality>(o, "oldschool"@, v.oldschool)
    }

    /// The failure a rejected legalities wire object reports: the error of one
    /// of its fields.
    pub open spec fn obj_err(o: Seq<(String, Json)>, e: ValidationError) -> bool {
        ||| req_scalar_err::<Legality>(o, "standard"@, e)
        ||| req_scalar_err::<Legality>(o, "future"@, e)
        ||| req_scalar_err::<Legality>(o, "modern"@, e)
        ||| req_scalar_err::<Legality>(o, "legacy"@, e)
        ||| req_scalar_err::<Legality>(o, "pauper"@, e)
        ||| req_scalar_err::<Legality>(o, "vintage"@, e)
        ||| req_scalar_err::<Legality>(o, "penny"@, e)
        ||| req_scalar_err::<Legality>(o, "commander"@, e)
        ||| req_scalar_err::<Legality>(o, "brawl"@, e)
        ||| req_scalar_err::<Legality>(o, "duel"@, e)
        ||| req_scalar_err::<Legality>(o, "oldschool"@, e)
    }
}

impl FromWire for Legalities {
    open spec fn value_eq(a: Legalities, b: Legalities) -> bool {
        &&& a.standard == b.standard
        &&& a.future == b.future
        &&& a.modern == b.modern
        &&& a.legacy == b.legacy
        &&& a.pauper == b.pauper
        &&& a.vintage == b.vintage
        &&& a.penny == b.penny
        &&& a.commander == b.commander
        &&& a.brawl == b.brawl
        &&& a.duel == b.duel
        &&& a.oldschool == b.oldschool
    }

    proof fn wire_unique(j: Json, a: Legalities, b: Legalities) {
        match j {
            Json::Obj(o) => {
                lemma_req_scalar_unique::<Legality>(o@, "standard"@, a.standard, b.standard);
                lemma_req_scalar_unique::<Legality>(o@, "future"@, a.future, b.future);
                lemma_req_scalar_unique::<Legality>(o@, "modern"@, a.modern, b.modern);
                lemma_req_scalar_unique::<Legality>(o@, "legacy"@, a.legacy, b.legacy);
                lemma_req_scalar_unique::<Legality>(o@, "pauper"@, a.pauper, b.pauper);
                lemma_req_scalar_unique::<Legality>(o@, "vintage"@, a.vintage, b.vintage);
                lemma_req_scalar_unique::<Legality>(o@, "penny"@, a.penny, b.penny);
                lemma_req_scalar_unique::<Legality>(o@, "commander"@, a.commander, b.commander);
                lemma_req_scalar_unique::<Legality>(o@, "brawl"@, a.brawl, b.brawl);
                lemma_req_scalar_unique::<Legality>(o@, "duel"@, a.duel, b.duel);
                lemma_req_scalar_unique::<Legality>(o@, "oldschool"@, a.oldschool, b.oldschool);
            },
            _ => (),
        }
    }

    open spec fn wire_ok(j: Json) -> bool {
        match j {
            Json::Obj(o) => Legalities::obj_ok(o@),
            _ => false,
        }
    }

    open spec fn wire_rel(j: Json, v: Legalities) -> bool {
        match j {
            Json::Obj(o) => Legalities::obj_rel(o@, v),
            _ => false,
        }
    }

    open spec fn wire_err(j: Json, e: ValidationError) -> bool {
        match j {
            Json::Obj(o) => Legalities::obj_err(o@, e),
            _ => is_wrong_type_err(e, "legalities"@),
        }
    }

    fn from_wire(j: &Json) -> (r: Result<Legalities, ValidationError>) {
        let o = match j {
            Json::Obj(o) => o,
            _ => {
                return Err(ValidationError::WrongType { field: "legalities".to_owned() });
            },
        };
        let standard = req_scalar::<Legality>(o, "standard")?;
        let future = req_scalar::<Legality>(o, "future")?;
        let modern = req_scalar::<Legality>(o, "modern")?;
        let legacy = req_scalar::<Legality>(o, "legacy")?;
        let pauper = req_scalar::<Legality>(o, "pauper")?;
        let vintage = req_scalar::<Legality>(o, "vintage")?;
        let penny = req_scalar::<Legality>(o, "penny")?;
        let commander = req_scalar::<Legality>(o, "commander")?;
        let brawl = req_scalar::<Legality>(o, "brawl")?;
        let duel = req_scalar::<Legality>(o, "duel")?;
        let oldschool = req_scalar::<Legality>(o, "oldschool")?;
        Ok(
            Legalities {
                standard,
                future,
                modern,
                legacy,
                pauper,
                vintage,
                penny,
                commander,
                brawl,
                duel,
                oldschool,
            },
        )
    }
}

/// A card closely related to another one, named in its `all_parts`.
#[derive(Debug, PartialEq)]
pub struct RelatedCard {
    pub id: Uuid,
    pub component: String,
    pub name: String,
    pub type_line: String,
    pub uri: Uri,
}

impl RelatedCard {
    /// Whether a wire object is a valid related-card record.
    pub open spec fn obj_ok(o: Seq<(String, Json)>) -> bool {
        &&& req_scalar_ok::<Uuid>(o, "id"@)
        &&& req_scalar_ok::<String>(o, "component"@)
        &&& req_scalar_ok::<String>(o, "name"@)
        &&& req_scalar_ok::<String>(o, "type_line"@)
        &&& req_scalar_ok::<Uri>(o, "uri"@)
    }

    /// What a correct parse of a valid related-card record is.
    pub open spec fn obj_rel(o: Seq<(String, Json)>, v: RelatedCard) -> bool {
        &&& req_scalar_rel::<Uuid>(o, "id"@, v.id)
        &&& req_scalar_rel::<String>(o, "component"@, v.component)
        &&& req_scalar_rel::<String>(o, "name"@, v.name)
        &&& req_scalar_rel::<String>(o, "type_line"@, v.type_line)
        &&& req_scalar_rel::<Uri>(o, "uri"@, v.uri)
    }

    /// The failure a rejected all parts wire object reports: the error of one
    /// of its fields.
    pub open spec fn obj_err(o: Seq<(String, Json)>, e: ValidationError) -> bool {
        ||| req_scalar_err::<Uuid>(o, "id"@, e)
        ||| req_scalar_err::<String>(o, "component"@, e)
        ||| req_scalar_err::<String>(o, "name"@, e)
        ||| req_scalar_err::<String>(o, "type_line"@, e)
        ||| req_scalar_err::<Uri>(o, "uri"@, e)
    }
}

impl FromWire for RelatedCard {
    open spec fn value_eq(a: RelatedCard, b: RelatedCard) -> bool {
        &&& a.id@ == b.id@
        &&& a.component@ == b.component@
        &&& a.name@ == b.name@
        &&& a.type_line@ == b.type_line@
        &&& a.uri@ == b.uri@
    }

    proof fn wire_unique(j: Json, a: RelatedCard, b: RelatedCard) {
        match j {
            Json::Obj(o) => {
                lemma_req_scalar_unique::<Uuid>(o@, "id"@, a.id, b.id);
                lemma_req_scalar_unique::<String>(o@, "component"@, a.component, b.component);
                lemma_req_scalar_unique::<String>(o@, "name"@, a.name, b.name);
                lemma_req_scalar_unique::<String>(o@, "type_line"@, a.type_line, b.type_line);
                lemma_req_scalar_unique::<Uri>(o@, "uri"@, a.uri, b.uri);
            },
            _ => (),
        }
    }

    open spec fn wire_ok(j: Json) -> bool {
        match j {
            Json::Obj(o) => RelatedCard::obj_ok(o@),
            _ => false,
        }
    }

    open spec fn wire_rel(j: Json, v: RelatedCard) -> bool {
        match j {
            Json::Obj(o) => RelatedCard::obj_rel(o@, v),
            _ => false,
        }
    }

    open spec fn wire_err(j: Json, e: ValidationError) -> bool {
        match j {
            Json::Obj(o) => RelatedCard::obj_err(o@, e),
            _ => is_wrong_type_err(e, "all_parts"@),
        }
    }

    fn from_wire(j: &Json) -> (r: Result<RelatedCard, ValidationError>) {
        let o = match j {
            Json::Obj(o) => o,
            _ => {
                return Err(ValidationError::WrongType { field: "all_parts".to_owned() });
            },
        };
        let id = req_scalar::<Uuid>(o, "id")?;
        let component = req_scalar::<String>(o, "component")?;
        let name = req_scalar::<String>(o, "name")?;
        let type_line = req_scalar::<String>(o, "type_line")?;
        let uri = req_scalar::<Uri>(o, "uri")?;
        Ok(RelatedCard { id, component, name, type_line, uri })
    }
}

/// One face of a multi-faced card, mirroring the parent card's optional
/// fields. When colors live on the faces instead of the card, each face
/// carries its own `colors` field.
#[derive(Debug, PartialEq)]
pub struct CardFace {
    pub artist: Option<String>,
    pub color_indicator: Option<Vec<Color>>,
    pub colors: Option<Vec<Color>>,
    pub flavor_text: Option<String>,
    pub illustration_id: Option<Uuid>,
    pub image_uris: Option<ImageUris>,
    pub loyalty: Option<String>,
    pub mana_cost: String,
    pub name: String,
    pub oracle_text: Option<String>,
    pub power: Option<String>,
    pub printed_name: Option<String>,
    pub printed_text: Option<String>,
    pub printed_type_line: Option<String>,
    pub toughness: Option<String>,
    pub type_line: String,
    pub watermark: Option<String>,
}

impl CardFace {
    /// Whether a wire object is a valid card-face record.
    pub open spec fn obj_ok(o: Seq<(String, Json)>) -> bool {
        &&& opt_scalar_ok::<String>(o, "artist"@)
        &&& opt_scalar_arr_ok::<Color>(o, "color_indicator"@)
        &&& opt_scalar_arr_ok::<Color>(o, "colors"@)
        &&& opt_scalar_ok::<String>(o, "flavor_text"@)
        &&& opt_scalar_ok::<Uuid>(o, "illustration_id"@)
        &&& opt_rec_ok::<ImageUris>(o, "image_uris"@)
        &&& opt_scalar_ok::<String>(o, "loyalty"@)
        &&& req_scalar_ok::<String>(o, "mana_cost"@)
        &&& req_scalar_ok::<String>(o, "name"@)
        &&& opt_scalar_ok::<String>(o, "oracle_text"@)
        &&& opt_scalar_ok::<String>(o, "power"@)
        &&& opt_scalar_ok::<String>(o, "printed_name"@)
        &&& opt_scalar_ok::<String>(o, "printed_text"@)
        &&& opt_scalar_ok::<String>(o, "printed_type_line"@)
        &&& opt_scalar_ok::<String>(o, "toughness"@)
        &&& req_scalar_ok::<String>(o, "type_line"@)
        &&& opt_scalar_ok::<String>(o, "watermark"@)
    }

    /// What a correct parse of a valid card-face record is.
    pub open spec fn obj_rel(o: Seq<(String, Json)>, v: CardFace) -> bool {
        &&& opt_scalar_rel::<String>(o, "artist"@, v.artist)
        &&& opt_scalar_arr_rel::<Color>(o, "color_indicator"@, v.color_indicator)
        &&& opt_scalar_arr_rel::<Color>(o, "colors"@, v.colors)
        &&& opt_scalar_rel::<String>(o, "flavor_text"@, v.flavor_text)
        &&& opt_scalar_rel::<Uuid>(o, "illustration_id"@, v.illustration_id)
        &&& opt_rec_rel::<ImageUris>(o, "image_uris"@, v.image_uris)
        &&& opt_scalar_rel::<String>(o, "loyalty"@, v.loyalty)
        &&& req_scalar_rel::<String>(o, "mana_cost"@, v.mana_cost)
        &&& req_scalar_rel::<String>(o, "name"@, v.name)
        &&& opt_scalar_rel::<String>(o, "oracle_text"@, v.oracle_text)
        &&& opt_scalar_rel::<String>(o, "power"@, v.power)
        &&& opt_scalar_rel::<String>(o, "printed_name"@, v.printed_name)
        &&& opt_scalar_rel::<String>(o, "printed_text"@, v.printed_text)
        &&& opt_scalar_rel::<String>(o, "printed_type_line"@, v.printed_type_line)
        &&& opt_scalar_rel::<String>(o, "toughness"@, v.toughness)
        &&& req_scalar_rel::<String>(o, "type_line"@, v.type_line)
        &&& opt_scalar_rel::<String>(o, "watermark"@, v.watermark)
    }

    /// The failure a rejected card faces wire object reports: the error of one
    /// of its fields.
    pub open spec fn obj_err(o: Seq<(String, Json)>, e: ValidationError) -> bool {
        ||| opt_scalar_err::<String>(o, "artist"@, e)
        ||| is_wrong_type_err(e, "color_indicator"@)
        ||| is_nested_at(e, "color_indicator"@)
        ||| is_wrong_type_err(e, "colors"@)
        ||| is_nested_at(e, "colors"@)
        ||| opt_scalar_err::<String>(o, "flavor_text"@, e)
        ||| opt_scalar_err::<Uuid>(o, "illustration_id"@, e)
        ||| is_nested_at(e, "image_uris"@)
        ||| opt_scalar_err::<String>(o, "loyalty"@, e)
        ||| req_scalar_err::<String>(o, "mana_cost"@, e)
        ||| req_scalar_err::<String>(o, "name"@, e)
        ||| opt_scalar_err::<String>(o, "oracle_text"@, e)
        ||| opt_scalar_err::<String>(o, "power"@, e)
        ||| opt_scalar_err::<String>(o, "printed_name"@, e)
        ||| opt_scalar_err::<String>(o, "printed_text"@, e)
        ||| opt_scalar_err::<String>(o, "printed_type_line"@, e)
        ||| opt_scalar_err::<String>(o, "toughness"@, e)
        ||| req_scalar_err::<String>(o, "type_line"@, e)
        ||| opt_scalar_err::<String>(o, "watermark"@, e)
    }
}

impl FromWire for CardFace {
    open spec fn value_eq(a: CardFace, b: CardFace) -> bool {
        &&& opt_text_eq::<String>(a.artist, b.artist)
        &&& opt_arr_text_eq::<Color>(a.color_indicator, b.color_indicator)
        &&& opt_arr_text_eq::<Color>(a.colors, b.colors)
        &&& opt_text_eq::<String>(a.flavor_text, b.flavor_text)
        &&& opt_text_eq::<Uuid>(a.illustration_id, b.illustration_id)
        &&& opt_value_eq::<ImageUris>(a.image_uris, b.image_uris)
        &&& opt_text_eq::<String>(a.loyalty, b.loyalty)
        &&& a.mana_cost@ == b.mana_cost@
        &&& a.name@ == b.name@
        &&& opt_text_eq::<String>(a.oracle_text, b.oracle_text)
        &&& opt_text_eq::<String>(a.power, b.power)
        &&& opt_text_eq::<String>(a.printed_name, b.printed_name)
        &&& opt_text_eq::<String>(a.printed_text, b.printed_text)
        &&& opt_text_eq::<String>(a.printed_type_line, b.printed_type_line)
        &&& opt_text_eq::<String>(a.toughness, b.toughness)
        &&& a.type_line@ == b.type_line@
        &&& opt_text_eq::<String>(a.watermark, b.watermark)
    }

    proof fn wire_unique(j: Json, a: CardFace, b: CardFace) {
        match j {
            Json::Obj(o) => {
                lemma_opt_scalar_unique::<String>(o@, "artist"@, a.artist, b.artist);
                lemma_opt_scalar_arr_unique::<Color>(
                    o@,
                    "color_indicator"@,
                    a.color_indicator,
                    b.color_indicator,
                );
                lemma_opt_scalar_arr_unique::<Color>(o@, "colors"@, a.colors, b.colors);
                lemma_opt_scalar_unique::<String>(o@, "flavor_text"@, a.flavor_text, b.flavor_text);
                lemma_opt_scalar_unique::<Uuid>(
                    o@,
                    "illustration_id"@,
                    a.illustration_id,
                    b.illustration_id,
                );
                lemma_opt_rec_unique::<ImageUris>(o@, "image_uris"@, a.image_uris, b.image_uris);
                lemma_opt_scalar_unique::<String>(o@, "loyalty"@, a.loyalty, b.loyalty);
                lemma_req_scalar_unique::<String>(o@, "mana_cost"@, a.mana_cost, b.mana_cost);
                lemma_req_scalar_unique::<String>(o@, "name"@, a.name, b.name);
                lemma_opt_scalar_unique::<String>(o@, "oracle_text"@, a.oracle_text, b.oracle_text);
                lemma_opt_scalar_unique::<String>(o@, "power"@, a.power, b.power);
                lemma_opt_scalar_unique::<String>(
                    o@,
                    "printed_name"@,
                    a.printed_name,
                    b.printed_name,
                );
                lemma_opt_scalar_unique::<String>(
                    o@,
                    "printed_text"@,
                    a.printed_text,
                    b.printed_text,
                );
                lemma_opt_scalar_unique::<String>(
                    o@,
                    "printed_type_line"@,
                    a.printed_type_line,
                    b.printed_type_line,
                );
                lemma_opt_scalar_unique::<String>(o@, "toughness"@, a.toughness, b.toughness);
                lemma_req_scalar_unique::<String>(o@, "type_line"@, a.type_line, b.type_line);
                lemma_opt_scalar_unique::<String>(o@, "watermark"@, a.watermark, b.watermark);
            },
            _ => (),
        }
    }

    open spec fn wire_ok(j: Json) -> bool {
        match j {
            Json::Obj(o) => CardFace::obj_ok(o@),
            _ => false,
        }
    }

    open spec fn wire_rel(j: Json, v: CardFace) -> bool {
        match j {
            Json::Obj(o) => CardFace::obj_rel(o@, v),
            _ => false,
        }
    }

    open spec fn wire_err(j: Json, e: ValidationError) -> bool {
        match j {
            Json::Obj(o) => CardFace::obj_err(o@, e),
            _ => is_wrong_type_err(e, "card_faces"@),
        }
    }

    fn from_wire(j: &Json) -> (r: Result<CardFace, ValidationError>) {
        let o = match j {
            Json::Obj(o) => o,
            _ => {
                return Err(ValidationError::WrongType { field: "card_faces".to_owned() });
            },
        };
        let artist = opt_scalar::<String>(o, "artist")?;
        let color_indicator = opt_scalar_arr::<Color>(o, "color_indicator")?;
        let colors = opt_scalar_arr::<Color>(o, "colors")?;
        let flavor_text = opt_scalar::<String>(o, "flavor_text")?;
        let illustration_id = opt_scalar::<Uuid>(o, "illustration_id")?;
        let image_uris = opt_rec::<ImageUris>(o, "image_uris")?;
        let loyalty = opt_scalar::<String>(o, "loyalty")?;
        let mana_cost = req_scalar::<String>(o, "mana_cost")?;
        let name = req_scalar::<String>(o, "name")?;
        let oracle_text = opt_scalar::<String>(o, "oracle_text")?;
        let power = opt_scalar::<String>(o, "power")?;
        let printed_name = opt_scalar::<String>(o, "printed_name")?;
        let printed_text = opt_scalar::<String>(o, "printed_text")?;
        let printed_type_line = opt_scalar::<String>(o, "printed_type_line")?;
        let toughness = opt_scalar::<String>(o, "toughness")?;
        let type_line = req_scalar::<String>(o, "type_line")?;
        let watermark = opt_scalar::<String>(o, "watermark")?;
        Ok(
            CardFace {
                artist,
                color_indicator,
                colors,
                flavor_text,
                illustration_id,
                image_uris,
                loyalty,
                mana_cost,
                name,
                oracle_text,
                power,
                printed_name,
                printed_text,
                printed_type_line,
                toughness,
                type_line,
                watermark,
            },
        )
    }
}

/// The central aggregate: one card printing. The identifier, name,
/// layout, legality set, rarity, type line, release date and set code
/// are always present; every other field is optional and independently
/// nullable on the wire.
///
/// When `colors` is absent at the card level, color data is expected on
/// each entry of `card_faces` instead. That exclusive-or relationship is
/// a consumer-facing documentation contract, not a parse-time check:
/// upstream data may violate it, and only the leaf fields are strictly
/// validated here.
#[derive(Debug, PartialEq)]
pub struct Card {
    pub arena_id: Option<u32>,
    pub id: Uuid,
    pub lang: Option<String>,
    pub mtgo_id: Option<u32>,
    pub mtgo_foil_id: Option<u32>,
    pub multiverse_ids: Option<Vec<u32>>,
    pub tcgplayer_id: Option<u32>,
    pub oracle_id: Option<Uuid>,
    pub prints_search_uri: Option<Uri>,
    pub rulings_uri: Option<Uri>,
    pub scryfall_uri: Option<Uri>,
    pub uri: Option<Uri>,
    pub all_parts: Option<Vec<RelatedCard>>,
    pub card_faces: Option<Vec<CardFace>>,
    pub cmc: Option<u32>,
    pub colors: Option<Vec<Color>>,
    pub color_identity: Option<Vec<Color>>,
    pub color_indicator: Option<Vec<Color>>,
    pub edhrec_rank: Option<u32>,
    pub foil: Option<bool>,
    pub layout: Layout,
    pub legalities: Legalities,
    pub loyalty: Option<String>,
    pub mana_cost: Option<String>,
    pub name: String,
    pub nonfoil: Option<bool>,
    pub oracle_text: Option<String>,
    pub oversized: Option<bool>,
    pub power: Option<String>,
    pub reserved: Option<bool>,
    pub toughness: Option<String>,
    pub type_line: String,
    pub artist: Option<String>,
    pub booster: Option<bool>,
    pub border_color: Option<String>,
    pub card_back_id: Option<Uuid>,
    pub collector_number: Option<String>,
    pub digital: Option<bool>,
    pub flavor_text: Option<String>,
    pub frame_effect: Option<FrameEffect>,
    pub frame: Option<Frame>,
    pub full_art: Option<bool>,
    pub games: Option<Vec<Game>>,
    pub highres_image: Option<bool>,
    pub illustration_id: Option<Uuid>,
    pub image_uris: Option<ImageUris>,
    pub prices: Option<Prices>,
    pub printed_name: Option<String>,
    pub printed_text: Option<String>,
    pub printed_type_line: Option<String>,
    pub promo: Option<bool>,
    pub promo_types: Option<Vec<String>>,
    pub purchase_uris: Option<PurchaseUris>,
    pub rarity: Rarity,
    pub related_uris: Option<RelatedUris>,
    pub released_at: Date,
    pub reprint: Option<bool>,
    pub scryfall_set_uri: Option<Uri>,
    pub set_name: Option<String>,
    pub set_search_uri: Option<Uri>,
    pub set_type: Option<String>,
    pub set_uri: Option<String>,
    pub set_code: String,
    pub story_spotlight: Option<bool>,
    pub textless: Option<bool>,
    pub variation: Option<bool>,
    pub variation_of: Option<Uuid>,
    pub watermark: Option<String>,
}

impl Card {
    /// Whether a wire object is a fully valid card record: every
    /// required field present and valid, every given optional field
    /// valid.
    pub open spec fn obj_ok(o: Seq<(String, Json)>) -> bool {
        &&& opt_u32_ok(o, "arena_id"@)
        &&& req_scalar_ok::<Uuid>(o, "id"@)
        &&& opt_scalar_ok::<String>(o, "lang"@)
        &&& opt_u32_ok(o, "mtgo_id"@)
        &&& opt_u32_ok(o, "mtgo_foil_id"@)
        &&& opt_u32_arr_ok(o, "multiverse_ids"@)
        &&& opt_u32_ok(o, "tcgplayer_id"@)
        &&& opt_scalar_ok::<Uuid>(o, "oracle_id"@)
        &&& opt_scalar_ok::<Uri>(o, "prints_search_uri"@)
        &&& opt_scalar_ok::<Uri>(o, "rulings_uri"@)
        &&& opt_scalar_ok::<Uri>(o, "scryfall_uri"@)
        &&& opt_scalar_ok::<Uri>(o, "uri"@)
        &&& opt_rec_arr_ok::<RelatedCard>(o, "all_parts"@)
        &&& opt_rec_arr_ok::<CardFace>(o, "card_faces"@)
        &&& opt_u32_ok(o, "cmc"@)
        &&& opt_scalar_arr_ok::<Color>(o, "colors"@)
        &&& opt_scalar_arr_ok::<Color>(o, "color_identity"@)
        &&& opt_scalar_arr_ok::<Color>(o, "color_indicator"@)
        &&& opt_u32_ok(o, "edhrec_rank"@)
        &&& opt_bool_ok(o, "foil"@)
        &&& req_scalar_ok::<Layout>(o, "layout"@)
        &&& req_rec_ok::<Legalities>(o, "legalities"@)
        &&& opt_scalar_ok::<String>(o, "loyalty"@)
        &&& opt_scalar_ok::<String>(o, "mana_cost"@)
        &&& req_scalar_ok::<String>(o, "name"@)
        &&& opt_bool_ok(o, "nonfoil"@)
        &&& opt_scalar_ok::<String>(o, "oracle_text"@)
        &&& opt_bool_ok(o, "oversized"@)
        &&& opt_scalar_ok::<String>(o, "power"@)
        &&& opt_bool_ok(o, "reserved"@)
        &&& opt_scalar_ok::<String>(o, "toughness"@)
        &&& req_scalar_ok::<String>(o, "type_line"@)
        &&& opt_scalar_ok::<String>(o, "artist"@)
        &&& opt_bool_ok(o, "booster"@)
        &&& opt_scalar_ok::<String>(o, "border_color"@)
        &&& opt_scalar_ok::<Uuid>(o, "card_back_id"@)
        &&& opt_scalar_ok::<String>(o, "collector_number"@)
        &&& opt_bool_ok(o, "digital"@)
        &&& opt_scalar_ok::<String>(o, "flavor_text"@)
        &&& opt_scalar_ok::<FrameEffect>(o, "frame_effect"@)
        &&& opt_scalar_ok::<Frame>(o, "frame"@)
        &&& opt_bool_ok(o, "full_art"@)
        &&& opt_scalar_arr_ok::<Game>(o, "games"@)
        &&& opt_bool_ok(o, "highres_image"@)
        &&& opt_scalar_ok::<Uuid>(o, "illustration_id"@)
        &&& opt_rec_ok::<ImageUris>(o, "image_uris"@)
        &&& opt_rec_ok::<Prices>(o, "prices"@)
        &&& opt_scalar_ok::<String>(o, "printed_name"@)
        &&& opt_scalar_ok::<String>(o, "printed_text"@)
        &&& opt_scalar_ok::<String>(o, "printed_type_line"@)
        &&& opt_bool_ok(o, "promo"@)
        &&& opt_scalar_arr_ok::<String>(o, "promo_types"@)
        &&& opt_rec_ok::<PurchaseUris>(o, "purchase_uris"@)
        &&& req_scalar_ok::<Rarity>(o, "rarity"@)
        &&& opt_rec_ok::<RelatedUris>(o, "related_uris"@)
        &&& req_scalar_ok::<Date>(o, "released_at"@)
        &&& opt_bool_ok(o, "reprint"@)
        &&& opt_scalar_ok::<Uri>(o, "scryfall_set_uri"@)
        &&& opt_scalar_ok::<String>(o, "set_name"@)
        &&& opt_scalar_ok::<Uri>(o, "set_search_uri"@)
        &&& opt_scalar_ok::<String>(o, "set_type"@)
        &&& opt_scalar_ok::<String>(o, "set_uri"@)
        &&& req_scalar_ok::<String>(o, "set"@)
        &&& opt_bool_ok(o, "story_spotlight"@)
        &&& opt_bool_ok(o, "textless"@)
        &&& opt_bool_ok(o, "variation"@)
        &&& opt_scalar_ok::<Uuid>(o, "variation_of"@)
        &&& opt_scalar_ok::<String>(o, "watermark"@)
    }

    /// What a correct parse of a valid card record is, field by field.
    pub open spec fn obj_rel(o: Seq<(String, Json)>, v: Card) -> bool {
        &&& opt_u32_rel(o, "arena_id"@, v.arena_id)
        &&& req_scalar_rel::<Uuid>(o, "id"@, v.id)
        &&& opt_scalar_rel::<String>(o, "lang"@, v.lang)
        &&& opt_u32_rel(o, "mtgo_id"@, v.mtgo_id)
        &&& opt_u32_rel(o, "mtgo_foil_id"@, v.mtgo_foil_id)
        &&& opt_u32_arr_rel(o, "multiverse_ids"@, v.multiverse_ids)
        &&& opt_u32_rel(o, "tcgplayer_id"@, v.tcgplayer_id)
        &&& opt_scalar_rel::<Uuid>(o, "oracle_id"@, v.oracle_id)
        &&& opt_scalar_rel::<Uri>(o, "prints_search_uri"@, v.prints_search_uri)
        &&& opt_scalar_rel::<Uri>(o, "rulings_uri"@, v.rulings_uri)
        &&& opt_scalar_rel::<Uri>(o, "scryfall_uri"@, v.scryfall_uri)
        &&& opt_scalar_rel::<Uri>(o, "uri"@, v.uri)
        &&& opt_rec_arr_rel::<RelatedCard>(o, "all_parts"@, v.all_parts)
        &&& opt_rec_arr_rel::<CardFace>(o, "card_faces"@, v.card_faces)
        &&& opt_u32_rel(o, "cmc"@, v.cmc)
        &&& opt_scalar_arr_rel::<Color>(o, "colors"@, v.colors)
        &&& opt_scalar_arr_rel::<Color>(o, "color_identity"@, v.color_identity)
        &&& opt_scalar_arr_rel::<Color>(o, "color_indicator"@, v.color_indicator)
        &&& opt_u32_rel(o, "edhrec_rank"@, v.edhrec_rank)
        &&& opt_bool_rel(o, "foil"@, v.foil)
        &&& req_scalar_rel::<Layout>(o, "layout"@, v.layout)
        &&& req_rec_rel::<Legalities>(o, "legalities"@, v.legalities)
        &&& opt_scalar_rel::<String>(o, "loyalty"@, v.loyalty)
        &&& opt_scalar_rel::<String>(o, "mana_cost"@, v.mana_cost)
        &&& req_scalar_rel::<String>(o, "name"@, v.name)
        &&& opt_bool_rel(o, "nonfoil"@, v.nonfoil)
        &&& opt_scalar_rel::<String>(o, "oracle_text"@, v.oracle_text)
        &&& opt_bool_rel(o, "oversized"@, v.oversized)
        &&& opt_scalar_rel::<String>(o, "power"@, v.power)
        &&& opt_bool_rel(o, "reserved"@, v.reserved)
        &&& opt_scalar_rel::<String>(o, "toughness"@, v.toughness)
        &&& req_scalar_rel::<String>(o, "type_line"@, v.type_line)
        &&& opt_scalar_rel::<String>(o, "artist"@, v.artist)
        &&& opt_bool_rel(o, "booster"@, v.booster)
        &&& opt_scalar_rel::<String>(o, "border_color"@, v.border_color)
        &&& opt_scalar_rel::<Uuid>(o, "card_back_id"@, v.card_back_id)
        &&& opt_scalar_rel::<String>(o, "collector_number"@, v.collector_number)
        &&& opt_bool_rel(o, "digital"@, v.digital)
        &&& opt_scalar_rel::<String>(o, "flavor_text"@, v.flavor_text)
        &&& opt_scalar_rel::<FrameEffect>(o, "frame_effect"@, v.frame_effect)
        &&& opt_scalar_rel::<Frame>(o, "frame"@, v.frame)
        &&& opt_bool_rel(o, "full_art"@, v.full_art)
        &&& opt_scalar_arr_rel::<Game>(o, "games"@, v.games)
        &&& opt_bool_rel(o, "highres_image"@, v.highres_image)
        &&& opt_scalar_rel::<Uuid>(o, "illustration_id"@, v.illustration_id)
        &&& opt_rec_rel::<ImageUris>(o, "image_uris"@, v.image_uris)
        &&& opt_rec_rel::<Prices>(o, "prices"@, v.prices)
        &&& opt_scalar_rel::<String>(o, "printed_name"@, v.printed_name)
        &&& opt_scalar_rel::<String>(o, "printed_text"@, v.printed_text)
        &&& opt_scalar_rel::<String>(o, "printed_type_line"@, v.printed_type_line)
        &&& opt_bool_rel(o, "promo"@, v.promo)
        &&& opt_scalar_arr_rel::<String>(o, "promo_types"@, v.promo_types)
        &&& opt_rec_rel::<PurchaseUris>(o, "purchase_uris"@, v.purchase_uris)
        &&& req_scalar_rel::<Rarity>(o, "rarity"@, v.rarity)
        &&& opt_rec_rel::<RelatedUris>(o, "related_uris"@, v.related_uris)
        &&& req_scalar_rel::<Date>(o, "released_at"@, v.released_at)
        &&& opt_bool_rel(o, "reprint"@, v.reprint)
        &&& opt_scalar_rel::<Uri>(o, "scryfall_set_uri"@, v.scryfall_set_uri)
        &&& opt_scalar_rel::<String>(o, "set_name"@, v.set_name)
        &&& opt_scalar_rel::<Uri>(o, "set_search_uri"@, v.set_search_uri)
        &&& opt_scalar_rel::<String>(o, "set_type"@, v.set_type)
        &&& opt_scalar_rel::<String>(o, "set_uri"@, v.set_uri)
        &&& req_scalar_rel::<String>(o, "set"@, v.set_code)
        &&& opt_bool_rel(o, "story_spotlight"@, v.story_spotlight)
        &&& opt_bool_rel(o, "textless"@, v.textless)
        &&& opt_bool_rel(o, "variation"@, v.variation)
        &&& opt_scalar_rel::<Uuid>(o, "variation_of"@, v.variation_of)
        &&& opt_scalar_rel::<String>(o, "watermark"@, v.watermark)
    }

    /// The failure a rejected card wire object reports: the error of one
    /// of its fields.
    pub open spec fn obj_err(o: Seq<(String, Json)>, e: ValidationError) -> bool {
        ||| is_wrong_type_err(e, "arena_id"@)
        ||| req_scalar_err::<Uuid>(o, "id"@, e)
        ||| opt_scalar_err::<String>(o, "lang"@, e)
        ||| is_wrong_type_err(e, "mtgo_id"@)
        ||| is_wrong_type_err(e, "mtgo_foil_id"@)
        ||| is_wrong_type_err(e, "multiverse_ids"@)
        ||| is_wrong_type_err(e, "tcgplayer_id"@)
        ||| opt_scalar_err::<Uuid>(o, "oracle_id"@, e)
        ||| opt_scalar_err::<Uri>(o, "prints_search_uri"@, e)
        ||| opt_scalar_err::<Uri>(o, "rulings_uri"@, e)
        ||| opt_scalar_err::<Uri>(o, "scryfall_uri"@, e)
        ||| opt_scalar_err::<Uri>(o, "uri"@, e)
        ||| is_wrong_type_err(e, "all_parts"@)
        ||| is_nested_at(e, "all_parts"@)
        ||| is_wrong_type_err(e, "card_faces"@)
        ||| is_nested_at(e, "card_faces"@)
        ||| is_wrong_type_err(e, "cmc"@)
        ||| is_wrong_type_err(e, "colors"@)
        ||| is_nested_at(e, "colors"@)
        ||| is_wrong_type_err(e, "color_identity"@)
        ||| is_nested_at(e, "color_identity"@)
        ||| is_wrong_type_err(e, "color_indicator"@)
        ||| is_nested_at(e, "color_indicator"@)
        ||| is_wrong_type_err(e, "edhrec_rank"@)
        ||| is_wrong_type_err(e, "foil"@)
        ||| req_scalar_err::<Layout>(o, "layout"@, e)
        ||| is_missing_err(e, "legalities"@)
        ||| is_nested_at(e, "legalities"@)
        ||| opt_scalar_err::<String>(o, "loyalty"@, e)
        ||| opt_scalar_err::<String>(o, "mana_cost"@, e)
        ||| req_scalar_err::<String>(o, "name"@, e)
        ||| is_wrong_type_err(e, "nonfoil"@)
        ||| opt_scalar_err::<String>(o, "oracle_text"@, e)
        ||| is_wrong_type_err(e, "oversized"@)
        ||| opt_scalar_err::<String>(o, "power"@, e)
        ||| is_wrong_type_err(e, "reserved"@)
        ||| opt_scalar_err::<String>(o, "toughness"@, e)
        ||| req_scalar_err::<String>(o, "type_line"@, e)
        ||| opt_scalar_err::<String>(o, "artist"@, e)
        ||| is_wrong_type_err(e, "booster"@)
        ||| opt_scalar_err::<String>(o, "border_color"@, e)
        ||| opt_scalar_err::<Uuid>(o, "card_back_id"@, e)
        ||| opt_scalar_err::<String>(o, "collector_number"@, e)
        ||| is_wrong_type_err(e, "digital"@)
        ||| opt_scalar_err::<String>(o, "flavor_text"@, e)
        ||| opt_scalar_err::<FrameEffect>(o, "frame_effect"@, e)
        ||| opt_scalar_err::<Frame>(o, "frame"@, e)
        ||| is_wrong_type_err(e, "full_art"@)
        ||| is_wrong_type_err(e, "games"@)
        ||| is_nested_at(e, "games"@)
        ||| is_wrong_type_err(e, "highres_image"@)
        ||| opt_scalar_err::<Uuid>(o, "illustration_id"@, e)
        ||| is_nested_at(e, "image_uris"@)
        ||| is_nested_at(e, "prices"@)
        ||| opt_scalar_err::<String>(o, "printed_name"@, e)
        ||| opt_scalar_err::<String>(o, "printed_text"@, e)
        ||| opt_scalar_err::<String>(o, "printed_type_line"@, e)
        ||| is_wrong_type_err(e, "promo"@)
        ||| is_wrong_type_err(e, "promo_types"@)
        ||| is_nested_at(e, "promo_types"@)
        ||| is_nested_at(e, "purchase_uris"@)
        ||| req_scalar_err::<Rarity>(o, "rarity"@, e)
        ||| is_nested_at(e, "related_uris"@)
        ||| req_scalar_err::<Date>(o, "released_at"@, e)
        ||| is_wrong_type_err(e, "reprint"@)
        ||| opt_scalar_err::<Uri>(o, "scryfall_set_uri"@, e)
        ||| opt_scalar_err::<String>(o, "set_name"@, e)
        ||| opt_scalar_err::<Uri>(o, "set_search_uri"@, e)
        ||| opt_scalar_err::<String>(o, "set_type"@, e)
        ||| opt_scalar_err::<String>(o, "set_uri"@, e)
        ||| req_scalar_err::<String>(o, "set"@, e)
        ||| is_wrong_type_err(e, "story_spotlight"@)
        ||| is_wrong_type_err(e, "textless"@)
        ||| is_wrong_type_err(e, "variation"@)
        ||| opt_scalar_err::<Uuid>(o, "variation_of"@, e)
        ||| opt_scalar_err::<String>(o, "watermark"@, e)
    }

    /// Parses one whole card object.
    pub fn parse(j: &Json) -> (r: Result<Card, ValidationError>)
        ensures
            r is Ok <==> <Card as FromWire>::wire_ok(*j),
            r matches Ok(v) ==> <Card as FromWire>::wire_rel(*j, v),
    {
        <Card as FromWire>::from_wire(j)
    }
}

impl FromWire for Card {
    open spec fn value_eq(a: Card, b: Card) -> bool {
        &&& a.arena_id == b.arena_id
        &&& a.id@ == b.id@
        &&& opt_text_eq::<String>(a.lang, b.lang)
        &&& a.mtgo_id == b.mtgo_id
        &&& a.mtgo_foil_id == b.mtgo_foil_id
        &&& a.multiverse_ids.deep_view() == b.multiverse_ids.deep_view()
        &&& a.tcgplayer_id == b.tcgplayer_id
        &&& opt_text_eq::<Uuid>(a.oracle_id, b.oracle_id)
        &&& opt_text_eq::<Uri>(a.prints_search_uri, b.prints_search_uri)
        &&& opt_text_eq::<Uri>(a.rulings_uri, b.rulings_uri)
        &&& opt_text_eq::<Uri>(a.scryfall_uri, b.scryfall_uri)
        &&& opt_text_eq::<Uri>(a.uri, b.uri)
        &&& opt_arr_value_eq::<RelatedCard>(a.all_parts, b.all_parts)
        &&& opt_arr_value_eq::<CardFace>(a.card_faces, b.card_faces)
        &&& a.cmc == b.cmc
        &&& opt_arr_text_eq::<Color>(a.colors, b.colors)
        &&& opt_arr_text_eq::<Color>(a.color_identity, b.color_identity)
        &&& opt_arr_text_eq::<Color>(a.color_indicator, b.color_indicator)
        &&& a.edhrec_rank == b.edhrec_rank
        &&& a.foil == b.foil
        &&& a.layout == b.layout
        &&& Legalities::value_eq(a.legalities, b.legalities)
        &&& opt_text_eq::<String>(a.loyalty, b.loyalty)
        &&& opt_text_eq::<String>(a.mana_cost, b.mana_cost)
        &&& a.name@ == b.name@
        &&& a.nonfoil == b.nonfoil
        &&& opt_text_eq::<String>(a.oracle_text, b.oracle_text)
        &&& a.oversized == b.oversized
        &&& opt_text_eq::<String>(a.power, b.power)
        &&& a.reserved == b.reserved
        &&& opt_text_eq::<String>(a.toughness, b.toughness)
        &&& a.type_line@ == b.type_line@
        &&& opt_text_eq::<String>(a.artist, b.artist)
        &&& a.booster == b.booster
        &&& opt_text_eq::<String>(a.border_color, b.border_color)
        &&& opt_text_eq::<Uuid>(a.card_back_id, b.card_back_id)
        &&& opt_text_eq::<String>(a.collector_number, b.collector_number)
        &&& a.digital == b.digital
        &&& opt_text_eq::<String>(a.flavor_text, b.flavor_text)
        &&& opt_text_eq::<FrameEffect>(a.frame_effect, b.frame_effect)
        &&& opt_text_eq::<Frame>(a.frame, b.frame)
        &&& a.full_art == b.full_art
        &&& opt_arr_text_eq::<Game>(a.games, b.games)
        &&& a.highres_image == b.highres_image
        &&& opt_text_eq::<Uuid>(a.illustration_id, b.illustration_id)
        &&& opt_value_eq::<ImageUris>(a.image_uris, b.image_uris)
        &&& opt_value_eq::<Prices>(a.prices, b.prices)
        &&& opt_text_eq::<String>(a.printed_name, b.printed_name)
        &&& opt_text_eq::<String>(a.printed_text, b.printed_text)
        &&& opt_text_eq::<String>(a.printed_type_line, b.printed_type_line)
        &&& a.promo == b.promo
        &&& opt_arr_text_eq::<String>(a.promo_types, b.promo_types)
        &&& opt_value_eq::<PurchaseUris>(a.purchase_uris, b.purchase_uris)
        &&& a.rarity == b.rarity
        &&& opt_value_eq::<RelatedUris>(a.related_uris, b.related_uris)
        &&& a.released_at == b.released_at
        &&& a.reprint == b.reprint
        &&& opt_text_eq::<Uri>(a.scryfall_set_uri, b.scryfall_set_uri)
        &&& opt_text_eq::<String>(a.set_name, b.set_name)
        &&& opt_text_eq::<Uri>(a.set_search_uri, b.set_search_uri)
        &&& opt_text_eq::<String>(a.set_type, b.set_type)
        &&& opt_text_eq::<String>(a.set_uri, b.set_uri)
        &&& a.set_code@ == b.set_code@
        &&& a.story_spotlight == b.story_spotlight
        &&& a.textless == b.textless
        &&& a.variation == b.variation
        &&& opt_text_eq::<Uuid>(a.variation_of, b.variation_of)
        &&& opt_text_eq::<String>(a.watermark, b.watermark)
    }

    #[verifier::rlimit(60)]
    proof fn wire_unique(j: Json, a: Card, b: Card) {
        match j {
            Json::Obj(o) => {
                lemma_req_scalar_unique::<Uuid>(o@, "id"@, a.id, b.id);
                lemma_opt_scalar_unique::<String>(o@, "lang"@, a.lang, b.lang);
                lemma_opt_scalar_unique::<Uuid>(o@, "oracle_id"@, a.oracle_id, b.oracle_id);
                lemma_opt_scalar_unique::<Uri>(
                    o@,
                    "prints_search_uri"@,
                    a.prints_search_uri,
                    b.prints_search_uri,
                );
                lemma_opt_scalar_unique::<Uri>(o@, "rulings_uri"@, a.rulings_uri, b.rulings_uri);
                lemma_opt_scalar_unique::<Uri>(o@, "scryfall_uri"@, a.scryfall_uri, b.scryfall_uri);
                lemma_opt_scalar_unique::<Uri>(o@, "uri"@, a.uri, b.uri);
                lemma_opt_rec_arr_unique::<RelatedCard>(o@, "all_parts"@, a.all_parts, b.all_parts);
                lemma_opt_rec_arr_unique::<CardFace>(o@, "card_faces"@, a.card_faces, b.card_faces);
                lemma_opt_scalar_arr_unique::<Color>(o@, "colors"@, a.colors, b.colors);
                lemma_opt_scalar_arr_unique::<Color>(
                    o@,
                    "color_identity"@,
                    a.color_identity,
                    b.color_identity,
                );
                lemma_opt_scalar_arr_unique::<Color>(
                    o@,
                    "color_indicator"@,
                    a.color_indicator,
                    b.color_indicator,
                );
                lemma_req_scalar_unique::<Layout>(o@, "layout"@, a.layout, b.layout);
                lemma_req_rec_unique::<Legalities>(o@, "legalities"@, a.legalities, b.legalities);
                lemma_opt_scalar_unique::<String>(o@, "loyalty"@, a.loyalty, b.loyalty);
                lemma_opt_scalar_unique::<String>(o@, "mana_cost"@, a.mana_cost, b.mana_cost);
                lemma_req_scalar_unique::<String>(o@, "name"@, a.name, b.name);
                lemma_opt_scalar_unique::<String>(o@, "oracle_text"@, a.oracle_text, b.oracle_text);
                lemma_opt_scalar_unique::<String>(o@, "power"@, a.power, b.power);
                lemma_opt_scalar_unique::<String>(o@, "toughness"@, a.toughness, b.toughness);
                lemma_req_scalar_unique::<String>(o@, "type_line"@, a.type_line, b.type_line);
                lemma_opt_scalar_unique::<String>(o@, "artist"@, a.artist, b.artist);
                lemma_opt_scalar_unique::<String>(
                    o@,
                    "border_color"@,
                    a.border_color,
                    b.border_color,
                );
                lemma_opt_scalar_unique::<Uuid>(
                    o@,
                    "card_back_id"@,
                    a.card_back_id,
                    b.card_back_id,
                );
                lemma_opt_scalar_unique::<String>(
                    o@,
                    "collector_number"@,
                    a.collector_number,
                    b.collector_number,
                );
                lemma_opt_scalar_unique::<String>(o@, "flavor_text"@, a.flavor_text, b.flavor_text);
                lemma_opt_scalar_unique::<FrameEffect>(
                    o@,
                    "frame_effect"@,
                    a.frame_effect,
                    b.frame_effect,
                );
                lemma_opt_scalar_unique::<Frame>(o@, "frame"@, a.frame, b.frame);
                lemma_opt_scalar_arr_unique::<Game>(o@, "games"@, a.games, b.games);
                lemma_opt_scalar_unique::<Uuid>(
                    o@,
                    "illustration_id"@,
                    a.illustration_id,
                    b.illustration_id,
                );
                lemma_opt_rec_unique::<ImageUris>(o@, "image_uris"@, a.image_uris, b.image_uris);
                lemma_opt_rec_unique::<Prices>(o@, "prices"@, a.prices, b.prices);
                lemma_opt_scalar_unique::<String>(
                    o@,
                    "printed_name"@,
                    a.printed_name,
                    b.printed_name,
                );
                lemma_opt_scalar_unique::<String>(
                    o@,
                    "printed_text"@,
                    a.printed_text,
                    b.printed_text,
                );
                lemma_opt_scalar_unique::<String>(
                    o@,
                    "printed_type_line"@,
                    a.printed_type_line,
                    b.printed_type_line,
                );
                lemma_opt_scalar_arr_unique::<String>(
                    o@,
                    "promo_types"@,
                    a.promo_types,
                    b.promo_types,
                );
                lemma_opt_rec_unique::<PurchaseUris>(
                    o@,
                    "purchase_uris"@,
                    a.purchase_uris,
                    b.purchase_uris,
                );
                lemma_req_scalar_unique::<Rarity>(o@, "rarity"@, a.rarity, b.rarity);
                lemma_opt_rec_unique::<RelatedUris>(
                    o@,
                    "related_uris"@,
                    a.related_uris,
                    b.related_uris,
                );
                lemma_req_scalar_unique::<Date>(o@, "released_at"@, a.released_at, b.released_at);
                lemma_opt_scalar_unique::<Uri>(
                    o@,
                    "scryfall_set_uri"@,
                    a.scryfall_set_uri,
                    b.scryfall_set_uri,
                );
                lemma_opt_scalar_unique::<String>(o@, "set_name"@, a.set_name, b.set_name);
                lemma_opt_scalar_unique::<Uri>(
                    o@,
                    "set_search_uri"@,
                    a.set_search_uri,
                    b.set_search_uri,
                );
                lemma_opt_scalar_unique::<String>(o@, "set_type"@, a.set_type, b.set_type);
                lemma_opt_scalar_unique::<String>(o@, "set_uri"@, a.set_uri, b.set_uri);
                lemma_req_scalar_unique::<String>(o@, "set"@, a.set_code, b.set_code);
                lemma_opt_scalar_unique::<Uuid>(
                    o@,
                    "variation_of"@,
                    a.variation_of,
                    b.variation_of,
                );
                lemma_opt_scalar_unique::<String>(o@, "watermark"@, a.watermark, b.watermark);
                assert(a.released_at == b.released_at);
                assert(a.multiverse_ids.deep_view() == b.multiverse_ids.deep_view());
            },
            _ => (),
        }
    }

    open spec fn wire_ok(j: Json) -> bool {
        match j {
            Json::Obj(o) => Card::obj_ok(o@),
            _ => false,
        }
    }

    open spec fn wire_rel(j: Json, v: Card) -> bool {
        match j {
            Json::Obj(o) => Card::obj_rel(o@, v),
            _ => false,
        }
    }

    open spec fn wire_err(j: Json, e: ValidationError) -> bool {
        match j {
            Json::Obj(o) => Card::obj_err(o@, e),
            _ => is_wrong_type_err(e, "card"@),
        }
    }

    #[verifier::rlimit(50)]
    fn from_wire(j: &Json) -> (r: Result<Card, ValidationError>) {
        let o = match j {
            Json::Obj(o) => o,
            _ => {
                return Err(ValidationError::WrongType { field: "card".to_owned() });
            },
        };
        let arena_id = opt_u32(o, "arena_id")?;
        let id = req_scalar::<Uuid>(o, "id")?;
        let lang = opt_scalar::<String>(o, "lang")?;
        let mtgo_id = opt_u32(o, "mtgo_id")?;
        let mtgo_foil_id = opt_u32(o, "mtgo_foil_id")?;
        let multiverse_ids = opt_u32_arr(o, "multiverse_ids")?;
        let tcgplayer_id = opt_u32(o, "tcgplayer_id")?;
        let oracle_id = opt_scalar::<Uuid>(o, "oracle_id")?;
        let prints_search_uri = opt_scalar::<Uri>(o, "prints_search_uri")?;
        let rulings_uri = opt_scalar::<Uri>(o, "rulings_uri")?;
        let scryfall_uri = opt_scalar::<Uri>(o, "scryfall_uri")?;
        let uri = opt_scalar::<Uri>(o, "uri")?;
        let all_parts = opt_rec_arr::<RelatedCard>(o, "all_parts")?;
        let card_faces = opt_rec_arr::<CardFace>(o, "card_faces")?;
        let cmc = opt_u32(o, "cmc")?;
        let colors = opt_scalar_arr::<Color>(o, "colors")?;
        let color_identity = opt_scalar_arr::<Color>(o, "color_identity")?;
        let color_indicator = opt_scalar_arr::<Color>(o, "color_indicator")?;
        let edhrec_rank = opt_u32(o, "edhrec_rank")?;
        let foil = opt_bool(o, "foil")?;
        let layout = req_scalar::<Layout>(o, "layout")?;
        let legalities = req_rec::<Legalities>(o, "legalities")?;
        let loyalty = opt_scalar::<String>(o, "loyalty")?;
        let mana_cost = opt_scalar::<String>(o, "mana_cost")?;
        let name = req_scalar::<String>(o, "name")?;
        let nonfoil = opt_bool(o, "nonfoil")?;
        let oracle_text = opt_scalar::<String>(o, "oracle_text")?;
        let oversized = opt_bool(o, "oversized")?;
        let power = opt_scalar::<String>(o, "power")?;
        let reserved = opt_bool(o, "reserved")?;
        let toughness = opt_scalar::<String>(o, "toughness")?;
        let type_line = req_scalar::<String>(o, "type_line")?;
        let artist = opt_scalar::<String>(o, "artist")?;
        let booster = opt_bool(o, "booster")?;
        let border_color = opt_scalar::<String>(o, "border_color")?;
        let card_back_id = opt_scalar::<Uuid>(o, "card_back_id")?;
        let collector_number = opt_scalar::<String>(o, "collector_number")?;
        let digital = opt_bool(o, "digital")?;
        let flavor_text = opt_scalar::<String>(o, "flavor_text")?;
        let frame_effect = opt_scalar::<FrameEffect>(o, "frame_effect")?;
        let frame = opt_scalar::<Frame>(o, "frame")?;
        let full_art = opt_bool(o, "full_art")?;
        let games = opt_scalar_arr::<Game>(o, "games")?;
        let highres_image = opt_bool(o, "highres_image")?;
        let illustration_id = opt_scalar::<Uuid>(o, "illustration_id")?;
        let image_uris = opt_rec::<ImageUris>(o, "image_uris")?;
        let prices = opt_rec::<Prices>(o, "prices")?;
        let printed_name = opt_scalar::<String>(o, "printed_name")?;
        let printed_text = opt_scalar::<String>(o, "printed_text")?;
        let printed_type_line = opt_scalar::<String>(o, "printed_type_line")?;
        let promo = opt_bool(o, "promo")?;
        let promo_types = opt_scalar_arr::<String>(o, "promo_types")?;
        let purchase_uris = opt_rec::<PurchaseUris>(o, "purchase_uris")?;
        let rarity = req_scalar::<Rarity>(o, "rarity")?;
        let related_uris = opt_rec::<RelatedUris>(o, "related_uris")?;
        let released_at = req_scalar::<Date>(o, "released_at")?;
        let reprint = opt_bool(o, "reprint")?;
        let scryfall_set_uri = opt_scalar::<Uri>(o, "scryfall_set_uri")?;
        let set_name = opt_scalar::<String>(o, "set_name")?;
        let set_search_uri = opt_scalar::<Uri>(o, "set_search_uri")?;
        let set_type = opt_scalar::<String>(o, "set_type")?;
        let set_uri = opt_scalar::<String>(o, "set_uri")?;
        let set_code = req_scalar::<String>(o, "set")?;
        let story_spotlight = opt_bool(o, "story_spotlight")?;
        let textless = opt_bool(o, "textless")?;
        let variation = opt_bool(o, "variation")?;
        let variation_of = opt_scalar::<Uuid>(o, "variation_of")?;
        let watermark = opt_scalar::<String>(o, "watermark")?;
        Ok(
            Card {
                arena_id,
                id,
                lang,
                mtgo_id,
                mtgo_foil_id,
                multiverse_ids,
                tcgplayer_id,
                oracle_id,
                prints_search_uri,
                rulings_uri,
                scryfall_uri,
                uri,
                all_parts,
                card_faces,
                cmc,
                colors,
                color_identity,
                color_indicator,
                edhrec_rank,
                foil,
                layout,
                legalities,
                loyalty,
                mana_cost,
                name,
                nonfoil,
                oracle_text,
                oversized,
                power,
                reserved,
                toughness,
                type_line,
                artist,
                booster,
                border_color,
                card_back_id,
                collector_number,
                digital,
                flavor_text,
                frame_effect,
                frame,
                full_art,
                games,
                highres_image,
                illustration_id,
                image_uris,
                prices,
                printed_name,
                printed_text,
                printed_type_line,
                promo,
                promo_types,
                purchase_uris,
                rarity,
                related_uris,
                released_at,
                reprint,
                scryfall_set_uri,
                set_name,
                set_search_uri,
                set_type,
                set_uri,
                set_code,
                story_spotlight,
                textless,
                variation,
                variation_of,
                watermark,
            },
        )
    }
}

} // verus!
