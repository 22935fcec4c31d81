use vstd::prelude::*;
use crate::date::Date;
use crate::enums::TagEnum;
use crate::error::ValidationError;
use crate::json::Json;
use crate::text::str_eq;
use crate::uri::Uri;
use crate::uuid::Uuid;
use crate::wire::{
    opt_scalar, opt_scalar_ok, opt_scalar_rel, opt_u32, opt_u32_ok, opt_u32_rel, req_bool,
    req_bool_ok, req_bool_rel, req_scalar, req_scalar_ok, req_scalar_rel, req_u32, req_u32_ok,
    req_u32_rel, FromWire,
};
use crate::wire::{lemma_opt_scalar_unique, lemma_req_scalar_unique, opt_text_eq};
use crate::wire::{
    is_wrong_type_err, opt_scalar_err, req_scalar_err, req_u32_err,
};

verus! {

/// The closed classification of a release grouping.
#[derive(Clone, Copy, Debug, PartialEq, Eq, Structural)]
pub enum SetType {
    Core,
    Expansion,
    Masters,
    Masterpiece,
    FromTheVault,
    Spellbook,
    PremiumDeck,
    DuelDeck,
    DraftInnovation,
    TreasureChest,
    Commander,
    Planechase,
    Archenemy,
    Vanguard,
    Funny,
    Starter,
    Box,
    Promo,
    Token,
    Memorabilia,
}

impl DeepView for SetType {
    type V = SetType;

    open spec fn deep_view(&self) -> SetType {
        *self
    }
}

impl TagEnum for SetType {
    open spec fn of_tag(t: Seq<char>) -> Option<SetType> {
        if t == "core"@ {
            Some(SetType::Core)
        } else if t == "expansion"@ {
            Some(SetType::Expansion)
        } else if t == "masters"@ {
            Some(SetType::Masters)
        } else if t == "masterpiece"@ {
            Some(SetType::Masterpiece)
        } else if t == "from_the_vault"@ {
            Some(SetType::FromTheVault)
        } else if t == "spellbook"@ {
            Some(SetType::Spellbook)
        } else if t == "premium_deck"@ {
            Some(SetType::PremiumDeck)
        } else if t == "duel_deck"@ {
            Some(SetType::DuelDeck)
        } else if t == "draft_innovation"@ {
            Some(SetType::DraftInnovation)
        } else if t == "treasure_chest"@ {
            Some(SetType::TreasureChest)
        } else if t == "commander"@ {
            Some(SetType::Commander)
        } else if t == "planechase"@ {
            Some(SetType::Planechase)
        } else if t == "archenemy"@ {
            Some(SetType::Archenemy)
        } else if t == "vanguard"@ {
            Some(SetType::Vanguard)
        } else if t == "funny"@ {
            Some(SetType::Funny)
        } else if t == "starter"@ {
            Some(SetType::Starter)
        } else if t == "box"@ {
            Some(SetType::Box)
        } else if t == "promo"@ {
            Some(SetType::Promo)
        } else if t == "token"@ {
            Some(SetType::Token)
        } else if t == "memorabilia"@ {
            Some(SetType::Memorabilia)
        } else {
            None
        }
    }

    open spec fn tag_of(v: SetType) -> Seq<char> {
        match v {
            SetType::Core => "core"@,
            SetType::Expansion => "expansion"@,
            SetType::Masters => "masters"@,
            SetType::Masterpiece => "masterpiece"@,
            SetType::FromTheVault => "from_the_vault"@,
            SetType::Spellbook => "spellbook"@,
            SetType::PremiumDeck => "premium_deck"@,
            SetType::DuelDeck => "duel_deck"@,
            SetType::DraftInnovation => "draft_innovation"@,
            SetType::TreasureChest => "treasure_chest"@,
            SetType::Commander => "commander"@,
            SetType::Planechase => "planechase"@,
            SetType::Archenemy => "archenemy"@,
            SetType::Vanguard => "vanguard"@,
            SetType::Funny => "funny"@,
            SetType::Starter => "starter"@,
            SetType::Box => "box"@,
            SetType::Promo => "promo"@,
            SetType::Token => "token"@,
            SetType::Memorabilia => "memorabilia"@,
        }
    }

    open spec fn tag_context() -> Seq<char> {
        "set_type"@
    }

    fn from_tag(t: &str) -> (r: Result<SetType, ValidationError>) {
        if str_eq(t, "core") {
            Ok(SetType::Core)
        } else if str_eq(t, "expansion") {
            Ok(SetType::Expansion)
        } else if str_eq(t, "masters") {
            Ok(SetType::Masters)
        } else if str_eq(t, "masterpiece") {
            Ok(SetType::Masterpiece)
        } else if str_eq(t, "from_the_vault") {
            Ok(SetType::FromTheVault)
        } else if str_eq(t, "spellbook") {
            Ok(SetType::Spellbook)
        } else if str_eq(t, "premium_deck") {
            Ok(SetType::PremiumDeck)
        } else if str_eq(t, "duel_deck") {
            Ok(SetType::DuelDeck)
        } else if str_eq(t, "draft_innovation") {
            Ok(SetType::DraftInnovation)
        } else if str_eq(t, "treasure_chest") {
            Ok(SetType::TreasureChest)
        } else if str_eq(t, "commander") {
            Ok(SetType::Commander)
        } else if str_eq(t, "planechase") {
            Ok(SetType::Planechase)
        } else if str_eq(t, "archenemy") {
            Ok(SetType::Archenemy)
        } else if str_eq(t, "vanguard") {
            Ok(SetType::Vanguard)
        } else if str_eq(t, "funny") {
            Ok(SetType::Funny)
        } else if str_eq(t, "starter") {
            Ok(SetType::Starter)
        } else if str_eq(t, "box") {
            Ok(SetType::Box)
        } else if str_eq(t, "promo") {
            Ok(SetType::Promo)
        } else if str_eq(t, "token") {
            Ok(SetType::Token)
        } else if str_eq(t, "memorabilia") {
            Ok(SetType::Memorabilia)
        } else {
            Err(ValidationError::UnknownTag { field: "set_type".to_owned(), raw: t.to_owned() })
        }
    }
}

/// Law: the set-type mapping is injective — distinct tags never reach
/// the same variant.
pub proof fn lemma_set_type_tags_injective(a: Seq<char>, b: Seq<char>)
    requires
        SetType::of_tag(a) is Some,
        SetType::of_tag(a) == SetType::of_tag(b),
    ensures
        a == b,
{
}

/// Law: every set-type variant is reached by exactly its documented tag.
pub proof fn lemma_set_type_tags_total(v: SetType)
    ensures
        SetType::of_tag(SetType::tag_of(v)) == Some(v),
{
    reveal_strlit("core");
    reveal_strlit("expansion");
    reveal_strlit("masters");
    reveal_strlit("masterpiece");
    reveal_strlit("from_the_vault");
    reveal_strlit("spellbook");
    reveal_strlit("premium_deck");
    reveal_strlit("duel_deck");
    reveal_strlit("draft_innovation");
    reveal_strlit("treasure_chest");
    reveal_strlit("commander");
    reveal_strlit("planechase");
    reveal_strlit("archenemy");
    reveal_strlit("vanguard");
    reveal_strlit("funny");
    reveal_strlit("starter");
    reveal_strlit("box");
    reveal_strlit("promo");
    reveal_strlit("token");
    reveal_strlit("memorabilia");
    assert("core"@.len() == 4 && "core"@[0] == 'c');
    assert("expansion"@.len() == 9 && "expansion"@[0] == 'e');
    assert("masters"@.len() == 7 && "masters"@[0] == 'm');
    assert("masterpiece"@.len() == 11 && "masterpiece"@[0] == 'm' && "masterpiece"@[1] == 'a');
    assert("from_the_vault"@.len() == 14 && "from_the_vault"@[0] == 'f');
    assert("spellbook"@.len() == 9 && "spellbook"@[0] == 's');
    assert("premium_deck"@.len() == 12 && "premium_deck"@[0] == 'p');
    assert("duel_deck"@.len() == 9 && "duel_deck"@[0] == 'd');
    assert("draft_innovation"@.len() == 16 && "draft_innovation"@[0] == 'd');
    assert("treasure_chest"@.len() == 14 && "treasure_chest"@[0] == 't');
    assert("commander"@.len() == 9 && "commander"@[0] == 'c');
    assert("planechase"@.len() == 10 && "planechase"@[0] == 'p');
    assert("archenemy"@.len() == 9 && "archenemy"@[0] == 'a');
    assert("vanguard"@.len() == 8 && "vanguard"@[0] == 'v');
    assert("funny"@.len() == 5 && "funny"@[0] == 'f');
    assert("starter"@.len() == 7 && "starter"@[0] == 's');
    assert("box"@.len() == 3 && "box"@[0] == 'b');
    assert("promo"@.len() == 5 && "promo"@[0] == 'p');
    assert("token"@.len() == 5 && "token"@[0] == 't');
    assert("memorabilia"@.len() == 11 && "memorabilia"@[0] == 'm' && "memorabilia"@[1] == 'e');
    match v {
        SetType::Core => assert(SetType::of_tag("core"@) == Some(SetType::Core)),
        SetType::Expansion => assert(SetType::of_tag("expansion"@) == Some(SetType::Expansion)),
        SetType::Masters => assert(SetType::of_tag("masters"@) == Some(SetType::Masters)),
        SetType::Masterpiece => assert(SetType::of_tag("masterpiece"@) == Some(
            SetType::Masterpiece,
        )),
        SetType::FromTheVault => assert(SetType::of_tag("from_the_vault"@) == Some(
            SetType::FromTheVault,
        )),
        SetType::Spellbook => assert(SetType::of_tag("spellbook"@) == Some(SetType::Spellbook)),
        SetType::PremiumDeck => assert(SetType::of_tag("premium_deck"@) == Some(
            SetType::PremiumDeck,
        )),
        SetType::DuelDeck => assert(SetType::of_tag("duel_deck"@) == Some(SetType::DuelDeck)),
        SetType::DraftInnovation => assert(SetType::of_tag("draft_innovation"@) == Some(
            SetType::DraftInnovation,
        )),
        SetType::TreasureChest => assert(SetType::of_tag("treasure_chest"@) == Some(
            SetType::TreasureChest,
        )),
        SetType::Commander => assert(SetType::of_tag("commander"@) == Some(SetType::Commander)),
        SetType::Planechase => assert(SetType::of_tag("planechase"@) == Some(SetType::Planechase)),
        SetType::Archenemy => assert(SetType::of_tag("archenemy"@) == Some(SetType::Archenemy)),
        SetType::Vanguard => assert(SetType::of_tag("vanguard"@) == Some(SetType::Vanguard)),
        SetType::Funny => assert(SetType::of_tag("funny"@) == Some(SetType::Funny)),
        SetType::Starter => assert(SetType::of_tag("starter"@) == Some(SetType::Starter)),
        SetType::Box => assert(SetType::of_tag("box"@) == Some(SetType::Box)),
        SetType::Promo => assert(SetType::of_tag("promo"@) == Some(SetType::Promo)),
        SetType::Token => assert(SetType::of_tag("token"@) == Some(SetType::Token)),
        SetType::Memorabilia => assert(SetType::of_tag("memorabilia"@) == Some(
            SetType::Memorabilia,
        )),
    }
}

/// One release grouping of cards. The optional parent-set code is a
/// name-based weak relation: it names another set by its code for a
/// separate lookup, and never owns it.
#[derive(Debug, PartialEq)]
pub struct CardSet {
    pub id: Uuid,
    pub code: String,
    pub mtgo_code: Option<String>,
    pub tcgplayer_id: Option<u32>,
    pub name: String,
    pub set_type: SetType,
    pub released_at: Option<Date>,
    pub block_code: Option<String>,
    pub block: Option<String>,
    pub parent_set_code: Option<String>,
    pub card_count: u32,
    pub digital: bool,
    pub foil_only: bool,
    pub scryfall_uri: Uri,
    pub uri: Uri,
    pub icon_svg_uri: Uri,
    pub search_uri: Uri,
}

impl CardSet {
    /// Whether a wire object is a fully valid set record.
    pub open spec fn obj_ok(o: Seq<(String, Json)>) -> bool {
        &&& req_scalar_ok::<Uuid>(o, "id"@)
        &&& req_scalar_ok::<String>(o, "code"@)
        &&& opt_scalar_ok::<String>(o, "mtgo_code"@)
        &&& opt_u32_ok(o, "tcgplayer_id"@)
        &&& req_scalar_ok::<String>(o, "name"@)
        &&& req_scalar_ok::<SetType>(o, "set_type"@)
        &&& opt_scalar_ok::<Date>(o, "released_at"@)
        &&& opt_scalar_ok::<String>(o, "block_code"@)
        &&& opt_scalar_ok::<String>(o, "block"@)
        &&& opt_scalar_ok::<String>(o, "parent_set_code"@)
        &&& req_u32_ok(o, "card_count"@)
        &&& req_bool_ok(o, "digital"@)
        &&& req_bool_ok(o, "foil_only"@)
        &&& req_scalar_ok::<Uri>(o, "scryfall_uri"@)
        &&& req_scalar_ok::<Uri>(o, "uri"@)
        &&& req_scalar_ok::<Uri>(o, "icon_svg_uri"@)
        &&& req_scalar_ok::<Uri>(o, "search_uri"@)
    }

    /// What a correct parse of a valid set record is.
    pub open spec fn obj_rel(o: Seq<(String, Json)>, v: CardSet) -> bool {
        &&& req_scalar_rel::<Uuid>(o, "id"@, v.id)
        &&& req_scalar_rel::<String>(o, "code"@, v.code)
        &&& opt_scalar_rel::<String>(o, "mtgo_code"@, v.mtgo_code)
        &&& opt_u32_rel(o, "tcgplayer_id"@, v.tcgplayer_id)
        &&& req_scalar_rel::<String>(o, "name"@, v.name)
        &&& req_scalar_rel::<SetType>(o, "set_type"@, v.set_type)
        &&& opt_scalar_rel::<Date>(o, "released_at"@, v.released_at)
        &&& opt_scalar_rel::<String>(o, "block_code"@, v.block_code)
        &&& opt_scalar_rel::<String>(o, "block"@, v.block)
        &&& opt_scalar_rel::<String>(o, "parent_set_code"@, v.parent_set_code)
        &&& req_u32_rel(o, "card_count"@, v.card_count)
        &&& req_bool_rel(o, "digital"@, v.digital)
        &&& req_bool_rel(o, "foil_only"@, v.foil_only)
        &&& req_scalar_rel::<Uri>(o, "scryfall_uri"@, v.scryfall_uri)
        &&& req_scalar_rel::<Uri>(o, "uri"@, v.uri)
        &&& req_scalar_rel::<Uri>(o, "icon_svg_uri"@, v.icon_svg_uri)
        &&& req_scalar_rel::<Uri>(o, "search_uri"@, v.search_uri)
    }

    /// The failure a rejected set wire object reports: the error of one
    /// of its fields.
    pub open spec fn obj_err(o: Seq<(String, Json)>, e: ValidationError) -> bool {
        ||| req_scalar_err::<Uuid>(o, "id"@, e)
        ||| req_scalar_err::<String>(o, "code"@, e)
        ||| opt_scalar_err::<String>(o, "mtgo_code"@, e)
        ||| is_wrong_type_err(e, "tcgplayer_id"@)
        ||| req_scalar_err::<String>(o, "name"@, e)
        ||| req_scalar_err::<SetType>(o, "set_type"@, e)
        ||| opt_scalar_err::<Date>(o, "released_at"@, e)
        ||| opt_scalar_err::<String>(o, "block_code"@, e)
        ||| opt_scalar_err::<String>(o, "block"@, e)
        ||| opt_scalar_err::<String>(o, "parent_set_code"@, e)
        ||| req_u32_err(o, "card_count"@, e)
        ||| req_u32_err(o, "digital"@, e)
        ||| req_u32_err(o, "foil_only"@, e)
        ||| req_scalar_err::<Uri>(o, "scryfall_uri"@, e)
        ||| req_scalar_err::<Uri>(o, "uri"@, e)
        ||| req_scalar_err::<Uri>(o, "icon_svg_uri"@, e)
        ||| req_scalar_err::<Uri>(o, "search_uri"@, e)
    }

    /// Parses one whole set object.
    pub fn parse(j: &Json) -> (r: Result<CardSet, ValidationError>)
        ensures
            r is Ok <==> <CardSet as FromWire>::wire_ok(*j),
            r matches Ok(v) ==> <CardSet as FromWire>::wire_rel(*j, v),
    {
        <CardSet as FromWire>::from_wire(j)
    }
}

impl FromWire for CardSet {
    open spec fn value_eq(a: CardSet, b: CardSet) -> bool {
        &&& a.id@ == b.id@
        &&& a.code@ == b.code@
        &&& opt_text_eq::<String>(a.mtgo_code, b.mtgo_code)
        &&& a.tcgplayer_id == b.tcgplayer_id
        &&& a.name@ == b.name@
        &&& a.set_type == b.set_type
        &&& opt_text_eq::<Date>(a.released_at, b.released_at)
        &&& opt_text_eq::<String>(a.block_code, b.block_code)
        &&& opt_text_eq::<String>(a.block, b.block)
        &&& opt_text_eq::<String>(a.parent_set_code, b.parent_set_code)
        &&& a.card_count == b.card_count
        &&& a.digital == b.digital
        &&& a.foil_only == b.foil_only
        &&& a.scryfall_uri@ == b.scryfall_uri@
        &&& a.uri@ == b.uri@
        &&& a.icon_svg_uri@ == b.icon_svg_uri@
        &&& a.search_uri@ == b.search_uri@
    }

    proof fn wire_unique(j: Json, a: CardSet, b: CardSet) {
        match j {
            Json::Obj(o) => {
                lemma_req_scalar_unique::<Uuid>(o@, "id"@, a.id, b.id);
                lemma_req_scalar_unique::<String>(o@, "code"@, a.code, b.code);
                lemma_opt_scalar_unique::<String>(o@, "mtgo_code"@, a.mtgo_code, b.mtgo_code);
                lemma_req_scalar_unique::<String>(o@, "name"@, a.name, b.name);
                lemma_req_scalar_unique::<SetType>(o@, "set_type"@, a.set_type, b.set_type);
                lemma_opt_scalar_unique::<Date>(o@, "released_at"@, a.released_at, b.released_at);
                lemma_opt_scalar_unique::<String>(o@, "block_code"@, a.block_code, b.block_code);
                lemma_opt_scalar_unique::<String>(o@, "block"@, a.block, b.block);
                lemma_opt_scalar_unique::<String>(
                    o@,
                    "parent_set_code"@,
                    a.parent_set_code,
                    b.parent_set_code,
                );
                lemma_req_scalar_unique::<Uri>(o@, "scryfall_uri"@, a.scryfall_uri, b.scryfall_uri);
                lemma_req_scalar_unique::<Uri>(o@, "uri"@, a.uri, b.uri);
                lemma_req_scalar_unique::<Uri>(o@, "icon_svg_uri"@, a.icon_svg_uri, b.icon_svg_uri);
                lemma_req_scalar_unique::<Uri>(o@, "search_uri"@, a.search_uri, b.search_uri);
            },
            _ => (),
        }
    }

    open spec fn wire_ok(j: Json) -> bool {
        match j {
            Json::Obj(o) => CardSet::obj_ok(o@),
            _ => false,
        }
    }

    open spec fn wire_rel(j: Json, v: CardSet) -> bool {
        match j {
            Json::Obj(o) => CardSet::obj_rel(o@, v),
            _ => false,
        }
    }

    open spec fn wire_err(j: Json, e: ValidationError) -> bool {
        match j {
            Json::Obj(o) => CardSet::obj_err(o@, e),
            _ => is_wrong_type_err(e, "set"@),
        }
    }

    fn from_wire(j: &Json) -> (r: Result<CardSet, ValidationError>) {
        let o = match j {
            Json::Obj(o) => o,
            _ => {
                return Err(ValidationError::WrongType { field: "set".to_owned() });
            },
        };
        let id = req_scalar::<Uuid>(o, "id")?;
        let code = req_scalar::<String>(o, "code")?;
        let mtgo_code = opt_scalar::<String>(o, "mtgo_code")?;
        let tcgplayer_id = opt_u32(o, "tcgplayer_id")?;
        let name = req_scalar::<String>(o, "name")?;
        let set_type = req_scalar::<SetType>(o, "set_type")?;
        let released_at = opt_scalar::<Date>(o, "released_at")?;
        let block_code = opt_scalar::<String>(o, "block_code")?;
        let block = opt_scalar::<String>(o, "block")?;
        let parent_set_code = opt_scalar::<String>(o, "parent_set_code")?;
        let card_count = req_u32(o, "card_count")?;
        let digital = req_bool(o, "digital")?;
        let foil_only = req_bool(o, "foil_only")?;
        let scryfall_uri = req_scalar::<Uri>(o, "scryfall_uri")?;
        let uri = req_scalar::<Uri>(o, "uri")?;
        let icon_svg_uri = req_scalar::<Uri>(o, "icon_svg_uri")?;
        let search_uri = req_scalar::<Uri>(o, "search_uri")?;
        Ok(
            CardSet {
                id,
                code,
                mtgo_code,
                tcgplayer_id,
                name,
                set_type,
                released_at,
                block_code,
                block,
                parent_set_code,
                card_count,
                digital,
                foil_only,
                scryfall_uri,
                uri,
                icon_svg_uri,
                search_uri,
            },
        )
    }
}

} // verus!
