use cardwire::{
    Card, CardFace, CardSet, Color, Error, FromWire, ImageUris, Json, Layout, Legalities,
    Legality, Price, Prices, PurchaseUris, Rarity, RelatedCard, RelatedUris, SetType, Uri, Uuid,
    ValidationError,
};

fn s(text: &str) -> Json {
    Json::Str(text.to_string())
}

fn field(name: &str, value: Json) -> (String, Json) {
    (name.to_string(), value)
}

fn uri(text: &str) -> Uri {
    Uri::parse(text.to_string()).unwrap()
}

fn price(text: &str) -> Price {
    Price::parse(text.to_string()).unwrap()
}

#[test]
fn test_card_face() {}

#[test]
fn test_related_card() {}

#[test]
fn test_legalities() {}

#[test]
fn test_image_uris() {
    let target_image_uris = ImageUris {
        small: Some(uri("https://testuri.com/path/1")),
        normal: Some(uri("https://testuri.com/path/2")),
        large: Some(uri("https://testuri.com/path/3")),
        png: None,
        art_crop: None,
        border_crop: None,
    };

    let wire = Json::Obj(vec![
        field("small", s("https://testuri.com/path/1")),
        field("normal", s("https://testuri.com/path/2")),
        field("large", s("https://testuri.com/path/3")),
    ]);
    let image_uris = ImageUris::from_wire(&wire).unwrap();

    assert_eq!(target_image_uris, image_uris);
}

#[test]
fn test_image_uris_example_page() {
    let wire = Json::Obj(vec![
        field("small", s("https://x.test/1")),
        field("normal", s("https://x.test/2")),
        field("large", s("https://x.test/3")),
    ]);
    let image_uris = ImageUris::from_wire(&wire).unwrap();
    assert_eq!(Some(uri("https://x.test/1")), image_uris.small);
    assert_eq!(Some(uri("https://x.test/2")), image_uris.normal);
    assert_eq!(Some(uri("https://x.test/3")), image_uris.large);
    assert_eq!(None, image_uris.png);
    assert_eq!(None, image_uris.art_crop);
    assert_eq!(None, image_uris.border_crop);
}

#[test]
fn test_prices() {
    let target_prices = Prices {
        usd: Some(price("15.44")),
        usd_foil: Some(price("37.12")),
        eur: None,
        tix: None,
    };

    let wire = Json::Obj(vec![
        field("usd", s("15.44")),
        field("usd_foil", s("37.12")),
    ]);
    let prices = Prices::from_wire(&wire).unwrap();

    assert_eq!(target_prices, prices);
    assert_eq!(15.44_f64, prices.usd.as_ref().unwrap().wire().parse::<f64>().unwrap());
    assert_eq!(37.12_f64, prices.usd_foil.as_ref().unwrap().wire().parse::<f64>().unwrap());
}

#[test]
fn test_purchase_uris() {
    let target_purchase_uris = PurchaseUris {
        tcgplayer: Some(uri("https://testuri.com/path/1")),
        cardmarket: None,
        cardhoarder: None,
    };

    let wire = Json::Obj(vec![field("tcgplayer", s("https://testuri.com/path/1"))]);
    let purchase_uris = PurchaseUris::from_wire(&wire).unwrap();

    assert_eq!(target_purchase_uris, purchase_uris);
}

#[test]
fn test_related_uris() {
    let target_related_uris = RelatedUris {
        tcgplayer_decks: Some(uri("https://testuri.com/path/1")),
        edhrec: None,
        mtgtop8: None,
    };

    let wire = Json::Obj(vec![field("tcgplayer_decks", s("https://testuri.com/path/1"))]);
    let related_uris = RelatedUris::from_wire(&wire).unwrap();

    assert_eq!(target_related_uris, related_uris);
}

#[test]
fn test_prices_malformed_price_fails_whole_record() {
    let wire = Json::Obj(vec![
        field("usd", s("15.44")),
        field("usd_foil", s("not a number")),
    ]);
    match Prices::from_wire(&wire) {
        Err(ValidationError::MalformedRecord { field, cause }) => {
            assert_eq!("usd_foil", field);
            match *cause {
                ValidationError::InvalidPrice { raw } => assert_eq!("not a number", raw),
                other => panic!("expected an invalid-price cause, got {:?}", other),
            }
        },
        other => panic!("expected a malformed-record failure, got {:?}", other),
    }
}

#[test]
fn test_wrong_shape_field_fails_whole_record() {
    let wire = Json::Obj(vec![field("usd", Json::UInt(15))]);
    match Prices::from_wire(&wire) {
        Err(ValidationError::WrongType { field }) => assert_eq!("usd", field),
        other => panic!("expected a wrong-type failure, got {:?}", other),
    }
}

#[test]
fn test_null_optional_field_counts_as_absent() {
    let wire = Json::Obj(vec![field("usd", Json::Null), field("tix", s("0.03"))]);
    let prices = Prices::from_wire(&wire).unwrap();
    assert_eq!(None, prices.usd);
    assert_eq!(Some(price("0.03")), prices.tix);
}

fn full_legalities_wire() -> Json {
    Json::Obj(vec![
        field("standard", s("legal")),
        field("future", s("legal")),
        field("modern", s("legal")),
        field("legacy", s("banned")),
        field("pauper", s("not_legal")),
        field("vintage", s("restricted")),
        field("penny", s("not_legal")),
        field("commander", s("legal")),
        field("brawl", s("legal")),
        field("duel", s("legal")),
        field("oldschool", s("not_legal")),
    ])
}

#[test]
fn test_legalities_full_population() {
    let legalities = Legalities::from_wire(&full_legalities_wire()).unwrap();
    assert_eq!(Legality::Legal, legalities.standard);
    assert_eq!(Legality::Banned, legalities.legacy);
    assert_eq!(Legality::NotLegal, legalities.pauper);
    assert_eq!(Legality::Restricted, legalities.vintage);
}

#[test]
fn test_legalities_missing_format_is_rejected() {
    let wire = Json::Obj(vec![field("standard", s("legal"))]);
    match Legalities::from_wire(&wire) {
        Err(ValidationError::MissingRequiredField { field }) => assert_eq!("future", field),
        other => panic!("expected a missing-field failure, got {:?}", other),
    }
}

#[test]
fn test_related_card_round_trip() {
    let wire = Json::Obj(vec![
        field("id", s("6c231902-b0b9-4da0-bf9b-e5a4a3bb1686")),
        field("component", s("token")),
        field("name", s("Angel")),
        field("type_line", s("Token Creature - Angel")),
        field("uri", s("https://api.example.test/cards/1")),
    ]);
    let related = RelatedCard::from_wire(&wire).unwrap();
    assert_eq!("token", related.component);
    assert_eq!("Angel", related.name);
    assert_eq!(
        Uuid::parse("6c231902-b0b9-4da0-bf9b-e5a4a3bb1686".to_string()).unwrap(),
        related.id
    );
}

#[test]
fn test_card_face_required_fields() {
    let wire = Json::Obj(vec![
        field("mana_cost", s("{2}{W}")),
        field("name", s("Front Face")),
        field("type_line", s("Creature - Human")),
        field("colors", Json::Arr(vec![s("W"), s("U")])),
    ]);
    let face = CardFace::from_wire(&wire).unwrap();
    assert_eq!("{2}{W}", face.mana_cost);
    assert_eq!("Front Face", face.name);
    assert_eq!(Some(vec![Color::White, Color::Blue]), face.colors);
    assert_eq!(None, face.artist);

    let missing = Json::Obj(vec![field("name", s("Front Face"))]);
    match CardFace::from_wire(&missing) {
        Err(ValidationError::MissingRequiredField { field }) => assert_eq!("mana_cost", field),
        other => panic!("expected a missing-field failure, got {:?}", other),
    }
}

fn minimal_card_fields() -> Vec<(String, Json)> {
    vec![
        field("id", s("6c231902-b0b9-4da0-bf9b-e5a4a3bb1686")),
        field("name", s("Storm Crow")),
        field("layout", s("normal")),
        field("legalities", full_legalities_wire()),
        field("rarity", s("common")),
        field("type_line", s("Creature - Bird")),
        field("released_at", s("1996-10-08")),
        field("set", s("all")),
    ]
}

#[test]
fn test_card_requires_only_the_core_fields() {
    let card = Card::parse(&Json::Obj(minimal_card_fields())).unwrap();
    assert_eq!("Storm Crow", card.name);
    assert_eq!(Layout::Normal, card.layout);
    assert_eq!(Rarity::Common, card.rarity);
    assert_eq!("Creature - Bird", card.type_line);
    assert_eq!(1996, card.released_at.year);
    assert_eq!("all", card.set_code);
    assert_eq!(None, card.colors);
    assert_eq!(None, card.prices);
    assert_eq!(None, card.card_faces);
}

#[test]
fn test_card_missing_required_field_is_rejected() {
    let mut fields = minimal_card_fields();
    fields.retain(|f| f.0 != "rarity");
    match Card::parse(&Json::Obj(fields)) {
        Err(ValidationError::MissingRequiredField { field }) => assert_eq!("rarity", field),
        other => panic!("expected a missing-field failure, got {:?}", other),
    }
}

#[test]
fn test_card_optional_fields_hydrate() {
    let mut fields = minimal_card_fields();
    fields.push(field("arena_id", Json::UInt(12345)));
    fields.push(field("foil", Json::Bool(true)));
    fields.push(field("colors", Json::Arr(vec![s("U")])));
    fields.push(field("games", Json::Arr(vec![s("paper"), s("mtgo")])));
    fields.push(field("multiverse_ids", Json::Arr(vec![Json::UInt(159), Json::UInt(4043)])));
    fields.push(field(
        "prices",
        Json::Obj(vec![field("usd", s("0.05")), field("tix", s("0.03"))]),
    ));
    fields.push(field(
        "card_faces",
        Json::Arr(vec![Json::Obj(vec![
            field("mana_cost", s("{1}{U}")),
            field("name", s("Storm Crow")),
            field("type_line", s("Creature - Bird")),
        ])]),
    ));
    let card = Card::parse(&Json::Obj(fields)).unwrap();
    assert_eq!(Some(12345), card.arena_id);
    assert_eq!(Some(true), card.foil);
    assert_eq!(Some(vec![Color::Blue]), card.colors);
    assert_eq!(Some(vec![159, 4043]), card.multiverse_ids);
    assert_eq!(Some(price("0.05")), card.prices.as_ref().unwrap().usd);
    assert_eq!(1, card.card_faces.as_ref().unwrap().len());
    assert_eq!("Storm Crow", card.card_faces.as_ref().unwrap()[0].name);
}

#[test]
fn test_card_malformed_optional_field_fails_whole_record() {
    let mut fields = minimal_card_fields();
    fields.push(field("scryfall_uri", s("not a uri")));
    match Card::parse(&Json::Obj(fields)) {
        Err(ValidationError::MalformedRecord { field, cause }) => {
            assert_eq!("scryfall_uri", field);
            assert!(matches!(*cause, ValidationError::InvalidUri { .. }));
        },
        other => panic!("expected a malformed-record failure, got {:?}", other),
    }
}

#[test]
fn test_card_unknown_tag_names_the_enumeration() {
    let mut fields = minimal_card_fields();
    fields.retain(|f| f.0 != "rarity");
    fields.push(field("rarity", s("xyz")));
    match Card::parse(&Json::Obj(fields)) {
        Err(ValidationError::MalformedRecord { field, cause }) => {
            assert_eq!("rarity", field);
            match *cause {
                ValidationError::UnknownTag { field, raw } => {
                    assert_eq!("rarity", field);
                    assert_eq!("xyz", raw);
                },
                other => panic!("expected an unknown-tag cause, got {:?}", other),
            }
        },
        other => panic!("expected a malformed-record failure, got {:?}", other),
    }
}

#[test]
fn test_parse_same_wire_object_twice_yields_equal_cards() {
    let wire = Json::Obj(minimal_card_fields());
    let first = Card::parse(&wire).unwrap();
    let second = Card::parse(&wire).unwrap();
    assert_eq!(first, second);

    let prices_wire = Json::Obj(vec![field("usd", s("15.44"))]);
    assert_eq!(
        Prices::from_wire(&prices_wire).unwrap(),
        Prices::from_wire(&prices_wire).unwrap()
    );
}

fn minimal_set_fields() -> Vec<(String, Json)> {
    vec![
        field("id", s("385e11a4-492b-4d07-b4a6-a1409ef829b8")),
        field("code", s("mh1")),
        field("name", s("Modern Horizons")),
        field("set_type", s("draft_innovation")),
        field("card_count", Json::UInt(254)),
        field("digital", Json::Bool(false)),
        field("foil_only", Json::Bool(false)),
        field("scryfall_uri", s("https://example.test/sets/mh1")),
        field("uri", s("https://api.example.test/sets/mh1")),
        field("icon_svg_uri", s("https://img.example.test/sets/mh1.svg")),
        field("search_uri", s("https://api.example.test/cards/search?q=set:mh1")),
    ]
}

#[test]
fn test_set_record_round_trip() {
    let set_rec = CardSet::from_wire(&Json::Obj(minimal_set_fields())).unwrap();
    assert_eq!("mh1", set_rec.code);
    assert_eq!(SetType::DraftInnovation, set_rec.set_type);
    assert_eq!(254, set_rec.card_count);
    assert_eq!(None, set_rec.parent_set_code);

    let mut fields = minimal_set_fields();
    fields.push(field("parent_set_code", s("mh1p")));
    fields.push(field("released_at", s("2019-06-14")));
    let with_parent = CardSet::from_wire(&Json::Obj(fields)).unwrap();
    assert_eq!(Some("mh1p".to_string()), with_parent.parent_set_code);
    assert_eq!(2019, with_parent.released_at.unwrap().year);
}

#[test]
fn test_error_record_round_trip() {
    let wire = Json::Obj(vec![
        field("error", Json::UInt(404)),
        field("code", s("not_found")),
        field("details", s("The requested object was not found.")),
        field("error_type", s("ambiguous")),
        field("warnings", Json::Arr(vec![s("w1"), s("w2")])),
    ]);
    let err = Error::parse(&wire).unwrap();
    assert_eq!(404, err.error);
    assert_eq!("not_found", err.code);
    assert_eq!("The requested object was not found.", err.details);
    assert_eq!(Some("ambiguous".to_string()), err.error_type);
    assert_eq!(Some(vec!["w1".to_string(), "w2".to_string()]), err.warnings);

    let missing = Json::Obj(vec![field("error", Json::UInt(500))]);
    match Error::parse(&missing) {
        Err(ValidationError::MissingRequiredField { field }) => assert_eq!("code", field),
        other => panic!("expected a missing-field failure, got {:?}", other),
    }
}
