use cardwire::{Card, CardList, CardSet, Json, List, SetList, ValidationError};

fn s(text: &str) -> Json {
    Json::Str(text.to_string())
}

fn field(name: &str, value: Json) -> (String, Json) {
    (name.to_string(), value)
}

fn set_fields(code: &str) -> Json {
    Json::Obj(vec![
        field("id", s("385e11a4-492b-4d07-b4a6-a1409ef829b8")),
        field("code", s(code)),
        field("name", s("Some Set")),
        field("set_type", s("expansion")),
        field("card_count", Json::UInt(10)),
        field("digital", Json::Bool(false)),
        field("foil_only", Json::Bool(false)),
        field("scryfall_uri", s("https://example.test/sets/x")),
        field("uri", s("https://api.example.test/sets/x")),
        field("icon_svg_uri", s("https://img.example.test/sets/x.svg")),
        field("search_uri", s("https://api.example.test/cards/search?q=set:x")),
    ])
}

fn card_fields(name: &str) -> Json {
    Json::Obj(vec![
        field("id", s("6c231902-b0b9-4da0-bf9b-e5a4a3bb1686")),
        field("name", s(name)),
        field("layout", s("normal")),
        field(
            "legalities",
            Json::Obj(vec![
                field("standard", s("legal")),
                field("future", s("legal")),
                field("modern", s("legal")),
                field("legacy", s("legal")),
                field("pauper", s("legal")),
                field("vintage", s("legal")),
                field("penny", s("legal")),
                field("commander", s("legal")),
                field("brawl", s("legal")),
                field("duel", s("legal")),
                field("oldschool", s("not_legal")),
            ]),
        ),
        field("rarity", s("common")),
        field("type_line", s("Creature - Bird")),
        field("released_at", s("1996-10-08")),
        field("set", s("all")),
    ])
}

#[test]
fn test_card_list_carries_total_card() {
    let wire = Json::Obj(vec![
        field("data", Json::Arr(vec![card_fields("Storm Crow"), card_fields("Gray Ogre")])),
        field("has_more", Json::Bool(true)),
        field("next_page", s("https://api.example.test/cards?page=2")),
        field("total_card", Json::UInt(20000)),
    ]);
    let page: CardList = List::<Card>::parse(&wire).unwrap();
    assert_eq!(2, page.data.len());
    assert_eq!("Storm Crow", page.data[0].name);
    assert_eq!("Gray Ogre", page.data[1].name);
    assert_eq!(Some(20000), page.total_card);
    assert!(page.has_more);
}

#[test]
fn test_list_preserves_server_order() {
    let wire = Json::Obj(vec![
        field("data", Json::Arr(vec![set_fields("bbb"), set_fields("aaa"), set_fields("ccc")])),
        field("has_more", Json::Bool(false)),
    ]);
    let page: SetList = List::<CardSet>::parse(&wire).unwrap();
    let codes: Vec<&str> = page.data.iter().map(|x| x.code.as_str()).collect();
    assert_eq!(vec!["bbb", "aaa", "ccc"], codes);
    assert!(!page.has_more);
    assert_eq!(None, page.next_page);
    assert_eq!(None, page.total_card);
    assert_eq!(None, page.warnings);
}

#[test]
fn test_list_with_continuation() {
    let wire = Json::Obj(vec![
        field("data", Json::Arr(vec![set_fields("aaa")])),
        field("has_more", Json::Bool(true)),
        field("next_page", s("https://api.example.test/sets?page=2")),
        field("total_card", Json::UInt(531)),
    ]);
    let page = List::<CardSet>::parse(&wire).unwrap();
    assert!(page.has_more);
    assert_eq!(
        "https://api.example.test/sets?page=2",
        page.next_page.as_ref().unwrap().as_str()
    );
    assert_eq!(Some(531), page.total_card);
}

#[test]
fn test_list_has_more_without_next_page_is_flagged() {
    let wire = Json::Obj(vec![
        field("data", Json::Arr(vec![set_fields("aaa")])),
        field("has_more", Json::Bool(true)),
    ]);
    match List::<CardSet>::parse(&wire) {
        Err(ValidationError::MissingRequiredField { field }) => assert_eq!("next_page", field),
        other => panic!("expected the protocol violation to surface, got {:?}", other),
    }

    // The violation is distinguishable from a page that simply ends.
    let ends = Json::Obj(vec![
        field("data", Json::Arr(vec![set_fields("aaa")])),
        field("has_more", Json::Bool(false)),
    ]);
    assert!(List::<CardSet>::parse(&ends).is_ok());
}

#[test]
fn test_list_bad_element_fails_the_batch() {
    let wire = Json::Obj(vec![
        field("data", Json::Arr(vec![set_fields("aaa"), Json::Obj(vec![field("code", s("bad"))])])),
        field("has_more", Json::Bool(false)),
    ]);
    match List::<CardSet>::parse(&wire) {
        Err(ValidationError::MalformedRecord { field, .. }) => assert_eq!("data", field),
        other => panic!("expected a malformed-record failure, got {:?}", other),
    }
}

#[test]
fn test_list_missing_data_is_rejected() {
    let wire = Json::Obj(vec![field("has_more", Json::Bool(false))]);
    match List::<CardSet>::parse(&wire) {
        Err(ValidationError::MissingRequiredField { field }) => assert_eq!("data", field),
        other => panic!("expected a missing-field failure, got {:?}", other),
    }
}

#[test]
fn test_list_parse_is_idempotent() {
    let wire = Json::Obj(vec![
        field("data", Json::Arr(vec![set_fields("aaa"), set_fields("bbb")])),
        field("has_more", Json::Bool(false)),
        field("warnings", Json::Arr(vec![s("w")])),
    ]);
    assert_eq!(
        List::<CardSet>::parse(&wire).unwrap(),
        List::<CardSet>::parse(&wire).unwrap()
    );
}
