use cardwire::{Color, Frame, FrameEffect, Game, Layout, Legality, Rarity, SetType, TagEnum,
    ValidationError};

#[test]
fn test_color() {
    let color_pairs = vec![
        ("W", Color::White),
        ("U", Color::Blue),
        ("B", Color::Black),
        ("R", Color::Red),
        ("G", Color::Green),
    ];

    for color_pair in color_pairs {
        let val: Color = Color::from_tag(color_pair.0).unwrap();
        assert_eq!(color_pair.1, val);
    }
}

#[test]
fn test_layout() {
    let layout_pairs = vec![
        ("normal", Layout::Normal),
        ("split", Layout::Split),
        ("flip", Layout::Flip),
        ("transform", Layout::Transform),
        ("meld", Layout::Meld),
        ("leveler", Layout::Leveler),
        ("saga", Layout::Saga),
        ("planar", Layout::Planar),
        ("scheme", Layout::Scheme),
        ("vanguard", Layout::Vanguard),
        ("token", Layout::Token),
        ("double_faced_token", Layout::DoubleFacedToken),
        ("emblem", Layout::Emblem),
        ("augment", Layout::Augment),
        ("host", Layout::Host),
    ];

    for layout_pair in layout_pairs {
        let val: Layout = Layout::from_tag(layout_pair.0).unwrap();
        assert_eq!(layout_pair.1, val);
    }
}

#[test]
fn test_frame_effect() {
    let frame_effect_pairs = vec![
        ("legendary", FrameEffect::Legendary),
        ("miracle", FrameEffect::Miracle),
        ("nyxtouched", FrameEffect::NyxTouched),
        ("draft", FrameEffect::Draft),
        ("devoid", FrameEffect::Devoid),
        ("tombstone", FrameEffect::Tombstone),
        ("colorshifted", FrameEffect::ColorShifted),
        ("sunmoondfc", FrameEffect::SunMoonDfc),
        ("compasslanddfc", FrameEffect::CompassLandDfc),
        ("originpwdfc", FrameEffect::OriginPwDfc),
        ("mooneldrazidfc", FrameEffect::MoonEldraziDfc),
    ];

    for frame_effect_pair in frame_effect_pairs {
        let val: FrameEffect = FrameEffect::from_tag(frame_effect_pair.0).unwrap();
        assert_eq!(frame_effect_pair.1, val);
    }
}

#[test]
fn test_frame() {
    let frame_pairs = vec![
        ("1993", Frame::Year1993),
        ("1997", Frame::Year1997),
        ("2003", Frame::Year2003),
        ("2015", Frame::Year2015),
        ("future", Frame::Future),
    ];

    for frame_pair in frame_pairs {
        let val: Frame = Frame::from_tag(frame_pair.0).unwrap();
        assert_eq!(frame_pair.1, val);
    }
}

#[test]
fn test_game() {
    let game_pairs = vec![("paper", Game::Paper), ("arena", Game::Arena), ("mtgo", Game::Mtgo)];

    for game_pair in game_pairs {
        let val: Game = Game::from_tag(game_pair.0).unwrap();
        assert_eq!(game_pair.1, val);
    }
}

#[test]
fn test_rarity() {
    let rarity_pairs = vec![
        ("common", Rarity::Common),
        ("uncommon", Rarity::Uncommon),
        ("rare", Rarity::Rare),
        ("mythic", Rarity::Mythic),
    ];

    for rarity_pair in rarity_pairs {
        let val: Rarity = Rarity::from_tag(rarity_pair.0).unwrap();
        assert_eq!(rarity_pair.1, val);
    }
}

#[test]
fn test_legality() {
    let legality_pair = vec![
        ("not_legal", Legality::NotLegal),
        ("legal", Legality::Legal),
        ("banned", Legality::Banned),
        ("restricted", Legality::Restricted),
    ];

    for legality_pair in legality_pair {
        let val: Legality = Legality::from_tag(legality_pair.0).unwrap();
        assert_eq!(legality_pair.1, val);
    }
}

#[test]
fn test_set_type_tags() {
    let pairs = vec![
        ("core", SetType::Core),
        ("expansion", SetType::Expansion),
        ("masters", SetType::Masters),
        ("masterpiece", SetType::Masterpiece),
        ("from_the_vault", SetType::FromTheVault),
        ("spellbook", SetType::Spellbook),
        ("premium_deck", SetType::PremiumDeck),
        ("duel_deck", SetType::DuelDeck),
        ("draft_innovation", SetType::DraftInnovation),
        ("treasure_chest", SetType::TreasureChest),
        ("commander", SetType::Commander),
        ("planechase", SetType::Planechase),
        ("archenemy", SetType::Archenemy),
        ("vanguard", SetType::Vanguard),
        ("funny", SetType::Funny),
        ("starter", SetType::Starter),
        ("box", SetType::Box),
        ("promo", SetType::Promo),
        ("token", SetType::Token),
        ("memorabilia", SetType::Memorabilia),
    ];

    for pair in pairs {
        let val: SetType = SetType::from_tag(pair.0).unwrap();
        assert_eq!(pair.1, val);
    }
}

#[test]
fn test_unknown_tag_is_rejected() {
    match Color::from_tag("xyz") {
        Err(ValidationError::UnknownTag { field, raw }) => {
            assert_eq!(field, "color");
            assert_eq!(raw, "xyz");
        },
        other => panic!("expected an unknown-tag failure, got {:?}", other),
    }
    assert!(Layout::from_tag("xyz").is_err());
    assert!(FrameEffect::from_tag("xyz").is_err());
    assert!(Frame::from_tag("1994").is_err());
    assert!(Game::from_tag("xyz").is_err());
    assert!(Rarity::from_tag("Common").is_err());
    assert!(Legality::from_tag("notlegal").is_err());
    assert!(SetType::from_tag("xyz").is_err());
}

#[test]
fn test_tags_are_case_sensitive() {
    assert!(Color::from_tag("w").is_err());
    assert!(Layout::from_tag("Normal").is_err());
    assert_eq!(Color::White, Color::from_tag("W").unwrap());
}
