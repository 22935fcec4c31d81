use vstd::prelude::*;
use crate::error::ValidationError;
use crate::text::str_eq;

verus! {

/// A closed enumeration carried on the wire as a compact tag. Each tag
/// maps to exactly one variant; the match is exact and case-sensitive,
/// and an unrecognized tag is always a hard failure, never a default
/// variant.
pub trait TagEnum: Sized {
    /// The variant a wire tag denotes, if any.
    spec fn of_tag(t: Seq<char>) -> Option<Self>;

    /// The documented wire tag of a variant.
    spec fn tag_of(v: Self) -> Seq<char>;

    /// The enumeration's name, used to attribute `UnknownTag` failures.
    spec fn tag_context() -> Seq<char>;

    /// Maps one wire tag to its variant.
    fn from_tag(t: &str) -> (r: Result<Self, ValidationError>)
        ensures
            r is Ok <==> Self::of_tag(t@) is Some,
            r matches Ok(v) ==> Self::of_tag(t@) == Some(v),
            r matches Err(e) ==> {
                &&& e matches ValidationError::UnknownTag { field, raw }
                &&& field@ == Self::tag_context()
                &&& raw@ == t@
            },
    ;
}

/// Possible colors of a card. A card without any color tag is represented
/// by the absence of the field, not by an extra variant.
#[derive(Clone, Copy, Debug, PartialEq, Eq, Hash, Structural)]
pub enum Color {
    White,
    Blue,
    Black,
    Red,
    Green,
}

impl DeepView for Color {
    type V = Color;

    open spec fn deep_view(&self) -> Color {
        *self
    }
}

impl TagEnum for Color {
    open spec fn of_tag(t: Seq<char>) -> Option<Color> {
        if t == "W"@ {
            Some(Color::White)
        } else if t == "U"@ {
            Some(Color::Blue)
        } else if t == "B"@ {
            Some(Color::Black)
        } else if t == "R"@ {
            Some(Color::Red)
        } else if t == "G"@ {
            Some(Color::Green)
        } else {
            None
        }
    }

    open spec fn tag_of(v: Color) -> Seq<char> {
        match v {
            Color::White => "W"@,
            Color::Blue => "U"@,
            Color::Black => "B"@,
            Color::Red => "R"@,
            Color::Green => "G"@,
        }
    }

    open spec fn tag_context() -> Seq<char> {
        "color"@
    }

    fn from_tag(t: &str) -> (r: Result<Color, ValidationError>) {
        if str_eq(t, "W") {
            Ok(Color::White)
        } else if str_eq(t, "U") {
            Ok(Color::Blue)
        } else if str_eq(t, "B") {
            Ok(Color::Black)
        } else if str_eq(t, "R") {
            Ok(Color::Red)
        } else if str_eq(t, "G") {
            Ok(Color::Green)
        } else {
            Err(ValidationError::UnknownTag { field: "color".to_owned(), raw: t.to_owned() })
        }
    }
}

/// The kind of card: how its faces and frame are arranged.
#[derive(Clone, Copy, Debug, PartialEq, Eq, Structural)]
pub enum Layout {
    Normal,
    Split,
    Flip,
    Transform,
    Meld,
    Leveler,
    Saga,
    Planar,
    Scheme,
    Vanguard,
    Token,
    DoubleFacedToken,
    Emblem,
    Augment,
    Host,
}

impl DeepView for Layout {
    type V = Layout;

    open spec fn deep_view(&self) -> Layout {
        *self
    }
}

impl TagEnum for Layout {
    open spec fn of_tag(t: Seq<char>) -> Option<Layout> {
        if t == "normal"@ {
            Some(Layout::Normal)
        } else if t == "split"@ {
            Some(Layout::Split)
        } else if t == "flip"@ {
            Some(Layout::Flip)
        } else if t == "transform"@ {
            Some(Layout::Transform)
        } else if t == "meld"@ {
            Some(Layout::Meld)
        } else if t == "leveler"@ {
            Some(Layout::Leveler)
        } else if t == "saga"@ {
            Some(Layout::Saga)
        } else if t == "planar"@ {
            Some(Layout::Planar)
        } else if t == "scheme"@ {
            Some(Layout::Scheme)
        } else if t == "vanguard"@ {
            Some(Layout::Vanguard)
        } else if t == "token"@ {
            Some(Layout::Token)
        } else if t == "double_faced_token"@ {
            Some(Layout::DoubleFacedToken)
        } else if t == "emblem"@ {
            Some(Layout::Emblem)
        } else if t == "augment"@ {
            Some(Layout::Augment)
        } else if t == "host"@ {
            Some(Layout::Host)
        } else {
            None
        }
    }

    open spec fn tag_of(v: Layout) -> Seq<char> {
        match v {
            Layout::Normal => "normal"@,
            Layout::Split => "split"@,
            Layout::Flip => "flip"@,
            Layout::Transform => "transform"@,
            Layout::Meld => "meld"@,
            Layout::Leveler => "leveler"@,
            Layout::Saga => "saga"@,
            Layout::Planar => "planar"@,
            Layout::Scheme => "scheme"@,
            Layout::Vanguard => "vanguard"@,
            Layout::Token => "token"@,
            Layout::DoubleFacedToken => "double_faced_token"@,
            Layout::Emblem => "emblem"@,
            Layout::Augment => "augment"@,
            Layout::Host => "host"@,
        }
    }

    open spec fn tag_context() -> Seq<char> {
        "layout"@
    }

    fn from_tag(t: &str) -> (r: Result<Layout, ValidationError>) {
        if str_eq(t, "normal") {
            Ok(Layout::Normal)
        } else if str_eq(t, "split") {
            Ok(Layout::Split)
        } else if str_eq(t, "flip") {
            Ok(Layout::Flip)
        } else if str_eq(t, "transform") {
            Ok(Layout::Transform)
        } else if str_eq(t, "meld") {
            Ok(Layout::Meld)
        } else if str_eq(t, "leveler") {
            Ok(Layout::Leveler)
        } else if str_eq(t, "saga") {
            Ok(Layout::Saga)
        } else if str_eq(t, "planar") {
            Ok(Layout::Planar)
        } else if str_eq(t, "scheme") {
            Ok(Layout::Scheme)
        } else if str_eq(t, "vanguard") {
            Ok(Layout::Vanguard)
        } else if str_eq(t, "token") {
            Ok(Layout::Token)
        } else if str_eq(t, "double_faced_token") {
            Ok(Layout::DoubleFacedToken)
        } else if str_eq(t, "emblem") {
            Ok(Layout::Emblem)
        } else if str_eq(t, "augment") {
            Ok(Layout::Augment)
        } else if str_eq(t, "host") {
            Ok(Layout::Host)
        } else {
            Err(ValidationError::UnknownTag { field: "layout".to_owned(), raw: t.to_owned() })
        }
    }
}

/// Frame effects applied over the primary frame kinds.
#[derive(Clone, Copy, Debug, PartialEq, Eq, Structural)]
pub enum FrameEffect {
    Legendary,
    Miracle,
    NyxTouched,
    Draft,
    Devoid,
    Tombstone,
    ColorShifted,
    SunMoonDfc,
    CompassLandDfc,
    OriginPwDfc,
    MoonEldraziDfc,
}

impl DeepView for FrameEffect {
    type V = FrameEffect;

    open spec fn deep_view(&self) -> FrameEffect {
        *self
    }
}

impl TagEnum for FrameEffect {
    open spec fn of_tag(t: Seq<char>) -> Option<FrameEffect> {
        if t == "legendary"@ {
            Some(FrameEffect::Legendary)
        } else if t == "miracle"@ {
            Some(FrameEffect::Miracle)
        } else if t == "nyxtouched"@ {
            Some(FrameEffect::NyxTouched)
        } else if t == "draft"@ {
            Some(FrameEffect::Draft)
        } else if t == "devoid"@ {
            Some(FrameEffect::Devoid)
        } else if t == "tombstone"@ {
            Some(FrameEffect::Tombstone)
        } else if t == "colorshifted"@ {
            Some(FrameEffect::ColorShifted)
        } else if t == "sunmoondfc"@ {
            Some(FrameEffect::SunMoonDfc)
        } else if t == "compasslanddfc"@ {
            Some(FrameEffect::CompassLandDfc)
        } else if t == "originpwdfc"@ {
            Some(FrameEffect::OriginPwDfc)
        } else if t == "mooneldrazidfc"@ {
            Some(FrameEffect::MoonEldraziDfc)
        } else {
            None
        }
    }

    open spec fn tag_of(v: FrameEffect) -> Seq<char> {
        match v {
            FrameEffect::Legendary => "legendary"@,
            FrameEffect::Miracle => "miracle"@,
            FrameEffect::NyxTouched => "nyxtouched"@,
            FrameEffect::Draft => "draft"@,
            FrameEffect::Devoid => "devoid"@,
            FrameEffect::Tombstone => "tombstone"@,
            FrameEffect::ColorShifted => "colorshifted"@,
            FrameEffect::SunMoonDfc => "sunmoondfc"@,
            FrameEffect::CompassLandDfc => "compasslanddfc"@,
            FrameEffect::OriginPwDfc => "originpwdfc"@,
            FrameEffect::MoonEldraziDfc => "mooneldrazidfc"@,
        }
    }

    open spec fn tag_context() -> Seq<char> {
        "frame_effect"@
    }

    fn from_tag(t: &str) -> (r: Result<FrameEffect, ValidationError>) {
        if str_eq(t, "legendary") {
            Ok(FrameEffect::Legendary)
        } else if str_eq(t, "miracle") {
            Ok(FrameEffect::Miracle)
        } else if str_eq(t, "nyxtouched") {
            Ok(FrameEffect::NyxTouched)
        } else if str_eq(t, "draft") {
            Ok(FrameEffect::Draft)
        } else if str_eq(t, "devoid") {
            Ok(FrameEffect::Devoid)
        } else if str_eq(t, "tombstone") {
            Ok(FrameEffect::Tombstone)
        } else if str_eq(t, "colorshifted") {
            Ok(FrameEffect::ColorShifted)
        } else if str_eq(t, "sunmoondfc") {
            Ok(FrameEffect::SunMoonDfc)
        } else if str_eq(t, "compasslanddfc") {
            Ok(FrameEffect::CompassLandDfc)
        } else if str_eq(t, "originpwdfc") {
            Ok(FrameEffect::OriginPwDfc)
        } else if str_eq(t, "mooneldrazidfc") {
            Ok(FrameEffect::MoonEldraziDfc)
        } else {
            Err(ValidationError::UnknownTag {
                field: "frame_effect".to_owned(),
                raw: t.to_owned(),
            })
        }
    }
}

/// The primary frame kind, tagged by the year its design appeared, or
/// `future` for the frame of not-yet-released sets.
#[derive(Clone, Copy, Debug, PartialEq, Eq, Structural)]
pub enum Frame {
    Year1993,
    Year1997,
    Year2003,
    Year2015,
    Future,
}

impl DeepView for Frame {
    type V = Frame;

    open spec fn deep_view(&self) -> Frame {
        *self
    }
}

impl TagEnum for Frame {
    open spec fn of_tag(t: Seq<char>) -> Option<Frame> {
        if t == "1993"@ {
            Some(Frame::Year1993)
        } else if t == "1997"@ {
            Some(Frame::Year1997)
        } else if t == "2003"@ {
            Some(Frame::Year2003)
        } else if t == "2015"@ {
            Some(Frame::Year2015)
        } else if t == "future"@ {
            Some(Frame::Future)
        } else {
            None
        }
    }

    open spec fn tag_of(v: Frame) -> Seq<char> {
        match v {
            Frame::Year1993 => "1993"@,
            Frame::Year1997 => "1997"@,
            Frame::Year2003 => "2003"@,
            Frame::Year2015 => "2015"@,
            Frame::Future => "future"@,
        }
    }

    open spec fn tag_context() -> Seq<char> {
        "frame"@
    }

    fn from_tag(t: &str) -> (r: Result<Frame, ValidationError>) {
        if str_eq(t, "1993") {
            Ok(Frame::Year1993)
        } else if str_eq(t, "1997") {
            Ok(Frame::Year1997)
        } else if str_eq(t, "2003") {
            Ok(Frame::Year2003)
        } else if str_eq(t, "2015") {
            Ok(Frame::Year2015)
        } else if str_eq(t, "future") {
            Ok(Frame::Future)
        } else {
            Err(ValidationError::UnknownTag { field: "frame".to_owned(), raw: t.to_owned() })
        }
    }
}

/// The kinds of play a printing is available in.
#[derive(Clone, Copy, Debug, PartialEq, Eq, Structural)]
pub enum Game {
    Paper,
    Arena,
    Mtgo,
}

impl DeepView for Game {
    type V = Game;

    open spec fn deep_view(&self) -> Game {
        *self
    }
}

impl TagEnum for Game {
    open spec fn of_tag(t: Seq<char>) -> Option<Game> {
        if t == "paper"@ {
            Some(Game::Paper)
        } else if t == "arena"@ {
            Some(Game::Arena)
        } else if t == "mtgo"@ {
            Some(Game::Mtgo)
        } else {
            None
        }
    }

    open spec fn tag_of(v: Game) -> Seq<char> {
        match v {
            Game::Paper => "paper"@,
            Game::Arena => "arena"@,
            Game::Mtgo => "mtgo"@,
        }
    }

    open spec fn tag_context() -> Seq<char> {
        "game"@
    }

    fn from_tag(t: &str) -> (r: Result<Game, ValidationError>) {
        if str_eq(t, "paper") {
            Ok(Game::Paper)
        } else if str_eq(t, "arena") {
            Ok(Game::Arena)
        } else if str_eq(t, "mtgo") {
            Ok(Game::Mtgo)
        } else {
            Err(ValidationError::UnknownTag { field: "game".to_owned(), raw: t.to_owned() })
        }
    }
}

/// Rarity levels of a printing.
#[derive(Clone, Copy, Debug, PartialEq, Eq, Structural)]
pub enum Rarity {
    Common,
    Uncommon,
    Rare,
    Mythic,
}

impl DeepView for Rarity {
    type V = Rarity;

    open spec fn deep_view(&self) -> Rarity {
        *self
    }
}

impl TagEnum for Rarity {
    open spec fn of_tag(t: Seq<char>) -> Option<Rarity> {
        if t == "common"@ {
            Some(Rarity::Common)
        } else if t == "uncommon"@ {
            Some(Rarity::Uncommon)
        } else if t == "rare"@ {
            Some(Rarity::Rare)
        } else if t == "mythic"@ {
            Some(Rarity::Mythic)
        } else {
            None
        }
    }

    open spec fn tag_of(v: Rarity) -> Seq<char> {
        match v {
            Rarity::Common => "common"@,
            Rarity::Uncommon => "uncommon"@,
            Rarity::Rare => "rare"@,
            Rarity::Mythic => "mythic"@,
        }
    }

    open spec fn tag_context() -> Seq<char> {
        "rarity"@
    }

    fn from_tag(t: &str) -> (r: Result<Rarity, ValidationError>) {
        if str_eq(t, "common") {
            Ok(Rarity::Common)
        } else if str_eq(t, "uncommon") {
            Ok(Rarity::Uncommon)
        } else if str_eq(t, "rare") {
            Ok(Rarity::Rare)
        } else if str_eq(t, "mythic") {
            Ok(Rarity::Mythic)
        } else {
            Err(ValidationError::UnknownTag { field: "rarity".to_owned(), raw: t.to_owned() })
        }
    }
}

/// The legality status of a card in one play format. Its tags use the
/// underscore-separated multi-word form.
#[derive(Clone, Copy, Debug, PartialEq, Eq, Structural)]
pub enum Legality {
    NotLegal,
    Legal,
    Banned,
    Restricted,
}

impl DeepView for Legality {
    type V = Legality;

    open spec fn deep_view(&self) -> Legality {
        *self
    }
}

impl TagEnum for Legality {
    open spec fn of_tag(t: Seq<char>) -> Option<Legality> {
        if t == "not_legal"@ {
            Some(Legality::NotLegal)
        } else if t == "legal"@ {
            Some(Legality::Legal)
        } else if t == "banned"@ {
            Some(Legality::Banned)
        } else if t == "restricted"@ {
            Some(Legality::Restricted)
        } else {
            None
        }
    }

    open spec fn tag_of(v: Legality) -> Seq<char> {
        match v {
            Legality::NotLegal => "not_legal"@,
            Legality::Legal => "legal"@,
            Legality::Banned => "banned"@,
            Legality::Restricted => "restricted"@,
        }
    }

    open spec fn tag_context() -> Seq<char> {
        "legality"@
    }

    fn from_tag(t: &str) -> (r: Result<Legality, ValidationError>) {
        if str_eq(t, "not_legal") {
            Ok(Legality::NotLegal)
        } else if str_eq(t, "legal") {
            Ok(Legality::Legal)
        } else if str_eq(t, "banned") {
            Ok(Legality::Banned)
        } else if str_eq(t, "restricted") {
            Ok(Legality::Restricted)
        } else {
            Err(ValidationError::UnknownTag { field: "legality".to_owned(), raw: t.to_owned() })
        }
    }
}

/// Law: the color mapping is injective — distinct tags never reach the
/// same variant.
pub proof fn lemma_color_tags_injective(a: Seq<char>, b: Seq<char>)
    requires
        Color::of_tag(a) is Some,
        Color::of_tag(a) == Color::of_tag(b),
    ensures
        a == b,
{
}

/// Law: every color variant is reached by exactly its documented tag.
pub proof fn lemma_color_tags_total(v: Color)
    ensures
        Color::of_tag(Color::tag_of(v)) == Some(v),
{
    reveal_strlit("W");
    reveal_strlit("U");
    reveal_strlit("B");
    reveal_strlit("R");
    reveal_strlit("G");
    assert("W"@.len() == 1 && "W"@[0] == 'W');
    assert("U"@.len() == 1 && "U"@[0] == 'U');
    assert("B"@.len() == 1 && "B"@[0] == 'B');
    assert("R"@.len() == 1 && "R"@[0] == 'R');
    assert("G"@.len() == 1 && "G"@[0] == 'G');
    match v {
        Color::White => assert(Color::of_tag("W"@) == Some(Color::White)),
        Color::Blue => assert(Color::of_tag("U"@) == Some(Color::Blue)),
        Color::Black => assert(Color::of_tag("B"@) == Some(Color::Black)),
        Color::Red => assert(Color::of_tag("R"@) == Some(Color::Red)),
        Color::Green => assert(Color::of_tag("G"@) == Some(Color::Green)),
    }
}

/// Law: the layout mapping is injective.
pub proof fn lemma_layout_tags_injective(a: Seq<char>, b: Seq<char>)
    requires
        Layout::of_tag(a) is Some,
        Layout::of_tag(a) == Layout::of_tag(b),
    ensures
        a == b,
{
}

/// Law: every layout variant is reached by exactly its documented tag.
pub proof fn lemma_layout_tags_total(v: Layout)
    ensures
        Layout::of_tag(Layout::tag_of(v)) == Some(v),
{
    reveal_strlit("normal");
    reveal_strlit("split");
    reveal_strlit("flip");
    reveal_strlit("transform");
    reveal_strlit("meld");
    reveal_strlit("leveler");
    reveal_strlit("saga");
    reveal_strlit("planar");
    reveal_strlit("scheme");
    reveal_strlit("vanguard");
    reveal_strlit("token");
    reveal_strlit("double_faced_token");
    reveal_strlit("emblem");
    reveal_strlit("augment");
    reveal_strlit("host");
    assert("normal"@.len() == 6 && "normal"@[0] == 'n');
    assert("split"@.len() == 5 && "split"@[0] == 's');
    assert("flip"@.len() == 4 && "flip"@[0] == 'f');
    assert("transform"@.len() == 9 && "transform"@[0] == 't');
    assert("meld"@.len() == 4 && "meld"@[0] == 'm');
    assert("leveler"@.len() == 7 && "leveler"@[0] == 'l');
    assert("saga"@.len() == 4 && "saga"@[0] == 's');
    assert("planar"@.len() == 6 && "planar"@[0] == 'p');
    assert("scheme"@.len() == 6 && "scheme"@[0] == 's');
    assert("vanguard"@.len() == 8 && "vanguard"@[0] == 'v');
    assert("token"@.len() == 5 && "token"@[0] == 't');
    assert("double_faced_token"@.len() == 18 && "double_faced_token"@[0] == 'd');
    assert("emblem"@.len() == 6 && "emblem"@[0] == 'e');
    assert("augment"@.len() == 7 && "augment"@[0] == 'a');
    assert("host"@.len() == 4 && "host"@[0] == 'h');
    match v {
        Layout::Normal => assert(Layout::of_tag("normal"@) == Some(Layout::Normal)),
        Layout::Split => assert(Layout::of_tag("split"@) == Some(Layout::Split)),
        Layout::Flip => assert(Layout::of_tag("flip"@) == Some(Layout::Flip)),
        Layout::Transform => assert(Layout::of_tag("transform"@) == Some(Layout::Transform)),
        Layout::Meld => assert(Layout::of_tag("meld"@) == Some(Layout::Meld)),
        Layout::Leveler => assert(Layout::of_tag("leveler"@) == Some(Layout::Leveler)),
        Layout::Saga => assert(Layout::of_tag("saga"@) == Some(Layout::Saga)),
        Layout::Planar => assert(Layout::of_tag("planar"@) == Some(Layout::Planar)),
        Layout::Scheme => assert(Layout::of_tag("scheme"@) == Some(Layout::Scheme)),
        Layout::Vanguard => assert(Layout::of_tag("vanguard"@) == Some(Layout::Vanguard)),
        Layout::Token => assert(Layout::of_tag("token"@) == Some(Layout::Token)),
        Layout::DoubleFacedToken => assert(Layout::of_tag("double_faced_token"@) == Some(
            Layout::DoubleFacedToken,
        )),
        Layout::Emblem => assert(Layout::of_tag("emblem"@) == Some(Layout::Emblem)),
        Layout::Augment => assert(Layout::of_tag("augment"@) == Some(Layout::Augment)),
        Layout::Host => assert(Layout::of_tag("host"@) == Some(Layout::Host)),
    }
}

/// Law: the frame-effect mapping is injective.
pub proof fn lemma_frame_effect_tags_injective(a: Seq<char>, b: Seq<char>)
    requires
        FrameEffect::of_tag(a) is Some,
        FrameEffect::of_tag(a) == FrameEffect::of_tag(b),
    ensures
        a == b,
{
}

/// Law: every frame-effect variant is reached by exactly its documented
/// tag.
pub proof fn lemma_frame_effect_tags_total(v: FrameEffect)
    ensures
        FrameEffect::of_tag(FrameEffect::tag_of(v)) == Some(v),
{
    reveal_strlit("legendary");
    reveal_strlit("miracle");
    reveal_strlit("nyxtouched");
    reveal_strlit("draft");
    reveal_strlit("devoid");
    reveal_strlit("tombstone");
    reveal_strlit("colorshifted");
    reveal_strlit("sunmoondfc");
    reveal_strlit("compasslanddfc");
    reveal_strlit("originpwdfc");
    reveal_strlit("mooneldrazidfc");
    assert("legendary"@.len() == 9 && "legendary"@[0] == 'l');
    assert("miracle"@.len() == 7 && "miracle"@[0] == 'm');
    assert("nyxtouched"@.len() == 10 && "nyxtouched"@[0] == 'n');
    assert("draft"@.len() == 5 && "draft"@[0] == 'd');
    assert("devoid"@.len() == 6 && "devoid"@[0] == 'd');
    assert("tombstone"@.len() == 9 && "tombstone"@[0] == 't');
    assert("colorshifted"@.len() == 12 && "colorshifted"@[0] == 'c');
    assert("sunmoondfc"@.len() == 10 && "sunmoondfc"@[0] == 's');
    assert("compasslanddfc"@.len() == 14 && "compasslanddfc"@[0] == 'c');
    assert("originpwdfc"@.len() == 11 && "originpwdfc"@[0] == 'o');
    assert("mooneldrazidfc"@.len() == 14 && "mooneldrazidfc"@[0] == 'm');
    match v {
        FrameEffect::Legendary => assert(FrameEffect::of_tag("legendary"@) == Some(
            FrameEffect::Legendary,
        )),
        FrameEffect::Miracle => assert(FrameEffect::of_tag("miracle"@) == Some(
            FrameEffect::Miracle,
        )),
        FrameEffect::NyxTouched => assert(FrameEffect::of_tag("nyxtouched"@) == Some(
            FrameEffect::NyxTouched,
        )),
        FrameEffect::Draft => assert(FrameEffect::of_tag("draft"@) == Some(FrameEffect::Draft)),
        FrameEffect::Devoid => assert(FrameEffect::of_tag("devoid"@) == Some(FrameEffect::Devoid)),
        FrameEffect::Tombstone => assert(FrameEffect::of_tag("tombstone"@) == Some(
            FrameEffect::Tombstone,
        )),
        FrameEffect::ColorShifted => assert(FrameEffect::of_tag("colorshifted"@) == Some(
            FrameEffect::ColorShifted,
        )),
        FrameEffect::SunMoonDfc => assert(FrameEffect::of_tag("sunmoondfc"@) == Some(
            FrameEffect::SunMoonDfc,
        )),
        FrameEffect::CompassLandDfc => assert(FrameEffect::of_tag("compasslanddfc"@) == Some(
            FrameEffect::CompassLandDfc,
        )),
        FrameEffect::OriginPwDfc => assert(FrameEffect::of_tag("originpwdfc"@) == Some(
            FrameEffect::OriginPwDfc,
        )),
        FrameEffect::MoonEldraziDfc => assert(FrameEffect::of_tag("mooneldrazidfc"@) == Some(
            FrameEffect::MoonEldraziDfc,
        )),
    }
}

/// Law: the frame mapping is injective.
pub proof fn lemma_frame_tags_injective(a: Seq<char>, b: Seq<char>)
    requires
        Frame::of_tag(a) is Some,
        Frame::of_tag(a) == Frame::of_tag(b),
    ensures
        a == b,
{
}

/// Law: every frame variant is reached by exactly its documented tag.
pub proof fn lemma_frame_tags_total(v: Frame)
    ensures
        Frame::of_tag(Frame::tag_of(v)) == Some(v),
{
    reveal_strlit("1993");
    reveal_strlit("1997");
    reveal_strlit("2003");
    reveal_strlit("2015");
    reveal_strlit("future");
    assert("1993"@.len() == 4 && "1993"@[0] == '1' && "1993"@[1] == '9' && "1993"@[3] == '3');
    assert("1997"@.len() == 4 && "1997"@[0] == '1' && "1997"@[1] == '9' && "1997"@[3] == '7');
    assert("2003"@.len() == 4 && "2003"@[0] == '2' && "2003"@[1] == '0' && "2003"@[3] == '3');
    assert("2015"@.len() == 4 && "2015"@[0] == '2' && "2015"@[1] == '0' && "2015"@[3] == '5');
    assert("future"@.len() == 6 && "future"@[0] == 'f');
    match v {
        Frame::Year1993 => assert(Frame::of_tag("1993"@) == Some(Frame::Year1993)),
        Frame::Year1997 => assert(Frame::of_tag("1997"@) == Some(Frame::Year1997)),
        Frame::Year2003 => assert(Frame::of_tag("2003"@) == Some(Frame::Year2003)),
        Frame::Year2015 => assert(Frame::of_tag("2015"@) == Some(Frame::Year2015)),
        Frame::Future => assert(Frame::of_tag("future"@) == Some(Frame::Future)),
    }
}

/// Law: the game mapping is injective.
pub proof fn lemma_game_tags_injective(a: Seq<char>, b: Seq<char>)
    requires
        Game::of_tag(a) is Some,
        Game::of_tag(a) == Game::of_tag(b),
    ensures
        a == b,
{
}

/// Law: every game variant is reached by exactly its documented tag.
pub proof fn lemma_game_tags_total(v: Game)
    ensures
        Game::of_tag(Game::tag_of(v)) == Some(v),
{
    reveal_strlit("paper");
    reveal_strlit("arena");
    reveal_strlit("mtgo");
    assert("paper"@.len() == 5 && "paper"@[0] == 'p');
    assert("arena"@.len() == 5 && "arena"@[0] == 'a');
    assert("mtgo"@.len() == 4 && "mtgo"@[0] == 'm');
    match v {
        Game::Paper => assert(Game::of_tag("paper"@) == Some(Game::Paper)),
        Game::Arena => assert(Game::of_tag("arena"@) == Some(Game::Arena)),
        Game::Mtgo => assert(Game::of_tag("mtgo"@) == Some(Game::Mtgo)),
    }
}

/// Law: the rarity mapping is injective.
pub proof fn lemma_rarity_tags_injective(a: Seq<char>, b: Seq<char>)
    requires
        Rarity::of_tag(a) is Some,
        Rarity::of_tag(a) == Rarity::of_tag(b),
    ensures
        a == b,
{
}

/// Law: every rarity variant is reached by exactly its documented tag.
pub proof fn lemma_rarity_tags_total(v: Rarity)
    ensures
        Rarity::of_tag(Rarity::tag_of(v)) == Some(v),
{
    reveal_strlit("common");
    reveal_strlit("uncommon");
    reveal_strlit("rare");
    reveal_strlit("mythic");
    assert("common"@.len() == 6 && "common"@[0] == 'c');
    assert("uncommon"@.len() == 8 && "uncommon"@[0] == 'u');
    assert("rare"@.len() == 4 && "rare"@[0] == 'r');
    assert("mythic"@.len() == 6 && "mythic"@[0] == 'm');
    match v {
        Rarity::Common => assert(Rarity::of_tag("common"@) == Some(Rarity::Common)),
        Rarity::Uncommon => assert(Rarity::of_tag("uncommon"@) == Some(Rarity::Uncommon)),
        Rarity::Rare => assert(Rarity::of_tag("rare"@) == Some(Rarity::Rare)),
        Rarity::Mythic => assert(Rarity::of_tag("mythic"@) == Some(Rarity::Mythic)),
    }
}

/// Law: the legality mapping is injective.
pub proof fn lemma_legality_tags_injective(a: Seq<char>, b: Seq<char>)
    requires
        Legality::of_tag(a) is Some,
        Legality::of_tag(a) == Legality::of_tag(b),
    ensures
        a == b,
{
}

/// Law: every legality variant is reached by exactly its documented tag.
pub proof fn lemma_legality_tags_total(v: Legality)
    ensures
        Legality::of_tag(Legality::tag_of(v)) == Some(v),
{
    reveal_strlit("not_legal");
    reveal_strlit("legal");
    reveal_strlit("banned");
    reveal_strlit("restricted");
    assert("not_legal"@.len() == 9 && "not_legal"@[0] == 'n');
    assert("legal"@.len() == 5 && "legal"@[0] == 'l');
    assert("banned"@.len() == 6 && "banned"@[0] == 'b');
    assert("restricted"@.len() == 10 && "restricted"@[0] == 'r');
    match v {
        Legality::NotLegal => assert(Legality::of_tag("not_legal"@) == Some(Legality::NotLegal)),
        Legality::Legal => assert(Legality::of_tag("legal"@) == Some(Legality::Legal)),
        Legality::Banned => assert(Legality::of_tag("banned"@) == Some(Legality::Banned)),
        Legality::Restricted => assert(Legality::of_tag("restricted"@) == Some(
            Legality::Restricted,
        )),
    }
}


} // verus!
