//! A typed mapping layer for a card-catalog API's JSON responses.
//!
//! The crate validates wire data in three layers: scalar validators for
//! string-encoded domain values (prices, URIs, identifiers, dates), closed
//! enumeration mappers from compact wire tags to domain variants, and
//! record parsers that assemble validated leaf fields into typed aggregates.
//! A generic paginated envelope wraps one page of homogeneous records.
//!
//! Every parser is a pure function from a wire value to either a fully
//! validated result or a field-attributed `ValidationError`; no partial
//! records are ever returned.

pub mod card;
pub mod date;
pub mod enums;
pub mod error;
pub mod json;
pub mod list;
pub mod price;
pub mod set;
pub mod text;
pub mod uri;
pub mod uuid;
pub mod wire;

pub use card::{Card, CardFace, ImageUris, Legalities, Prices, PurchaseUris, RelatedCard,
    RelatedUris};
pub use date::Date;
pub use enums::{Color, Frame, FrameEffect, Game, Layout, Legality, Rarity, TagEnum};
pub use error::{Error, ValidationError};
pub use json::Json;
pub use list::{CardList, List, SetList};
pub use price::Price;
pub use set::{CardSet, SetType};
pub use uri::Uri;
pub use uuid::Uuid;
pub use wire::{FromWire, StrScalar};
