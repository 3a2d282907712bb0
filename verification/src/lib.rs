//! Client-side logic for a bibliographic catalog service.
//!
//! The catalog exposes three linked record kinds — editions, works and
//! authors — addressed by path-like cross-reference keys, plus a cover-image
//! endpoint. This crate holds the verified core: translating identifiers
//! into lookup paths, normalizing fields whose wire shape drifted over the
//! years (bare text or a `{type, value}` object), materializing records
//! from JSON, and the three-stage resolution pipeline that composes an
//! edition, its work and its author into one entity.

pub mod ambiguous;
pub mod author;
pub mod codec;
pub mod decode;
pub mod edition;
pub mod entity;
pub mod json;
pub mod pipeline;
pub mod work;

pub use codec::Client;
pub use codec::CoverKey;
pub use codec::CoverSize;
pub use codec::QueryType;

pub use edition::Authors as AuthorsEdition;
pub use edition::ByStatement;
pub use edition::Created;
pub use edition::Edition;
pub use edition::EditionName;
pub use edition::Identifiers;
pub use edition::Language;
pub use edition::LastModified;
pub use edition::Note;
pub use edition::Notes;
pub use edition::NumberOfPages;
pub use edition::PhysicalDimensions;
pub use edition::PhysicalFormat;
pub use edition::PublishDate;
pub use edition::Revision;
pub use edition::Subtitle;
pub use edition::TableOfContents;
pub use edition::Title;
pub use edition::Type;
pub use edition::Weight;
pub use edition::Works;

pub use work::Author as AuthorWork;
pub use work::Authors as AuthorsWork;
pub use work::Work;

pub use author::Author;

pub use entity::Entity;
