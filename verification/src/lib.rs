//! Typed records over a flat, numbered field space of a tantivy index:
//! the field layout of a record type, the schema it registers, and the
//! conversion of record instances to and from raw documents.
//!
//! A record type is declared once, attribute by attribute, each with its
//! value type and its indexing intents ([`declaration`], [`options`],
//! [`layout`]). From the layout the library builds the schema
//! ([`layout::FieldLayout::schema`]), writes record instances into raw
//! documents and reads their stored projections back ([`codec`],
//! [`record`], [`kinds`]). What holds of all of this together is stated in
//! [`laws`].
//!
//! The index itself is tantivy's. Its option structures, schema builder and
//! documents are used as they are; what this library believes of them is
//! written down in [`index_options`], [`schema`] and [`document`], and of
//! the stored forms of decimals, identifiers and URLs in [`formats`].

pub mod codec;
pub mod declaration;
pub mod document;
pub mod formats;
pub mod index_options;
pub mod kinds;
pub mod laws;
pub mod layout;
pub mod options;
pub mod record;
pub mod schema;
