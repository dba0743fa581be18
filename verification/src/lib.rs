//! The decision core of a gateway that exposes a taxonomy of services and
//! channels over an HTTP-shaped transport.
//!
//! The gateway itself touches neither the network nor the taxonomy. For
//! each request it is handed plain values and decides:
//!
//! * who is calling ([`identity`]);
//! * which rule of the route table applies ([`route`]);
//! * how the body is decoded, as JSON or as an opaque blob ([`payload`]);
//! * which call on the taxonomy is due, or which reply at once ([`router`]);
//! * how the outcome of that call is sent back, as a raw binary body or as
//!   JSON ([`response`]), and whether a label can stand as the content type
//!   of a reply ([`media`]).
//!
//! [`exactly`] holds the merge of identity constraints that selectors are
//! composed with.

pub mod exactly;
pub mod identity;
pub mod json;
pub mod media;
pub mod payload;
pub mod response;
pub mod route;
pub mod router;
pub mod text;

pub use exactly::Exactly;
pub use router::{create, TaxonomyRouter};
