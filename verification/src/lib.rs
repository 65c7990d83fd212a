//! A declarative description of a styled user-interface tree, together with a
//! verified resolver that turns one description into a renderable node tree.
//!
//! The crate holds the data vocabulary (colors, lengths, elements) and the
//! recursive resolution algorithm. Talking to a concrete rendering runtime —
//! deserializing the description from bytes, and handing the resolved tree to
//! a window — is left to the thin unverified shell around this crate.

pub mod color;
pub mod element;
pub mod length;
