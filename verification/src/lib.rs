//! XPath-driven transformation of Interface-Builder-style XML documents:
//! locate target elements with a caller-supplied XPath expression and attach
//! freshly synthesized `outletCollection` connection elements to the unique
//! `connections` anchor, then re-serialize the document.

pub mod id;
pub mod outlets;
pub mod xml;
