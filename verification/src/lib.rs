//! Two small error-handling components: integer division returning an
//! optional quotient (with an unwrapping sibling), and extraction of one
//! integer field from a JSON document.

pub mod division;
pub mod json;
