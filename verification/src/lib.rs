//! Safe, verified model of a vector layer's schema: the attribute fields and
//! geometry fields a layer's features carry, with iteration and
//! case-insensitive name lookup over them.

pub mod ascii;
pub mod errors;
pub mod vector;
