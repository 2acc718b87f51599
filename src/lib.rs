//! Change detection and notification composition for tracked pouet.net prods.
pub mod decimal;
pub mod model;
pub mod feed;
pub mod detect;
pub mod compose;
