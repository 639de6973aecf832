//! Request handling, by area of the site.
pub mod html;
