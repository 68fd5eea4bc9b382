//! Client-side routing for the site: a pure mapping between decomposed
//! browser locations, application messages and history mutations, together
//! with the page-selector model that those messages drive.
//!
//! The embedding layer (the browser glue) feeds `router::resolve` the location
//! on load and on every back/forward event, performs the single history push
//! that `router::navigate` or `model::update` hand back for user-initiated
//! navigation, and otherwise only renders what the model selects.

pub mod book;
pub mod laws;
pub mod model;
pub mod numeral;
pub mod router;
