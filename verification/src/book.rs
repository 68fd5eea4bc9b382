//! Static page content of the guide sections.

pub mod events;
