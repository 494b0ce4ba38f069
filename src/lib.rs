//! The navigation panel of a documentation site: links to the previous and
//! next guides, the light/dark mode toggle and the edit-this-page links,
//! described as plain values that a front end turns into markup.

pub mod guide;
pub mod panel;
