//! The layout and input logic of the completion popup of a terminal text
//! editor: where a popup is placed relative to the cursor, how it scrolls and
//! reacts to keys, how a completion item becomes an edit of the document, and
//! where the documentation of the selected item is shown.

pub mod geometry;
pub mod input;
pub mod popup;
pub mod item;
pub mod text;
pub mod edit;
pub mod completion;
pub mod docs;
