//! Native side of a desktop markdown editor: which command-line path counts
//! as a markdown document, the take-once slot that hands that document to
//! the window, and the decision made on a click in the native menu.
pub mod markdown;
pub mod text;
pub mod initial;
pub mod menu;
