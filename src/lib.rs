//! Decision logic for two GUI widgets: a split pane with a draggable divider,
//! and a context menu that opens at the place of a right click.
//!
//! Everything here works on plain values: sizes and coordinates as whole
//! pixels, pointer events as small enums, hit tests as booleans. A host
//! toolkit measures, draws and dispatches; this crate decides.
pub mod context_menu;
pub mod split;
