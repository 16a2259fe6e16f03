//! Declarative widget bindings for a settings menu: clickable actions,
//! checkboxes and volume controls bound to fields of one settings object,
//! the layout tree they expand into, and the per-frame update pass.
pub mod frame;
pub mod laws;
pub mod tree;
pub mod widget;
