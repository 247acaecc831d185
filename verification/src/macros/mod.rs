//! The decisions that the player's procedural macros take on the items they are
//! applied to. Each macro's input is described by plain values (what the
//! macro reads of the syntax tree), and the planning functions say what code
//! is to be generated, or which compile error is to be raised.

pub mod attrs;
pub mod native_methods;
pub mod enum_trait_object;
pub mod atom;
pub mod prefix_field;
