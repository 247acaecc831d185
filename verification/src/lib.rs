//! The AVM2 native-method glue of a Flash Player, the argument checks of its
//! Stage3D API (`flash.display3D.Context3D`), the decisions taken by its
//! procedural macros, and the routing of files that the desktop player is
//! asked to open.

pub mod context3d;
pub mod desktop;
pub mod error;
pub mod macros;
pub mod parameters;
pub mod text;
pub mod value;
