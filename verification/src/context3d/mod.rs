//! `flash.display3D.Context3D`: the checks that its native methods make on
//! their arguments and the rendering commands they send to the backend.

pub mod enums;
pub mod command;
pub mod checks;
pub mod methods;
pub mod object;
