//! Editing state, navigation and script generation for a terminal front end
//! that groups the volumes and surfaces of a geometry file and hands a
//! generated script to a meshing program.

pub mod gmsh_ctl;
pub mod laws;
pub mod rows;
pub mod script;
pub mod session;
pub mod supervisor;
pub mod text;
pub mod tui;
