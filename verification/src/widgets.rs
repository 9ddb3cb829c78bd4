//! Widget logic of the notebook application: the code editor and the menu
//! bar.

pub mod cell;
pub mod editor;
pub mod menu;
