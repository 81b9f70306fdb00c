//! Core logic of a tray-resident to-do application shell: the
//! hide-on-close / quit state machine and the versioned schema
//! migration contract for the local embedded database.

pub mod controller;
pub mod db;
pub mod lifecycle;
pub mod migrate;
pub mod text;
