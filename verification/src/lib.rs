//! Decision logic of a folder backup and snapshot utility: the application
//! state that the commands edit, the rotating backup schedule, profiles and
//! the start-up configuration, with the text handling they rely on.

pub mod text;
pub mod error;
pub mod backup;
pub mod state;
pub mod laws;
