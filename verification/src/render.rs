//! Rendering vocabulary shared by the building modules.

pub mod atlas;
