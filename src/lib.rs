//! Selection of the newest release of each Minecraft feature line from a
//! newest-first version manifest.

pub mod version;
pub mod manifest;
pub mod select;
pub mod mods_dir;
