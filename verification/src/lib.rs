//! Interactive completion of a package manifest's optional metadata.

pub mod capture;
pub mod derive;
pub mod drain;
pub mod field;
pub mod lookup;
pub mod manifest;
pub mod menu;
pub mod process;
pub mod resolution;
pub mod sink;
pub mod tee;
pub mod text;
pub mod toolchain;
pub mod wizard;
