pub mod analysis;
pub mod constants;
pub mod container;
pub mod dylibs;
pub mod error;
pub mod fat;
pub mod header;
pub mod load_commands;
pub mod memory_image;
pub mod resolve;
pub mod rpaths;
pub mod sections;
pub mod segments;
pub mod symtab;
pub mod text;
pub mod utils;
