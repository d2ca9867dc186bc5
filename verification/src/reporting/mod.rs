pub mod dylibs;
pub mod header;
pub mod load_commands;
pub mod macho;
pub mod rpaths;
pub mod sections;
pub mod segments;
pub mod symtab;
