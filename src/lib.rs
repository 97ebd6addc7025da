//! Decoding of ELF object files: the file header, the program header table
//! and the section header table, with section names resolved through the
//! section-name string table.
//!
//! Every decoder is a function of the byte buffer and of values decoded
//! before it; none reads outside the buffer, and each states in its contract
//! exactly what it returns.

pub mod elf_header;
pub mod error;
pub mod field_reader;
pub mod header_enums;
pub mod laws;
pub mod phdr_enums;
pub mod program_header;
pub mod report;
pub mod section_header;
pub mod shdr_enums;
pub mod string_table;
pub mod tables;

pub use elf_header::Header;
pub use error::DecodeError;
pub use header_enums::{Abi, BinType, Class, Endian, Machine};
pub use phdr_enums::{PFlags, PType};
pub use program_header::PHeader;
pub use report::{parse_args, run, CliArgs, ElfReport};
pub use section_header::SHeader;
pub use shdr_enums::{SFlags, SType};
