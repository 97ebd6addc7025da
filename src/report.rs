//! What one inspection of a file produces: the file header, and each table
//! that was asked for.
use vstd::prelude::*;
use crate::elf_header::{self, decode_header, Header};
use crate::error::DecodeError;
use crate::program_header::PHeader;
use crate::section_header::SHeader;
use crate::tables::{parse_program_headers, parse_section_headers, phdr_table_result, shdr_table_result};

verus! {

/// Which file to inspect and which tables to decode besides the file header.
#[derive(Debug, PartialEq, Eq)]
pub struct CliArgs {
    pub file_path: String,
    pub program_header: bool,
    pub section_header: bool,
}

/// Gathers the values of the command line into one request.
pub fn parse_args(file_path: String, program_header: bool, section_header: bool) -> (r: CliArgs)
    ensures
        r.file_path@ == file_path@,
        r.program_header == program_header,
        r.section_header == section_header,
{
    CliArgs { file_path, program_header, section_header }
}

/// The decoded file header, with each table that was asked for. A table that
/// fails to decode holds its error and leaves the header and the other table
/// standing.
#[derive(Debug, PartialEq, Eq)]
pub struct ElfReport {
    pub header: Header,
    pub program_headers: Option<Result<Vec<PHeader>, DecodeError>>,
    pub section_headers: Option<Result<Vec<SHeader>, DecodeError>>,
}

/// Decodes the file header of `content`, then the tables that `cli_args`
/// asks for. An error in the file header is the result; an error in a table
/// stays inside that table's entry of the report.
pub fn run(content: &Vec<u8>, cli_args: &CliArgs) -> (r: Result<ElfReport, DecodeError>)
    ensures
        r is Ok <==> decode_header(content@) is Ok,
        r matches Err(e) ==> decode_header(content@) == Err::<Header, DecodeError>(e),
        r matches Ok(rep) ==> {
            &&& decode_header(content@) == Ok::<Header, DecodeError>(rep.header)
            &&& rep.program_headers is Some <==> cli_args.program_header
            &&& rep.program_headers matches Some(t) ==> phdr_table_result(content@, rep.header, t)
            &&& rep.section_headers is Some <==> cli_args.section_header
            &&& rep.section_headers matches Some(t) ==> shdr_table_result(content@, rep.header, t)
        },
{
    let header = match elf_header::parse(content) {
        Ok(h) => h,
        Err(e) => return Err(e),
    };
    let program_headers = if cli_args.program_header {
        Some(parse_program_headers(content, &header))
    } else {
        None
    };
    let section_headers = if cli_args.section_header {
        Some(parse_section_headers(content, &header))
    } else {
        None
    };
    Ok(ElfReport { header, program_headers, section_headers })
}

} // verus!
