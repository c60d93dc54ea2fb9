//! Ingestion of delimited text into a table.
//!
//! The bytes are handed to the engine's parser together with the options
//! below. The text encoding is named by a string drawn from a fixed table:
//! `utf8` and `utf8-lossy` are the two accepted names, and anything else
//! is rejected here, before any parsing work is attempted.

use vstd::prelude::*;

use crate::engine;
use crate::engine::Table;
use crate::error::PlError;

verus! {

/// The accepted text encodings of the delimited input.
#[derive(Clone, Copy)]
pub enum CsvEncoding {
    /// The input must be valid UTF-8.
    Utf8,
    /// Invalid UTF-8 sequences are replaced instead of rejected.
    Utf8Lossy,
}

/// The encoding named by the given characters, if it is an accepted name.
pub open spec fn spec_csv_encoding(s: Seq<char>) -> Option<CsvEncoding> {
    if s == "utf8"@ {
        Some(CsvEncoding::Utf8)
    } else if s == "utf8-lossy"@ {
        Some(CsvEncoding::Utf8Lossy)
    } else {
        None
    }
}

impl CsvEncoding {
    /// The encoding named by the given string; any other name is rejected
    /// at once with a construction error.
    pub fn parse(encoding: &str) -> (r: Result<CsvEncoding, PlError>)
        ensures
            match spec_csv_encoding(encoding@) {
                Some(k) => r == Ok::<CsvEncoding, PlError>(k),
                None => r matches Err(e) && e is Construction,
            },
    {
        proof {
            reveal_strlit("utf8");
            reveal_strlit("utf8-lossy");
            assert("utf8"@ !~= "utf8-lossy"@);
        }
        if crate::str_eq(encoding, "utf8") {
            Ok(CsvEncoding::Utf8)
        } else if crate::str_eq(encoding, "utf8-lossy") {
            Ok(CsvEncoding::Utf8Lossy)
        } else {
            let mut message = "encoding ".to_owned();
            message.append(encoding);
            message.append(" is not implemented");
            Err(PlError::Construction { message })
        }
    }
}

/// The parsing options handed to the engine's delimited-text parser,
/// besides the encoding.
pub struct CsvOptions {
    /// How many rows to inspect to infer the schema; the parser's own
    /// default depth when absent.
    pub infer_schema_length: Option<u32>,
    /// The number of rows read per chunk.
    pub chunk_size: u32,
    /// Whether the first row names the columns.
    pub has_header: bool,
    /// Whether rows that fail to parse are skipped instead of fatal.
    pub ignore_errors: bool,
    /// Stop after this many rows, when given.
    pub n_rows: Option<u32>,
    /// Skip this many rows before reading the header.
    pub skip_rows: u32,
    /// Whether the parsed columns are compacted into one chunk.
    pub rechunk: bool,
    /// The number of parser threads, when given.
    pub n_threads: Option<u32>,
    /// Whether to trade speed for a smaller working set.
    pub low_memory: bool,
    /// Whether date-like text columns are parsed into dates.
    pub parse_dates: bool,
    /// Skip this many rows after the header.
    pub skip_rows_after_header: u32,
}

/// The engine parser's verdict on the given bytes read as strict UTF-8
/// under the given options; the verdict depends on the bytes and options
/// alone.
pub uninterp spec fn csv_utf8_ok(bytes: Seq<u8>, options: CsvOptions) -> bool;

/// The engine parser's verdict on the given bytes with invalid UTF-8
/// sequences replaced, under the given options; the verdict depends on
/// the bytes and options alone.
pub uninterp spec fn csv_lossy_ok(bytes: Seq<u8>, options: CsvOptions) -> bool;

/// Parse comma-separated text into a table. An unknown encoding name is
/// rejected before any parsing work; under an accepted encoding the call
/// succeeds exactly when the engine's parser accepts the bytes, and a
/// rejected input is the engine's error, reported unchanged.
pub fn read_csv(buff: &[u8], options: &CsvOptions, encoding: &str) -> (r: Result<Table, PlError>)
    ensures
        spec_csv_encoding(encoding@) is None <==> (r matches Err(e) && e is Construction),
        spec_csv_encoding(encoding@) == Some(CsvEncoding::Utf8) ==> (r is Ok <==> csv_utf8_ok(
            buff@,
            *options,
        )),
        spec_csv_encoding(encoding@) == Some(CsvEncoding::Utf8Lossy) ==> (r is Ok
            <==> csv_lossy_ok(buff@, *options)),
        r matches Err(e) ==> (e is Construction || e is Engine),
{
    let enc = match CsvEncoding::parse(encoding) {
        Ok(enc) => enc,
        Err(e) => {
            return Err(e);
        },
    };
    let parsed = match enc {
        CsvEncoding::Utf8 => engine::eng_read_csv_utf8(buff, options),
        CsvEncoding::Utf8Lossy => engine::eng_read_csv_lossy(buff, options),
    };
    match parsed {
        Ok(t) => Ok(t),
        Err(e) => Err(engine::engine_error(&e)),
    }
}

} // verus!
