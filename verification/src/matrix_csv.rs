//! Delimited-text ingestion.
//!
//! The `csv` crate splits a byte stream into a header and records of
//! string fields; that split is the one trusted step.  Everything
//! after it is verified: the header fixes the expected record width,
//! every record is held to that width, and a ragged record aborts the
//! whole load — no partial table is ever returned.  Turning fields
//! into scalar words is the numeric caller's step; the verified
//! builders in `models` take the parsed records from there.

use vstd::prelude::*;

verus! {

use crate::errors::Error;

/// The header record that csv's reader yields for a byte stream: the
/// first record when `with_headers` is false, the designated header
/// row otherwise.
pub uninterp spec fn csv_header_of(bytes: Seq<u8>, with_headers: bool) -> Seq<Seq<char>>;

/// The data records that csv's reader yields for a byte stream; when
/// `with_headers` is false this includes the first record.
pub uninterp spec fn csv_records_of(bytes: Seq<u8>, with_headers: bool) -> Seq<Seq<Seq<char>>>;

/// Whether csv's reader accepts the byte stream whole (every record
/// decodes as UTF-8 and no record's field count differs from the
/// first record's).  Like the split itself, this depends on the bytes
/// and the header flag alone.
pub uninterp spec fn csv_accepts(bytes: Seq<u8>, with_headers: bool) -> bool;

/// Relies on csv::ReaderBuilder and csv::Reader (`headers`,
/// `records`): splits a delimited byte stream into a header record
/// and data records of string fields.  The result is a function of
/// the bytes and the header flag alone.  When `with_headers` is false
/// the reader hands the first record back as the header without
/// consuming it.  The reader reports an error on invalid UTF-8 and on
/// a record whose field count differs from the first record's.
#[verifier::external_body]
fn csv_split(bytes: &[u8], with_headers: bool) -> (r: Result<
    (Vec<String>, Vec<Vec<String>>),
    String,
>)
    ensures
        r is Ok <==> csv_accepts(bytes@, with_headers),
        r matches Ok(t) ==> t.0.deep_view() == csv_header_of(bytes@, with_headers)
            && t.1.deep_view() == csv_records_of(bytes@, with_headers),
{
    let mut rdr = csv::ReaderBuilder::new().has_headers(with_headers).from_reader(bytes);
    let header: Vec<String> = match rdr.headers() {
        Ok(h) => h.iter().map(|f| f.to_string()).collect(),
        Err(e) => return Err(e.to_string()),
    };
    let mut records: Vec<Vec<String>> = Vec::new();
    for rec in rdr.records() {
        match rec {
            Ok(fields) => records.push(fields.iter().map(|f| f.to_string()).collect()),
            Err(e) => return Err(e.to_string()),
        }
    }
    Ok((header, records))
}

/// Holds every record to the expected field count.  Succeeds exactly
/// when all records are `width` fields wide; the first offending
/// record's width is reported otherwise.
pub fn check_widths(records: &Vec<Vec<String>>, width: usize) -> (r: Result<(), Error>)
    ensures
        r is Ok <==> (forall|i: int|
            0 <= i < records@.len() ==> (#[trigger] records@[i])@.len() == width),
        r matches Err(e) ==> (e matches Error::Shape { expected, got } && expected == width && got
            != width && exists|i: int|
            0 <= i < records@.len() && (#[trigger] records@[i])@.len() == got),
{
    let n = records.len();
    let mut i: usize = 0;
    while i < n
        invariant
            i <= n,
            n == records@.len(),
            forall|k: int| 0 <= k < i ==> (#[trigger] records@[k])@.len() == width,
        decreases n - i,
    {
        let w = records[i].len();
        if w != width {
            return Err(Error::Shape { expected: width, got: w });
        }
        i += 1;
    }
    Ok(())
}

/// A loaded table: the header's field count and the raw records, each
/// exactly that many fields wide.
pub struct CsvTable {
    /// Field count of the header record.
    pub width: usize,
    /// The data records, each `width` fields wide.
    pub records: Vec<Vec<String>>,
}

/// Loads delimited text into a table of string fields.  The header
/// (or, without headers, the first record) fixes the width; every
/// record must match it, and a decoding failure or ragged record
/// fails the whole load with no partial result.  Success is owed:
/// whenever csv accepts the bytes and every record matches the
/// header's width, the table comes back.
pub fn from_csv(bytes: &[u8], with_headers: bool) -> (r: Result<CsvTable, Error>)
    ensures
        (csv_accepts(bytes@, with_headers) && (forall|i: int|
            0 <= i < csv_records_of(bytes@, with_headers).len()
                ==> (#[trigger] csv_records_of(bytes@, with_headers)[i]).len() == csv_header_of(
                bytes@,
                with_headers,
            ).len())) ==> r is Ok,
        match r {
            Ok(t) => {
                &&& csv_accepts(bytes@, with_headers)
                &&& t.width == csv_header_of(bytes@, with_headers).len()
                &&& t.records.deep_view() == csv_records_of(bytes@, with_headers)
                &&& t.records@.len() == csv_records_of(bytes@, with_headers).len()
                &&& forall|i: int|
                    0 <= i < t.records@.len() ==> (#[trigger] t.records@[i])@.len() == t.width
            },
            Err(e) => {
                match e {
                    Error::Parse { .. } => !csv_accepts(bytes@, with_headers),
                    Error::Shape { .. } => {
                        &&& csv_accepts(bytes@, with_headers)
                        &&& exists|i: int|
                            0 <= i < csv_records_of(bytes@, with_headers).len()
                                && (#[trigger] csv_records_of(bytes@, with_headers)[i]).len()
                                != csv_header_of(bytes@, with_headers).len()
                    },
                    _ => false,
                }
            },
        },
{
    let (header, records) = match csv_split(bytes, with_headers) {
        Ok(t) => t,
        Err(value) => {
            return Err(Error::Parse { value });
        },
    };
    let width = header.len();
    proof {
        assert(header.deep_view().len() == header@.len());
    }
    match check_widths(&records, width) {
        Ok(()) => {
            proof {
                assert(records.deep_view().len() == records@.len());
            }
            Ok(CsvTable { width, records })
        },
        Err(e) => {
            proof {
                let i = choose|i: int|
                    0 <= i < records@.len() && (#[trigger] records@[i])@.len() != width;
                assert(records.deep_view()[i].len() == records@[i]@.len());
            }
            Err(e)
        },
    }
}

} // verus!
