//! Rendering of a looked-up value for people to read.
use vstd::prelude::*;

verus! {

/// Bytes per row of the dump.
pub const DUMP_WIDTH: usize = 20;

/// Bytes per group within a row of the dump.
pub const DUMP_GROUP: usize = 2;

/// The hex dump of `bytes` with `width` bytes per row in groups of `group`.
pub uninterp spec fn hex_dump_of(bytes: Seq<u8>, width: usize, group: usize) -> Seq<char>;

/// Relies on pretty_hex::config_hex with the default configuration but for row width and
/// group size: a length header, then rows of addressed hex bytes with an ASCII column. The
/// text depends on the bytes and the layout alone.
#[verifier::external_body]
fn config_hex_dump(bytes: &[u8], width: usize, group: usize) -> (r: String)
    ensures
        r@ == hex_dump_of(bytes@, width, group),
{
    let cfg = pretty_hex::HexConfig { width, group, ..pretty_hex::HexConfig::default() };
    pretty_hex::config_hex(&bytes, cfg)
}

/// Hex printing extension trait
pub trait PrintHexExt {
    /// The text of the report.
    spec fn spec_hex_report(&self) -> Seq<char>;

    /// The report on a looked-up value: its hex dump, or a line saying that there is none.
    fn hex_report(&self) -> (r: String)
        ensures
            r@ == self.spec_hex_report(),
    ;
}

impl PrintHexExt for Option<Vec<u8>> {
    open spec fn spec_hex_report(&self) -> Seq<char> {
        match self {
            Some(value) => hex_dump_of(value@, DUMP_WIDTH, DUMP_GROUP),
            None => "No value found"@,
        }
    }

    fn hex_report(&self) -> (r: String) {
        match self {
            Some(value) => config_hex_dump(value.as_slice(), DUMP_WIDTH, DUMP_GROUP),
            None => "No value found".to_owned(),
        }
    }
}

} // verus!
