//! A small service core that turns the outcome of reading a PDF file and
//! extracting its text into an HTTP reply: the document's extracted text as
//! a JSON body on success, or a diagnostic message on failure.

pub mod json;
pub mod service;

use vstd::prelude::*;

verus! {

/// The lowercase hexadecimal digit for a value below 16.
pub open spec fn spec_hex_digit(n: u8) -> u8 {
    if n < 10 {
        (48 + n) as u8
    } else {
        (87 + n) as u8
    }
}

} // verus!
