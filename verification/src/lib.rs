//! Extraction of the embedded macro binary, and its optional digital
//! signature, from a macro-enabled spreadsheet: such a file is a zip-format
//! container, and the two binaries are entries of it under fixed names.

use vstd::prelude::*;

pub mod container;
pub mod report;

verus! {

/// Full name of the container entry that holds the embedded macro binary.
pub fn macro_entry_name() -> (r: &'static str)
    ensures
        r@ == "xl/vbaProject.bin"@,
{
    "xl/vbaProject.bin"
}

/// Full name of the container entry that holds the macro's digital
/// signature, present only when the macro is signed.
pub fn signature_entry_name() -> (r: &'static str)
    ensures
        r@ == "xl/vbaProjectSignature.bin"@,
{
    "xl/vbaProjectSignature.bin"
}

} // verus!
