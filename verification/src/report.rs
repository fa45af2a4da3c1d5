//! The reporting side of the library: the closed set of failure kinds, the
//! policy that says which are fatal and which are reported, and the exact
//! text of every diagnostic and confirmation line.

use vstd::prelude::*;
use vstd::string::StringExecFns;

verus! {

/// The closed set of failure kinds a run can meet.
pub enum ErrorKind {
    /// The input path is missing or cannot be opened at all.
    InputUnreadable,
    /// The input opens, but its bytes are not a parseable zip container.
    InvalidContainer,
    /// The required macro entry is absent from a valid container.
    RequiredEntryMissing,
    /// The optional signature entry is absent from a valid container.
    OptionalEntryMissing,
    /// A destination file could not be created.
    OutputUnwritable,
    /// Copying an entry's bytes out failed midway.
    CopyFailure,
}

impl ErrorKind {
    /// A fatal failure stops the whole run; exactly the two container-level
    /// failures are fatal, every entry-level one is local to its own
    /// extraction attempt.
    pub fn is_fatal(&self) -> (r: bool)
        ensures
            r == (*self is InputUnreadable || *self is InvalidContainer),
    {
        match self {
            ErrorKind::InputUnreadable => true,
            ErrorKind::InvalidContainer => true,
            _ => false,
        }
    }

    /// Every failure kind produces one user-visible report line, except the
    /// missing optional entry, which is a silent skip.
    pub fn is_reported(&self) -> (r: bool)
        ensures
            r == !(*self is OptionalEntryMissing),
    {
        match self {
            ErrorKind::OptionalEntryMissing => false,
            _ => true,
        }
    }
}

/// The fatal report for an input file that cannot be opened: names the path
/// and the system's own error text.
pub fn input_unreadable_message(input_path: &str, error_text: &str) -> (r: String)
    ensures
        r@ == "Couldn't open file '"@ + input_path@ + "'. Error: "@ + error_text@,
{
    let mut message = String::new();
    message.append("Couldn't open file '");
    message.append(input_path);
    message.append("'. Error: ");
    message.append(error_text);
    proof {
        assert(message@ =~= "Couldn't open file '"@ + input_path@ + "'. Error: "@ + error_text@);
    }
    message
}

/// The fatal report for an input file whose bytes are not a parseable zip
/// container: names the path and the parser's own error text.
pub fn invalid_container_message(input_path: &str, error_text: &str) -> (r: String)
    ensures
        r@ == "File '"@ + input_path@ + "' isn't a valid xlsm/zip file. Error: "@ + error_text@,
{
    let mut message = String::new();
    message.append("File '");
    message.append(input_path);
    message.append("' isn't a valid xlsm/zip file. Error: ");
    message.append(error_text);
    proof {
        assert(message@ =~= "File '"@ + input_path@ + "' isn't a valid xlsm/zip file. Error: "@
            + error_text@);
    }
    message
}

/// The warning for a valid container that lacks its required entry: names
/// the input path and the missing entry.
pub fn missing_entry_message(input_path: &str, entry_name: &str) -> (r: String)
    ensures
        r@ == "File '"@ + input_path@ + "' doesn't contain a '"@ + entry_name@ + "' file."@,
{
    let mut message = String::new();
    message.append("File '");
    message.append(input_path);
    message.append("' doesn't contain a '");
    message.append(entry_name);
    message.append("' file.");
    proof {
        assert(message@ =~= "File '"@ + input_path@ + "' doesn't contain a '"@ + entry_name@
            + "' file."@);
    }
    message
}

/// The report for a destination file that cannot be created: names the
/// output path and the system's own error text.
pub fn output_unwritable_message(output_path: &str, error_text: &str) -> (r: String)
    ensures
        r@ == "Couldn't open '"@ + output_path@ + "'. Error: "@ + error_text@,
{
    let mut message = String::new();
    message.append("Couldn't open '");
    message.append(output_path);
    message.append("'. Error: ");
    message.append(error_text);
    proof {
        assert(message@ =~= "Couldn't open '"@ + output_path@ + "'. Error: "@ + error_text@);
    }
    message
}

/// The report for an extraction that failed midway through the byte copy:
/// names the entry, the input path and the underlying error text. Such a
/// failure is fatal to that one extraction only.
pub fn copy_failure_message(input_path: &str, entry_name: &str, error_text: &str) -> (r: String)
    ensures
        r@ == "Couldn't copy the '"@ + entry_name@ + "' entry out of '"@ + input_path@
            + "'. Error: "@ + error_text@,
{
    let mut message = String::new();
    message.append("Couldn't copy the '");
    message.append(entry_name);
    message.append("' entry out of '");
    message.append(input_path);
    message.append("'. Error: ");
    message.append(error_text);
    proof {
        assert(message@ =~= "Couldn't copy the '"@ + entry_name@ + "' entry out of '"@
            + input_path@ + "'. Error: "@ + error_text@);
    }
    message
}

/// The confirmation line for one successful extraction: names the output
/// path actually written.
pub fn extracted_message(output_path: &str) -> (r: String)
    ensures
        r@ == "Extracted "@ + output_path@ + "."@,
{
    let mut message = String::new();
    message.append("Extracted ");
    message.append(output_path);
    message.append(".");
    proof {
        assert(message@ =~= "Extracted "@ + output_path@ + "."@);
    }
    message
}

} // verus!
