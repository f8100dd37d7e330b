//! The `bulk register` and `bulk renew` commands: which files they read and
//! what they print for each record.
use vstd::prelude::*;
use crate::errors::{sdk_message, SdkError};
use crate::fmt::{dec, push_decimal};
use crate::text::{str_eq, string_of};

verus! {

/// The file formats a bulk file can have, chosen by its extension.
#[derive(Copy, Clone, Debug, PartialEq, Eq, Structural)]
pub enum BulkFormat {
    Csv,
    Json,
}

/// A name to register: its label, for how many years, and to whom.
#[derive(Clone, Debug)]
pub struct BulkRegisterRecord {
    pub name: String,
    pub duration: u64,
    pub owner: String,
}

/// A name to renew, and for how many years.
#[derive(Clone, Debug)]
pub struct BulkRenewRecord {
    pub name: String,
    pub duration: u64,
}

/// The format a file extension selects: `csv` or `json`, nothing else.
pub fn bulk_format(extension: &str) -> (r: Result<BulkFormat, String>)
    ensures
        extension@ == "csv"@ <==> r == Ok::<BulkFormat, String>(BulkFormat::Csv),
        extension@ == "json"@ <==> r == Ok::<BulkFormat, String>(BulkFormat::Json),
        r matches Err(m) ==> m@ == "Unsupported file format. Please use a .csv or .json file."@,
{
    proof {
        reveal_strlit("csv");
        reveal_strlit("json");
        assert("csv"@.len() != "json"@.len());
    }
    if str_eq(extension, "csv") {
        Ok(BulkFormat::Csv)
    } else if str_eq(extension, "json") {
        Ok(BulkFormat::Json)
    } else {
        Err(string_of("Unsupported file format. Please use a .csv or .json file."))
    }
}

/// The first line of a dry run.
pub fn dry_run_heading(renew: bool) -> (r: &'static str)
    ensures
        renew ==> r@ == "Dry run: The following names would be renewed:"@,
        !renew ==> r@ == "Dry run: The following names would be registered:"@,
{
    if renew {
        "Dry run: The following names would be renewed:"
    } else {
        "Dry run: The following names would be registered:"
    }
}

/// The dry-run line of a name to register.
pub fn register_dry_run_line(record: &BulkRegisterRecord) -> (r: String)
    ensures
        r@ == "  - Name: "@ + record.name@ + ", Duration: "@ + dec(record.duration as nat) + ", Owner: "@ + record.owner@,
{
    let mut r = string_of("  - Name: ");
    r.append(record.name.as_str());
    r.append(", Duration: ");
    push_decimal(&mut r, record.duration);
    r.append(", Owner: ");
    r.append(record.owner.as_str());
    r
}

/// The dry-run line of a name to renew.
pub fn renew_dry_run_line(record: &BulkRenewRecord) -> (r: String)
    ensures
        r@ == "  - Name: "@ + record.name@ + ", Duration: "@ + dec(record.duration as nat),
{
    let mut r = string_of("  - Name: ");
    r.append(record.name.as_str());
    r.append(", Duration: ");
    push_decimal(&mut r, record.duration);
    r
}

/// The line printed before a name is submitted.
pub fn progress_line(name: &str, renew: bool) -> (r: String)
    ensures
        renew ==> r@ == "Renewing "@ + name@ + "..."@,
        !renew ==> r@ == "Registering "@ + name@ + "..."@,
{
    let mut r = if renew { string_of("Renewing ") } else { string_of("Registering ") };
    r.append(name);
    r.append("...");
    r
}

/// The line printed when a name's submission failed.
pub fn failure_line(name: &str, renew: bool, err: &SdkError) -> (r: String)
    ensures
        renew ==> r@ == "  - ERROR: Failed to renew "@ + name@ + ": "@ + sdk_message(*err),
        !renew ==> r@ == "  - ERROR: Failed to register "@ + name@ + ": "@ + sdk_message(*err),
{
    let mut r = if renew { string_of("  - ERROR: Failed to renew ") } else { string_of("  - ERROR: Failed to register ") };
    r.append(name);
    r.append(": ");
    let t = err.to_display_string();
    r.append(t.as_str());
    r
}

} // verus!
