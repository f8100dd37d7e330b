//! The `validate` command's checks: contract id formats, RPC connectivity and
//! network passphrase, and the signing key.
use vstd::prelude::*;
use crate::signer::SigningKeyError;
use crate::fmt::{dec, push_decimal};
use crate::text::{str_chars, str_eq, string_of};

verus! {

/// The outcome of one check.
#[derive(Debug, Clone, Copy, PartialEq, Eq, Structural)]
pub enum ValidationStatus {
    Pass,
    Fail,
}

impl ValidationStatus {
    /// `PASS` or `FAIL` (its `Display` form).
    pub fn to_display_string(&self) -> (r: String)
        ensures
            r@ == match *self {
                ValidationStatus::Pass => "PASS"@,
                ValidationStatus::Fail => "FAIL"@,
            },
    {
        match self {
            ValidationStatus::Pass => String::from_str("PASS"),
            ValidationStatus::Fail => String::from_str("FAIL"),
        }
    }
}

/// One named check with its outcome and message.
#[derive(Debug, Clone, PartialEq, Eq)]
pub struct ValidationResult {
    pub name: String,
    pub status: ValidationStatus,
    pub message: String,
}

/// All the checks of the `validate` command.
#[derive(Debug, Clone, PartialEq, Eq)]
pub struct Validation {
    pub contract_id_format: Vec<ValidationResult>,
    pub rpc_connectivity: ValidationResult,
    pub network_passphrase: ValidationResult,
    pub signing_key: ValidationResult,
}

/// The pattern of a contract id: `C` and 55 upper-case letters or digits.
pub const CONTRACT_ID_PATTERN: &'static str = "^C[A-Z0-9]{55}$";

/// Whether the regular expression `pattern` matches somewhere in `text`, as
/// the regex crate decides it; false when the pattern does not compile.
pub uninterp spec fn regex_match(pattern: Seq<char>, text: Seq<char>) -> bool;

/// Calls the regex crate: `Regex::new(pattern)`, then `is_match(text)`. The
/// contract only names the result (`regex_match`), a function of both arguments.
#[verifier::external_body]
fn regex_is_match(pattern: &str, text: &str) -> (r: bool)
    ensures
        r == regex_match(pattern@, text@),
{
    match regex::Regex::new(pattern) {
        Ok(re) => re.is_match(text),
        Err(_) => false,
    }
}

/// The result of the format check of a contract id.
pub open spec fn id_check(name: Seq<char>, id: Option<Seq<char>>, well_formed: bool) -> (ValidationStatus, Seq<char>) {
    match id {
        Some(_) => if well_formed {
            (ValidationStatus::Pass, Seq::empty())
        } else {
            (ValidationStatus::Fail, "invalid format for "@ + name)
        },
        None => (ValidationStatus::Fail, name + " not configured"@),
    }
}

/// Checks one contract id, given whether it has the contract id format.
pub fn contract_id_result(name: &str, id: Option<&str>, well_formed: bool) -> (r: ValidationResult)
    ensures
        r.name@ == name@,
        (r.status, r.message@) == id_check(name@, match id { Some(s) => Some(s@), None => None }, well_formed),
{
    let (status, message) = match id {
        Some(_) => {
            if well_formed {
                (ValidationStatus::Pass, String::new())
            } else {
                let mut m = String::from_str("invalid format for ");
                m.append(name);
                (ValidationStatus::Fail, m)
            }
        },
        None => {
            let mut m = string_of(name);
            m.append(" not configured");
            (ValidationStatus::Fail, m)
        },
    };
    ValidationResult { name: string_of(name), status, message }
}

/// Checks the format of every configured contract id, in order.
pub fn validate_contract_id_formats(ids: &Vec<(String, Option<String>)>) -> (r: Vec<ValidationResult>)
    ensures
        r@.len() == ids@.len(),
        forall|i: int| 0 <= i < ids@.len() ==> {
            &&& (#[trigger] r@[i]).name@ == ids@[i].0@
            &&& (r@[i].status, r@[i].message@) == id_check(ids@[i].0@,
                match ids@[i].1 { Some(s) => Some(s@), None => None },
                match ids@[i].1 { Some(s) => regex_match(CONTRACT_ID_PATTERN@, s@), None => false })
        },
{
    let mut results: Vec<ValidationResult> = Vec::new();
    let mut i: usize = 0;
    while i < ids.len()
        invariant
            i <= ids@.len(),
            results@.len() == i,
            forall|j: int| 0 <= j < i ==> {
                &&& (#[trigger] results@[j]).name@ == ids@[j].0@
                &&& (results@[j].status, results@[j].message@) == id_check(ids@[j].0@,
                    match ids@[j].1 { Some(s) => Some(s@), None => None },
                    match ids@[j].1 { Some(s) => regex_match(CONTRACT_ID_PATTERN@, s@), None => false })
            },
        decreases ids@.len() - i,
    {
        let (name, id) = &ids[i];
        let r = match id {
            Some(s) => {
                let ok = regex_is_match(CONTRACT_ID_PATTERN, s.as_str());
                contract_id_result(name.as_str(), Some(s.as_str()), ok)
            },
            None => contract_id_result(name.as_str(), None, false),
        };
        results.push(r);
        i += 1;
    }
    results
}

/// The connectivity and passphrase checks, given whether the RPC endpoint
/// answered (or the error text) and the configured passphrase.
pub fn connectivity_results(rpc: Result<(), String>, network_passphrase: &str) -> (r: (ValidationResult, ValidationResult))
    ensures
        r.0.name@ == "RPC Connectivity"@,
        r.1.name@ == "Network Passphrase"@,
        match rpc {
            Ok(()) => r.0.status == ValidationStatus::Pass && r.0.message@.len() == 0 && (
                if network_passphrase@ == "Test SDF Network ; September 2015"@ {
                    r.1.status == ValidationStatus::Pass && r.1.message@.len() == 0
                } else {
                    r.1.status == ValidationStatus::Fail && r.1.message@ == "incorrect network passphrase"@
                }),
            Err(e) => r.0.status == ValidationStatus::Fail && r.0.message@ == e@
                && r.1.status == ValidationStatus::Fail
                && r.1.message@ == "cannot check network passphrase due to RPC connectivity failure"@,
        },
{
    let connectivity = match rpc {
        Ok(()) => ValidationResult {
            name: String::from_str("RPC Connectivity"),
            status: ValidationStatus::Pass,
            message: String::new(),
        },
        Err(e) => ValidationResult { name: String::from_str("RPC Connectivity"), status: ValidationStatus::Fail, message: e },
    };
    let passphrase = if connectivity.status == ValidationStatus::Pass {
        if str_eq(network_passphrase, "Test SDF Network ; September 2015") {
            ValidationResult {
                name: String::from_str("Network Passphrase"),
                status: ValidationStatus::Pass,
                message: String::new(),
            }
        } else {
            ValidationResult {
                name: String::from_str("Network Passphrase"),
                status: ValidationStatus::Fail,
                message: String::from_str("incorrect network passphrase"),
            }
        }
    } else {
        ValidationResult {
            name: String::from_str("Network Passphrase"),
            status: ValidationStatus::Fail,
            message: String::from_str("cannot check network passphrase due to RPC connectivity failure"),
        }
    };
    (connectivity, passphrase)
}

/// The signing-key check, given what loading the user's secret gave: nothing
/// when the variable is unset, else the key's public address or the error.
pub fn signing_key_result(loaded: Option<Result<String, SigningKeyError>>) -> (r: ValidationResult)
    ensures
        r.name@ == "Signing Key"@,
        match loaded {
            None => r.status == ValidationStatus::Fail && r.message@ == "XLM_NS_SIGNER_USER_SECRET not set"@,
            Some(Err(_)) => r.status == ValidationStatus::Fail && r.message@ == "invalid secret key"@,
            Some(Ok(a)) => if a@.len() > 0 && a@[0] == 'G' {
                r.status == ValidationStatus::Pass && r.message@.len() == 0
            } else {
                r.status == ValidationStatus::Fail && r.message@ == "invalid public key"@
            },
        },
{
    let (status, message) = match loaded {
        None => (ValidationStatus::Fail, String::from_str("XLM_NS_SIGNER_USER_SECRET not set")),
        Some(Err(_)) => (ValidationStatus::Fail, String::from_str("invalid secret key")),
        Some(Ok(address)) => {
            let v = str_chars(address.as_str());
            if v.len() > 0 && v[0] == 'G' {
                (ValidationStatus::Pass, String::new())
            } else {
                (ValidationStatus::Fail, String::from_str("invalid public key"))
            }
        },
    };
    ValidationResult { name: String::from_str("Signing Key"), status, message }
}

/// All results of a validation, in report order: the contract ids, then
/// connectivity, passphrase and signing key.
pub open spec fn all_results_of(v: Validation) -> Seq<ValidationResult> {
    v.contract_id_format@ + seq![v.rpc_connectivity, v.network_passphrase, v.signing_key]
}

/// The number of failed checks among `rs`.
pub open spec fn failures_in(rs: Seq<ValidationResult>) -> nat
    decreases rs.len(),
{
    if rs.len() == 0 {
        0
    } else {
        failures_in(rs.drop_last()) + if rs.last().status == ValidationStatus::Fail { 1nat } else { 0nat }
    }
}

/// The report line of one check: `[PASS] name` or `[FAIL] name`.
pub open spec fn result_line(r: ValidationResult) -> Seq<char> {
    "["@ + (if r.status == ValidationStatus::Pass { "PASS"@ } else { "FAIL"@ }) + "] "@ + r.name@
}

fn copy_result(r: &ValidationResult) -> (c: ValidationResult)
    ensures
        c.name@ == r.name@,
        c.status == r.status,
        c.message@ == r.message@,
{
    ValidationResult { name: r.name.clone(), status: r.status, message: r.message.clone() }
}

impl Validation {
    /// All results, in report order.
    pub fn all_results(&self) -> (r: Vec<ValidationResult>)
        ensures
            r@.len() == all_results_of(*self).len(),
            forall|i: int| 0 <= i < r@.len() ==> {
                &&& (#[trigger] r@[i]).name@ == all_results_of(*self)[i].name@
                &&& r@[i].status == all_results_of(*self)[i].status
                &&& r@[i].message@ == all_results_of(*self)[i].message@
            },
    {
        let mut r: Vec<ValidationResult> = Vec::new();
        let mut i: usize = 0;
        while i < self.contract_id_format.len()
            invariant
                i <= self.contract_id_format@.len(),
                r@.len() == i,
                forall|j: int| 0 <= j < i ==> {
                    &&& (#[trigger] r@[j]).name@ == self.contract_id_format@[j].name@
                    &&& r@[j].status == self.contract_id_format@[j].status
                    &&& r@[j].message@ == self.contract_id_format@[j].message@
                },
            decreases self.contract_id_format@.len() - i,
        {
            r.push(copy_result(&self.contract_id_format[i]));
            i += 1;
        }
        r.push(copy_result(&self.rpc_connectivity));
        r.push(copy_result(&self.network_passphrase));
        r.push(copy_result(&self.signing_key));
        r
    }

    /// The number of failed checks.
    pub fn failure_count(&self) -> (n: usize)
        ensures
            n == failures_in(all_results_of(*self)),
    {
        let all = self.all_results();
        let ghost rs = all_results_of(*self);
        let mut n: usize = 0;
        let mut i: usize = 0;
        while i < all.len()
            invariant
                i <= all@.len(),
                all@.len() == rs.len(),
                forall|j: int| 0 <= j < all@.len() ==> (#[trigger] all@[j]).status == rs[j].status,
                n == failures_in(rs.subrange(0, i as int)),
                n <= i,
            decreases all@.len() - i,
        {
            assert(rs.subrange(0, i + 1).drop_last() =~= rs.subrange(0, i as int));
            if all[i].status == ValidationStatus::Fail {
                n += 1;
            }
            i += 1;
        }
        assert(rs.subrange(0, i as int) =~= rs);
        n
    }

    /// The human report lines, one per check, in report order.
    pub fn report_lines(&self) -> (r: Vec<String>)
        ensures
            r@.len() == all_results_of(*self).len(),
            forall|i: int| 0 <= i < r@.len() ==> (#[trigger] r@[i])@ == result_line(all_results_of(*self)[i]),
    {
        let all = self.all_results();
        let mut lines: Vec<String> = Vec::new();
        let mut i: usize = 0;
        while i < all.len()
            invariant
                i <= all@.len(),
                all@.len() == all_results_of(*self).len(),
                forall|j: int| 0 <= j < all@.len() ==> {
                    &&& (#[trigger] all@[j]).name@ == all_results_of(*self)[j].name@
                    &&& all@[j].status == all_results_of(*self)[j].status
                },
                lines@.len() == i,
                forall|j: int| 0 <= j < i ==> (#[trigger] lines@[j])@ == result_line(all_results_of(*self)[j]),
            decreases all@.len() - i,
        {
            let mut line = string_of("[");
            if all[i].status == ValidationStatus::Pass {
                line.append("PASS");
            } else {
                line.append("FAIL");
            }
            line.append("] ");
            line.append(all[i].name.as_str());
            lines.push(line);
            i += 1;
        }
        lines
    }
}

/// The closing line of the human report.
pub fn validation_summary(failures: usize) -> (r: String)
    ensures
        failures > 0 ==> r@ == "\nValidation failed with "@ + dec(failures as nat) + " errors."@,
        failures == 0 ==> r@ == "\nConfiguration is valid."@,
{
    if failures > 0 {
        let mut r = string_of("\nValidation failed with ");
        push_decimal(&mut r, failures as u64);
        r.append(" errors.");
        r
    } else {
        string_of("\nConfiguration is valid.")
    }
}

} // verus!
