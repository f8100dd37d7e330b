//! Network passphrase checks that guard every signed or submitted transaction.
use vstd::prelude::*;
use crate::errors::SdkError;
use crate::text::{str_eq, string_of};

verus! {

/// Checks that the passphrase a transaction was built for matches the configured
/// passphrase, without any RPC call.
pub fn verify_transaction_passphrase(configured: &str, in_transaction: &str) -> (r: Result<(), SdkError>)
    ensures
        r is Ok <==> configured@ == in_transaction@,
        r matches Err(SdkError::TransactionPassphraseMismatch { configured: c, in_transaction: t })
            || r is Ok,
        r matches Err(SdkError::TransactionPassphraseMismatch { configured: c, in_transaction: t })
            ==> c@ == configured@ && t@ == in_transaction@,
{
    if !str_eq(configured, in_transaction) {
        return Err(SdkError::TransactionPassphraseMismatch {
            configured: string_of(configured),
            in_transaction: string_of(in_transaction),
        });
    }
    Ok(())
}

/// Checks the passphrase that the RPC server reported (the result of its
/// `getNetwork` call) against the configured passphrase. A failed call is
/// passed on unchanged; a differing passphrase is a `NetworkPassphraseMismatch`.
pub fn verify_network_passphrase(configured: &str, rpc_reported: Result<String, SdkError>) -> (r: Result<(), SdkError>)
    ensures
        match rpc_reported {
            Err(e) => r == Err::<(), SdkError>(e),
            Ok(reported) => {
                &&& (r is Ok <==> configured@ == reported@)
                &&& (r is Err ==> (r matches Err(SdkError::NetworkPassphraseMismatch { configured: c, rpc_reported: p })
                        && c@ == configured@ && p@ == reported@))
            },
        },
{
    match rpc_reported {
        Err(e) => Err(e),
        Ok(reported) => {
            if !str_eq(configured, reported.as_str()) {
                return Err(SdkError::NetworkPassphraseMismatch {
                    configured: string_of(configured),
                    rpc_reported: reported,
                });
            }
            Ok(())
        },
    }
}

} // verus!
