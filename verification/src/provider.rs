use vstd::prelude::*;
use vstd::string::*;

use crate::errors::{WalletAdapterError, WalletAdapterResult};

verus! {

/// The methods of a browser wallet provider.
#[derive(Debug, PartialEq, Eq, PartialOrd, Ord, Clone, Copy, Hash, Structural)]
pub enum ProviderMethods {
    Connect,
    Disconnect,
    SignAndSendTransaction,
    SignAllTransactions,
    SignTransaction,
    SignMessage,
}

/// The result reports that the provider method `name` is not a function.
pub open spec fn reports_missing(res: WalletAdapterResult<()>, name: Seq<char>) -> bool {
    match res {
        Err(WalletAdapterError::ExpectedAFunction(n)) => n@ == name,
        _ => false,
    }
}

/// Whether the provider's `connect`, `disconnect` and `signMessage` are functions, checked
/// in that order: the first that is not one is reported by name.
pub fn check_provider_functions(connect: bool, disconnect: bool, sign_message: bool) -> (res:
    WalletAdapterResult<()>)
    ensures
        connect && disconnect && sign_message <==> res is Ok,
        !connect ==> reports_missing(res, "connect"@),
        connect && !disconnect ==> reports_missing(res, "disconnect"@),
        connect && disconnect && !sign_message ==> reports_missing(res, "signMessage"@),
{
    if !connect {
        return Err(WalletAdapterError::ExpectedAFunction(String::from_str("connect")));
    }
    if !disconnect {
        return Err(WalletAdapterError::ExpectedAFunction(String::from_str("disconnect")));
    }
    if !sign_message {
        return Err(WalletAdapterError::ExpectedAFunction(String::from_str("signMessage")));
    }
    Ok(())
}

/// A signature the wallet returned, as 64 bytes; any other length is refused.
pub fn signature_from_bytes(bytes: &[u8]) -> (res: WalletAdapterResult<[u8; 64]>)
    ensures
        bytes@.len() == 64 <==> res is Ok,
        bytes@.len() != 64 ==> res == Err::<[u8; 64], WalletAdapterError>(WalletAdapterError::InvalidSignatureBytes),
        res matches Ok(sig) ==> sig@ == bytes@,
{
    if bytes.len() != 64 {
        return Err(WalletAdapterError::InvalidSignatureBytes);
    }
    let mut signature = [0u8; 64];
    let mut i: usize = 0;
    while i < 64
        invariant
            bytes@.len() == 64,
            i <= 64,
            forall|j: int| 0 <= j < i ==> signature@[j] == bytes@[j],
        decreases 64 - i,
    {
        signature[i] = bytes[i];
        i = i + 1;
    }
    assert(signature@ =~= bytes@);
    Ok(signature)
}

} // verus!
