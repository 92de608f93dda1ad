use vstd::prelude::*;
use vstd::string::*;
use wasm_bindgen::JsValue;

verus! {

/// A JavaScript value handed through unread.
#[verifier::external_type_specification]
#[verifier::external_body]
pub struct ExJsValue(JsValue);

/// `JsValue::clone`: another handle on the same JavaScript value. Nothing is claimed
/// of the handle that comes back.
pub assume_specification[ <JsValue as Clone>::clone ](value: &JsValue) -> (res: JsValue);

/// The result of a wallet adapter operation.
pub type WalletAdapterResult<T> = Result<T, WalletAdapterError>;

/// What can go wrong when talking to a browser wallet.
#[derive(Debug, PartialEq, Clone)]
pub enum WalletAdapterError {
    SolanaObjectNotFound,
    PhantomObjectNotFound,
    DomErrorIsNotAnObject,
    TypeError { name: String, message: String },
    UnableToGetKey(JsValue),
    Undefined,
    Null,
    PhantonSolanaConnectNotFunction,
    /// Code 4001 = The user rejected the request through Phantom.
    UserRejectedRequest,
    /// Code 4900 - Phantom could not connect to the network.
    Disconnected,
    /// Code 4100 - The requested method and/or account has not been authorized by the user.
    Unauthorized,
    /// Code -32000 - Missing or invalid parameters.
    InvalidInput,
    /// Code -32002 - A new request while the approval dialog for an earlier one is still open.
    RequestedResourceNotAvailable,
    /// Code -32003 - Phantom does not recognize a valid transaction.
    TransactionRejected,
    /// Code -32601 - Phantom does not recognize the method.
    MethodNotFound,
    /// Code -32603 - Something went wrong within Phantom.
    InternalError,
    /// Unable to parse the public key from a successful connection to the wallet
    UnableToFetchPublicKey,
    /// Error is not recognized or supported
    UnrecognizedError,
    /// A method the provider must have is not a function; it carries the method's name.
    ExpectedAFunction(String),
    /// A signature that is not 64 bytes long.
    InvalidSignatureBytes,
}

/// The error a wallet's numeric error code stands for.
pub open spec fn spec_error_for_code(code: i16) -> WalletAdapterError {
    if code == 4001 {
        WalletAdapterError::UserRejectedRequest
    } else if code == 4900 {
        WalletAdapterError::Disconnected
    } else if code == 4100 {
        WalletAdapterError::Unauthorized
    } else if code == -32000 {
        WalletAdapterError::InvalidInput
    } else if code == -32002 {
        WalletAdapterError::RequestedResourceNotAvailable
    } else if code == -32003 {
        WalletAdapterError::TransactionRejected
    } else if code == -32601 {
        WalletAdapterError::MethodNotFound
    } else if code == -32603 {
        WalletAdapterError::InternalError
    } else {
        WalletAdapterError::UnrecognizedError
    }
}

/// How reading a property of a JavaScript error object failed.
#[derive(Debug, PartialEq)]
pub enum JsFailure {
    /// The failure value was `undefined`.
    Undefined,
    /// The failure value was `null`.
    Null,
    /// The failure value was something else.
    Other(JsValue),
}

/// The outcome of reading a property of a JavaScript error object.
#[derive(Debug, PartialEq)]
pub enum JsLookup {
    /// The property was read; it is the string given, or was not a string.
    Found(Option<String>),
    /// Reading the property failed.
    Failed(JsFailure),
}

/// The error a failed property read stands for.
pub open spec fn spec_failure_error(failure: JsFailure) -> WalletAdapterError {
    match failure {
        JsFailure::Undefined => WalletAdapterError::Undefined,
        JsFailure::Null => WalletAdapterError::Null,
        JsFailure::Other(value) => WalletAdapterError::UnableToGetKey(value),
    }
}

/// The text used when an error's `message` is not a string.
pub open spec fn message_fallback() -> Seq<char> {
    "Unable to convert error `message` into Rust `String`"@
}

/// The text used when an error's `name` is not a string.
pub open spec fn name_fallback() -> Seq<char> {
    "Unable to convert error `name` into Rust `String`"@
}

/// A property read as text, or the fallback when it was not a string.
pub open spec fn text_or(value: Option<String>, fallback: Seq<char>) -> Seq<char> {
    match value {
        Some(s) => s@,
        None => fallback,
    }
}

fn failure_error(failure: JsFailure) -> (res: WalletAdapterError)
    ensures
        res == spec_failure_error(failure),
{
    match failure {
        JsFailure::Undefined => WalletAdapterError::Undefined,
        JsFailure::Null => WalletAdapterError::Null,
        JsFailure::Other(value) => WalletAdapterError::UnableToGetKey(value),
    }
}

fn text_or_fallback(value: Option<String>, fallback: &str) -> (res: String)
    ensures
        res@ == text_or(value, fallback@),
{
    match value {
        Some(s) => s,
        None => String::from_str(fallback),
    }
}

impl WalletAdapterError {
    /// The error for a wallet's numeric error code; no code is an unrecognized error.
    pub fn parse_error_code(code: Option<i16>) -> (res: Self)
        ensures
            res == match code {
                Some(c) => spec_error_for_code(c),
                None => WalletAdapterError::UnrecognizedError,
            },
    {
        let code: i16 = match code {
            Some(c) => c,
            None => return WalletAdapterError::UnrecognizedError,
        };
        match code {
            4001 => WalletAdapterError::UserRejectedRequest,
            4900 => WalletAdapterError::Disconnected,
            4100 => WalletAdapterError::Unauthorized,
            -32000 => WalletAdapterError::InvalidInput,
            -32002 => WalletAdapterError::RequestedResourceNotAvailable,
            -32003 => WalletAdapterError::TransactionRejected,
            -32601 => WalletAdapterError::MethodNotFound,
            -32603 => WalletAdapterError::InternalError,
            _ => WalletAdapterError::UnrecognizedError,
        }
    }

    /// The error a JavaScript error value stands for, from what reading it gave: a value
    /// that is not an object, then a failed read of `message`, then a failed read of
    /// `name`, each decide; else a type error with both texts.
    pub fn from_js_error(is_object: bool, message: JsLookup, name: JsLookup) -> (res: Self)
        ensures
            !is_object ==> res == WalletAdapterError::DomErrorIsNotAnObject,
            is_object ==> match message {
                JsLookup::Failed(f) => res == spec_failure_error(f),
                JsLookup::Found(m) => match name {
                    JsLookup::Failed(f) => res == spec_failure_error(f),
                    JsLookup::Found(n) => res matches WalletAdapterError::TypeError { name: rn, message: rm } && rn@ == text_or(n, name_fallback()) && rm@ == text_or(m, message_fallback()),
                },
            },
    {
        if !is_object {
            return WalletAdapterError::DomErrorIsNotAnObject;
        }
        let message = match message {
            JsLookup::Found(m) => m,
            JsLookup::Failed(f) => return failure_error(f),
        };
        let name = match name {
            JsLookup::Found(n) => n,
            JsLookup::Failed(f) => return failure_error(f),
        };
        let message = text_or_fallback(message, "Unable to convert error `message` into Rust `String`");
        let name = text_or_fallback(name, "Unable to convert error `name` into Rust `String`");
        WalletAdapterError::TypeError { name, message }
    }

    /// The error a failed connection reports: the error its code stands for, or, when
    /// the code is not recognized, the error the raw failure value stands for.
    pub fn connect_failure(code: Option<i16>, raw: WalletAdapterError) -> (res: Self)
        ensures
            res == match code {
                Some(c) => if spec_error_for_code(c) == WalletAdapterError::UnrecognizedError {
                    raw
                } else {
                    spec_error_for_code(c)
                },
                None => raw,
            },
    {
        let parsed = Self::parse_error_code(code);
        match parsed {
            WalletAdapterError::UnrecognizedError => raw,
            _ => parsed,
        }
    }
}

} // verus!
