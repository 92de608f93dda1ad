use vstd::prelude::*;
use vstd::string::*;

verus! {

/// Whether the active cluster answered the last ping.
#[derive(Debug, PartialEq, Eq, Clone, Copy, Structural)]
pub enum ClusterNetState {
    Success,
    Waiting,
    Failure,
}

impl Default for ClusterNetState {
    fn default() -> (res: Self)
        ensures
            res == ClusterNetState::Success,
    {
        ClusterNetState::Success
    }
}

/// The text a state is shown with: the name of its variant.
pub open spec fn spec_net_state_text(state: ClusterNetState) -> Seq<char> {
    match state {
        ClusterNetState::Success => "Success"@,
        ClusterNetState::Waiting => "Waiting"@,
        ClusterNetState::Failure => "Failure"@,
    }
}

impl ClusterNetState {
    /// The text this state is displayed with.
    pub fn to_text(&self) -> (res: String)
        ensures
            res@ == spec_net_state_text(*self),
    {
        match self {
            ClusterNetState::Success => String::from_str("Success"),
            ClusterNetState::Waiting => String::from_str("Waiting"),
            ClusterNetState::Failure => String::from_str("Failure"),
        }
    }
}

/// Calls `fastrand::u32(..)`: a random `u32` from the thread-local generator.
/// Nothing is claimed of the value: any `u32` may come back.
#[verifier::external_body]
fn random_key() -> u32 {
    fastrand::u32(..)
}

/// How long an ordinary notification stays on screen, in seconds.
pub const NOTIFICATION_SECS: u32 = 2;

/// How long an error notification stays on screen, in seconds.
pub const ERROR_NOTIFICATION_SECS: u32 = 5;

/// A message shown to the user for a number of seconds, told apart by a random key.
#[derive(Debug, PartialEq, Eq, PartialOrd)]
pub struct NotificationInfo {
    key: u32,
    secs: u32,
    message: String,
}

impl NotificationInfo {
    pub closed spec fn spec_key(&self) -> u32 {
        self.key
    }

    pub closed spec fn spec_secs(&self) -> u32 {
        self.secs
    }

    pub closed spec fn spec_message(&self) -> Seq<char> {
        self.message@
    }

    /// A notification with a fresh random key, shown for two seconds.
    pub fn new(message: &str) -> (res: Self)
        ensures
            res.spec_secs() == NOTIFICATION_SECS,
            res.spec_message() == message@,
    {
        let key = random_key();
        NotificationInfo { key, secs: NOTIFICATION_SECS, message: message.to_owned() }
    }

    /// An error notification: a fresh random key, shown for five seconds.
    pub fn error(message: &str) -> (res: Self)
        ensures
            res.spec_secs() == ERROR_NOTIFICATION_SECS,
            res.spec_message() == message@,
    {
        Self::new(message).set_secs(ERROR_NOTIFICATION_SECS)
    }

    /// The same notification, shown for `secs` seconds.
    pub fn set_secs(self, secs: u32) -> (res: Self)
        ensures
            res.spec_key() == self.spec_key(),
            res.spec_secs() == secs,
            res.spec_message() == self.spec_message(),
    {
        let mut this = self;
        this.secs = secs;
        this
    }

    pub fn key(&self) -> (res: u32)
        ensures
            res == self.spec_key(),
    {
        self.key
    }

    pub fn secs(&self) -> (res: u32)
        ensures
            res == self.spec_secs(),
    {
        self.secs
    }

    pub fn message(&self) -> (res: &str)
        ensures
            res@ == self.spec_message(),
    {
        self.message.as_str()
    }

    /// How long the notification stays on screen, in milliseconds.
    pub fn millis(&self) -> (res: u32)
        requires
            self.spec_secs() * 1000 <= u32::MAX,
        ensures
            res == self.spec_secs() * 1000,
    {
        self.secs * 1000
    }
}

impl Clone for NotificationInfo {
    fn clone(&self) -> (res: Self)
        ensures
            res == *self,
    {
        NotificationInfo { key: self.key, secs: self.secs, message: self.message.clone() }
    }
}

/// The notification after a wallet or network operation: the success text when it
/// succeeded, else an error notification with the error's text after `error_prefix`.
pub fn outcome_notice(outcome: Result<(), &str>, success: &str, error_prefix: &str) -> (res: NotificationInfo)
    ensures
        match outcome {
            Ok(()) => res.spec_message() == success@ && res.spec_secs() == NOTIFICATION_SECS,
            Err(e) => res.spec_message() == error_prefix@ + e@ && res.spec_secs() == ERROR_NOTIFICATION_SECS,
        },
{
    match outcome {
        Ok(()) => NotificationInfo::new(success),
        Err(e) => {
            let mut text = String::from_str(error_prefix);
            text.append(e);
            NotificationInfo::error(text.as_str())
        },
    }
}

/// The notification after an airdrop request.
pub fn airdrop_notice(succeeded: bool) -> (res: NotificationInfo)
    ensures
        succeeded ==> res.spec_message() == "REQUESTED AIRDROP"@ && res.spec_secs() == NOTIFICATION_SECS,
        !succeeded ==> res.spec_message() == "REQUEST AIRDROP ERROR: You might have reached your daily limit."@
            && res.spec_secs() == ERROR_NOTIFICATION_SECS,
{
    if succeeded {
        NotificationInfo::new("REQUESTED AIRDROP")
    } else {
        NotificationInfo::error("REQUEST AIRDROP ERROR: You might have reached your daily limit.")
    }
}

/// The notification after sending SOL; the error is given as its debug text.
pub fn send_sol_notice(outcome: Result<(), &str>) -> (res: NotificationInfo)
    ensures
        match outcome {
            Ok(()) => res.spec_message() == "Sent"@ && res.spec_secs() == NOTIFICATION_SECS,
            Err(e) => res.spec_message() == "SEND SOL ERROR: "@ + e@ && res.spec_secs() == ERROR_NOTIFICATION_SECS,
        },
{
    outcome_notice(outcome, "Sent", "SEND SOL ERROR: ")
}

/// The notification after signing a message; the error is given as its debug text.
pub fn sign_message_notice(outcome: Result<(), &str>) -> (res: NotificationInfo)
    ensures
        match outcome {
            Ok(()) => res.spec_message() == "Sign Message Successful"@ && res.spec_secs() == NOTIFICATION_SECS,
            Err(e) => res.spec_message() == "SIGN MESSAGE ERROR: "@ + e@ && res.spec_secs() == ERROR_NOTIFICATION_SECS,
        },
{
    outcome_notice(outcome, "Sign Message Successful", "SIGN MESSAGE ERROR: ")
}

/// The notification after signing in with Solana; the error is given as its debug text.
pub fn sign_in_notice(outcome: Result<(), &str>) -> (res: NotificationInfo)
    ensures
        match outcome {
            Ok(()) => res.spec_message() == "SIWS Successful"@ && res.spec_secs() == NOTIFICATION_SECS,
            Err(e) => res.spec_message() == "SIWS ERROR: "@ + e@ && res.spec_secs() == ERROR_NOTIFICATION_SECS,
        },
{
    outcome_notice(outcome, "SIWS Successful", "SIWS ERROR: ")
}

/// The notification after copying to the clipboard; the error is given as its debug text.
pub fn copy_notice(outcome: Result<(), &str>) -> (res: NotificationInfo)
    ensures
        match outcome {
            Ok(()) => res.spec_message() == "Copied to clipboard"@ && res.spec_secs() == NOTIFICATION_SECS,
            Err(e) => res.spec_message() == "COPY ERROR: "@ + e@ && res.spec_secs() == ERROR_NOTIFICATION_SECS,
        },
{
    outcome_notice(outcome, "Copied to clipboard", "COPY ERROR: ")
}

/// How signing a transaction went.
#[derive(Debug, PartialEq, Eq)]
pub enum SignTxOutcome<'a> {
    /// The wallet signed and the signed transaction reads back.
    Signed,
    /// The wallet refused or failed; its error's debug text.
    SignFailed(&'a str),
    /// The signed bytes do not read back as a transaction; the error's debug text.
    Unreadable(&'a str),
}

/// The notification after signing a transaction.
pub fn sign_tx_notice(outcome: SignTxOutcome) -> (res: NotificationInfo)
    ensures
        match outcome {
            SignTxOutcome::Signed => res.spec_message() == "Sign Transaction Successful"@ && res.spec_secs() == NOTIFICATION_SECS,
            SignTxOutcome::SignFailed(e) => res.spec_message() == "SIGN MESSAGE ERROR: "@ + e@ && res.spec_secs() == ERROR_NOTIFICATION_SECS,
            SignTxOutcome::Unreadable(e) => res.spec_message() == "SIGN TX ERROR: "@ + e@ && res.spec_secs() == ERROR_NOTIFICATION_SECS,
        },
{
    match outcome {
        SignTxOutcome::Signed => outcome_notice(Ok(()), "Sign Transaction Successful", ""),
        SignTxOutcome::SignFailed(e) => outcome_notice(Err(e), "", "SIGN MESSAGE ERROR: "),
        SignTxOutcome::Unreadable(e) => outcome_notice(Err(e), "", "SIGN TX ERROR: "),
    }
}

} // verus!
