use vstd::prelude::*;
use vstd::string::*;

use crate::app_state::GlobalAction;
use crate::notification::{NotificationInfo, ERROR_NOTIFICATION_SECS};

verus! {

/// The latest blockhash an RPC node reports, and the last block height it is valid for.
#[derive(Debug, PartialEq, Eq, PartialOrd, Ord, Hash, Clone, Copy)]
pub struct BlockHashResponseValue<'a> {
    pub blockhash: &'a str,
    pub last_valid_block_height: u64,
}

/// A JSON-RPC response.
#[derive(Debug, PartialEq, Clone)]
pub struct RpcResponse<T> {
    pub jsonrpc: String,
    pub id: u8,
    pub result: T,
}

/// An RPC result that comes with a context.
#[derive(Debug, PartialEq, Clone)]
pub struct ResponseWithContext<O> {
    pub value: O,
}

/// A signature of a transaction that touched an address.
#[derive(Debug, PartialEq)]
pub struct SignaturesResponse {
    pub block_time: Option<i64>,
    pub confirmation_status: Option<String>,
    /// The error the transaction failed with, as text, when it failed.
    pub err: Option<String>,
    pub signature: String,
}

impl SignaturesResponse {
    /// The transaction did not fail.
    pub fn succeeded(&self) -> (res: bool)
        ensures
            res == self.err is None,
    {
        self.err.is_none()
    }
}

/// An amount of tokens, in base units and for display.
#[derive(Debug, PartialEq)]
pub struct TokenAmount {
    pub amount: String,
    pub decimals: u8,
    pub ui_amount_string: String,
}

/// The parsed state of a token account.
#[derive(Debug, PartialEq)]
pub struct ParseInfo {
    pub mint: String,
    pub state: String,
    pub token_amount: TokenAmount,
}

#[derive(Debug, PartialEq)]
pub struct Parsed {
    pub info: ParseInfo,
}

#[derive(Debug, PartialEq)]
pub struct TokenData {
    pub parsed: Parsed,
}

#[derive(Debug, PartialEq)]
pub struct Account {
    pub data: TokenData,
}

/// A token account an owner holds.
#[derive(Debug, PartialEq)]
pub struct TokenAccountResponse {
    pub pubkey: String,
    pub account: Account,
}

/// Names what `str::to_uppercase` gives for a text: its Unicode upper-case equivalent.
pub uninterp spec fn upper_case(s: Seq<char>) -> Seq<char>;

/// Calls `str::to_uppercase`. Claimed: the result is the one named by `upper_case`.
#[verifier::external_body]
fn to_upper_case(s: &str) -> (res: String)
    ensures
        res@ == upper_case(s@),
{
    s.to_uppercase()
}

impl TokenAccountResponse {
    /// The mint of the token.
    pub fn mint(&self) -> (res: String)
        ensures
            res@ == self.account.data.parsed.info.mint@,
    {
        self.account.data.parsed.info.mint.clone()
    }

    /// The address of the token account.
    pub fn ata_address(&self) -> (res: String)
        ensures
            res@ == self.pubkey@,
    {
        self.pubkey.clone()
    }

    /// The balance, as the node formats it for display.
    pub fn balance(&self) -> (res: String)
        ensures
            res@ == self.account.data.parsed.info.token_amount.ui_amount_string@,
    {
        self.account.data.parsed.info.token_amount.ui_amount_string.clone()
    }

    /// The state of the account, in upper case.
    pub fn state(&self) -> (res: String)
        ensures
            res@ == upper_case(self.account.data.parsed.info.state@),
    {
        to_upper_case(self.account.data.parsed.info.state.as_str())
    }
}

/// What the views know of the connected account: its balance, its token accounts and
/// its recent transactions.
#[derive(Debug, PartialEq)]
pub struct AccountInfoData {
    pub balance: String,
    pub token_accounts: Vec<TokenAccountResponse>,
    pub transactions: Vec<SignaturesResponse>,
}

/// The notification text for a failed account fetch.
pub open spec fn fetch_error_text(error: Seq<char>) -> Seq<char> {
    "Encountered error when fetching account info: "@ + error
}

impl AccountInfoData {
    /// Nothing known yet.
    pub fn new() -> (res: Self)
        ensures
            res.balance@ == Seq::<char>::empty(),
            res.token_accounts@ == Seq::<TokenAccountResponse>::empty(),
            res.transactions@ == Seq::<SignaturesResponse>::empty(),
    {
        AccountInfoData { balance: String::new(), token_accounts: Vec::new(), transactions: Vec::new() }
    }

    /// Forgets everything known, before a new fetch.
    pub fn clear(&mut self)
        ensures
            final(self).balance@ == Seq::<char>::empty(),
            final(self).token_accounts@ == Seq::<TokenAccountResponse>::empty(),
            final(self).transactions@ == Seq::<SignaturesResponse>::empty(),
    {
        self.balance = String::new();
        self.token_accounts = Vec::new();
        self.transactions = Vec::new();
    }

    /// Records how a fetch ended: what it found, or, on failure, nothing (the state is
    /// left as it was). Hands back the actions to apply to the application state, in
    /// order: on failure the error notification to show, then, either way, that loading
    /// stops.
    pub fn finish_fetch(
        &mut self,
        outcome: Result<(String, Vec<TokenAccountResponse>, Vec<SignaturesResponse>), String>,
    ) -> (actions: Vec<GlobalAction>)
        ensures
            match outcome {
                Ok((balance, token_accounts, transactions)) => {
                    &&& final(self).balance == balance
                    &&& final(self).token_accounts == token_accounts
                    &&& final(self).transactions == transactions
                    &&& actions@.len() == 1
                    &&& actions@[0] is LoadingFalse
                },
                Err(error) => {
                    &&& *final(self) == *old(self)
                    &&& actions@.len() == 2
                    &&& actions@[0] matches GlobalAction::Message(n)
                    &&& n.spec_message() == fetch_error_text(error@)
                    &&& n.spec_secs() == ERROR_NOTIFICATION_SECS
                    &&& actions@[1] is LoadingFalse
                },
            },
    {
        let mut actions: Vec<GlobalAction> = Vec::new();
        match outcome {
            Ok((balance, token_accounts, transactions)) => {
                self.balance = balance;
                self.token_accounts = token_accounts;
                self.transactions = transactions;
            },
            Err(error) => {
                let mut text = String::from_str("Encountered error when fetching account info: ");
                text.append(error.as_str());
                actions.push(GlobalAction::Message(NotificationInfo::error(text.as_str())));
            },
        }
        actions.push(GlobalAction::LoadingFalse);
        actions
    }
}

} // verus!
