use std::collections::VecDeque;
use vstd::prelude::*;

use crate::notification::{ClusterNetState, NotificationInfo};
use crate::rpc::{AccountInfoData, SignaturesResponse, TokenAccountResponse};

verus! {

/// The index of the first message in `messages` whose key is `key`.
pub open spec fn first_with_key(messages: Seq<NotificationInfo>, key: u32, from: int) -> Option<int>
    decreases messages.len() - from,
{
    if from < 0 || from >= messages.len() {
        None
    } else if messages[from].spec_key() == key {
        Some(from)
    } else {
        first_with_key(messages, key, from + 1)
    }
}

/// `first_with_key` finds the lowest index at or after `from` that holds `key`.
pub proof fn lemma_first_with_key(messages: Seq<NotificationInfo>, key: u32, from: int)
    requires
        0 <= from,
    ensures
        first_with_key(messages, key, from) matches Some(i) ==> {
            &&& from <= i < messages.len()
            &&& messages[i].spec_key() == key
            &&& forall|j: int| from <= j < i ==> messages[j].spec_key() != key
        },
        first_with_key(messages, key, from) is None ==> forall|j: int|
            from <= j < messages.len() ==> messages[j].spec_key() != key,
    decreases messages.len() - from,
{
    if from < messages.len() && messages[from].spec_key() != key {
        lemma_first_with_key(messages, key, from + 1);
    }
}

proof fn lemma_pushed_key_found(messages: Seq<NotificationInfo>, m: NotificationInfo, from: int)
    requires
        0 <= from <= messages.len(),
        forall|j: int| from <= j < messages.len() ==> messages[j].spec_key() != m.spec_key(),
    ensures
        first_with_key(messages.push(m), m.spec_key(), from) == Some(messages.len() as int),
    decreases messages.len() - from,
{
    if from < messages.len() {
        assert(messages.push(m)[from] == messages[from]);
        lemma_pushed_key_found(messages, m, from + 1);
    }
}

/// Showing a notification and then dismissing it by its key leaves the queue as it was,
/// when no notification already queued has that key.
pub proof fn law_message_then_remove(messages: Seq<NotificationInfo>, m: NotificationInfo)
    requires
        first_with_key(messages, m.spec_key(), 0) is None,
    ensures
        spec_remove_key(messages.push(m), m.spec_key()) == messages,
{
    lemma_first_with_key(messages, m.spec_key(), 0);
    lemma_pushed_key_found(messages, m, 0);
    assert(messages.push(m).remove(messages.len() as int) =~= messages);
}

/// Dismissing a key no queued notification has leaves the queue as it was.
pub proof fn law_remove_unknown_key(messages: Seq<NotificationInfo>, key: u32)
    requires
        forall|j: int| 0 <= j < messages.len() ==> messages[j].spec_key() != key,
    ensures
        spec_remove_key(messages, key) == messages,
{
    lemma_first_with_key(messages, key, 0);
    if first_with_key(messages, key, 0) is Some {
        let i = first_with_key(messages, key, 0).unwrap();
        assert(messages[i].spec_key() == key);
    }
}

/// Dismissing a key takes out exactly one notification when some notification has it:
/// the first one with that key. The queue is one shorter, the notifications before it
/// keep their places and those after it each move one place forward, in order.
pub proof fn law_remove_takes_out_first_match(messages: Seq<NotificationInfo>, key: u32, i: int)
    requires
        0 <= i < messages.len(),
        messages[i].spec_key() == key,
        forall|j: int| 0 <= j < i ==> messages[j].spec_key() != key,
    ensures
        spec_remove_key(messages, key).len() == messages.len() - 1,
        forall|j: int| 0 <= j < i ==> spec_remove_key(messages, key)[j] == messages[j],
        forall|j: int|
            i <= j < messages.len() - 1 ==> spec_remove_key(messages, key)[j] == messages[j + 1],
{
    lemma_first_with_key(messages, key, 0);
    let k = first_with_key(messages, key, 0).unwrap();
    assert(k == i);
}

/// Dismissing the key of the oldest notification takes out that notification alone and
/// leaves the rest of the queue as it was.
pub proof fn law_remove_front(m: NotificationInfo, rest: Seq<NotificationInfo>)
    ensures
        spec_remove_key(seq![m] + rest, m.spec_key()) == rest,
{
    let messages = seq![m] + rest;
    assert(messages[0] == m);
    law_remove_takes_out_first_match(messages, m.spec_key(), 0);
    assert(spec_remove_key(messages, m.spec_key()) =~= rest);
}

/// The queue of notifications once the first one with `key` is taken out.
pub open spec fn spec_remove_key(messages: Seq<NotificationInfo>, key: u32) -> Seq<NotificationInfo> {
    match first_with_key(messages, key, 0) {
        Some(i) => messages.remove(i),
        None => messages,
    }
}

/// Takes out of `messages` the first notification whose key is `key`, if there is one.
pub fn remove_message(messages: &mut VecDeque<NotificationInfo>, key: u32)
    ensures
        final(messages)@ == spec_remove_key(old(messages)@, key),
{
    let n = messages.len();
    let mut i: usize = 0;
    while i < n
        invariant
            n == messages@.len(),
            messages@ == old(messages)@,
            i <= n,
            first_with_key(messages@, key, 0) == first_with_key(messages@, key, i as int),
        decreases n - i,
    {
        if messages[i].key() == key {
            let _ = messages.remove(i);
            return;
        }
        i = i + 1;
    }
}

/// What the application has to do after a state change.
#[derive(Debug, PartialEq, Eq, Clone, Copy, Structural)]
pub enum AppEffect {
    /// Nothing.
    Nothing,
    /// Render again.
    Render,
    /// Connect to the wallet chosen (the active connection has been reset), then report
    /// with `finish_connect`.
    Connect,
    /// Disconnect (the account information has been cleared), then report with
    /// `finish_disconnect`.
    Disconnect,
}

/// The changes the application state accepts.
#[derive(Debug, PartialEq, Eq)]
pub enum GlobalAction {
    Connect,
    Disconnect,
    LoadingTrue,
    LoadingFalse,
    ConnectModalTrue,
    ConnectModalFalse,
    DropdownTrue,
    DropdownFalse,
    Message(NotificationInfo),
    RemoveMessage(u32),
}

/// The application state that the views share: the active connection (the address of
/// the connected account, if any), what is loading, which pop-ups are open, and the
/// notifications waiting to be shown.
#[derive(Debug, PartialEq)]
pub struct GlobalAppInfo {
    pub active_connection: Option<String>,
    pub loading: bool,
    pub connect_modal: bool,
    pub wallet_dropdown: bool,
    pub messages: VecDeque<NotificationInfo>,
}

impl GlobalAppInfo {
    /// No connection, nothing loading, nothing open, no notification.
    pub fn new() -> (res: Self)
        ensures
            res.active_connection is None,
            !res.loading,
            !res.connect_modal,
            !res.wallet_dropdown,
            res.messages@ == Seq::<NotificationInfo>::empty(),
    {
        GlobalAppInfo {
            active_connection: None,
            loading: false,
            connect_modal: false,
            wallet_dropdown: false,
            messages: VecDeque::new(),
        }
    }

    /// Applies an action to the state and says what the application must do next.
    /// Disconnecting also forgets what was known of the connected account.
    pub fn reduce(&mut self, action: GlobalAction, account_info: &mut AccountInfoData) -> (effect: AppEffect)
        ensures
            action is Disconnect ==> {
                &&& final(account_info).balance@ == Seq::<char>::empty()
                &&& final(account_info).token_accounts@ == Seq::<TokenAccountResponse>::empty()
                &&& final(account_info).transactions@ == Seq::<SignaturesResponse>::empty()
            },
            !(action is Disconnect) ==> *final(account_info) == *old(account_info),
            match action {
                GlobalAction::Connect => effect == AppEffect::Connect && *final(self) == (GlobalAppInfo { active_connection: None, ..*old(self) }),
                GlobalAction::Disconnect => effect == AppEffect::Disconnect && *final(self) == *old(self),
                GlobalAction::LoadingTrue => effect == AppEffect::Render && *final(self) == (GlobalAppInfo { loading: true, ..*old(self) }),
                GlobalAction::LoadingFalse => effect == AppEffect::Render && *final(self) == (GlobalAppInfo { loading: false, ..*old(self) }),
                GlobalAction::ConnectModalTrue => effect == AppEffect::Render && *final(self) == (GlobalAppInfo { connect_modal: true, ..*old(self) }),
                GlobalAction::ConnectModalFalse => effect == AppEffect::Render && *final(self) == (GlobalAppInfo { connect_modal: false, ..*old(self) }),
                GlobalAction::DropdownTrue => effect == AppEffect::Render && *final(self) == (GlobalAppInfo { wallet_dropdown: true, ..*old(self) }),
                GlobalAction::DropdownFalse => effect == AppEffect::Render && *final(self) == (GlobalAppInfo { wallet_dropdown: false, ..*old(self) }),
                GlobalAction::Message(m) => {
                    &&& effect == AppEffect::Nothing
                    &&& final(self).active_connection == old(self).active_connection
                    &&& final(self).loading == old(self).loading
                    &&& final(self).connect_modal == old(self).connect_modal
                    &&& final(self).wallet_dropdown == old(self).wallet_dropdown
                    &&& final(self).messages@ == old(self).messages@.push(m)
                },
                GlobalAction::RemoveMessage(key) => {
                    &&& effect == AppEffect::Nothing
                    &&& final(self).active_connection == old(self).active_connection
                    &&& final(self).loading == old(self).loading
                    &&& final(self).connect_modal == old(self).connect_modal
                    &&& final(self).wallet_dropdown == old(self).wallet_dropdown
                    &&& final(self).messages@ == spec_remove_key(old(self).messages@, key)
                },
            },
    {
        match action {
            GlobalAction::Connect => {
                self.active_connection = None;
                AppEffect::Connect
            },
            GlobalAction::Disconnect => {
                account_info.clear();
                AppEffect::Disconnect
            },
            GlobalAction::LoadingTrue => {
                self.loading = true;
                AppEffect::Render
            },
            GlobalAction::LoadingFalse => {
                self.loading = false;
                AppEffect::Render
            },
            GlobalAction::ConnectModalTrue => {
                self.connect_modal = true;
                AppEffect::Render
            },
            GlobalAction::ConnectModalFalse => {
                self.connect_modal = false;
                AppEffect::Render
            },
            GlobalAction::DropdownTrue => {
                self.wallet_dropdown = true;
                AppEffect::Render
            },
            GlobalAction::DropdownFalse => {
                self.wallet_dropdown = false;
                AppEffect::Render
            },
            GlobalAction::Message(message) => {
                self.messages.push_back(message);
                AppEffect::Nothing
            },
            GlobalAction::RemoveMessage(key) => {
                remove_message(&mut self.messages, key);
                AppEffect::Nothing
            },
        }
    }

    /// Records how a connection attempt ended. On success the connected account (if
    /// any) becomes the active connection; a failure becomes an error notification and
    /// leaves the connection as it was. Loading stops either way, and the views render
    /// again.
    pub fn finish_connect(&mut self, outcome: Result<Option<String>, &str>) -> (effect: AppEffect)
        ensures
            effect == AppEffect::Render,
            !final(self).loading,
            final(self).connect_modal == old(self).connect_modal,
            final(self).wallet_dropdown == old(self).wallet_dropdown,
            match outcome {
                Ok(account) => {
                    &&& final(self).active_connection == account
                    &&& final(self).messages@ == old(self).messages@
                },
                Err(e) => {
                    &&& final(self).active_connection == old(self).active_connection
                    &&& final(self).messages@.len() == old(self).messages@.len() + 1
                    &&& final(self).messages@.drop_last() == old(self).messages@
                    &&& final(self).messages@.last().spec_message() == e@
                    &&& final(self).messages@.last().spec_secs() == crate::notification::ERROR_NOTIFICATION_SECS
                },
            },
    {
        match outcome {
            Ok(account) => {
                self.active_connection = account;
            },
            Err(e) => {
                self.messages.push_back(NotificationInfo::error(e));
                assert(self.messages@.drop_last() =~= old(self).messages@);
            },
        }
        self.loading = false;
        AppEffect::Render
    }

    /// Records that the wallet was disconnected: the active connection is reset, loading
    /// stops, and the views render again.
    pub fn finish_disconnect(&mut self) -> (effect: AppEffect)
        ensures
            effect == AppEffect::Render,
            *final(self) == (GlobalAppInfo { active_connection: None, loading: false, ..*old(self) }),
    {
        self.active_connection = None;
        self.loading = false;
        AppEffect::Render
    }
}

/// The changes the cluster reachability state accepts.
#[derive(Debug, PartialEq, Eq)]
pub enum NetStateOptions {
    /// Ping the endpoint; the state waits until `finish_ping` reports the outcome.
    Ping { endpoint: String },
    /// Wait.
    Waiting,
}

/// Whether the active cluster is reachable.
#[derive(Debug, PartialEq, Eq, Clone, Copy)]
pub struct NetStateInfo {
    pub state: ClusterNetState,
}

impl NetStateInfo {
    /// Applies an action: the state waits. A ping hands back the endpoint to ping (the
    /// views render once `finish_ping` records the outcome); waiting renders at once.
    pub fn reduce(&mut self, action: NetStateOptions) -> (res: (Option<String>, bool))
        ensures
            final(self).state == ClusterNetState::Waiting,
            match action {
                NetStateOptions::Ping { endpoint } => res.0 == Some(endpoint) && !res.1,
                NetStateOptions::Waiting => res.0 is None && res.1,
            },
    {
        self.state = ClusterNetState::Waiting;
        match action {
            NetStateOptions::Ping { endpoint } => (Some(endpoint), false),
            NetStateOptions::Waiting => (None, true),
        }
    }

    /// Records the outcome of a ping; the views render again.
    pub fn finish_ping(&mut self, outcome: ClusterNetState) -> (render: bool)
        ensures
            final(self).state == outcome,
            render,
    {
        self.state = outcome;
        true
    }
}

} // verus!
