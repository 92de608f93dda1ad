use wallet_adapter::app_state::{
    remove_message, AppEffect, GlobalAction, GlobalAppInfo, NetStateInfo, NetStateOptions,
};
use wallet_adapter::notification::{
    airdrop_notice, copy_notice, send_sol_notice, sign_in_notice, sign_message_notice, sign_tx_notice,
    ClusterNetState, NotificationInfo, SignTxOutcome,
};
use wallet_adapter::rpc::AccountInfoData;

#[test]
fn notification_defaults() {
    let n = NotificationInfo::new("hello");
    assert_eq!(n.message(), "hello");
    assert_eq!(n.secs(), 2);
    assert_eq!(n.millis(), 2000);
    let e = NotificationInfo::error("boom");
    assert_eq!(e.message(), "boom");
    assert_eq!(e.secs(), 5);
    let k = e.key();
    let e = e.set_secs(7);
    assert_eq!(e.secs(), 7);
    assert_eq!(e.key(), k);
    assert_eq!(e.clone(), e);
}

#[test]
fn net_state_text() {
    assert_eq!(ClusterNetState::Success.to_text(), "Success");
    assert_eq!(ClusterNetState::Waiting.to_text(), "Waiting");
    assert_eq!(ClusterNetState::Failure.to_text(), "Failure");
    assert_eq!(ClusterNetState::default(), ClusterNetState::Success);
}

#[test]
fn flags_follow_actions() {
    let mut state = GlobalAppInfo::new();
    let mut info = AccountInfoData::new();
    assert_eq!(state.reduce(GlobalAction::LoadingTrue, &mut info), AppEffect::Render);
    assert!(state.loading);
    assert_eq!(state.reduce(GlobalAction::ConnectModalTrue, &mut info), AppEffect::Render);
    assert!(state.connect_modal);
    assert_eq!(state.reduce(GlobalAction::DropdownTrue, &mut info), AppEffect::Render);
    assert!(state.wallet_dropdown);
    assert_eq!(state.reduce(GlobalAction::LoadingFalse, &mut info), AppEffect::Render);
    assert_eq!(state.reduce(GlobalAction::ConnectModalFalse, &mut info), AppEffect::Render);
    assert_eq!(state.reduce(GlobalAction::DropdownFalse, &mut info), AppEffect::Render);
    assert!(!state.loading && !state.connect_modal && !state.wallet_dropdown);
    assert_eq!(state.reduce(GlobalAction::Connect, &mut info), AppEffect::Connect);
    assert_eq!(state.reduce(GlobalAction::Disconnect, &mut info), AppEffect::Disconnect);
}

#[test]
fn message_then_remove_restores_the_queue() {
    let mut state = GlobalAppInfo::new();
    let mut info = AccountInfoData::new();
    let first = NotificationInfo::new("first");
    let first_key = first.key();
    assert_eq!(state.reduce(GlobalAction::Message(first), &mut info), AppEffect::Nothing);
    let mut second = NotificationInfo::new("second");
    while second.key() == first_key {
        second = NotificationInfo::new("second");
    }
    let key = second.key();
    state.reduce(GlobalAction::Message(second), &mut info);
    assert_eq!(state.messages.len(), 2);
    assert_eq!(state.reduce(GlobalAction::RemoveMessage(key), &mut info), AppEffect::Nothing);
    assert_eq!(state.messages.len(), 1);
    assert_eq!(state.messages[0].message(), "first");
}

#[test]
fn removing_an_unknown_key_changes_nothing() {
    let mut state = GlobalAppInfo::new();
    let mut info = AccountInfoData::new();
    let n = NotificationInfo::new("only");
    let key = n.key();
    state.reduce(GlobalAction::Message(n), &mut info);
    remove_message(&mut state.messages, key.wrapping_add(1));
    assert_eq!(state.messages.len(), 1);
    remove_message(&mut state.messages, key);
    assert!(state.messages.is_empty());
}

#[test]
fn connect_outcomes() {
    let mut state = GlobalAppInfo::new();
    let mut info = AccountInfoData::new();
    state.reduce(GlobalAction::LoadingTrue, &mut info);
    assert_eq!(state.finish_connect(Ok(Some("Addr1".to_string()))), AppEffect::Render);
    assert!(!state.loading);
    assert!(state.messages.is_empty());
    assert_eq!(state.active_connection.as_deref(), Some("Addr1"));
    state.reduce(GlobalAction::LoadingTrue, &mut info);
    assert_eq!(state.finish_connect(Err("wallet refused")), AppEffect::Render);
    assert!(!state.loading);
    assert_eq!(state.active_connection.as_deref(), Some("Addr1"));
    assert_eq!(state.messages.len(), 1);
    assert_eq!(state.messages[0].message(), "wallet refused");
    assert_eq!(state.messages[0].secs(), 5);
    state.reduce(GlobalAction::LoadingTrue, &mut info);
    assert_eq!(state.finish_disconnect(), AppEffect::Render);
    assert!(!state.loading);
    assert_eq!(state.active_connection, None);
    state.finish_connect(Ok(Some("Addr2".to_string())));
    assert_eq!(state.reduce(GlobalAction::Connect, &mut info), AppEffect::Connect);
    assert_eq!(state.active_connection, None);
}

#[test]
fn ping_waits_then_records() {
    let mut net = NetStateInfo { state: ClusterNetState::Success };
    let (ping, render) = net.reduce(NetStateOptions::Ping { endpoint: "http://localhost:8899".to_string() });
    assert_eq!(ping.as_deref(), Some("http://localhost:8899"));
    assert!(!render);
    assert_eq!(net.state, ClusterNetState::Waiting);
    assert!(net.finish_ping(ClusterNetState::Failure));
    assert_eq!(net.state, ClusterNetState::Failure);
    assert_eq!(net.reduce(NetStateOptions::Waiting), (None, true));
    assert_eq!(net.state, ClusterNetState::Waiting);
}

#[test]
fn disconnect_forgets_the_account() {
    let mut state = GlobalAppInfo::new();
    let mut info = AccountInfoData::new();
    info.finish_fetch(Ok(("3".to_string(), vec![], vec![])));
    assert_eq!(state.reduce(GlobalAction::LoadingTrue, &mut info), AppEffect::Render);
    assert_eq!(info.balance, "3");
    assert_eq!(state.reduce(GlobalAction::Disconnect, &mut info), AppEffect::Disconnect);
    assert!(info.balance.is_empty());
    assert!(info.token_accounts.is_empty() && info.transactions.is_empty());
}

#[test]
fn outcome_notices() {
    let n = airdrop_notice(true);
    assert_eq!((n.message(), n.secs()), ("REQUESTED AIRDROP", 2));
    let n = airdrop_notice(false);
    assert_eq!(
        (n.message(), n.secs()),
        ("REQUEST AIRDROP ERROR: You might have reached your daily limit.", 5)
    );
    let n = send_sol_notice(Ok(()));
    assert_eq!((n.message(), n.secs()), ("Sent", 2));
    let n = send_sol_notice(Err("Op(\"x\")"));
    assert_eq!((n.message(), n.secs()), ("SEND SOL ERROR: Op(\"x\")", 5));
    assert_eq!(sign_message_notice(Ok(())).message(), "Sign Message Successful");
    assert_eq!(sign_message_notice(Err("E")).message(), "SIGN MESSAGE ERROR: E");
    assert_eq!(sign_in_notice(Ok(())).message(), "SIWS Successful");
    assert_eq!(sign_in_notice(Err("E")).message(), "SIWS ERROR: E");
    assert_eq!(copy_notice(Ok(())).message(), "Copied to clipboard");
    assert_eq!(copy_notice(Err("E")).secs(), 5);
    assert_eq!(sign_tx_notice(SignTxOutcome::Signed).message(), "Sign Transaction Successful");
    assert_eq!(sign_tx_notice(SignTxOutcome::SignFailed("E")).message(), "SIGN MESSAGE ERROR: E");
    let n = sign_tx_notice(SignTxOutcome::Unreadable("E"));
    assert_eq!((n.message(), n.secs()), ("SIGN TX ERROR: E", 5));
}
