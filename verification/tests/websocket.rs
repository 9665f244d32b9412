use aeroxe_backend::rbac::UserContext;
use aeroxe_backend::websocket::{
    channel_names, classify_client_message, frame_action, resolve_channels, welcome,
    ClientMessageKind, ConnectedClient, ConnectionManager, FrameAction, IncomingFrame, WsChannel,
};

#[test]
fn test_resolve_channels_super_admin() {
    let user = UserContext {
        user_id: 1,
        email: "admin@aeroxe.com".to_string(),
        role: "super_admin".to_string(),
        branch_id: Some(1),
        is_company_wide: true,
        permissions: Vec::new(),
    };

    let channels = resolve_channels(&user);
    assert!(channels.contains(&WsChannel::AdminMetrics));
    assert!(channels.contains(&WsChannel::NocAlerts));
    assert!(channels.contains(&WsChannel::NocDevices));
    assert!(channels.contains(&WsChannel::NocSessions));
    assert!(channels.contains(&WsChannel::NocDiscovery));
    assert!(channels.contains(&WsChannel::BranchAlerts(1)));
}

#[test]
fn test_resolve_channels_noc_engineer() {
    let user = UserContext {
        user_id: 2,
        email: "noc@aeroxe.com".to_string(),
        role: "noc_engineer".to_string(),
        branch_id: Some(1),
        is_company_wide: false,
        permissions: Vec::new(),
    };

    let channels = resolve_channels(&user);
    assert!(!channels.contains(&WsChannel::AdminMetrics));
    assert!(channels.contains(&WsChannel::NocAlerts));
    assert!(channels.contains(&WsChannel::NocDevices));
}

#[test]
fn test_ws_channel_to_redis_channel() {
    assert_eq!(WsChannel::CustomerUpdates(42).to_redis_channel(), "ws:customer:42");
    assert_eq!(WsChannel::BranchAlerts(5).to_redis_channel(), "ws:branch:5");
    assert_eq!(WsChannel::NocAlerts.to_redis_channel(), "ws:noc:alerts");
    assert_eq!(WsChannel::AdminMetrics.to_redis_channel(), "ws:admin:metrics");
}

fn user(role: &str, branch: Option<i64>) -> UserContext {
    UserContext {
        user_id: 9,
        email: "u@aeroxe.com".to_string(),
        role: role.to_string(),
        branch_id: branch,
        is_company_wide: false,
        permissions: Vec::new(),
    }
}

#[test]
fn resolve_channels_exact_order() {
    assert_eq!(
        resolve_channels(&user("isp_owner", None)),
        vec![
            WsChannel::AdminMetrics,
            WsChannel::NocAlerts,
            WsChannel::NocDevices,
            WsChannel::NocSessions,
            WsChannel::NocDiscovery
        ]
    );
    assert_eq!(
        resolve_channels(&user("billing_admin", Some(3))),
        vec![WsChannel::BranchAlerts(3), WsChannel::AdminMetrics]
    );
    assert_eq!(resolve_channels(&user("customer", None)), Vec::<WsChannel>::new());
    assert_eq!(resolve_channels(&user("technician", Some(-2))), vec![WsChannel::BranchAlerts(-2)]);
}

#[test]
fn redis_channel_names_of_all_channels() {
    assert_eq!(WsChannel::NocDevices.to_redis_channel(), "ws:noc:devices");
    assert_eq!(WsChannel::NocSessions.to_redis_channel(), "ws:noc:sessions");
    assert_eq!(WsChannel::NocDiscovery.to_redis_channel(), "ws:noc:discovery");
    assert_eq!(WsChannel::CustomerUpdates(-17).to_redis_channel(), "ws:customer:-17");
    assert_eq!(
        WsChannel::BranchAlerts(i64::MIN).to_redis_channel(),
        "ws:branch:-9223372036854775808"
    );
    assert_eq!(channel_names(&user("network_admin", Some(4))), vec![
        "ws:branch:4".to_string(),
        "ws:noc:alerts".to_string(),
        "ws:noc:devices".to_string(),
        "ws:noc:sessions".to_string(),
        "ws:noc:discovery".to_string(),
    ]);
}

#[test]
fn welcome_message_lists_channels() {
    let w = welcome(&user("finance_manager", None));
    assert_eq!(w.msg_type, "connected");
    assert_eq!(w.channel, "system");
    assert_eq!(w.user_id, 9);
    assert_eq!(w.channels, vec!["ws:admin:metrics".to_string()]);
    assert_eq!(w.message, "Connected to AeroXe realtime");
}

#[test]
fn client_messages_and_frames() {
    assert_eq!(classify_client_message("ping"), ClientMessageKind::Ping);
    assert_eq!(classify_client_message("subscribe"), ClientMessageKind::Subscribe);
    assert_eq!(classify_client_message("unsubscribe"), ClientMessageKind::Unsubscribe);
    assert_eq!(classify_client_message("PING"), ClientMessageKind::Unknown);
    assert_eq!(frame_action(IncomingFrame::Text), FrameAction::HandleMessage);
    assert_eq!(frame_action(IncomingFrame::Ping), FrameAction::ReplyPong);
    assert_eq!(frame_action(IncomingFrame::Close), FrameAction::Disconnect);
    assert_eq!(frame_action(IncomingFrame::Other), FrameAction::Ignore);
}

fn client(user_id: i64) -> ConnectedClient {
    ConnectedClient { user_id, role: "noc_engineer".to_string(), branch_id: None, channels: Vec::new() }
}

#[test]
fn connection_manager_counts_and_removes() {
    let mut m = ConnectionManager::new();
    assert_eq!(m.get_connection_count(), 0);
    m.add_client(1, client(1));
    m.add_client(2, client(2));
    m.add_client(1, client(1));
    assert_eq!(m.get_connection_count(), 3);
    m.remove_client(1);
    assert_eq!(m.get_connection_count(), 1);
    m.remove_client(5);
    assert_eq!(m.get_connection_count(), 1);
    m.remove_client(2);
    assert_eq!(m.get_connection_count(), 0);
}
