use ssh_assistant::heartbeat::{HeartbeatAction, HeartbeatManager};
use ssh_assistant::models::HeartbeatSettings;
use ssh_assistant::session_worker::{idle_sleep_ms, plan_after_heartbeat, ResetRule};
use ssh_assistant::heartbeat::HeartbeatResult;

#[test]
fn test_heartbeat_action_progression() {
    let settings = HeartbeatSettings { failed_heartbeats_before_action: 3, ..Default::default() };
    let mut manager = HeartbeatManager::new(settings);

    assert_eq!(manager.get_recommended_action(), HeartbeatAction::NoAction);

    manager.status.consecutive_failures = 1;
    assert_eq!(manager.get_recommended_action(), HeartbeatAction::SendKeepalive);

    manager.status.consecutive_failures = 3;
    assert_eq!(manager.get_recommended_action(), HeartbeatAction::ReconnectBackground);

    manager.status.consecutive_failures = 4;
    assert_eq!(manager.get_recommended_action(), HeartbeatAction::NotifyUser);

    manager.status.consecutive_failures = 5;
    assert_eq!(manager.get_recommended_action(), HeartbeatAction::ForceReconnect);
}

#[test]
fn heartbeat_test_reset() {
    let mut manager = HeartbeatManager::new(HeartbeatSettings::default());
    manager.status.consecutive_failures = 5;
    manager.status.tcp_alive = false;

    manager.reset();

    assert_eq!(manager.status.consecutive_failures, 0);
    assert!(manager.status.tcp_alive);
    assert!(manager.status.ssh_alive);
    assert!(manager.status.app_alive);
}

#[test]
fn follow_up_of_forced_reconnect_always_resets() {
    let plan = plan_after_heartbeat(&HeartbeatResult::SessionDead, HeartbeatAction::ForceReconnect);
    assert!(!plan.check_pool);
    assert!(plan.rebuild_pool);
    assert_eq!(plan.reset, ResetRule::Always);
}

#[test]
fn follow_up_of_healthy_round_checks_pool() {
    let plan = plan_after_heartbeat(&HeartbeatResult::Success, HeartbeatAction::NoAction);
    assert!(plan.check_pool);
    assert!(!plan.rebuild_pool);
    assert!(!plan.send_keepalive);
    assert_eq!(plan.reset, ResetRule::Never);
    let bg = plan_after_heartbeat(&HeartbeatResult::Timeout, HeartbeatAction::ReconnectBackground);
    assert_eq!(bg.reset, ResetRule::OnSuccess);
    let notify = plan_after_heartbeat(&HeartbeatResult::Timeout, HeartbeatAction::NotifyUser);
    assert!(notify.rebuild_pool);
    assert_eq!(notify.reset, ResetRule::Never);
}

#[test]
fn idle_sleep_is_capped() {
    assert_eq!(idle_sleep_ms(15), 100);
    assert_eq!(idle_sleep_ms(0), 0);
}
