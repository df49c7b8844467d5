use ssh_assistant::models::NetworkQuality;
use ssh_assistant::network_monitor::NetworkMonitor;

#[test]
fn test_network_quality_from_latency() {
    assert_eq!(NetworkQuality::from_latency(30), NetworkQuality::Excellent);
    assert_eq!(NetworkQuality::from_latency(50), NetworkQuality::Good);
    assert_eq!(NetworkQuality::from_latency(100), NetworkQuality::Good);
    assert_eq!(NetworkQuality::from_latency(150), NetworkQuality::Fair);
    assert_eq!(NetworkQuality::from_latency(250), NetworkQuality::Fair);
    assert_eq!(NetworkQuality::from_latency(300), NetworkQuality::Poor);
    assert_eq!(NetworkQuality::from_latency(500), NetworkQuality::Poor);
}

#[test]
fn test_adaptive_params() {
    let monitor = NetworkMonitor::with_default_settings();
    let params = monitor.get_recommended_params();
    assert!(params.sftp_buffer_size >= 64 * 1024);
    assert!(params.heartbeat_interval_secs >= 10);
}

#[test]
fn recorded_latencies_are_averaged() {
    let mut monitor = NetworkMonitor::with_default_settings();
    monitor.record_latency_at(40, 1000, 1);
    monitor.record_latency_at(260, 2000, 2);
    let status = monitor.get_status();
    assert_eq!(status.latency_ms, 150);
    assert_eq!(status.quality, NetworkQuality::Fair);
}
