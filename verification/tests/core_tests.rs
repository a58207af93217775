use skunk_bat::config::FeatureFlags;
use skunk_bat::defense::{ActionType, DefenseAction, QuarantineRecord};
use skunk_bat::error::SkunkBatError;
use skunk_bat::primal_foundation::config::CommonConfig;
use skunk_bat::primal_foundation::error::PrimalError;
use skunk_bat::primal_foundation::health::{DependencyHealth, HealthReport, HealthStatus};
use skunk_bat::primal_foundation::lifecycle::PrimalState;
use skunk_bat::primal_foundation::types::Timestamp;
use skunk_bat::threats::genetic::LayerTopologyValidator;
use skunk_bat::threats::types::{PathValidation, Severity};
use skunk_bat::DEFAULT_PORT;

#[test]
fn default_feature_flags_all_enabled() {
    let flags = FeatureFlags::default();
    assert!(flags.reconnaissance);
    assert!(flags.threat_detection);
    assert!(flags.auto_defense);
    assert!(flags.observability);
}

#[test]
fn test_action_type_equality() {
    assert_eq!(ActionType::Quarantine, ActionType::Quarantine);
    assert_ne!(ActionType::Quarantine, ActionType::Block);
}

#[test]
fn test_quarantine_record_creation() {
    let record = QuarantineRecord {
        source: "192.168.1.100".to_string(),
        started_at: Timestamp::now(),
        reason: "Suspicious activity".to_string(),
        threat_id: "threat-123".to_string(),
    };

    assert_eq!(record.source, "192.168.1.100");
    assert_eq!(record.threat_id, "threat-123");
}

#[test]
fn test_defense_action_variants() {
    let action1 = DefenseAction {
        action_type: ActionType::Quarantine,
        target: "test".to_string(),
        requires_approval: false,
        reason: "test".to_string(),
    };
    assert_eq!(action1.action_type, ActionType::Quarantine);

    let action2 = DefenseAction {
        action_type: ActionType::Block,
        target: "test".to_string(),
        requires_approval: false,
        reason: "test".to_string(),
    };
    assert_eq!(action2.action_type, ActionType::Block);
}

#[test]
fn error_display_messages() {
    let e = SkunkBatError::Config("bad value".to_owned());
    assert_eq!(e.message(), "configuration error: bad value");

    let e = SkunkBatError::Reconnaissance("scan failed".to_owned());
    assert!(e.message().contains("scan failed"));

    let e = SkunkBatError::ThreatDetection("anomaly".to_owned());
    assert!(e.message().contains("anomaly"));

    let e = SkunkBatError::Defense("blocked".to_owned());
    assert!(e.message().contains("blocked"));

    let e = SkunkBatError::Observability("metrics lost".to_owned());
    assert!(e.message().contains("metrics lost"));

    let e = SkunkBatError::LineageVerification("unknown peer".to_owned());
    assert!(e.message().contains("unknown peer"));

    let e = SkunkBatError::Integration("timeout".to_owned());
    assert!(e.message().contains("timeout"));

    let e = SkunkBatError::Internal("panic".to_owned());
    assert!(e.message().contains("panic"));
}

#[test]
fn error_is_std_error() {
    let e = SkunkBatError::Config("test".to_owned());
    assert!(e.message().contains("test"));
}

#[test]
fn test_default_port_constant() {
    assert_eq!(DEFAULT_PORT, 9750);
}

#[test]
fn common_config_default() {
    let config = CommonConfig::default();
    assert_eq!(config.name, "primal");
    assert_eq!(config.log_level, "info");
    assert_eq!(config.listen_port, 0);
    assert!(config.identity_service_endpoint.is_none());
    assert!(config.discovery_service_endpoint.is_none());
    assert!(!config.instance_id.is_empty());
}

#[test]
fn common_config_unique_instance_ids() {
    let c1 = CommonConfig::default();
    let c2 = CommonConfig::default();
    assert_ne!(c1.instance_id, c2.instance_id);
}

#[test]
fn error_constructors() {
    assert!(matches!(PrimalError::config("x"), PrimalError::Config(_)));
    assert!(matches!(PrimalError::identity("x"), PrimalError::Identity(_)));
    assert!(matches!(PrimalError::discovery("x"), PrimalError::Discovery(_)));
    assert!(matches!(PrimalError::lifecycle("x"), PrimalError::Lifecycle(_)));
    assert!(matches!(
        PrimalError::dependency("svc", "msg"),
        PrimalError::Dependency { .. }
    ));
    assert!(matches!(PrimalError::domain("d", "m"), PrimalError::Domain { .. }));
}

#[test]
fn error_display() {
    let err = PrimalError::config("invalid setting");
    assert_eq!(err.message(), "configuration error: invalid setting");

    let err = PrimalError::dependency("database", "connection failed");
    assert_eq!(err.message(), "dependency error: database: connection failed");
}

#[test]
fn error_retryable() {
    assert!(PrimalError::Network("timeout".to_owned()).is_retryable());
    assert!(PrimalError::Timeout("slow".to_owned()).is_retryable());
    assert!(PrimalError::dependency("db", "down").is_retryable());

    assert!(!PrimalError::Config("bad".to_owned()).is_retryable());
    assert!(!PrimalError::InvalidInput("wrong".to_owned()).is_retryable());
}

#[test]
fn error_from_io() {
    let io_err = std::io::Error::new(std::io::ErrorKind::NotFound, "not found");
    let err: PrimalError = io_err.into();
    assert!(matches!(err, PrimalError::Io(_)));
}

#[test]
fn health_status_variants() {
    assert!(HealthStatus::Healthy.is_healthy());
    assert!(HealthStatus::Healthy.is_serving());

    let degraded = HealthStatus::Degraded { reason: "slow".to_owned() };
    assert!(!degraded.is_healthy());
    assert!(degraded.is_serving());

    let unhealthy = HealthStatus::Unhealthy { reason: "down".to_owned() };
    assert!(!unhealthy.is_healthy());
    assert!(!unhealthy.is_serving());

    assert!(!HealthStatus::Unknown.is_healthy());
    assert!(!HealthStatus::Unknown.is_serving());
}

#[test]
fn health_status_display() {
    assert_eq!(HealthStatus::Healthy.to_text(), "healthy");
    assert_eq!(
        HealthStatus::Degraded { reason: "slow".to_owned() }.to_text(),
        "degraded: slow"
    );
    assert_eq!(HealthStatus::Unknown.to_text(), "unknown");
}

#[test]
fn dependency_health_builder() {
    let dep = DependencyHealth::healthy("postgres", "database").with_latency(50);
    assert_eq!(dep.name, "postgres");
    assert_eq!(dep.latency_ms, Some(50));
    assert!(dep.status.is_healthy());
}

#[test]
fn dependency_health_unhealthy() {
    let dep = DependencyHealth::unhealthy("redis", "cache", "connection refused");
    assert!(!dep.status.is_healthy());
}

#[test]
fn health_report_readiness_tracks_status() {
    let healthy = HealthReport::new("t", "1").with_status(HealthStatus::Healthy);
    assert!(healthy.readiness);

    let unhealthy = HealthReport::new("t", "1").with_status(HealthStatus::Unhealthy {
        reason: "down".to_owned(),
    });
    assert!(!unhealthy.readiness);
}

#[test]
fn state_transitions() {
    assert!(PrimalState::Created.can_start());
    assert!(!PrimalState::Created.can_stop());
    assert!(!PrimalState::Created.is_running());

    assert!(!PrimalState::Running.can_start());
    assert!(PrimalState::Running.can_stop());
    assert!(PrimalState::Running.is_running());

    assert!(PrimalState::Stopped.can_start());
    assert!(!PrimalState::Stopped.can_stop());

    assert!(PrimalState::Failed.can_start());
    assert!(!PrimalState::Failed.can_stop());
}

#[test]
fn state_display() {
    assert_eq!(PrimalState::Created.to_text(), "created");
    assert_eq!(PrimalState::Running.to_text(), "running");
    assert_eq!(PrimalState::Failed.to_text(), "failed");
}

#[test]
fn timestamp_from_secs() {
    let ts = Timestamp::from_secs(1_234_567_890);
    assert_eq!(ts.secs, 1_234_567_890);
    assert_eq!(ts.nanos, 0);
}

#[test]
fn timestamp_from_millis() {
    let ts = Timestamp::from_millis(1500);
    assert_eq!(ts.secs, 1);
    assert_eq!(ts.nanos, 500_000_000);
}

#[test]
fn timestamp_as_millis() {
    let ts = Timestamp { secs: 10, nanos: 500_000_000 };
    assert_eq!(ts.as_millis(), 10_500);
}

#[test]
fn timestamp_display_and_debug() {
    let ts = Timestamp::from_secs(0);
    assert!(!ts.display_text().is_empty());
    assert!(format!("{ts:?}").contains("Timestamp"));
}

#[test]
fn topology_validator_construction() {
    let validator = LayerTopologyValidator::new(vec![1, 2, 3, 4]);
    assert_eq!(validator.expected_path(), vec![1, 2, 3, 4]);
}

#[test]
fn test_severity_ordering() {
    assert!(Severity::Low < Severity::Medium);
    assert!(Severity::Medium < Severity::High);
    assert!(Severity::High < Severity::Critical);
}

#[test]
fn test_layer_topology_expected_path() {
    let validator = LayerTopologyValidator::new(vec![1, 2, 3]);
    assert_eq!(validator.expected_path(), vec![1, 2, 3]);
}

#[test]
fn test_severity_display_all_variants() {
    let variants = [Severity::Low, Severity::Medium, Severity::High, Severity::Critical];
    for v in &variants {
        assert!(!format!("{v:?}").is_empty());
    }
}

#[test]
fn severity_ordering() {
    assert!(Severity::Low < Severity::Medium);
    assert!(Severity::Medium < Severity::High);
    assert!(Severity::High < Severity::Critical);
}

#[test]
fn severity_equality() {
    assert_eq!(Severity::Critical, Severity::Critical);
    assert_ne!(Severity::Low, Severity::High);
}

#[test]
fn severity_clone() {
    let s = Severity::High;
    let cloned = s;
    assert_eq!(s, cloned);
}

#[test]
fn path_validation_valid_path() {
    let pv = PathValidation {
        is_valid: true,
        expected_path: vec![0, 1, 2, 3],
        actual_path: vec![0, 1, 2, 3],
        bypassed_layers: vec![],
    };
    assert!(pv.is_valid);
    assert!(pv.bypassed_layers.is_empty());
}

#[test]
fn read_total_forks_nonzero() {
    // The accounting text of a running Linux system.
    let stat = "cpu  4705 356 584 3699 23 23 0 0 0 0\nintr 114930548 113199788 3 0 5\nctxt 1990473\nbtime 1062191376\nprocesses 2915\nprocs_running 1\nprocs_blocked 0\n";
    assert!(skunk_bat::platform::read_total_forks(stat) > 0, "/proc/stat should report forks");
}
