//! Health of history archives.

use std::time::Duration;

use stellar_k8s::controller::archive_health::{calculate_backoff, ArchiveHealthResult};

#[test]
fn test_backoff_calculation() {
    // Attempt 0: 15 seconds
    assert_eq!(calculate_backoff(0, None, None), Duration::from_secs(15));
    
    // Attempt 1: 30 seconds
    assert_eq!(calculate_backoff(1, None, None), Duration::from_secs(30));
    
    // Attempt 2: 60 seconds
    assert_eq!(calculate_backoff(2, None, None), Duration::from_secs(60));
    
    // Attempt 3: 120 seconds
    assert_eq!(calculate_backoff(3, None, None), Duration::from_secs(120));
    
    // Attempt 4: 240 seconds
    assert_eq!(calculate_backoff(4, None, None), Duration::from_secs(240));
    
    // Attempt 5+: capped at 300 seconds (5 minutes)
    assert_eq!(calculate_backoff(5, None, None), Duration::from_secs(300));
    assert_eq!(calculate_backoff(10, None, None), Duration::from_secs(300));
}

#[test]
fn test_health_result_summary() {
    let result = ArchiveHealthResult::new(
        vec!["http://archive1.com".to_string()],
        vec![],
    );
    assert!(result.all_healthy);
    assert!(result.any_healthy);
    assert_eq!(result.summary(), "All 1 archive(s) healthy");

    let result = ArchiveHealthResult::new(
        vec!["http://archive1.com".to_string()],
        vec![("http://archive2.com".to_string(), "timeout".to_string())],
    );
    assert!(!result.all_healthy);
    assert!(result.any_healthy);
    assert_eq!(result.summary(), "1 healthy, 1 unhealthy archive(s)");

    let result = ArchiveHealthResult::new(
        vec![],
        vec![("http://archive1.com".to_string(), "timeout".to_string())],
    );
    assert!(!result.all_healthy);
    assert!(!result.any_healthy);
    assert_eq!(result.summary(), "All 1 archive(s) unhealthy");
}

#[test]
fn test_health_result_empty() {
    let result = ArchiveHealthResult::new(vec![], vec![]);
    assert!(!result.all_healthy);
    assert!(!result.any_healthy);
    assert_eq!(result.summary(), "No archives configured");
}
