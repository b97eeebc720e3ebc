use lifx_api_server::rate_limit::{RateLimiter, MAX_AUTH_ATTEMPTS};

#[test]
fn test_rate_limiter_basic() {
    let mut limiter = RateLimiter::new();
    let client_ip = "192.168.1.1".to_string();

    assert!(limiter.check_and_update(client_ip.clone()));

    for _ in 1..MAX_AUTH_ATTEMPTS {
        assert!(limiter.check_and_update(client_ip.clone()));
    }

    assert!(!limiter.check_and_update(client_ip.clone()));
}

#[test]
fn test_rate_limiter_window_reset() {
    let mut limiter = RateLimiter::new();
    let client_ip = "192.168.1.2".to_string();

    for _ in 0..MAX_AUTH_ATTEMPTS {
        assert!(limiter.check_and_update_at(client_ip.clone(), 1_000));
    }

    assert!(!limiter.check_and_update_at(client_ip.clone(), 1_000));
    assert!(!limiter.check_and_update_at(client_ip.clone(), 61_000));

    let client_ip2 = "192.168.1.3".to_string();
    assert!(limiter.check_and_update_at(client_ip2, 61_000));

    assert!(limiter.check_and_update_at(client_ip.clone(), 61_001));
    for _ in 1..MAX_AUTH_ATTEMPTS {
        assert!(limiter.check_and_update_at(client_ip.clone(), 61_002));
    }
    assert!(!limiter.check_and_update_at(client_ip, 61_003));
}

#[test]
fn test_rate_limiter_different_ips() {
    let mut limiter = RateLimiter::new();

    for i in 0..10 {
        let ip = format!("192.168.1.{}", i);
        assert!(limiter.check_and_update(ip));
    }
}

#[test]
fn test_rate_limiter_cleanup() {
    let mut limiter = RateLimiter::new();

    for i in 0..5 {
        let ip = format!("192.168.1.{}", i);
        limiter.check_and_update(ip);
    }

    limiter.cleanup_old_entries();

    let test_ip = "192.168.1.0".to_string();
    for _ in 1..MAX_AUTH_ATTEMPTS {
        assert!(limiter.check_and_update(test_ip.clone()));
    }
    assert!(!limiter.check_and_update(test_ip));
}

#[test]
fn test_cleanup_removes_only_idle_counters() {
    let mut limiter = RateLimiter::new();
    let old = "10.0.0.1".to_string();
    let new = "10.0.0.2".to_string();
    for _ in 0..5 {
        assert!(limiter.check_and_update_at(old.clone(), 0));
    }
    for _ in 0..5 {
        assert!(limiter.check_and_update_at(new.clone(), 100_000));
    }
    limiter.cleanup_old_entries_at(120_000);
    assert!(!limiter.check_and_update_at(new.clone(), 120_000));
    limiter.cleanup_old_entries_at(120_001);
    assert!(!limiter.check_and_update_at(new.clone(), 120_001));

    let mut swept = RateLimiter::new();
    for _ in 0..5 {
        assert!(swept.check_and_update_at(old.clone(), 0));
    }
    assert!(!swept.check_and_update_at(old.clone(), 10));
    swept.cleanup_old_entries_at(120_001);
    assert!(swept.check_and_update_at(old.clone(), 120_001));
    for _ in 1..5 {
        assert!(swept.check_and_update_at(old.clone(), 120_002));
    }
    assert!(!swept.check_and_update_at(old, 120_003));
}

#[test]
fn test_config_change_rate_limiting() {
    let mut limiter = RateLimiter::new();
    let client_ip = "192.168.1.100".to_string();

    for _ in 0..5 {
        assert!(limiter.check_config_change_limit(client_ip.clone()));
    }

    assert!(!limiter.check_config_change_limit(client_ip.clone()));
}

#[test]
fn test_config_change_rate_limiting_different_ips() {
    let mut limiter = RateLimiter::new();

    for i in 0..10 {
        let ip = format!("192.168.1.{}", i);
        assert!(limiter.check_config_change_limit(ip));
    }
}

#[test]
fn test_config_change_cleanup() {
    let mut limiter = RateLimiter::new();

    for i in 0..3 {
        let ip = format!("192.168.2.{}", i);
        limiter.check_config_change_limit(ip);
    }

    limiter.cleanup_old_entries();

    assert!(limiter.check_config_change_limit("192.168.2.100".to_string()));
}

#[test]
fn test_config_window_is_five_minutes_and_apart_from_authentication() {
    let mut limiter = RateLimiter::new();
    let ip = "172.16.0.1".to_string();
    for _ in 0..5 {
        assert!(limiter.check_config_change_limit_at(ip.clone(), 1_000));
    }
    assert!(!limiter.check_config_change_limit_at(ip.clone(), 61_001));
    assert!(!limiter.check_config_change_limit_at(ip.clone(), 301_000));
    assert!(limiter.check_and_update_at(ip.clone(), 301_000));
    assert!(limiter.check_config_change_limit_at(ip.clone(), 301_001));

    let mut idle = RateLimiter::new();
    for _ in 0..5 {
        assert!(idle.check_config_change_limit_at(ip.clone(), 0));
    }
    assert!(!idle.check_config_change_limit_at(ip.clone(), 200_000));
    idle.cleanup_old_entries_at(600_000);
    assert!(idle.check_config_change_limit_at(ip.clone(), 600_000));
    assert!(idle.check_config_change_limit_at(ip.clone(), 600_000));
}
