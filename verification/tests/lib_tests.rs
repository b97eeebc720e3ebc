use lifx_api_server::auth::{requires_elevated_permissions, Config};
use lifx_api_server::backoff::{
    backoff_delay_ms, classify_error, Recovery, SocketErrorKind, Worker, MAX_DELAY,
};
use lifx_api_server::color::{
    levels_from_rgb, LifxColor, HUE_BLUE, HUE_CYAN, HUE_GREEN, HUE_ORANGE, HUE_PINK, HUE_PURPLE,
    HUE_RED, HUE_YELLOW,
};
use lifx_api_server::device::{BulbInfo, LifxGroup, LifxLocation, SocketAddress};
use lifx_api_server::device_management::{RebootRequest, SetLabelRequest, WiFiConfigRequest};
use lifx_api_server::number::{Number, CHANNEL_MAX};
use lifx_api_server::staleness::{RefreshRequest, RefreshableData};

fn degrees(d: u32) -> Number {
    Number::from_units(d)
}

fn fraction(x: f64) -> Number {
    Number::from_nanos((x * 1e9).round() as i64)
}

fn convert_rgb_to_hsbk(red: u8, green: u8, blue: u8) -> (u16, u16) {
    let (hue, saturation, _) = levels_from_rgb(red, green, blue);
    (hue, saturation)
}

fn sample_address() -> SocketAddress {
    SocketAddress { ip: 0xC0A8_0164, port: 56700 }
}

#[test]
fn test_bulb_info_new() {
    let source = 0x12345678;
    let target = 0xABCDEF123456;
    let addr = sample_address();

    let bulb = BulbInfo::new(source, target, addr, "abc".to_string(), "def".to_string(), 7);

    assert_eq!(bulb.source, source);
    assert_eq!(bulb.target, target);
    assert_eq!(bulb.addr, addr);
    assert_eq!(bulb.connected, true);
    assert_eq!(bulb.power, "off");
    assert_eq!(bulb.brightness, fraction(0.0));
    assert!(bulb.lifx_color.is_none());
    assert!(bulb.lifx_group.is_none());
    assert!(bulb.lifx_location.is_none());
    assert!(bulb.product.is_none());
    assert_eq!(bulb.id, "abc");
    assert_eq!(bulb.uuid, "def");
    assert_eq!(bulb.last_seen, 7);
}

#[test]
fn test_bulb_info_update() {
    let addr1 = sample_address();
    let addr2 = SocketAddress { ip: 0xC0A8_0165, port: 56700 };

    let mut bulb = BulbInfo::new(1, 2, addr1, "a".to_string(), "b".to_string(), 100);
    let initial_last_seen = bulb.last_seen;

    bulb.update(addr2, 110);

    assert_eq!(bulb.addr, addr2);
    assert!(bulb.last_seen > initial_last_seen);
}

#[test]
fn test_bulb_info_with_none_fields() {
    let bulb = BulbInfo::new(1, 2, sample_address(), "a".to_string(), "b".to_string(), 0);
    assert!(bulb.lifx_group.is_none());
    assert!(bulb.lifx_location.is_none());
    assert!(bulb.lifx_color.is_none());
    assert!(bulb.product.is_none());
}

#[test]
fn test_refreshable_data_empty() {
    let data: RefreshableData<String> = RefreshableData::empty(60_000, RefreshRequest::GetLabel, 0);

    assert!(data.data.is_none());
    assert!(data.needs_refresh(0));
    assert!(data.needs_refresh(1_000_000));
    assert!(data.as_ref().is_none());
}

#[test]
fn test_refreshable_data_update() {
    let mut data: RefreshableData<String> =
        RefreshableData::empty(60_000, RefreshRequest::GetLabel, 0);

    data.update("Test Label".to_string(), 5);

    assert!(data.data.is_some());
    assert!(!data.needs_refresh(5));
    assert_eq!(data.as_ref().unwrap(), "Test Label");
}

#[test]
fn test_refreshable_data_expiration() {
    let mut data: RefreshableData<String> = RefreshableData::empty(10, RefreshRequest::GetLabel, 0);

    data.update("Test Label".to_string(), 100);
    assert!(!data.needs_refresh(100));
    assert!(!data.needs_refresh(110));

    assert!(data.needs_refresh(115));
}

#[test]
fn test_lifx_color_creation() {
    let color = LifxColor { hue: HUE_CYAN, saturation: CHANNEL_MAX, kelvin: 3500, brightness: 32768 };

    assert_eq!(color.hue, HUE_CYAN);
    assert_eq!(color.saturation, CHANNEL_MAX);
    assert_eq!(color.kelvin, 3500);
    assert_eq!(color.brightness, 32768);
}

#[test]
fn test_lifx_group_creation() {
    let group = LifxGroup { id: "group123".to_string(), name: "Living Room".to_string() };

    assert_eq!(group.id, "group123");
    assert_eq!(group.name, "Living Room");
}

#[test]
fn test_lifx_location_creation() {
    let location = LifxLocation { id: "loc456".to_string(), name: "Home".to_string() };

    assert_eq!(location.id, "loc456");
    assert_eq!(location.name, "Home");
}

#[test]
fn test_config_creation() {
    let config = Config { secret_key: "test_secret".to_string(), port: 8080 };

    assert_eq!(config.secret_key, "test_secret");
    assert_eq!(config.port, 8080);
}

#[test]
fn test_color_conversion_red() {
    let (hue, saturation) = convert_rgb_to_hsbk(255, 0, 0);
    assert_eq!(hue, 0);
    assert_eq!(saturation, CHANNEL_MAX);
}

#[test]
fn test_color_conversion_green() {
    let (hue, saturation) = convert_rgb_to_hsbk(0, 255, 0);
    assert!((hue as i32 - 21845).abs() < 100);
    assert_eq!(saturation, CHANNEL_MAX);
}

#[test]
fn test_color_conversion_blue() {
    let (hue, saturation) = convert_rgb_to_hsbk(0, 0, 255);
    assert!((hue as i32 - 43690).abs() < 100);
    assert_eq!(saturation, CHANNEL_MAX);
}

#[test]
fn test_color_conversion_white() {
    let (_, saturation) = convert_rgb_to_hsbk(255, 255, 255);
    assert_eq!(saturation, 0);
}

#[test]
fn test_color_conversion_yellow() {
    let (hue, saturation) = convert_rgb_to_hsbk(255, 255, 0);
    assert!((hue as i32 - HUE_YELLOW as i32).abs() < 100);
    assert_eq!(saturation, CHANNEL_MAX);
}

#[test]
fn test_color_conversion_cyan() {
    let (hue, saturation) = convert_rgb_to_hsbk(0, 255, 255);
    assert!((hue as i32 - HUE_CYAN as i32).abs() < 100);
    assert_eq!(saturation, CHANNEL_MAX);
}

#[test]
fn test_color_conversion_magenta() {
    let (hue, saturation) = convert_rgb_to_hsbk(255, 0, 255);
    let expected_hue = degrees(300).to_wrapped_hue();
    assert!((hue as i32 - expected_hue as i32).abs() < 100);
    assert_eq!(saturation, CHANNEL_MAX);
}

#[test]
fn test_color_conversion_orange() {
    let (hue, saturation) = convert_rgb_to_hsbk(255, 165, 0);
    assert!((hue as i32 - HUE_ORANGE as i32).abs() < 500);
    assert_eq!(saturation, CHANNEL_MAX);
}

#[test]
fn test_color_conversion_purple() {
    let (hue, saturation) = convert_rgb_to_hsbk(128, 0, 128);
    let expected_hue = degrees(300).to_wrapped_hue();
    assert!((hue as i32 - expected_hue as i32).abs() < 100);
    assert_eq!(saturation, CHANNEL_MAX);
}

#[test]
fn test_color_conversion_gray() {
    let (_, saturation) = convert_rgb_to_hsbk(128, 128, 128);
    assert_eq!(saturation, 0);
}

#[test]
fn test_color_conversion_black() {
    let (_, saturation) = convert_rgb_to_hsbk(0, 0, 0);
    assert_eq!(saturation, 0);
}

#[test]
fn test_parse_f64_safe_valid() {
    assert_eq!(Number::parse(b"12.34").unwrap(), fraction(12.34));
    assert_eq!(Number::parse(b"0").unwrap(), fraction(0.0));
    assert_eq!(Number::parse(b"-5.67").unwrap(), fraction(-5.67));
}

#[test]
fn test_parse_f64_safe_invalid() {
    assert!(Number::parse(b"abc").is_none());
    assert!(Number::parse(b"").is_none());
    assert!(Number::parse(b"12.34.56").is_none());
}

#[test]
fn test_lifx_hue_conversion_boundaries() {
    assert_eq!(degrees(0).to_wrapped_hue(), 0);
    assert_eq!(degrees(360).to_wrapped_hue(), 0);
    assert_eq!(degrees(180).to_wrapped_hue(), 32768);
    assert_eq!(degrees(90).to_wrapped_hue(), 16384);
    assert_eq!(degrees(270).to_wrapped_hue(), 49152);
}

#[test]
fn test_lifx_saturation_brightness_conversion() {
    let full_sat = fraction(1.0).to_level();
    assert_eq!(full_sat, 65535);

    let half_sat = fraction(0.5).to_level();
    assert!((half_sat as i32 - 32768).abs() <= 1);

    let no_sat = fraction(0.0).to_level();
    assert_eq!(no_sat, 0);

    let full_bright = fraction(1.0).to_level();
    assert_eq!(full_bright, 65535);

    let half_bright = fraction(0.5).to_level();
    assert!((half_bright as i32 - 32768).abs() <= 1);

    let no_bright = fraction(0.0).to_level();
    assert_eq!(no_bright, 0);
}

#[test]
fn test_named_color_constants() {
    assert_eq!(HUE_RED, 0);

    let expected_orange = degrees(39).to_wrapped_hue();
    assert!((HUE_ORANGE as i32 - expected_orange as i32).abs() < 10);

    let expected_yellow = degrees(60).to_wrapped_hue();
    assert!((HUE_YELLOW as i32 - expected_yellow as i32).abs() < 10);

    let expected_green = degrees(120).to_wrapped_hue();
    assert!((HUE_GREEN as i32 - expected_green as i32).abs() < 10);

    let expected_cyan = degrees(180).to_wrapped_hue();
    assert_eq!(HUE_CYAN, expected_cyan);

    let expected_blue = degrees(240).to_wrapped_hue();
    assert!((HUE_BLUE as i32 - expected_blue as i32).abs() < 10);

    let expected_purple = degrees(275).to_wrapped_hue();
    assert!((HUE_PURPLE as i32 - expected_purple as i32).abs() < 10);

    let expected_pink = degrees(350).to_wrapped_hue();
    assert!((HUE_PINK as i32 - expected_pink as i32).abs() < 10);
}

#[test]
fn test_exponential_backoff_calculation() {
    for consecutive_errors in 1..10u32 {
        let delay = backoff_delay_ms(consecutive_errors);

        if consecutive_errors == 1 {
            assert_eq!(delay, 100);
        } else if consecutive_errors == 2 {
            assert_eq!(delay, 200);
        } else if consecutive_errors == 3 {
            assert_eq!(delay, 400);
        } else if consecutive_errors == 4 {
            assert_eq!(delay, 800);
        } else if consecutive_errors == 5 {
            assert_eq!(delay, 1600);
        } else if consecutive_errors == 6 {
            assert_eq!(delay, 3200);
        } else if consecutive_errors == 7 {
            assert_eq!(delay, 6400);
        } else if consecutive_errors == 8 {
            assert_eq!(delay, 12800);
        } else if consecutive_errors == 9 {
            assert_eq!(delay, 25600);
        }
    }

    let high_error_count: u32 = 20;
    let delay = backoff_delay_ms(high_error_count);
    assert_eq!(delay, MAX_DELAY);
    assert_eq!(MAX_DELAY, 30 * 1000);
}

#[test]
fn test_backoff_saturates_for_every_high_count() {
    assert_eq!(backoff_delay_ms(0), 100);
    assert_eq!(backoff_delay_ms(10), 30_000);
    assert_eq!(backoff_delay_ms(11), 30_000);
    assert_eq!(backoff_delay_ms(64), 30_000);
    assert_eq!(backoff_delay_ms(65), 30_000);
    assert_eq!(backoff_delay_ms(u32::MAX), 30_000);
}

#[test]
fn test_error_handling_different_error_types() {
    let error_types = vec![
        SocketErrorKind::WouldBlock,
        SocketErrorKind::TimedOut,
        SocketErrorKind::Interrupted,
        SocketErrorKind::ConnectionReset,
        SocketErrorKind::ConnectionAborted,
        SocketErrorKind::Other,
        SocketErrorKind::Other,
        SocketErrorKind::Other,
    ];

    for error_kind in error_types {
        match classify_error(error_kind) {
            Recovery::RetryAfterTimeout => {
                assert!(
                    matches!(error_kind, SocketErrorKind::WouldBlock | SocketErrorKind::TimedOut),
                    "Should handle timeout/wouldblock"
                );
            }
            Recovery::RetryAfterInterrupt => {
                assert!(
                    matches!(error_kind, SocketErrorKind::Interrupted),
                    "Should handle interruption"
                );
            }
            Recovery::RetryAfterConnectionLoss => {
                assert!(
                    matches!(
                        error_kind,
                        SocketErrorKind::ConnectionReset | SocketErrorKind::ConnectionAborted
                    ),
                    "Should handle connection issues"
                );
            }
            Recovery::RetryAfterUnknown => {
                assert!(
                    matches!(error_kind, SocketErrorKind::Other),
                    "Should handle other errors gracefully"
                );
            }
        }
    }
}

#[test]
fn test_worker_counts_errors_and_resets() {
    let mut worker = Worker::new();
    let mut delays = Vec::new();
    for _ in 0..9 {
        let b = worker.on_error(SocketErrorKind::TimedOut);
        assert!(!b.critical);
        delays.push(b.delay);
    }
    assert_eq!(delays, vec![100, 200, 400, 800, 1600, 3200, 6400, 12800, 25600]);
    assert_eq!(worker.consecutive_errors(), 9);

    let tenth = worker.on_error(SocketErrorKind::Other);
    assert!(tenth.critical);
    assert_eq!(tenth.delay, 30_000);
    assert_eq!(worker.consecutive_errors(), 0);

    let again = worker.on_error(SocketErrorKind::Interrupted);
    assert_eq!(again.delay, 100);
    assert_eq!(again.recovery, Recovery::RetryAfterInterrupt);
    worker.on_datagram();
    assert_eq!(worker.consecutive_errors(), 0);
    assert_eq!(worker.on_error(SocketErrorKind::WouldBlock).delay, 100);
}

#[test]
fn test_elevated_permissions_check() {
    assert!(requires_elevated_permissions("/wifi"));
    assert!(requires_elevated_permissions("/reboot"));
    assert!(!requires_elevated_permissions("/label"));
    assert!(!requires_elevated_permissions("/config"));
    assert!(!requires_elevated_permissions("/info"));
}

#[test]
fn test_device_management_request_structures() {
    let label_req = SetLabelRequest { label: "Test Label".to_string() };
    assert_eq!(label_req.label, "Test Label");

    let wifi_req = WiFiConfigRequest {
        ssid: "TestNetwork".to_string(),
        pass: "TestPassword".to_string(),
        security: Some(3),
    };
    assert_eq!(wifi_req.ssid, "TestNetwork");
    assert_eq!(wifi_req.security, Some(3));

    let reboot_req = RebootRequest { delay: Some(30) };
    assert_eq!(reboot_req.delay, Some(30));
}

#[test]
fn test_label_validation_length() {
    let long_label =
        "This is a very long label that exceeds the 32 character limit for LIFX devices";
    assert!(long_label.len() > 32);

    let short_label = "Valid Label";
    assert!(short_label.len() <= 32);
}

#[test]
fn lib_test_wifi_config_validation() {
    let valid_ssid = "MyNetwork";
    assert!(valid_ssid.len() > 0 && valid_ssid.len() <= 32);

    let long_ssid = "ThisIsAVeryLongSSIDThatExceedsTheMaximumAllowedLength";
    assert!(long_ssid.len() > 32);

    let valid_pass = "MySecurePassword123";
    assert!(valid_pass.len() <= 64);

    let long_pass =
        "ThisIsAnExtremelyLongPasswordThatExceedsTheSixtyFourCharacterLimitForWiFiPasswords";
    assert!(long_pass.len() > 64);
}
