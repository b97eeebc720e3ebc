use lifx_api_server::device::{BulbInfo, LifxGroup, LifxLocation, SocketAddress};
use lifx_api_server::device_management::{
    DeviceCapabilities, DeviceManagementHandler, ManagementCommand, ManagementPlan, RebootRequest,
    SetLabelRequest, WiFiConfigRequest,
};
use lifx_api_server::registry::{Manager, SOURCE};

fn lamp(id: &str, target: u64) -> BulbInfo {
    let addr = SocketAddress { ip: 0x0A00_0001, port: 56700 };
    let mut b = BulbInfo::new(SOURCE, target, addr, id.to_string(), "uuid".to_string(), 0);
    b.label = "Lamp".to_string();
    b
}

#[test]
fn test_label_validation() {
    let handler = DeviceManagementHandler::new();
    let mgr = Manager::new(0);
    let bulb = lamp("lamp1", 1);
    let bulbs = vec![&bulb];

    let valid_request = SetLabelRequest { label: "Living Room".to_string() };
    assert!(valid_request.label.len() <= 32);
    match handler.set_device_label(&mgr, &bulbs, valid_request) {
        ManagementPlan::Send(orders) => {
            assert_eq!(orders.len(), 1);
            assert_eq!(orders[0].id, "lamp1");
            assert_eq!(orders[0].source, SOURCE);
            assert_eq!(orders[0].target, 0);
            match &orders[0].command {
                ManagementCommand::SetLabel(l) => assert_eq!(l, "Living Room"),
                other => panic!("unexpected command {:?}", other),
            }
        }
        ManagementPlan::Rejected(r) => panic!("rejected: {:?}", r),
    }

    let invalid_request = SetLabelRequest {
        label: "This is a very long label that exceeds the maximum allowed length".to_string(),
    };
    assert!(invalid_request.label.len() > 32);
    match handler.set_device_label(&mgr, &bulbs, invalid_request) {
        ManagementPlan::Rejected(r) => {
            assert_eq!(r.results.len(), 1);
            assert_eq!(r.results[0].id, "all");
            assert_eq!(r.results[0].label, "");
            assert_eq!(r.results[0].status, "error");
            assert_eq!(
                r.results[0].message.as_deref(),
                Some("Label must be 32 characters or less")
            );
        }
        ManagementPlan::Send(_) => panic!("a label of more than 32 bytes was accepted"),
    }
}

#[test]
fn test_label_of_exactly_32_bytes_is_accepted() {
    let handler = DeviceManagementHandler::new();
    let mgr = Manager::new(0);
    let bulb = lamp("42", 1);
    let bulbs = vec![&bulb];
    let label = "a".repeat(32);
    match handler.set_device_label(&mgr, &bulbs, SetLabelRequest { label }) {
        ManagementPlan::Send(orders) => assert_eq!(orders[0].target, 42),
        ManagementPlan::Rejected(_) => panic!("a label of 32 bytes was rejected"),
    }
}

#[test]
fn device_management_test_wifi_config_validation() {
    let valid_ssid = "MyNetwork";
    assert!(valid_ssid.len() > 0 && valid_ssid.len() <= 32);

    let valid_pass = "MySecurePassword123";
    assert!(valid_pass.len() <= 64);

    let handler = DeviceManagementHandler::new();
    let bulb = lamp("lamp1", 1);
    let bulbs = vec![&bulb];
    let answer = handler.update_wifi_settings(
        &bulbs,
        WiFiConfigRequest {
            ssid: valid_ssid.to_string(),
            pass: valid_pass.to_string(),
            security: Some(3),
        },
    );
    assert_eq!(answer.results.len(), 1);
    assert_eq!(answer.results[0].id, "lamp1");
    assert_eq!(answer.results[0].status, "error");
    assert_eq!(
        answer.results[0].message.as_deref(),
        Some("WiFi configuration update requires full LIFX protocol implementation")
    );

    let no_name = handler.update_wifi_settings(
        &bulbs,
        WiFiConfigRequest { ssid: String::new(), pass: String::new(), security: None },
    );
    assert_eq!(no_name.results[0].id, "all");
    assert_eq!(
        no_name.results[0].message.as_deref(),
        Some("SSID must be between 1 and 32 characters")
    );

    let long_name = handler.update_wifi_settings(
        &bulbs,
        WiFiConfigRequest { ssid: "n".repeat(33), pass: String::new(), security: None },
    );
    assert_eq!(
        long_name.results[0].message.as_deref(),
        Some("SSID must be between 1 and 32 characters")
    );

    let long_pass = handler.update_wifi_settings(
        &bulbs,
        WiFiConfigRequest { ssid: "net".to_string(), pass: "p".repeat(65), security: None },
    );
    assert_eq!(
        long_pass.results[0].message.as_deref(),
        Some("Password must be 64 characters or less")
    );
}

#[test]
fn test_device_capabilities_creation() {
    let capabilities = DeviceCapabilities {
        has_color: true,
        has_variable_color_temp: true,
        has_ir: false,
        has_chain: false,
        has_matrix: false,
        has_multizone: false,
        min_kelvin: 2500,
        max_kelvin: 9000,
    };

    assert!(capabilities.has_color);
    assert_eq!(capabilities.min_kelvin, 2500);
    assert_eq!(capabilities.max_kelvin, 9000);
}

#[test]
fn test_reboot_orders_and_reports() {
    let handler = DeviceManagementHandler::new();
    let mgr = Manager::new(0);
    let a = lamp("17", 1);
    let b = lamp("lamp2", 2);
    let bulbs = vec![&a, &b];
    let orders = handler.reboot_device(&mgr, &bulbs, RebootRequest { delay: Some(3) });
    assert_eq!(orders.len(), 2);
    assert_eq!(orders[0].target, 17);
    assert_eq!(orders[1].target, 0);
    assert!(matches!(orders[0].command, ManagementCommand::Reboot { delay: 3 }));

    let fine = handler.report(&orders[0], Ok(()));
    assert_eq!(fine.status, "rebooting");
    assert!(fine.message.is_none());
    let bad = handler.report(&orders[1], Err("no route".to_string()));
    assert_eq!(bad.status, "error");
    assert_eq!(bad.message.as_deref(), Some("no route"));

    let none = handler.reboot_device(&mgr, &bulbs, RebootRequest { delay: None });
    assert!(matches!(none[0].command, ManagementCommand::Reboot { delay: 0 }));
}

#[test]
fn test_device_config_and_extended_info() {
    let handler = DeviceManagementHandler::new();
    let mut bulb = lamp("lamp1", 1);
    bulb.lifx_group = Some(LifxGroup { id: "1".to_string(), name: "Upstairs".to_string() });
    bulb.lifx_location = Some(LifxLocation { id: "2".to_string(), name: "Home".to_string() });
    bulb.lifx_last_seen = "yesterday".to_string();

    let config = handler.fetch_device_config(&bulb);
    assert_eq!(config.id, "lamp1");
    assert_eq!(config.label, "Lamp");
    assert_eq!(config.group.as_deref(), Some("Upstairs"));
    assert_eq!(config.location.as_deref(), Some("Home"));
    assert!(config.product.is_none());
    assert!(config.version.is_none());
    assert!(config.wifi.is_none());
    assert!(config.uptime.is_none());
    assert_eq!(config.host_info.as_ref().unwrap().last_seen, "yesterday");

    let info = handler.fetch_extended_info(&bulb);
    assert_eq!(info.uuid, "uuid");
    assert_eq!(info.power, "off");
    assert_eq!(info.capabilities.min_kelvin, 2500);
    assert_eq!(info.capabilities.max_kelvin, 9000);
    assert!(info.capabilities.has_color);
    assert_eq!(info.network.ssid, "Unknown");
    assert_eq!(info.network.rssi, -50);
    assert_eq!(info.network.security_type, "WPA2");
    assert_eq!(info.firmware.major, 3);
    assert_eq!(info.firmware.minor, 70);

    let bulbs = vec![&bulb];
    assert_eq!(handler.get_device_config(&bulbs).len(), 1);
    assert_eq!(handler.get_extended_info(&bulbs).len(), 1);
}
