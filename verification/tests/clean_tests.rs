use lifx_api_server::clean::{CleanHandler, CleanRequest, CleanResponse, CleanResult};
use lifx_api_server::device::{
    handle_message, BulbInfo, InboundMessage, ProductCapabilities, ProductInfo, SocketAddress,
};

#[test]
fn test_clean_request_creation() {
    let request = CleanRequest { duration: Some(3600), stop: Some(false) };

    assert_eq!(request.duration.unwrap(), 3600);
    assert_eq!(request.stop.unwrap(), false);
}

#[test]
fn test_clean_request_stop() {
    let request = CleanRequest { duration: None, stop: Some(true) };

    assert!(request.duration.is_none());
    assert_eq!(request.stop.unwrap(), true);
}

#[test]
fn test_clean_result_creation() {
    let result = CleanResult {
        id: "test_id".to_string(),
        label: "Test Bulb".to_string(),
        status: "ok".to_string(),
        message: Some("Clean mode started".to_string()),
    };

    assert_eq!(result.id, "test_id");
    assert_eq!(result.label, "Test Bulb");
    assert_eq!(result.status, "ok");
    assert_eq!(result.message.unwrap(), "Clean mode started");
}

#[test]
fn test_clean_response_creation() {
    let response = CleanResponse {
        results: vec![
            CleanResult {
                id: "bulb1".to_string(),
                label: "Bulb 1".to_string(),
                status: "ok".to_string(),
                message: None,
            },
            CleanResult {
                id: "bulb2".to_string(),
                label: "Bulb 2".to_string(),
                status: "error".to_string(),
                message: Some("Device does not support HEV".to_string()),
            },
        ],
    };

    assert_eq!(response.results.len(), 2);
    assert_eq!(response.results[0].status, "ok");
    assert_eq!(response.results[1].status, "error");
}

#[test]
fn test_handle_clean_tells_capable_devices_apart() {
    let addr = SocketAddress { ip: 1, port: 56700 };
    let plain = BulbInfo::new(1, 10, addr, "plain".to_string(), "u1".to_string(), 0);
    let mut clean = BulbInfo::new(1, 11, addr, "clean".to_string(), "u2".to_string(), 0);
    clean.label = "Bathroom".to_string();
    clean.product = Some(ProductInfo {
        name: "LIFX Clean".to_string(),
        identifier: "lifx_clean".to_string(),
        company: "LIFX".to_string(),
        vendor_id: 1,
        product_id: 90,
        capabilities: ProductCapabilities {
            has_color: true,
            has_variable_color_temp: true,
            has_ir: false,
            has_hev: true,
            has_chain: false,
            has_matrix: false,
            has_multizone: false,
            min_kelvin: 1500,
            max_kelvin: 9000,
        },
    });
    let mut known = BulbInfo::new(1, 12, addr, "known".to_string(), "u3".to_string(), 0);
    handle_message(InboundMessage::StateVersion { vendor: 1, product: 1 }, &mut known, 0).unwrap();

    let handler = CleanHandler::new();
    let bulbs = vec![&plain, &clean, &known];
    let response = handler.handle_clean(&bulbs, CleanRequest { duration: None, stop: None });

    assert_eq!(response.results.len(), 3);
    assert_eq!(response.results[0].id, "plain");
    assert_eq!(response.results[0].status, "error");
    assert_eq!(
        response.results[0].message.as_deref(),
        Some("Device does not support HEV/Clean mode")
    );
    assert_eq!(response.results[1].id, "clean");
    assert_eq!(response.results[1].label, "Bathroom");
    assert_eq!(response.results[1].status, "ok");
    assert_eq!(response.results[2].status, "error");
}
