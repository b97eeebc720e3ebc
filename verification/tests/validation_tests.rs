use lifx_api_server::number::Number;
use lifx_api_server::set_states::{check_request, SetStatesHandler, StateUpdate, StatesRequest};

/// A number as a client writes it.
fn value(text: &str) -> Number {
    match text {
        "NaN" => Number::NaN,
        "Infinity" => Number::Infinite { negative: false },
        "-Infinity" => Number::Infinite { negative: true },
        other => Number::parse(other.as_bytes()).expect("a decimal numeral"),
    }
}

fn state_with(field: &str, text: &str) -> StateUpdate {
    let mut state = StateUpdate {
        selector: "all".to_string(),
        power: None,
        color: None,
        brightness: None,
        duration: None,
        infrared: None,
        fast: None,
    };
    match field {
        "brightness" => state.brightness = Some(value(text)),
        "infrared" => state.infrared = Some(value(text)),
        "duration" => state.duration = Some(value(text)),
        "power" => state.power = Some(text.to_string()),
        "color" => state.color = Some(text.to_string()),
        "selector" => state.selector = text.to_string(),
        other => panic!("no field {}", other),
    }
    state
}

fn accepted(state: StateUpdate) -> bool {
    check_request(&StatesRequest { states: vec![state], defaults: None }).is_ok()
}

#[test]
fn test_valid_brightness_values() {
    for text in ["0.0", "0.5", "1.0", "0.25", "0.75"] {
        let state = state_with("brightness", text);
        assert_eq!(state.brightness, Some(value(text)));
        assert!(accepted(state), "Should accept brightness value {}", text);
    }
}

#[test]
fn test_invalid_brightness_values() {
    let invalid_values = vec![
        ("-0.1", "negative value"),
        ("1.1", "value > 1.0"),
        ("2.0", "value > 1.0"),
        ("-1.0", "negative value"),
        ("NaN", "NaN"),
        ("Infinity", "Infinity"),
        ("-Infinity", "-Infinity"),
    ];

    for (text, description) in invalid_values {
        assert!(
            !accepted(state_with("brightness", text)),
            "Should reject brightness {} ({})",
            text,
            description
        );
    }
}

#[test]
fn test_valid_infrared_values() {
    for text in ["0.0", "0.5", "1.0", "0.25", "0.75"] {
        let state = state_with("infrared", text);
        assert_eq!(state.infrared, Some(value(text)));
        assert!(accepted(state), "Should accept infrared value {}", text);
    }
}

#[test]
fn test_invalid_infrared_values() {
    let invalid_values = vec![
        ("-0.1", "negative value"),
        ("1.1", "value > 1.0"),
        ("2.0", "value > 1.0"),
        ("-1.0", "negative value"),
        ("NaN", "NaN"),
        ("Infinity", "Infinity"),
        ("-Infinity", "-Infinity"),
    ];

    for (text, description) in invalid_values {
        assert!(
            !accepted(state_with("infrared", text)),
            "Should reject infrared {} ({})",
            text,
            description
        );
    }
}

#[test]
fn test_valid_duration_values() {
    for text in ["0.0", "1.0", "60.0", "3600.0", "86400.0", "3155760000.0"] {
        let state = state_with("duration", text);
        assert_eq!(state.duration, Some(value(text)));
        assert!(accepted(state), "Should accept duration value {}", text);
    }
}

#[test]
fn test_invalid_duration_values() {
    let invalid_values = vec![
        ("-1.0", "negative value"),
        ("3155760001.0", "value > max"),
        ("NaN", "NaN"),
        ("Infinity", "Infinity"),
        ("-Infinity", "-Infinity"),
    ];

    for (text, description) in invalid_values {
        assert!(
            !accepted(state_with("duration", text)),
            "Should reject duration {} ({})",
            text,
            description
        );
    }
}

#[test]
fn test_valid_power_values() {
    for text in ["on", "off"] {
        let state = state_with("power", text);
        assert_eq!(state.power, Some(text.to_string()));
        assert!(accepted(state), "Should accept power value {}", text);
    }
}

#[test]
fn test_invalid_power_values() {
    let invalid_values = vec!["ON", "OFF", "true", "false", "1", "0", "enabled", "disabled"];

    for text in invalid_values {
        assert!(!accepted(state_with("power", text)), "Should reject power value {}", text);
    }
}

#[test]
fn test_edge_case_brightness() {
    let zero = state_with("brightness", "0.0");
    let one = state_with("brightness", "1.0");
    assert_eq!(zero.brightness, Some(value("0.0")));
    assert_eq!(one.brightness, Some(value("1.0")));
    assert!(accepted(zero), "Should accept brightness 0.0");
    assert!(accepted(one), "Should accept brightness 1.0");
    assert!(!accepted(state_with("brightness", "1.000000001")));
    assert!(!accepted(state_with("brightness", "-0.000000001")));
    assert!(accepted(state_with("brightness", "-0.0")));
}

#[test]
fn test_edge_case_infrared() {
    let zero = state_with("infrared", "0.0");
    let one = state_with("infrared", "1.0");
    assert_eq!(zero.infrared, Some(value("0.0")));
    assert_eq!(one.infrared, Some(value("1.0")));
    assert!(accepted(zero), "Should accept infrared 0.0");
    assert!(accepted(one), "Should accept infrared 1.0");
}

#[test]
fn test_multiple_invalid_fields() {
    let mut state = state_with("power", "invalid");
    state.brightness = Some(value("1.5"));
    state.infrared = Some(value("-0.5"));
    let request = StatesRequest { states: vec![state], defaults: None };
    let result = SetStatesHandler::new().validate_request(&request);
    assert!(result.is_err(), "Should reject when multiple fields are invalid");
    assert_eq!(
        result.unwrap_err(),
        "State[0]: power must be 'on' or 'off', got 'invalid'"
    );
}

#[test]
fn test_complete_valid_state_update() {
    let state = StateUpdate {
        selector: "all".to_string(),
        power: Some("on".to_string()),
        color: Some("red".to_string()),
        brightness: Some(value("0.75")),
        duration: Some(value("5.0")),
        infrared: Some(value("0.25")),
        fast: Some(true),
    };

    assert_eq!(state.selector, "all");
    assert_eq!(state.power, Some("on".to_string()));
    assert_eq!(state.color, Some("red".to_string()));
    assert_eq!(state.brightness, Some(value("0.75")));
    assert_eq!(state.duration, Some(value("5.0")));
    assert_eq!(state.infrared, Some(value("0.25")));
    assert_eq!(state.fast, Some(true));
    assert!(accepted(state), "Should accept complete valid StateUpdate");
}

#[test]
fn test_states_request_with_defaults() {
    let mut defaults = state_with("brightness", "0.5");
    defaults.selector = "ignored".to_string();
    defaults.infrared = Some(value("0.0"));
    let request = StatesRequest {
        states: vec![state_with("power", "on")],
        defaults: Some(defaults),
    };
    assert!(check_request(&request).is_ok(), "Should accept valid defaults");

    let mut defaults = state_with("brightness", "1.5");
    defaults.selector = "ignored".to_string();
    let request = StatesRequest {
        states: vec![state_with("power", "on")],
        defaults: Some(defaults),
    };
    assert_eq!(
        SetStatesHandler::new().validate_request(&request),
        Err("Defaults: brightness must be between 0.0 and 1.0, got 1.5".to_string())
    );
}

#[test]
fn test_missing_selector() {
    let mut state = state_with("power", "on");
    state.selector = String::new();
    state.brightness = Some(value("0.5"));
    assert!(!accepted(state), "Should reject StateUpdate without selector");
}

#[test]
fn test_very_small_positive_values() {
    let mut state = state_with("brightness", "0.000001");
    state.infrared = Some(value("0.000001"));
    assert!(accepted(state), "Should accept very small positive values");
}

#[test]
fn test_precision_edge_cases() {
    let mut state = state_with("brightness", "0.9999999999");
    state.infrared = Some(value("0.9999999999"));
    assert!(accepted(state), "Should accept values very close to 1.0");
}

#[test]
fn test_color_validation_through_state_update() {
    let valid_colors = vec![
        "white",
        "red",
        "orange",
        "yellow",
        "cyan",
        "green",
        "blue",
        "purple",
        "pink",
        "kelvin:3000",
        "kelvin:6500",
        "kelvin:9000",
        "hue:180",
        "hue:0",
        "hue:360",
        "saturation:0.5",
        "saturation:0",
        "saturation:1.0",
        "brightness:0.5",
        "brightness:0",
        "brightness:1.0",
        "rgb:255,128,0",
        "rgb:0,0,0",
        "rgb:255,255,255",
        "#FF0000",
        "#00FF00",
        "#0000FF",
        "#FFFFFF",
        "hue:180 saturation:0.5 brightness:0.8",
    ];

    for color in valid_colors {
        let state = state_with("color", color);
        assert_eq!(state.color, Some(color.to_string()));
        assert!(accepted(state), "Should accept color '{}'", color);
    }
}

#[test]
fn test_combined_state_with_all_validations() {
    let state = StateUpdate {
        selector: "all".to_string(),
        power: Some("on".to_string()),
        color: Some("kelvin:3000".to_string()),
        brightness: Some(value("0.75")),
        duration: Some(value("5.0")),
        infrared: Some(value("0.25")),
        fast: Some(true),
    };

    assert_eq!(state.selector, "all");
    assert_eq!(state.power, Some("on".to_string()));
    assert_eq!(state.color, Some("kelvin:3000".to_string()));
    assert_eq!(state.brightness, Some(value("0.75")));
    assert_eq!(state.duration, Some(value("5.0")));
    assert_eq!(state.infrared, Some(value("0.25")));
    assert_eq!(state.fast, Some(true));
    assert!(accepted(state), "Should accept complete valid state");
}

#[test]
fn test_invalid_combinations() {
    let invalid_cases = vec![
        (state_with("power", "ON"), "uppercase power"),
        (state_with("brightness", "1.5"), "brightness > 1.0"),
        (state_with("infrared", "-0.5"), "negative infrared"),
        (state_with("duration", "-1.0"), "negative duration"),
        (state_with("brightness", "NaN"), "NaN brightness"),
        (state_with("infrared", "Infinity"), "Infinity infrared"),
    ];

    for (state, description) in invalid_cases {
        assert!(!accepted(state), "Should reject {}", description);
    }
}

#[test]
fn test_selector_is_required() {
    let mut state = state_with("power", "on");
    state.selector = String::new();
    state.brightness = Some(value("0.5"));
    let request = StatesRequest { states: vec![state], defaults: None };
    assert_eq!(
        SetStatesHandler::new().validate_request(&request),
        Err("State[0]: selector cannot be empty".to_string())
    );
}

#[test]
fn test_all_fields_optional_except_selector() {
    let state = state_with("selector", "all");
    assert_eq!(state.selector, "all");
    assert_eq!(state.power, None);
    assert_eq!(state.color, None);
    assert_eq!(state.brightness, None);
    assert_eq!(state.duration, None);
    assert_eq!(state.infrared, None);
    assert_eq!(state.fast, None);
    assert!(accepted(state), "Should accept StateUpdate with only selector");
}
