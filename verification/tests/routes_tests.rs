use lifx_api_server::routes::{
    counts_as_config_change, find_segment, needs_elevation, route, Route,
};
use lifx_api_server::wire::{
    check_frame, decode, encode_discovery, encode_management, encode_refresh, encode_step,
    merge_reports, LightReport,
};
use lifx_api_server::color::Hsbk;
use lifx_api_server::device::{InboundMessage, PowerLevel, SocketAddress};
use lifx_api_server::device_management::ManagementCommand;
use lifx_api_server::color::ColorError;
use lifx_api_server::registry::{Datagram, IngestOutcome, Manager};
use lifx_api_server::set_states::Step;
use lifx_api_server::staleness::RefreshRequest;

fn routed(method: &str, path: &str) -> (Route, String) {
    let r = route(method, path);
    (r.route, path[r.subject_start..r.subject_end].to_string())
}

#[test]
fn test_routes_of_the_interface() {
    assert_eq!(routed("GET", "/v1/lights/all"), (Route::ListLights, "all".to_string()));
    assert_eq!(
        routed("GET", "/v1/lights/label:Kitchen"),
        (Route::ListLights, "label:Kitchen".to_string())
    );
    assert_eq!(routed("PUT", "/v1/lights/all/state"), (Route::SetState, "all".to_string()));
    assert_eq!(
        routed("PUT", "/v1/lights/label:x/state"),
        (Route::SetState, "label:x".to_string())
    );
    assert_eq!(routed("PUT", "/v1/lights/states"), (Route::SetStates, "states".to_string()));
    assert_eq!(routed("GET", "/v1/lights/states").0, Route::ListLights);
    assert_eq!(routed("POST", "/v1/lights/id:1/effects/pulse").0, Route::Pulse);
    assert_eq!(routed("POST", "/v1/lights/id:1/effects/breathe").0, Route::Breathe);
    assert_eq!(routed("POST", "/v1/lights/id:1/effects/strobe").0, Route::Strobe);
    assert_eq!(routed("POST", "/v1/lights/id:1/effects/flame").0, Route::Unknown);
    assert_eq!(routed("GET", "/v1/lights/id:1/effects/pulse").0, Route::Unknown);
    assert_eq!(routed("POST", "/v1/lights/all/cycle").0, Route::Cycle);
    assert_eq!(routed("POST", "/v1/lights/all/clean").0, Route::Clean);
    assert_eq!(routed("PUT", "/v1/lights/all/label").0, Route::SetLabel);
    assert_eq!(routed("GET", "/v1/lights/all/config").0, Route::GetConfig);
    assert_eq!(routed("PUT", "/v1/lights/all/wifi").0, Route::SetWifi);
    assert_eq!(routed("POST", "/v1/lights/all/reboot").0, Route::Reboot);
    assert_eq!(routed("GET", "/v1/lights/all/info").0, Route::GetInfo);
    assert_eq!(routed("GET", "/v1/scenes"), (Route::ListScenes, String::new()));
    assert_eq!(routed("POST", "/v1/scenes").0, Route::CreateScene);
    assert_eq!(routed("POST", "/v1/scenes/capture").0, Route::CaptureScene);
    assert_eq!(routed("PUT", "/v1/scenes/abc/activate"), (Route::ActivateScene, "abc".to_string()));
    assert_eq!(routed("DELETE", "/v1/scenes/abc"), (Route::DeleteScene, "abc".to_string()));
    assert_eq!(routed("DELETE", "/v1/scenes/capture").0, Route::DeleteScene);

    for (method, path) in [
        ("GET", ""),
        ("GET", "/"),
        ("GET", "/v1"),
        ("GET", "/v1/lights"),
        ("GET", "/v2/lights/all"),
        ("GET", "v1/lights/all"),
        ("get", "/v1/lights/all"),
        ("POST", "/v1/lights/all"),
        ("PUT", "/v1/lights/all/state/now"),
        ("GET", "/v1/lights/all/state"),
        ("PUT", "/v1/scenes"),
        ("PUT", "/v1/scenes/abc/activate/now"),
        ("POST", "/v1/scenes/abc/activate"),
        ("GET", "/v1/groups/all"),
    ] {
        assert_eq!(routed(method, path).0, Route::Unknown, "{} {}", method, path);
    }
    assert_eq!(find_segment(b"/a//b", 2), Some((3, 3)));
    assert_eq!(find_segment(b"/a//b", 3), Some((4, 5)));
    assert_eq!(find_segment(b"/a//b", 4), None);
    assert_eq!(find_segment(b"", 0), Some((0, 0)));

    assert!(needs_elevation(Route::SetWifi));
    assert!(needs_elevation(Route::Reboot));
    assert!(!needs_elevation(Route::SetLabel));
    assert!(counts_as_config_change(Route::SetLabel));
    assert!(counts_as_config_change(Route::SetWifi));
    assert!(!counts_as_config_change(Route::Reboot));
}

#[test]
fn test_encoded_datagrams_are_frames_and_decode() {
    let discovery = encode_discovery(7).unwrap();
    assert_eq!(discovery.len(), 36);
    assert!(check_frame(&discovery));
    assert_eq!(u16::from_le_bytes([discovery[32], discovery[33]]), 2);
    match decode(&discovery) {
        Datagram::Message { target, message } => {
            assert_eq!(target, 0);
            assert!(matches!(message, InboundMessage::Other));
        }
        other => panic!("unexpected {:?}", other),
    }

    let refresh = encode_refresh(0xABCD, 7, RefreshRequest::GetLabel).unwrap();
    assert_eq!(u16::from_le_bytes([refresh[32], refresh[33]]), 23);
    assert_eq!(u64::from_le_bytes(refresh[8..16].try_into().unwrap()), 0xABCD);
    assert_eq!(u32::from_le_bytes(refresh[4..8].try_into().unwrap()), 7);
    let zones = encode_refresh(
        1,
        7,
        RefreshRequest::GetColorZones { start_index: 0, end_index: 255 },
    )
    .unwrap();
    assert_eq!(u16::from_le_bytes([zones[32], zones[33]]), 502);
    assert_eq!(&zones[36..], &[0, 255]);

    let power = encode_step(9, 7, &Step::Power(PowerLevel::Enabled)).unwrap().unwrap();
    assert_eq!(u16::from_le_bytes([power[32], power[33]]), 21);
    assert_eq!(&power[36..], &[255, 255]);
    let off = encode_step(9, 7, &Step::Power(PowerLevel::Standby)).unwrap().unwrap();
    assert_eq!(&off[36..], &[0, 0]);
    let color = Hsbk { hue: 1, saturation: 2, brightness: 3, kelvin: 4 };
    let set = encode_step(9, 7, &Step::Color(color, 5)).unwrap().unwrap();
    assert_eq!(u16::from_le_bytes([set[32], set[33]]), 102);
    assert_eq!(&set[36..], &[0, 1, 0, 2, 0, 3, 0, 4, 0, 5, 0, 0, 0]);
    assert_eq!(encode_step(9, 7, &Step::Brightness(color, 5)).unwrap().unwrap(), set);
    let infrared = encode_step(9, 7, &Step::Infrared(0x0102)).unwrap().unwrap();
    assert_eq!(u16::from_le_bytes([infrared[32], infrared[33]]), 122);
    assert_eq!(&infrared[36..], &[2, 1]);
    assert!(encode_step(9, 7, &Step::Invalid(ColorError::UnknownColor)).is_none());

    let label = encode_management(9, 7, &ManagementCommand::SetLabel("Desk".to_string())).unwrap();
    assert_eq!(u16::from_le_bytes([label[32], label[33]]), 24);
    assert_eq!(label.len(), 36 + 32);
    assert_eq!(&label[36..40], b"Desk");
    assert_eq!(label[22] & 0x03, 0x02);
    let reboot = encode_management(9, 7, &ManagementCommand::Reboot { delay: 3 }).unwrap();
    assert_eq!(u16::from_le_bytes([reboot[32], reboot[33]]), 21);
    assert_eq!(&reboot[36..], &[0, 0]);
    assert!(encode_management(9, 7, &ManagementCommand::SetLabel("Küche".to_string()))
        .unwrap_err()
        .starts_with("Failed to build message: "));
    assert!(encode_management(9, 7, &ManagementCommand::SetLabel("x".repeat(33))).is_err());
    assert!(encode_management(9, 7, &ManagementCommand::SetLabel("x".repeat(32))).is_ok());
}

fn frame(kind: u16, target: u64, payload: &[u8]) -> Vec<u8> {
    let mut bytes = Vec::new();
    bytes.extend_from_slice(&((36 + payload.len()) as u16).to_le_bytes());
    bytes.extend_from_slice(&(0x1000u16 | 1024).to_le_bytes());
    bytes.extend_from_slice(&7u32.to_le_bytes());
    bytes.extend_from_slice(&target.to_le_bytes());
    bytes.extend_from_slice(&[0; 6]);
    bytes.push(0);
    bytes.push(0);
    bytes.extend_from_slice(&[0; 8]);
    bytes.extend_from_slice(&kind.to_le_bytes());
    bytes.extend_from_slice(&[0; 2]);
    bytes.extend_from_slice(payload);
    bytes
}

#[test]
fn test_decode_tells_messages_apart() {
    assert!(matches!(decode(&[]), Datagram::Empty));
    assert!(matches!(decode(&[1, 2, 3]), Datagram::Undecodable));
    assert!(matches!(decode(&[0u8; 36]), Datagram::Undecodable));

    let mut label = vec![0u8; 32];
    label[..4].copy_from_slice(b"Desk");
    match decode(&frame(25, 42, &label)) {
        Datagram::Message { target: 42, message: InboundMessage::StateLabel { label } } => {
            assert_eq!(label, "Desk")
        }
        other => panic!("unexpected {:?}", other),
    }
    match decode(&frame(22, 42, &[255, 255])) {
        Datagram::Message {
            message: InboundMessage::StatePower { level: PowerLevel::Enabled },
            ..
        } => {}
        other => panic!("unexpected {:?}", other),
    }
    match decode(&frame(22, 42, &[0, 0])) {
        Datagram::Message {
            message: InboundMessage::StatePower { level: PowerLevel::Standby },
            ..
        } => {}
        other => panic!("unexpected {:?}", other),
    }
    match decode(&frame(33, 42, &[1, 0, 0, 0, 27, 0, 0, 0, 9, 0, 0, 0])) {
        Datagram::Message {
            message: InboundMessage::StateVersion { vendor: 1, product: 27 }, ..
        } => {}
        other => panic!("unexpected {:?}", other),
    }
    match decode(&frame(503, 42, &[4, 1, 1, 0, 2, 0, 3, 0, 4, 0])) {
        Datagram::Message {
            message: InboundMessage::StateZone { count: 4, index: 1, color },
            ..
        } => assert_eq!(color, Hsbk { hue: 1, saturation: 2, brightness: 3, kelvin: 4 }),
        other => panic!("unexpected {:?}", other),
    }
    let mut light = vec![5, 0, 6, 0, 7, 0, 8, 0, 0, 0, 255, 255];
    light.extend_from_slice(&label);
    light.extend_from_slice(&[0; 8]);
    match decode(&frame(107, 42, &light)) {
        Datagram::Message {
            message: InboundMessage::LightState { color, power: PowerLevel::Enabled, label },
            ..
        } => {
            assert_eq!(color, Hsbk { hue: 5, saturation: 6, brightness: 7, kelvin: 8 });
            assert_eq!(label, "Desk");
        }
        other => panic!("unexpected {:?}", other),
    }
    let mut group = vec![0u8; 16];
    group[0] = 7;
    group.extend_from_slice(&label);
    group.extend_from_slice(&[0; 8]);
    match decode(&frame(53, 42, &group)) {
        Datagram::Message { message: InboundMessage::StateGroup { group, label }, .. } => {
            assert_eq!(group.len(), 16);
            assert_eq!(group[0], 7);
            assert_eq!(label, "Desk");
        }
        other => panic!("unexpected {:?}", other),
    }
    match decode(&frame(22, 42, &[1, 0])) {
        Datagram::Message { target: 42, message: InboundMessage::Other } => {}
        other => panic!("unexpected {:?}", other),
    }
    match decode(&frame(9999, 42, &[])) {
        Datagram::Message { target: 42, message: InboundMessage::Other } => {}
        other => panic!("unexpected {:?}", other),
    }

    let mut not_addressable = frame(25, 42, &label);
    not_addressable[3] &= !0x10;
    assert!(!check_frame(&not_addressable));
    assert!(matches!(decode(&not_addressable), Datagram::Undecodable));
    let mut too_long = frame(25, 42, &label);
    too_long[0] = 200;
    assert!(matches!(decode(&too_long), Datagram::Undecodable));
    let mut too_short = frame(25, 42, &label);
    too_short[0] = 35;
    assert!(matches!(decode(&too_short), Datagram::Undecodable));
    let mut wrong_protocol = frame(25, 42, &label);
    wrong_protocol[2] = 1;
    assert!(matches!(decode(&wrong_protocol), Datagram::Undecodable));

    let mut mgr = Manager::new(0);
    let addr = SocketAddress { ip: 1, port: 56700 };
    assert_eq!(mgr.ingest_datagram(addr, &[], 1), IngestOutcome::SkippedEmpty);
    assert_eq!(mgr.ingest_datagram(addr, &[9; 10], 1), IngestOutcome::SkippedUndecodable);
    assert_eq!(mgr.ingest_datagram(addr, &frame(25, 0, &label), 1), IngestOutcome::SkippedBroadcast);
    assert_eq!(mgr.ingest_datagram(addr, &frame(25, 42, &label), 1), IngestOutcome::Applied);
    assert_eq!(mgr.bulbs().len(), 1);
    assert_eq!(mgr.bulbs()[0].label, "Desk");
    assert_eq!(mgr.ingest_datagram(addr, &frame(9999, 43, &[]), 2), IngestOutcome::Applied);
    assert_eq!(mgr.bulbs().len(), 2);
}

#[test]
fn test_reports_are_put_together_in_their_order() {
    let color = Hsbk { hue: 1, saturation: 2, brightness: 3, kelvin: 4 };
    let label = || Some(InboundMessage::StateLabel { label: "Desk".to_string() });
    let version = || Some(InboundMessage::StateVersion { vendor: 1, product: 2 });
    let zones = || {
        Some(InboundMessage::StateMultiZone { count: 8, index: 0, colors: [color; 8] })
    };

    assert!(matches!(
        merge_reports(label(), version(), zones(), Some(LightReport::Power(65535))),
        InboundMessage::StateLabel { .. }
    ));
    assert!(matches!(
        merge_reports(None, version(), zones(), Some(LightReport::Power(65535))),
        InboundMessage::StateVersion { vendor: 1, product: 2 }
    ));
    assert!(matches!(
        merge_reports(None, None, zones(), Some(LightReport::Power(65535))),
        InboundMessage::StateMultiZone { count: 8, index: 0, .. }
    ));
    assert!(matches!(
        merge_reports(None, None, None, Some(LightReport::Power(65535))),
        InboundMessage::StatePower { level: PowerLevel::Enabled }
    ));
    assert!(matches!(
        merge_reports(None, None, None, Some(LightReport::Power(1))),
        InboundMessage::StatePower { level: PowerLevel::Enabled }
    ));
    assert!(matches!(
        merge_reports(None, None, None, Some(LightReport::Power(0))),
        InboundMessage::StatePower { level: PowerLevel::Standby }
    ));
    match merge_reports(None, None, None, Some(LightReport::Light(color, 0, "Desk".to_string()))) {
        InboundMessage::LightState { color: c, power: PowerLevel::Standby, label } => {
            assert_eq!(c, color);
            assert_eq!(label, "Desk");
        }
        other => panic!("unexpected {:?}", other),
    }
    match merge_reports(None, None, None, Some(LightReport::Zone(4, 1, color))) {
        InboundMessage::StateZone { count: 4, index: 1, color: c } => assert_eq!(c, color),
        other => panic!("unexpected {:?}", other),
    }
    assert!(matches!(merge_reports(None, None, None, None), InboundMessage::Other));
}

#[test]
fn test_every_datagram_holds_a_whole_header() {
    let requests = [
        RefreshRequest::GetGroup,
        RefreshRequest::GetLocation,
        RefreshRequest::GetLabel,
        RefreshRequest::GetVersion,
        RefreshRequest::GetHostFirmware,
        RefreshRequest::GetWifiFirmware,
        RefreshRequest::GetPower,
        RefreshRequest::LightGet,
    ];
    for request in requests {
        let bytes = encode_refresh(3, 4, request).unwrap();
        assert_eq!(bytes.len(), 36);
        assert!(check_frame(&bytes));
    }
    let zones =
        encode_refresh(3, 4, RefreshRequest::GetColorZones { start_index: 1, end_index: 2 })
            .unwrap();
    assert_eq!(zones.len(), 38);
    assert_eq!(encode_discovery(0).unwrap().len(), 36);
    assert_ne!(encode_discovery(1).unwrap(), encode_discovery(2).unwrap());
    assert_ne!(
        encode_refresh(3, 4, RefreshRequest::GetLabel).unwrap(),
        encode_refresh(3, 4, RefreshRequest::GetGroup).unwrap()
    );
    assert_ne!(
        encode_refresh(3, 4, RefreshRequest::GetLabel).unwrap(),
        encode_refresh(5, 4, RefreshRequest::GetLabel).unwrap()
    );
}
