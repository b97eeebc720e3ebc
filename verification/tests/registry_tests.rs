use lifx_api_server::color::{Hsbk, LifxColor};
use lifx_api_server::device::{
    format_ident_debug, format_ident_digits, handle_message, BulbInfo, InboundError,
    InboundMessage, LiColor, PowerLevel, SocketAddress,
};
use lifx_api_server::ident::random_token;
use lifx_api_server::number::Number;
use lifx_api_server::registry::{
    Datagram, IngestOutcome, Interface, Manager, RefreshOrder, LIFX_PORT, SOURCE,
};
use lifx_api_server::staleness::{RefreshRequest, RefreshableData};

fn address(last: u32) -> SocketAddress {
    SocketAddress { ip: 0xC0A8_0100 + last, port: 56700 }
}

fn lamp(target: u64) -> BulbInfo {
    BulbInfo::new(SOURCE, target, address(1), "idididididid".to_string(), "u".to_string(), 0)
}

fn hsbk(hue: u16) -> Hsbk {
    Hsbk { hue, saturation: 2, brightness: 65535, kelvin: 3500 }
}

#[test]
fn test_random_tokens_are_alphanumeric_and_differ() {
    let a = random_token(12);
    let b = random_token(30);
    let c = random_token(30);
    assert_eq!(a.len(), 12);
    assert_eq!(b.len(), 30);
    assert!(a.chars().all(|ch| ch.is_ascii_alphanumeric()));
    assert!(b.chars().all(|ch| ch.is_ascii_alphanumeric()));
    assert_ne!(b, c);
    assert_eq!(random_token(0), "");
}

#[test]
fn test_identifier_formats() {
    assert_eq!(format_ident_digits(&[1, 2, 3]), "123");
    assert_eq!(format_ident_digits(&[18, 0, 255]), "180255");
    assert_eq!(format_ident_digits(&[]), "");
    assert_eq!(format_ident_debug(&[1, 2, 3]), "[1, 2, 3]");
    assert_eq!(format_ident_debug(&[200]), "[200]");
    assert_eq!(format_ident_debug(&[]), "[]");
}

#[test]
fn test_label_location_group_power_messages() {
    let mut bulb = lamp(1);
    handle_message(InboundMessage::StateLabel { label: "Desk".to_string() }, &mut bulb, 5).unwrap();
    assert_eq!(bulb.label, "Desk");
    assert_eq!(bulb.name.data.as_deref(), Some("Desk"));
    assert_eq!(bulb.name.last_updated, 5);

    handle_message(
        InboundMessage::StateLocation { location: vec![10, 20], label: "Home".to_string() },
        &mut bulb,
        6,
    )
    .unwrap();
    assert_eq!(bulb.location.data.as_deref(), Some("Home"));
    let shown = bulb.lifx_location.as_ref().unwrap();
    assert_eq!(shown.id, "1020");
    assert_eq!(shown.name, "Home");

    handle_message(
        InboundMessage::StateGroup { group: vec![7, 8], label: "Office".to_string() },
        &mut bulb,
        7,
    )
    .unwrap();
    assert_eq!(bulb.group.data.as_ref().unwrap().id, "[7, 8]");
    assert_eq!(bulb.group.data.as_ref().unwrap().name, "Office");
    assert_eq!(bulb.lifx_group.as_ref().unwrap().id, "78");
    assert_eq!(bulb.lifx_group.as_ref().unwrap().name, "Office");
    assert_eq!(bulb.group.last_updated, 7);

    handle_message(InboundMessage::StatePower { level: PowerLevel::Enabled }, &mut bulb, 8)
        .unwrap();
    assert_eq!(bulb.power, "on");
    assert_eq!(bulb.power_level.data, Some(PowerLevel::Enabled));
    handle_message(InboundMessage::StatePower { level: PowerLevel::Standby }, &mut bulb, 9)
        .unwrap();
    assert_eq!(bulb.power, "off");

    handle_message(InboundMessage::StateHostFirmware { version: 3 }, &mut bulb, 9).unwrap();
    handle_message(InboundMessage::StateWifiFirmware { version: 4 }, &mut bulb, 9).unwrap();
    assert_eq!(bulb.host_firmware.data, Some(3));
    assert_eq!(bulb.wifi_firmware.data, Some(4));

    handle_message(InboundMessage::StateService, &mut bulb, 50).unwrap();
    handle_message(InboundMessage::Other, &mut bulb, 50).unwrap();
    assert_eq!(bulb.label, "Desk");
    assert_eq!(bulb.name.last_updated, 5);
}

#[test]
fn test_version_decides_the_shape_of_the_colour() {
    let mut bulb = lamp(1);
    assert!(matches!(bulb.color, LiColor::Unknown));

    handle_message(
        InboundMessage::LightState {
            color: hsbk(9),
            power: PowerLevel::Enabled,
            label: "early".to_string(),
        },
        &mut bulb,
        1,
    )
    .unwrap();
    assert!(bulb.lifx_color.is_none());
    assert!(bulb.power_level.data.is_none());
    assert_eq!(bulb.name.data.as_deref(), Some("early"));
    assert_eq!(bulb.label, "early");
    assert_eq!(bulb.power, "off");

    handle_message(InboundMessage::StateVersion { vendor: 1, product: 1 }, &mut bulb, 2).unwrap();
    assert_eq!(bulb.model.data, Some((1, 1)));
    let product = bulb.product.as_ref().unwrap();
    assert_eq!(product.name, "LIFX Original 1000");
    assert_eq!(product.company, "LIFX");
    assert_eq!(product.product_id, 1);
    assert!(product.capabilities.has_color);
    assert_eq!(product.capabilities.min_kelvin, 2500);
    match &bulb.color {
        LiColor::Single(cell) => {
            assert!(cell.data.is_none());
            assert_eq!(cell.max_age, 15_000);
            assert_eq!(cell.refresh_msg, RefreshRequest::LightGet);
        }
        other => panic!("unexpected colour cell {:?}", other),
    }

    handle_message(
        InboundMessage::LightState {
            color: Hsbk { hue: 1, saturation: 2, brightness: 32768, kelvin: 4000 },
            power: PowerLevel::Enabled,
            label: "late".to_string(),
        },
        &mut bulb,
        3,
    )
    .unwrap();
    assert_eq!(
        bulb.lifx_color,
        Some(LifxColor { hue: 1, saturation: 2, kelvin: 4000, brightness: 32768 })
    );
    assert_eq!(bulb.brightness, Number::from_nanos(500_007_629));
    assert_eq!(bulb.power_level.data, Some(PowerLevel::Enabled));
    assert_eq!(bulb.power, "on");
    assert_eq!(bulb.label, "late");
    handle_message(
        InboundMessage::LightState {
            color: hsbk(9),
            power: PowerLevel::Standby,
            label: "later".to_string(),
        },
        &mut bulb,
        4,
    )
    .unwrap();
    assert_eq!(bulb.power, "off");
    assert_eq!(bulb.label, "later");

    let mut unknown = lamp(2);
    handle_message(InboundMessage::StateVersion { vendor: 77, product: 9999 }, &mut unknown, 2)
        .unwrap();
    assert_eq!(unknown.model.data, Some((77, 9999)));
    assert!(unknown.product.is_none());
    assert!(matches!(unknown.color, LiColor::Unknown));
}

#[test]
fn test_zone_reports() {
    let mut bulb = lamp(1);
    handle_message(
        InboundMessage::StateZone { count: 4, index: 1, color: hsbk(1) },
        &mut bulb,
        1,
    )
    .unwrap();
    assert!(matches!(bulb.color, LiColor::Unknown));

    bulb.color = LiColor::Multi(RefreshableData::empty(
        15_000,
        RefreshRequest::GetColorZones { start_index: 0, end_index: 255 },
        0,
    ));
    handle_message(
        InboundMessage::StateZone { count: 4, index: 1, color: hsbk(1) },
        &mut bulb,
        1,
    )
    .unwrap();
    match &bulb.color {
        LiColor::Multi(cell) => {
            assert_eq!(cell.data, Some(vec![None, Some(hsbk(1)), None, None]));
            assert_eq!(cell.last_updated, 0);
        }
        other => panic!("unexpected colour cell {:?}", other),
    }
    assert_eq!(
        handle_message(
            InboundMessage::StateZone { count: 9, index: 4, color: hsbk(2) },
            &mut bulb,
            1
        ),
        Err(InboundError::ZoneOutOfRange)
    );
    match &bulb.color {
        LiColor::Multi(cell) => {
            assert_eq!(cell.data, Some(vec![None, Some(hsbk(1)), None, None]))
        }
        other => panic!("unexpected colour cell {:?}", other),
    }

    let mut strip = lamp(3);
    strip.color = LiColor::Multi(RefreshableData::empty(
        15_000,
        RefreshRequest::GetColorZones { start_index: 0, end_index: 255 },
        0,
    ));
    let colors = [hsbk(0), hsbk(1), hsbk(2), hsbk(3), hsbk(4), hsbk(5), hsbk(6), hsbk(7)];
    assert_eq!(
        handle_message(
            InboundMessage::StateMultiZone { count: 10, index: 3, colors },
            &mut strip,
            1
        ),
        Err(InboundError::ZoneOutOfRange)
    );
    handle_message(InboundMessage::StateMultiZone { count: 10, index: 2, colors }, &mut strip, 1)
        .unwrap();
    match &strip.color {
        LiColor::Multi(cell) => {
            let zones = cell.data.as_ref().unwrap();
            assert_eq!(zones.len(), 10);
            assert_eq!(zones[0], None);
            assert_eq!(zones[1], None);
            assert_eq!(zones[2], Some(hsbk(0)));
            assert_eq!(zones[9], Some(hsbk(7)));
        }
        other => panic!("unexpected colour cell {:?}", other),
    }
}

#[test]
fn test_due_requests_follow_staleness() {
    let mut bulb = lamp(1);
    assert_eq!(
        bulb.query_for_missing_info(0),
        vec![
            RefreshRequest::GetLabel,
            RefreshRequest::GetVersion,
            RefreshRequest::GetLocation,
            RefreshRequest::GetHostFirmware,
            RefreshRequest::GetWifiFirmware,
            RefreshRequest::GetPower,
            RefreshRequest::GetGroup,
        ]
    );
    handle_message(InboundMessage::StateLabel { label: "x".to_string() }, &mut bulb, 100).unwrap();
    handle_message(InboundMessage::StatePower { level: PowerLevel::Enabled }, &mut bulb, 100)
        .unwrap();
    handle_message(InboundMessage::StateVersion { vendor: 1, product: 1 }, &mut bulb, 100).unwrap();
    assert_eq!(
        bulb.query_for_missing_info(600),
        vec![
            RefreshRequest::GetLocation,
            RefreshRequest::GetHostFirmware,
            RefreshRequest::GetWifiFirmware,
            RefreshRequest::GetGroup,
            RefreshRequest::LightGet,
        ]
    );
    let later = bulb.query_for_missing_info(601);
    assert!(later.contains(&RefreshRequest::GetPower));
    assert!(!later.contains(&RefreshRequest::GetLabel));
    let much_later = bulb.query_for_missing_info(100 + 3_600_001);
    assert!(much_later.contains(&RefreshRequest::GetLabel));
    assert!(!bulb.query_for_missing_info(100 + 3_600_000).contains(&RefreshRequest::GetLabel));
}

#[test]
fn test_staleness_cell_cycle() {
    let mut cell: RefreshableData<u32> = RefreshableData::empty(500, RefreshRequest::GetPower, 10);
    for now in [0, 10, 510, 511, u64::MAX] {
        assert!(cell.needs_refresh(now));
    }
    cell.update(1, 1_000);
    assert!(!cell.needs_refresh(1_000));
    assert!(!cell.needs_refresh(999));
    assert!(!cell.needs_refresh(1_500));
    assert!(cell.needs_refresh(1_501));
    cell.update(2, 2_000);
    assert!(!cell.needs_refresh(2_500));
    assert_eq!(cell.as_ref(), Some(&2));
}

#[test]
fn test_ingest_creates_and_updates_records() {
    let mut mgr = Manager::new(3);
    assert_eq!(mgr.last_discovery(), 3);
    assert_eq!(mgr.source(), SOURCE);
    assert!(mgr.bulbs().is_empty());

    assert_eq!(mgr.ingest(address(1), Datagram::Empty, 1), IngestOutcome::SkippedEmpty);
    assert_eq!(mgr.ingest(address(1), Datagram::Undecodable, 1), IngestOutcome::SkippedUndecodable);
    assert_eq!(
        mgr.ingest(
            address(1),
            Datagram::Message { target: 0, message: InboundMessage::StateService },
            1
        ),
        IngestOutcome::SkippedBroadcast
    );
    assert!(mgr.bulbs().is_empty());

    assert_eq!(
        mgr.ingest(
            address(1),
            Datagram::Message { target: 42, message: InboundMessage::StateService },
            10
        ),
        IngestOutcome::Applied
    );
    assert_eq!(mgr.bulbs().len(), 1);
    let id = mgr.bulbs()[0].id.clone();
    assert_eq!(id.len(), 12);
    assert_eq!(mgr.bulbs()[0].uuid.len(), 30);
    assert!(id.chars().all(|c| c.is_ascii_alphanumeric()));
    assert_eq!(mgr.bulbs()[0].target, 42);
    assert_eq!(mgr.bulbs()[0].source, SOURCE);
    assert_eq!(mgr.bulbs()[0].last_seen, 10);
    assert_eq!(mgr.bulbs()[0].power, "off");

    assert_eq!(
        mgr.ingest(
            address(9),
            Datagram::Message {
                target: 42,
                message: InboundMessage::StateLabel { label: "Hall".to_string() }
            },
            20
        ),
        IngestOutcome::Applied
    );
    assert_eq!(mgr.bulbs().len(), 1);
    assert_eq!(mgr.bulbs()[0].id, id);
    assert_eq!(mgr.bulbs()[0].addr, address(9));
    assert_eq!(mgr.bulbs()[0].last_seen, 20);
    assert_eq!(mgr.bulbs()[0].label, "Hall");
    assert_eq!(mgr.get(42).unwrap().label, "Hall");
    assert!(mgr.get(43).is_none());

    mgr.ingest(
        address(2),
        Datagram::Message { target: 43, message: InboundMessage::Other },
        30,
    );
    assert_eq!(mgr.bulbs().len(), 2);
    assert_eq!(mgr.bulbs()[1].target, 43);
    assert_ne!(mgr.bulbs()[1].id, id);
    let i = mgr.upsert(42, address(5), 40);
    assert_eq!(i, 0);
    assert_eq!(mgr.upsert(99, address(6), 41), 2);
    assert_eq!(mgr.bulbs().len(), 3);
}

#[test]
fn test_refresh_orders_for_each_stale_attribute() {
    let mut mgr = Manager::new(0);
    mgr.upsert(1, address(1), 0);
    mgr.upsert(2, address(2), 0);
    let orders = mgr.refresh(0);
    assert_eq!(orders.len(), 14);
    assert_eq!(
        orders[0],
        RefreshOrder {
            target: 1,
            source: SOURCE,
            addr: address(1),
            request: RefreshRequest::GetLabel
        }
    );
    assert_eq!(orders[7].target, 2);
    assert_eq!(orders[13].request, RefreshRequest::GetGroup);

    mgr.ingest(
        address(1),
        Datagram::Message {
            target: 1,
            message: InboundMessage::StatePower { level: PowerLevel::Enabled },
        },
        100,
    );
    let orders = mgr.refresh(100);
    assert_eq!(orders.len(), 13);
    assert!(!orders.iter().any(|o| o.target == 1 && o.request == RefreshRequest::GetPower));
    assert_eq!(mgr.refresh(601).len(), 14);
}

#[test]
fn test_discovery_targets() {
    let mut mgr = Manager::new(0);
    let interfaces = vec![
        Interface::V4 { ip: 0x7F00_0001, broadcast: Some(0x7FFF_FFFF) },
        Interface::V4 { ip: 0xC0A8_0105, broadcast: Some(0xC0A8_01FF) },
        Interface::Other,
        Interface::V4 { ip: 0x0A00_0001, broadcast: None },
        Interface::V4 { ip: 0x0A01_0001, broadcast: Some(0x0A01_FFFF) },
    ];
    let targets = mgr.discover(&interfaces, 77);
    assert_eq!(
        targets,
        vec![
            SocketAddress { ip: 0xC0A8_01FF, port: LIFX_PORT },
            SocketAddress { ip: 0x0A01_FFFF, port: 56700 },
        ]
    );
    assert_eq!(mgr.last_discovery(), 77);
    assert!(mgr.discover(&vec![], 78).is_empty());
}

#[test]
fn test_ingest_drops_a_zone_report_that_does_not_fit() {
    let mut mgr = Manager::new(0);
    let addr = address(1);
    mgr.ingest(
        addr,
        Datagram::Message {
            target: 5,
            message: InboundMessage::StateVersion { vendor: 1, product: 38 },
        },
        1,
    );
    let multizone = matches!(mgr.bulbs()[0].color, LiColor::Multi(_));
    let outcome = mgr.ingest(
        addr,
        Datagram::Message {
            target: 5,
            message: InboundMessage::StateZone { count: 2, index: 2, color: hsbk(1) },
        },
        2,
    );
    if multizone {
        assert_eq!(outcome, IngestOutcome::Dropped(InboundError::ZoneOutOfRange));
    } else {
        assert_eq!(outcome, IngestOutcome::Applied);
    }
    assert_eq!(mgr.bulbs()[0].last_seen, 2);

    let mut strip = Manager::new(0);
    strip.upsert(6, addr, 0);
    let copy = strip.bulbs()[0].id.clone();
    assert_eq!(strip.get(6).unwrap().id, copy);
    let mut bulb = lamp(6);
    bulb.color = LiColor::Multi(RefreshableData::empty(
        15_000,
        RefreshRequest::GetColorZones { start_index: 0, end_index: 255 },
        0,
    ));
    assert_eq!(
        handle_message(
            InboundMessage::StateZone { count: 2, index: 2, color: hsbk(1) },
            &mut bulb,
            3
        ),
        Err(InboundError::ZoneOutOfRange)
    );
}
