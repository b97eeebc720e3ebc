//! Management of devices: labels, Wi-Fi settings, reboots, and what is
//! known of a device's configuration.

use vstd::prelude::*;
use vstd::string::StringExecFns;
use crate::color::LifxColor;
use crate::device::{BulbInfo, LifxGroup, LifxLocation, ProductInfo};
use crate::number::Number;
use crate::registry::Manager;
use crate::text::{parse_unsigned, unsigned_text_value, utf8};

verus! {

/// Longest label, network name and password that a device stores, in
/// bytes.
pub const MAX_LABEL_BYTES: usize = 32;

pub const MAX_SSID_BYTES: usize = 32;

pub const MAX_PASSWORD_BYTES: usize = 64;

/// A request to give devices a label.
#[derive(Clone, Debug)]
pub struct SetLabelRequest {
    pub label: String,
}

/// A request to change the Wi-Fi settings of devices.
#[derive(Clone, Debug)]
pub struct WiFiConfigRequest {
    pub ssid: String,
    pub pass: String,
    pub security: Option<u8>,
}

/// A request to reboot devices.
#[derive(Clone, Debug)]
pub struct RebootRequest {
    /// Seconds to wait after the command is sent.
    pub delay: Option<u32>,
}

/// What became of a management request on one device.
#[derive(Clone, Debug)]
pub struct DeviceResult {
    pub id: String,
    pub label: String,
    pub status: String,
    pub message: Option<String>,
}

/// The answer to a management request.
#[derive(Clone, Debug)]
pub struct DeviceManagementResponse {
    pub results: Vec<DeviceResult>,
}

/// What a device can do, as it is shown to clients.
#[derive(Clone, Copy, Debug, PartialEq, Eq, Structural)]
pub struct DeviceCapabilities {
    pub has_color: bool,
    pub has_variable_color_temp: bool,
    pub has_ir: bool,
    pub has_chain: bool,
    pub has_matrix: bool,
    pub has_multizone: bool,
    pub min_kelvin: i64,
    pub max_kelvin: i64,
}

/// The product of a device, as it is shown to clients.
#[derive(Clone, Debug)]
pub struct ProductConfig {
    pub name: String,
    pub vendor: String,
    pub product_id: u32,
    pub capabilities: DeviceCapabilities,
}

/// A firmware version.
#[derive(Clone, Copy, Debug, PartialEq, Eq, Structural)]
pub struct FirmwareVersion {
    pub major: u16,
    pub minor: u16,
    pub build: u32,
}

/// The Wi-Fi connection of a device.
#[derive(Clone, Debug)]
pub struct WiFiInfo {
    pub ssid: String,
    pub signal_strength: i32,
    pub rssi: i32,
    pub security_type: String,
    pub ipv4_address: Option<String>,
    pub ipv6_address: Option<String>,
}

/// The up-time of a device.
#[derive(Clone, Debug)]
pub struct HostInfo {
    pub uptime_seconds: u64,
    pub downtime_seconds: u64,
    pub last_seen: String,
}

/// The configuration of a device.
#[derive(Clone, Debug)]
pub struct DeviceConfig {
    pub id: String,
    pub label: String,
    pub group: Option<String>,
    pub location: Option<String>,
    pub product: Option<ProductConfig>,
    pub version: Option<FirmwareVersion>,
    pub wifi: Option<WiFiInfo>,
    pub uptime: Option<u64>,
    pub host_info: Option<HostInfo>,
}

/// All that is known of a device.
#[derive(Debug)]
pub struct ExtendedDeviceInfo {
    pub id: String,
    pub uuid: String,
    pub label: String,
    pub connected: bool,
    pub power: String,
    pub color: Option<LifxColor>,
    pub brightness: Number,
    pub group: Option<LifxGroup>,
    pub location: Option<LifxLocation>,
    pub product: Option<ProductInfo>,
    pub last_seen: String,
    pub config: DeviceConfig,
    pub capabilities: DeviceCapabilities,
    pub network: WiFiInfo,
    pub firmware: FirmwareVersion,
}

/// A command of device management.
#[derive(Debug)]
pub enum ManagementCommand {
    /// Give the device this label.
    SetLabel(String),
    /// Switch the device off and wait the given seconds.
    Reboot { delay: u32 },
}

/// A management command for one device.  The command is broadcast; the
/// device address in it tells which device is meant.
#[derive(Debug)]
pub struct DeviceOrder {
    pub id: String,
    pub label: String,
    pub target: u64,
    pub source: u32,
    pub command: ManagementCommand,
}

/// What is to be done with a management request.
#[derive(Debug)]
pub enum ManagementPlan {
    /// The request is rejected, and this is the answer.
    Rejected(DeviceManagementResponse),
    /// These commands are to be sent.
    Send(Vec<DeviceOrder>),
}

/// What a device can do: what its product can, or, while the product is
/// unknown, what a plain colour lamp can.
pub open spec fn capabilities_of(b: BulbInfo) -> DeviceCapabilities {
    match b.product {
        Some(p) => DeviceCapabilities {
            has_color: p.capabilities.has_color,
            has_variable_color_temp: p.capabilities.has_variable_color_temp,
            has_ir: p.capabilities.has_ir,
            has_chain: p.capabilities.has_chain,
            has_matrix: p.capabilities.has_matrix,
            has_multizone: p.capabilities.has_multizone,
            min_kelvin: p.capabilities.min_kelvin,
            max_kelvin: p.capabilities.max_kelvin,
        },
        None => DeviceCapabilities {
            has_color: true,
            has_variable_color_temp: true,
            has_ir: false,
            has_chain: false,
            has_matrix: false,
            has_multizone: false,
            min_kelvin: 2500,
            max_kelvin: 9000,
        },
    }
}

/// The device address that a management command names: the number that
/// the device's identifier is, or zero where it is none.
pub open spec fn management_target(b: BulbInfo) -> u64 {
    match unsigned_text_value(utf8(b.id@), 0xffff_ffff_ffff_ffff) {
        Some(v) => v as u64,
        None => 0,
    }
}

/// Is `c` the configuration of the device `b`?
pub open spec fn is_config_of(c: DeviceConfig, b: BulbInfo) -> bool {
    &&& c.id == b.id
    &&& c.label == b.label
    &&& c.group == (match b.lifx_group {
        Some(g) => Some(g.name),
        None => None,
    })
    &&& c.location == (match b.lifx_location {
        Some(l) => Some(l.name),
        None => None,
    })
    &&& c.product.is_some() == b.product.is_some()
    &&& c.product.is_some() ==> {
        &&& c.product.unwrap().name == b.product.unwrap().name
        &&& c.product.unwrap().vendor == b.product.unwrap().company
        &&& c.product.unwrap().product_id == b.product.unwrap().product_id as u32
        &&& c.product.unwrap().capabilities == capabilities_of(b)
    }
    &&& c.version.is_none()
    &&& c.wifi.is_none()
    &&& c.uptime.is_none()
    &&& c.host_info.is_some()
    &&& c.host_info.unwrap().uptime_seconds == 0
    &&& c.host_info.unwrap().downtime_seconds == 0
    &&& c.host_info.unwrap().last_seen == b.lifx_last_seen
}

/// Is `e` all that is known of the device `b`?
pub open spec fn is_info_of(e: ExtendedDeviceInfo, b: BulbInfo) -> bool {
    &&& e.id == b.id
    &&& e.uuid == b.uuid
    &&& e.label == b.label
    &&& e.connected == b.connected
    &&& e.power == b.power
    &&& e.color == b.lifx_color
    &&& e.brightness == b.brightness
    &&& e.group == b.lifx_group
    &&& e.location == b.lifx_location
    &&& e.product == b.product
    &&& e.last_seen == b.lifx_last_seen
    &&& is_config_of(e.config, b)
    &&& e.capabilities == capabilities_of(b)
    &&& e.network.ssid@ == "Unknown"@
    &&& e.network.signal_strength == -50
    &&& e.network.rssi == -50
    &&& e.network.security_type@ == "WPA2"@
    &&& e.network.ipv4_address.is_none()
    &&& e.network.ipv6_address.is_none()
    &&& e.firmware == (FirmwareVersion { major: 3, minor: 70, build: 0 })
}

/// Is `r` the answer with the single entry that rejects a request for
/// all devices?
pub open spec fn is_rejection(r: DeviceManagementResponse, why: Seq<char>) -> bool {
    &&& r.results@.len() == 1
    &&& r.results@[0].id@ == "all"@
    &&& r.results@[0].label@ == Seq::<char>::empty()
    &&& r.results@[0].status@ == "error"@
    &&& r.results@[0].message.is_some()
    &&& r.results@[0].message.unwrap()@ == why
}

fn rejection(why: &str) -> (r: DeviceManagementResponse)
    ensures
        is_rejection(r, why@),
{
    let mut results: Vec<DeviceResult> = Vec::new();
    results.push(
        DeviceResult {
            id: String::from_str("all"),
            label: String::new(),
            status: String::from_str("error"),
            message: Some(String::from_str(why)),
        },
    );
    DeviceManagementResponse { results }
}

fn capabilities(bulb: &BulbInfo) -> (r: DeviceCapabilities)
    ensures
        r == capabilities_of(*bulb),
{
    match &bulb.product {
        Some(p) => DeviceCapabilities {
            has_color: p.capabilities.has_color,
            has_variable_color_temp: p.capabilities.has_variable_color_temp,
            has_ir: p.capabilities.has_ir,
            has_chain: p.capabilities.has_chain,
            has_matrix: p.capabilities.has_matrix,
            has_multizone: p.capabilities.has_multizone,
            min_kelvin: p.capabilities.min_kelvin,
            max_kelvin: p.capabilities.max_kelvin,
        },
        None => DeviceCapabilities {
            has_color: true,
            has_variable_color_temp: true,
            has_ir: false,
            has_chain: false,
            has_matrix: false,
            has_multizone: false,
            min_kelvin: 2500,
            max_kelvin: 9000,
        },
    }
}

fn management_address(bulb: &BulbInfo) -> (r: u64)
    ensures
        r == management_target(*bulb),
{
    match parse_unsigned(bulb.id.as_str().as_bytes(), 0xffff_ffff_ffff_ffff) {
        Some(v) => v,
        None => 0,
    }
}

/// Is `o` the order that sends `command` to the device `b`?
pub open spec fn is_order_for(o: DeviceOrder, b: BulbInfo, source: u32) -> bool {
    &&& o.id == b.id
    &&& o.label == b.label
    &&& o.target == management_target(b)
    &&& o.source == source
}

/// The handler of management requests.
pub struct DeviceManagementHandler;

impl DeviceManagementHandler {
    pub fn new() -> (r: Self)
        ensures
            r == DeviceManagementHandler,
    {
        DeviceManagementHandler
    }

    /// Plans the change of a label.  A label of more than 32 bytes is
    /// rejected for all devices; any other is sent to each device.
    pub fn set_device_label(&self, mgr: &Manager, bulbs: &Vec<&BulbInfo>, request: SetLabelRequest)
        -> (r: ManagementPlan)
        ensures
            match r {
                ManagementPlan::Rejected(answer) => utf8(request.label@).len() > 32
                    && is_rejection(answer, "Label must be 32 characters or less"@),
                ManagementPlan::Send(orders) => {
                    &&& utf8(request.label@).len() <= 32
                    &&& orders@.len() == bulbs@.len()
                    &&& forall|k: int|
                        0 <= k < bulbs@.len() ==> is_order_for(
                            #[trigger] orders@[k],
                            *bulbs@[k],
                            mgr.source_tag(),
                        ) && orders@[k].command == ManagementCommand::SetLabel(request.label)
                },
            },
    {
        if request.label.as_str().as_bytes().len() > MAX_LABEL_BYTES {
            return ManagementPlan::Rejected(rejection("Label must be 32 characters or less"));
        }
        let mut orders: Vec<DeviceOrder> = Vec::new();
        let mut i: usize = 0;
        while i < bulbs.len()
            invariant
                i <= bulbs.len(),
                orders@.len() == i,
                forall|k: int|
                    0 <= k < i ==> is_order_for(#[trigger] orders@[k], *bulbs@[k], mgr.source_tag())
                        && orders@[k].command == ManagementCommand::SetLabel(request.label),
            decreases bulbs.len() - i,
        {
            let bulb: &BulbInfo = bulbs[i];
            orders.push(
                DeviceOrder {
                    id: bulb.id.clone(),
                    label: bulb.label.clone(),
                    target: management_address(bulb),
                    source: mgr.source(),
                    command: ManagementCommand::SetLabel(request.label.clone()),
                },
            );
            i += 1;
        }
        ManagementPlan::Send(orders)
    }

    /// Plans the reboot of devices: each is sent the command, after which
    /// the gateway waits the delay that the request names, or not at all.
    pub fn reboot_device(&self, mgr: &Manager, bulbs: &Vec<&BulbInfo>, request: RebootRequest) -> (r:
        Vec<DeviceOrder>)
        ensures
            r@.len() == bulbs@.len(),
            forall|k: int|
                0 <= k < bulbs@.len() ==> is_order_for(
                    #[trigger] r@[k],
                    *bulbs@[k],
                    mgr.source_tag(),
                ) && r@[k].command == (ManagementCommand::Reboot {
                    delay: match request.delay {
                        Some(d) => d,
                        None => 0,
                    },
                }),
    {
        let delay: u32 = match request.delay {
            Some(d) => d,
            None => 0,
        };
        let mut orders: Vec<DeviceOrder> = Vec::new();
        let mut i: usize = 0;
        while i < bulbs.len()
            invariant
                i <= bulbs.len(),
                orders@.len() == i,
                forall|k: int|
                    0 <= k < i ==> is_order_for(#[trigger] orders@[k], *bulbs@[k], mgr.source_tag())
                        && orders@[k].command == (ManagementCommand::Reboot { delay }),
            decreases bulbs.len() - i,
        {
            let bulb: &BulbInfo = bulbs[i];
            orders.push(
                DeviceOrder {
                    id: bulb.id.clone(),
                    label: bulb.label.clone(),
                    target: management_address(bulb),
                    source: mgr.source(),
                    command: ManagementCommand::Reboot { delay },
                },
            );
            i += 1;
        }
        orders
    }

    /// Reports what became of an order.  `done` is the status of an order
    /// that went well; an order that did not has the error as its
    /// message.
    pub fn report(&self, order: &DeviceOrder, outcome: Result<(), String>) -> (r: DeviceResult)
        ensures
            r.id == order.id,
            r.label == order.label,
            r.status@ == (match outcome {
                Ok(_) => match order.command {
                    ManagementCommand::SetLabel(_) => "ok"@,
                    ManagementCommand::Reboot { .. } => "rebooting"@,
                },
                Err(_) => "error"@,
            }),
            r.message == (match outcome {
                Ok(_) => None,
                Err(e) => Some(e),
            }),
    {
        let status: String = match &outcome {
            Ok(_) => match &order.command {
                ManagementCommand::SetLabel(_) => String::from_str("ok"),
                ManagementCommand::Reboot { .. } => String::from_str("rebooting"),
            },
            Err(_) => String::from_str("error"),
        };
        DeviceResult {
            id: order.id.clone(),
            label: order.label.clone(),
            status,
            message: match outcome {
                Ok(_) => None,
                Err(e) => Some(e),
            },
        }
    }

    /// Answers a request to change the Wi-Fi settings.  A network name
    /// that is empty or longer than 32 bytes and a password longer than 64
    /// bytes are rejected for all devices.  No device takes new settings
    /// yet: each is answered with an error that says so.
    pub fn update_wifi_settings(&self, bulbs: &Vec<&BulbInfo>, request: WiFiConfigRequest) -> (r:
        DeviceManagementResponse)
        ensures
            if utf8(request.ssid@).len() == 0 || utf8(request.ssid@).len() > 32 {
                is_rejection(r, "SSID must be between 1 and 32 characters"@)
            } else if utf8(request.pass@).len() > 64 {
                is_rejection(r, "Password must be 64 characters or less"@)
            } else {
                &&& r.results@.len() == bulbs@.len()
                &&& forall|k: int|
                    0 <= k < bulbs@.len() ==> {
                        &&& (#[trigger] r.results@[k]).id == bulbs@[k].id
                        &&& r.results@[k].label == bulbs@[k].label
                        &&& r.results@[k].status@ == "error"@
                        &&& r.results@[k].message.is_some()
                        &&& r.results@[k].message.unwrap()@
                            == "WiFi configuration update requires full LIFX protocol implementation"@
                    }
            },
    {
        let ssid_len: usize = request.ssid.as_str().as_bytes().len();
        if ssid_len == 0 || ssid_len > MAX_SSID_BYTES {
            return rejection("SSID must be between 1 and 32 characters");
        }
        if request.pass.as_str().as_bytes().len() > MAX_PASSWORD_BYTES {
            return rejection("Password must be 64 characters or less");
        }
        let mut results: Vec<DeviceResult> = Vec::new();
        let mut i: usize = 0;
        while i < bulbs.len()
            invariant
                i <= bulbs.len(),
                results@.len() == i,
                forall|k: int|
                    0 <= k < i ==> {
                        &&& (#[trigger] results@[k]).id == bulbs@[k].id
                        &&& results@[k].label == bulbs@[k].label
                        &&& results@[k].status@ == "error"@
                        &&& results@[k].message.is_some()
                        &&& results@[k].message.unwrap()@
                            == "WiFi configuration update requires full LIFX protocol implementation"@
                    },
            decreases bulbs.len() - i,
        {
            let bulb: &BulbInfo = bulbs[i];
            results.push(
                DeviceResult {
                    id: bulb.id.clone(),
                    label: bulb.label.clone(),
                    status: String::from_str("error"),
                    message: Some(
                        String::from_str(
                            "WiFi configuration update requires full LIFX protocol implementation",
                        ),
                    ),
                },
            );
            i += 1;
        }
        DeviceManagementResponse { results }
    }

    /// The configuration of a device, as far as the registry knows it.
    pub fn fetch_device_config(&self, bulb: &BulbInfo) -> (r: DeviceConfig)
        ensures
            is_config_of(r, *bulb),
    {
        let product: Option<ProductConfig> = match &bulb.product {
            Some(p) => Some(
                ProductConfig {
                    name: p.name.clone(),
                    vendor: p.company.clone(),
                    product_id: p.product_id as u32,
                    capabilities: capabilities(bulb),
                },
            ),
            None => None,
        };
        DeviceConfig {
            id: bulb.id.clone(),
            label: bulb.label.clone(),
            group: match &bulb.lifx_group {
                Some(g) => Some(g.name.clone()),
                None => None,
            },
            location: match &bulb.lifx_location {
                Some(l) => Some(l.name.clone()),
                None => None,
            },
            product,
            version: None,
            wifi: None,
            uptime: None,
            host_info: Some(
                HostInfo {
                    uptime_seconds: 0,
                    downtime_seconds: 0,
                    last_seen: bulb.lifx_last_seen.clone(),
                },
            ),
        }
    }

    /// All that the registry knows of a device.
    pub fn fetch_extended_info(&self, bulb: &BulbInfo) -> (r: ExtendedDeviceInfo)
        ensures
            is_info_of(r, *bulb),
    {
        ExtendedDeviceInfo {
            id: bulb.id.clone(),
            uuid: bulb.uuid.clone(),
            label: bulb.label.clone(),
            connected: bulb.connected,
            power: bulb.power.clone(),
            color: bulb.lifx_color,
            brightness: bulb.brightness,
            group: match &bulb.lifx_group {
                Some(g) => Some(LifxGroup { id: g.id.clone(), name: g.name.clone() }),
                None => None,
            },
            location: match &bulb.lifx_location {
                Some(l) => Some(LifxLocation { id: l.id.clone(), name: l.name.clone() }),
                None => None,
            },
            product: match &bulb.product {
                Some(p) => Some(
                    ProductInfo {
                        name: p.name.clone(),
                        identifier: p.identifier.clone(),
                        company: p.company.clone(),
                        vendor_id: p.vendor_id,
                        product_id: p.product_id,
                        capabilities: p.capabilities,
                    },
                ),
                None => None,
            },
            last_seen: bulb.lifx_last_seen.clone(),
            config: self.fetch_device_config(bulb),
            capabilities: capabilities(bulb),
            network: WiFiInfo {
                ssid: String::from_str("Unknown"),
                signal_strength: -50,
                rssi: -50,
                security_type: String::from_str("WPA2"),
                ipv4_address: None,
                ipv6_address: None,
            },
            firmware: FirmwareVersion { major: 3, minor: 70, build: 0 },
        }
    }

    /// The configurations of the devices, one for each and in the same
    /// order.
    pub fn get_device_config(&self, bulbs: &Vec<&BulbInfo>) -> (r: Vec<DeviceConfig>)
        ensures
            r@.len() == bulbs@.len(),
            forall|k: int| 0 <= k < bulbs@.len() ==> is_config_of(#[trigger] r@[k], *bulbs@[k]),
    {
        let mut out: Vec<DeviceConfig> = Vec::new();
        let mut i: usize = 0;
        while i < bulbs.len()
            invariant
                i <= bulbs.len(),
                out@.len() == i,
                forall|k: int| 0 <= k < i ==> is_config_of(#[trigger] out@[k], *bulbs@[k]),
            decreases bulbs.len() - i,
        {
            out.push(self.fetch_device_config(bulbs[i]));
            i += 1;
        }
        out
    }

    /// All that is known of the devices, one entry for each and in the
    /// same order.
    pub fn get_extended_info(&self, bulbs: &Vec<&BulbInfo>) -> (r: Vec<ExtendedDeviceInfo>)
        ensures
            r@.len() == bulbs@.len(),
            forall|k: int| 0 <= k < bulbs@.len() ==> is_info_of(#[trigger] r@[k], *bulbs@[k]),
    {
        let mut out: Vec<ExtendedDeviceInfo> = Vec::new();
        let mut i: usize = 0;
        while i < bulbs.len()
            invariant
                i <= bulbs.len(),
                out@.len() == i,
                forall|k: int| 0 <= k < i ==> is_info_of(#[trigger] out@[k], *bulbs@[k]),
            decreases bulbs.len() - i,
        {
            out.push(self.fetch_extended_info(bulbs[i]));
            i += 1;
        }
        out
    }
}

} // verus!
