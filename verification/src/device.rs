//! The record that the gateway keeps of one lamp, and the way inbound
//! protocol messages change it.

use vstd::prelude::*;
use vstd::string::StringExecFns;
use crate::color::{Hsbk, LifxColor};
use crate::number::Number;
use crate::staleness::{RefreshRequest, RefreshableData};
use crate::text::{decimal_chars, push_decimal};

verus! {

/// Longest age of the attributes that rarely change, in milliseconds.
pub const HOUR: u64 = 3_600_000;

/// Longest age of the power state, in milliseconds.
pub const POWER_MAX_AGE: u64 = 500;

/// Longest age of the colour, in milliseconds.
pub const COLOR_MAX_AGE: u64 = 15_000;

/// The location of a device as it is shown to clients.
#[derive(Debug)]
pub struct LifxLocation {
    pub id: String,
    pub name: String,
}

/// The group of a device as it is shown to clients.
#[derive(Debug)]
pub struct LifxGroup {
    pub id: String,
    pub name: String,
}

/// Whether a lamp is lit.
#[derive(Clone, Copy, Debug, PartialEq, Eq, Structural)]
pub enum PowerLevel {
    Standby,
    Enabled,
}

/// What a product can do.
#[derive(Clone, Copy, Debug, PartialEq, Eq, Structural)]
pub struct ProductCapabilities {
    pub has_color: bool,
    pub has_variable_color_temp: bool,
    pub has_ir: bool,
    pub has_hev: bool,
    pub has_chain: bool,
    pub has_matrix: bool,
    pub has_multizone: bool,
    pub min_kelvin: i64,
    pub max_kelvin: i64,
}

/// A product of the vendor's catalogue.
#[derive(Debug)]
pub struct ProductInfo {
    pub name: String,
    pub identifier: String,
    pub company: String,
    pub vendor_id: i64,
    pub product_id: i64,
    pub capabilities: ProductCapabilities,
}

/// The mathematical content of a catalogue entry.
pub struct ProductModel {
    pub name: Seq<char>,
    pub identifier: Seq<char>,
    pub company: Seq<char>,
    pub vendor_id: i64,
    pub product_id: i64,
    pub capabilities: ProductCapabilities,
}

impl View for ProductInfo {
    type V = ProductModel;

    open spec fn view(&self) -> ProductModel {
        ProductModel {
            name: self.name@,
            identifier: self.identifier@,
            company: self.company@,
            vendor_id: self.vendor_id,
            product_id: self.product_id,
            capabilities: self.capabilities,
        }
    }
}

/// The catalogue entry of a vendor and product number, if the catalogue
/// has one.
pub uninterp spec fn known_product(vendor: u32, product: u32) -> Option<ProductModel>;

/// `lifx_rs::lan::get_product_info`: a lookup in a fixed table by vendor
/// and product number.  The entry found, copied field by field, is the one
/// that `known_product` names; no entry means that it names none.
#[verifier::external_body]
fn lookup_product(vendor: u32, product: u32) -> (r: Option<ProductInfo>)
    ensures
        r.is_some() == known_product(vendor, product).is_some(),
        r.is_some() ==> r.unwrap()@ == known_product(vendor, product).unwrap(),
{
    lifx_rs::lan::get_product_info(vendor, product).map(|p| ProductInfo {
        name: p.name.to_string(), identifier: p.identifier.to_string(),
        company: p.company.to_string(), vendor_id: p.vendor_id, product_id: p.product_id,
        capabilities: ProductCapabilities {
            has_color: p.capabilities.has_color,
            has_variable_color_temp: p.capabilities.has_variable_color_temp,
            has_ir: p.capabilities.has_ir, has_hev: p.capabilities.has_hev,
            has_chain: p.capabilities.has_chain, has_matrix: p.capabilities.has_matrix,
            has_multizone: p.capabilities.has_multizone,
            min_kelvin: p.capabilities.min_kelvin, max_kelvin: p.capabilities.max_kelvin,
        },
    })
}

/// Where a device is reached: an IPv4 address and a UDP port.
#[derive(Clone, Copy, Debug, PartialEq, Eq, Structural)]
pub struct SocketAddress {
    pub ip: u32,
    pub port: u16,
}

/// The colour state of a device.  Until the product is known it is unknown
/// whether the device has one colour or one per zone.
#[derive(Debug)]
pub enum LiColor {
    Unknown,
    Single(RefreshableData<Hsbk>),
    Multi(RefreshableData<Vec<Option<Hsbk>>>),
}

/// Everything the gateway knows of one device.
#[derive(Debug)]
pub struct BulbInfo {
    pub id: String,
    pub uuid: String,
    pub label: String,
    pub connected: bool,
    pub power: String,
    pub lifx_color: Option<LifxColor>,
    pub brightness: Number,
    pub lifx_group: Option<LifxGroup>,
    pub lifx_location: Option<LifxLocation>,
    pub product: Option<ProductInfo>,
    pub lifx_last_seen: String,
    pub seconds_since_seen: i64,
    pub last_seen: u64,
    pub source: u32,
    pub target: u64,
    pub addr: SocketAddress,
    pub group: RefreshableData<LifxGroup>,
    pub name: RefreshableData<String>,
    pub model: RefreshableData<(u32, u32)>,
    pub location: RefreshableData<String>,
    pub host_firmware: RefreshableData<u32>,
    pub wifi_firmware: RefreshableData<u32>,
    pub power_level: RefreshableData<PowerLevel>,
    pub color: LiColor,
}

/// A cell without a value.
pub open spec fn empty_cell<T>(max_age: u64, refresh_msg: RefreshRequest, now: u64)
    -> RefreshableData<T> {
    RefreshableData { data: None, max_age, last_updated: now, refresh_msg }
}

impl BulbInfo {
    /// Is this the record of a device that was seen for the first time at
    /// `now`: nothing known of it but its addresses and identifiers, and
    /// every attribute waiting to be asked for?
    pub open spec fn is_fresh(
        self,
        source: u32,
        target: u64,
        addr: SocketAddress,
        id: String,
        uuid: String,
        now: u64,
    ) -> bool {
        &&& self.id == id
        &&& self.uuid == uuid
        &&& self.label@ == Seq::<char>::empty()
        &&& self.connected
        &&& self.power@ == "off"@
        &&& self.lifx_color.is_none()
        &&& self.brightness == (Number::Finite { nanos: 0 })
        &&& self.lifx_group.is_none()
        &&& self.lifx_location.is_none()
        &&& self.product.is_none()
        &&& self.lifx_last_seen@ == Seq::<char>::empty()
        &&& self.seconds_since_seen == 0
        &&& self.last_seen == now
        &&& self.source == source
        &&& self.target == target
        &&& self.addr == addr
        &&& self.group == empty_cell::<LifxGroup>(HOUR, RefreshRequest::GetGroup, now)
        &&& self.name == empty_cell::<String>(HOUR, RefreshRequest::GetLabel, now)
        &&& self.model == empty_cell::<(u32, u32)>(HOUR, RefreshRequest::GetVersion, now)
        &&& self.location == empty_cell::<String>(HOUR, RefreshRequest::GetLocation, now)
        &&& self.host_firmware == empty_cell::<u32>(HOUR, RefreshRequest::GetHostFirmware, now)
        &&& self.wifi_firmware == empty_cell::<u32>(HOUR, RefreshRequest::GetWifiFirmware, now)
        &&& self.power_level == empty_cell::<PowerLevel>(
            POWER_MAX_AGE,
            RefreshRequest::GetPower,
            now,
        )
        &&& self.color == LiColor::Unknown
    }

    /// The record of a device that was seen for the first time at `now`.
    /// `id` and `uuid` are the identifiers under which clients will know
    /// it.
    pub fn new(
        source: u32,
        target: u64,
        addr: SocketAddress,
        id: String,
        uuid: String,
        now: u64,
    ) -> (r: BulbInfo)
        ensures
            r.is_fresh(source, target, addr, id, uuid, now),
    {
        BulbInfo {
            id,
            uuid,
            label: String::new(),
            connected: true,
            power: String::from_str("off"),
            lifx_color: None,
            brightness: Number::Finite { nanos: 0 },
            lifx_group: None,
            lifx_location: None,
            product: None,
            lifx_last_seen: String::new(),
            seconds_since_seen: 0,
            last_seen: now,
            source,
            target,
            addr,
            group: RefreshableData::empty(HOUR, RefreshRequest::GetGroup, now),
            location: RefreshableData::empty(HOUR, RefreshRequest::GetLocation, now),
            name: RefreshableData::empty(HOUR, RefreshRequest::GetLabel, now),
            model: RefreshableData::empty(HOUR, RefreshRequest::GetVersion, now),
            host_firmware: RefreshableData::empty(HOUR, RefreshRequest::GetHostFirmware, now),
            wifi_firmware: RefreshableData::empty(HOUR, RefreshRequest::GetWifiFirmware, now),
            power_level: RefreshableData::empty(POWER_MAX_AGE, RefreshRequest::GetPower, now),
            color: LiColor::Unknown,
        }
    }

    /// Records that the device was heard from at `now`, from `addr`.
    pub fn update(&mut self, addr: SocketAddress, now: u64)
        ensures
            *final(self) == (BulbInfo { last_seen: now, addr, ..*old(self) }),
    {
        self.last_seen = now;
        self.addr = addr;
    }
}

/// The decimal notations of the bytes of an identifier, one after the
/// other without anything between them.
pub open spec fn ident_digits(b: Seq<u8>) -> Seq<char>
    decreases b.len(),
{
    if b.len() == 0 {
        Seq::empty()
    } else {
        ident_digits(b.drop_last()) + decimal_chars(b.last() as nat)
    }
}

/// The decimal notations of the bytes of an identifier, divided by a comma
/// and a space.
pub open spec fn ident_list(b: Seq<u8>) -> Seq<char>
    decreases b.len(),
{
    if b.len() == 0 {
        Seq::empty()
    } else if b.len() == 1 {
        decimal_chars(b[0] as nat)
    } else {
        ident_list(b.drop_last()) + ", "@ + decimal_chars(b.last() as nat)
    }
}

/// An identifier as a list in square brackets.
pub open spec fn ident_debug(b: Seq<u8>) -> Seq<char> {
    "["@ + ident_list(b) + "]"@
}

/// Writes an identifier as the digits of its bytes.
pub fn format_ident_digits(b: &[u8]) -> (r: String)
    ensures
        r@ == ident_digits(b@),
{
    let mut out = String::new();
    let mut i: usize = 0;
    assert(b@.subrange(0, 0) =~= Seq::<u8>::empty());
    while i < b.len()
        invariant
            i <= b.len(),
            out@ == ident_digits(b@.subrange(0, i as int)),
        decreases b.len() - i,
    {
        proof {
            let longer = b@.subrange(0, i + 1);
            assert(longer.drop_last() =~= b@.subrange(0, i as int));
            assert(longer.last() == b@[i as int]);
        }
        push_decimal(&mut out, b[i] as u64);
        i += 1;
    }
    assert(b@.subrange(0, i as int) =~= b@);
    out
}

/// Writes an identifier as a list in square brackets.
pub fn format_ident_debug(b: &[u8]) -> (r: String)
    ensures
        r@ == ident_debug(b@),
{
    let mut out = String::from_str("[");
    let mut i: usize = 0;
    assert(b@.subrange(0, 0) =~= Seq::<u8>::empty());
    assert("["@ + Seq::<char>::empty() =~= "["@);
    while i < b.len()
        invariant
            i <= b.len(),
            out@ == "["@ + ident_list(b@.subrange(0, i as int)),
        decreases b.len() - i,
    {
        proof {
            let longer = b@.subrange(0, i + 1);
            assert(longer.drop_last() =~= b@.subrange(0, i as int));
            assert(longer.last() == b@[i as int]);
            if i == 0 {
                assert(longer[0] == b@[0]);
            }
        }
        let ghost before = out@;
        if i > 0 {
            out.append(", ");
        }
        push_decimal(&mut out, b[i] as u64);
        proof {
            let shorter = b@.subrange(0, i as int);
            let longer = b@.subrange(0, i + 1);
            if i > 0 {
                assert(out@ =~= "["@ + (ident_list(shorter) + ", "@ + decimal_chars(
                    b@[i as int] as nat,
                )));
            } else {
                assert(out@ =~= "["@ + decimal_chars(b@[0] as nat));
            }
        }
        i += 1;
    }
    assert(b@.subrange(0, i as int) =~= b@);
    out.append("]");
    out
}


/// A protocol message that a device has sent, with the fields that the
/// gateway reads.
#[derive(Debug)]
pub enum InboundMessage {
    StateService,
    StateLabel { label: String },
    StateLocation { location: Vec<u8>, label: String },
    StateVersion { vendor: u32, product: u32 },
    StatePower { level: PowerLevel },
    StateGroup { group: Vec<u8>, label: String },
    StateHostFirmware { version: u32 },
    StateWifiFirmware { version: u32 },
    LightState { color: Hsbk, power: PowerLevel, label: String },
    StateZone { count: u8, index: u8, color: Hsbk },
    StateMultiZone { count: u8, index: u8, colors: [Hsbk; 8] },
    /// Any message that the gateway has no use for.
    Other,
}

/// Why an inbound message was dropped.
#[derive(Clone, Copy, Debug, PartialEq, Eq, Structural)]
pub enum InboundError {
    /// A zone report names a zone that the device does not have.
    ZoneOutOfRange,
}

/// The colour cell of a device whose product has just become known.
pub open spec fn fresh_color(multizone: bool, now: u64) -> LiColor {
    if multizone {
        LiColor::Multi(
            empty_cell(
                COLOR_MAX_AGE,
                RefreshRequest::GetColorZones { start_index: 0, end_index: 255 },
                now,
            ),
        )
    } else {
        LiColor::Single(empty_cell(COLOR_MAX_AGE, RefreshRequest::LightGet, now))
    }
}

/// A brightness level as a fraction of the full brightness.
pub open spec fn brightness_fraction(level: u16) -> Number {
    Number::Finite { nanos: (level as int * 1_000_000_000 / 65535) as i64 }
}

/// The zones of a device before a report is written into them: the zones
/// known so far, or `count` unknown zones where none is known yet.
pub open spec fn zones_before(d: RefreshableData<Vec<Option<Hsbk>>>, count: u8) -> Seq<
    Option<Hsbk>,
> {
    match d.data {
        Some(v) => v@,
        None => Seq::new(count as nat, |i: int| None::<Hsbk>),
    }
}

/// The zones with eight colours written from `index` on.
pub open spec fn zones_with_block(z: Seq<Option<Hsbk>>, index: int, colors: Seq<Hsbk>) -> Seq<
    Option<Hsbk>,
> {
    Seq::new(
        z.len(),
        |i: int|
            if index <= i < index + 8 {
                Some(colors[i - index])
            } else {
                z[i]
            },
    )
}

/// Is `n` the zone cell `d` with the zones `z` as its value and nothing
/// else changed?
pub open spec fn zones_stored(
    d: RefreshableData<Vec<Option<Hsbk>>>,
    n: LiColor,
    z: Seq<Option<Hsbk>>,
) -> bool {
    &&& n matches LiColor::Multi(c)
    &&& c.data matches Some(v)
    &&& v@ == z
    &&& c.max_age == d.max_age
    &&& c.last_updated == d.last_updated
    &&& c.refresh_msg == d.refresh_msg
}

/// Is `n` the record `o` after the product's version became known at
/// `now`, where `info` is the catalogue's entry for it?  The model cell is
/// updated; a known product is stored and makes the colour cell start
/// anew, with one colour or with zones as the product has it.
pub open spec fn version_applied(
    o: BulbInfo,
    n: BulbInfo,
    vendor: u32,
    product: u32,
    info: Option<ProductModel>,
    now: u64,
) -> bool {
    match info {
        None => n == (BulbInfo { model: o.model.updated((vendor, product), now), ..o }),
        Some(pm) => {
            &&& n == (BulbInfo {
                model: o.model.updated((vendor, product), now),
                product: n.product,
                color: fresh_color(pm.capabilities.has_multizone, now),
                ..o
            })
            &&& n.product matches Some(p)
            &&& p@ == pm
        },
    }
}

/// Is `n` the record `o` after the message `msg` was applied to it at
/// time `now`?
pub open spec fn handled(o: BulbInfo, n: BulbInfo, msg: InboundMessage, now: u64) -> bool {
    match msg {
        InboundMessage::StateService => n == o,
        InboundMessage::Other => n == o,
        InboundMessage::StateLabel { label } => n == (BulbInfo {
            name: o.name.updated(label, now),
            label: label,
            ..o
        }),
        InboundMessage::StateLocation { location, label } => {
            &&& n == (BulbInfo {
                location: o.location.updated(label, now),
                lifx_location: n.lifx_location,
                ..o
            })
            &&& n.lifx_location matches Some(l)
            &&& l.name == label
            &&& l.id@ == ident_digits(location@)
        },
        InboundMessage::StateVersion { vendor, product } => version_applied(
            o,
            n,
            vendor,
            product,
            known_product(vendor, product),
            now,
        ),
        InboundMessage::StatePower { level } => {
            &&& n == (BulbInfo {
                power_level: o.power_level.updated(level, now),
                power: n.power,
                ..o
            })
            &&& n.power@ == (if level == PowerLevel::Enabled {
                "on"@
            } else {
                "off"@
            })
        },
        InboundMessage::StateGroup { group, label } => {
            &&& n == (BulbInfo { group: n.group, lifx_group: n.lifx_group, ..o })
            &&& n.group.data matches Some(g)
            &&& g.name == label
            &&& g.id@ == ident_debug(group@)
            &&& n.group.max_age == o.group.max_age
            &&& n.group.last_updated == now
            &&& n.group.refresh_msg == o.group.refresh_msg
            &&& n.lifx_group matches Some(shown)
            &&& shown.name == label
            &&& shown.id@ == ident_digits(group@)
        },
        InboundMessage::StateHostFirmware { version } => n == (BulbInfo {
            host_firmware: o.host_firmware.updated(version, now),
            ..o
        }),
        InboundMessage::StateWifiFirmware { version } => n == (BulbInfo {
            wifi_firmware: o.wifi_firmware.updated(version, now),
            ..o
        }),
        InboundMessage::LightState { color, power, label } => match o.color {
            LiColor::Single(d) => {
                &&& n == (BulbInfo {
                    color: LiColor::Single(d.updated(color, now)),
                    lifx_color: Some(
                        LifxColor {
                            hue: color.hue,
                            saturation: color.saturation,
                            kelvin: color.kelvin,
                            brightness: color.brightness,
                        },
                    ),
                    brightness: brightness_fraction(color.brightness),
                    power_level: o.power_level.updated(power, now),
                    power: n.power,
                    name: o.name.updated(label, now),
                    label: label,
                    ..o
                })
                &&& n.power@ == (if power == PowerLevel::Enabled {
                    "on"@
                } else {
                    "off"@
                })
            },
            _ => n == (BulbInfo { name: o.name.updated(label, now), label: label, ..o }),
        },
        InboundMessage::StateZone { count, index, color } => match o.color {
            LiColor::Multi(d) => if index < zones_before(d, count).len() {
                &&& n == (BulbInfo { color: n.color, ..o })
                &&& zones_stored(d, n.color, zones_before(d, count).update(index as int, Some(color)))
            } else {
                n == o
            },
            _ => n == o,
        },
        InboundMessage::StateMultiZone { count, index, colors } => match o.color {
            LiColor::Multi(d) => if index + 8 <= zones_before(d, count).len() {
                &&& n == (BulbInfo { color: n.color, ..o })
                &&& zones_stored(
                    d,
                    n.color,
                    zones_with_block(zones_before(d, count), index as int, colors@),
                )
            } else {
                n == o
            },
            _ => n == o,
        },
    }
}

/// Does the record `o` have room for what the message reports?  Only a
/// zone report can fail to fit: it is dropped where the device has zones
/// and the reported ones are not among them.
pub open spec fn fits(o: BulbInfo, msg: InboundMessage) -> bool {
    match msg {
        InboundMessage::StateZone { count, index, color } => match o.color {
            LiColor::Multi(d) => index < zones_before(d, count).len(),
            _ => true,
        },
        InboundMessage::StateMultiZone { count, index, colors } => match o.color {
            LiColor::Multi(d) => index + 8 <= zones_before(d, count).len(),
            _ => true,
        },
        _ => true,
    }
}

fn unknown_zones(count: u8) -> (v: Vec<Option<Hsbk>>)
    ensures
        v@ == Seq::new(count as nat, |i: int| None::<Hsbk>),
{
    let mut v: Vec<Option<Hsbk>> = Vec::new();
    let mut i: u8 = 0;
    while i < count
        invariant
            i <= count,
            v@ == Seq::new(i as nat, |k: int| None::<Hsbk>),
        decreases count - i,
    {
        v.push(None);
        i += 1;
        assert(v@ =~= Seq::new(i as nat, |k: int| None::<Hsbk>));
    }
    v
}

fn write_block(v: &mut Vec<Option<Hsbk>>, index: usize, colors: &[Hsbk; 8])
    requires
        index + 8 <= old(v)@.len(),
    ensures
        final(v)@ == zones_with_block(old(v)@, index as int, colors@),
{
    let mut j: usize = 0;
    while j < 8
        invariant
            j <= 8,
            index + 8 <= v.len(),
            v@.len() == old(v)@.len(),
            forall|i: int|
                0 <= i < v@.len() ==> v@[i] == (if index <= i < index + j {
                    Some(colors@[i - index])
                } else {
                    old(v)@[i]
                }),
        decreases 8 - j,
    {
        v.set(index + j, Some(colors[j]));
        j += 1;
    }
    assert(v@ =~= zones_with_block(old(v)@, index as int, colors@));
}

impl BulbInfo {
    /// Stores the product's version and, where the catalogue knows the
    /// product, the product itself; the colour cell then starts anew with
    /// the shape that the product has.
    pub fn apply_version(&mut self, vendor: u32, product: u32, info: Option<ProductInfo>, now: u64)
        ensures
            version_applied(
                *old(self),
                *final(self),
                vendor,
                product,
                match info {
                    Some(p) => Some(p@),
                    None => None,
                },
                now,
            ),
    {
        self.model.update((vendor, product), now);
        if let Some(p) = info {
            if p.capabilities.has_multizone {
                self.color = LiColor::Multi(
                    RefreshableData::empty(
                        COLOR_MAX_AGE,
                        RefreshRequest::GetColorZones { start_index: 0, end_index: 255 },
                        now,
                    ),
                );
            } else {
                self.color = LiColor::Single(
                    RefreshableData::empty(COLOR_MAX_AGE, RefreshRequest::LightGet, now),
                );
            }
            self.product = Some(p);
        }
    }

    /// Writes the colour of one zone.
    fn apply_zone(&mut self, count: u8, index: u8, color: Hsbk) -> (r: Result<(), InboundError>)
        ensures
            handled(
                *old(self),
                *final(self),
                InboundMessage::StateZone { count, index, color },
                0,
            ),
            r.is_ok() == fits(*old(self), InboundMessage::StateZone { count, index, color }),
    {
        match &mut self.color {
            LiColor::Multi(d) => {
                let known: usize = match &d.data {
                    Some(v) => v.len(),
                    None => count as usize,
                };
                if (index as usize) < known {
                    let mut zones: Vec<Option<Hsbk>> = match d.data.take() {
                        Some(v) => v,
                        None => unknown_zones(count),
                    };
                    zones.set(index as usize, Some(color));
                    d.data = Some(zones);
                    Ok(())
                } else {
                    Err(InboundError::ZoneOutOfRange)
                }
            },
            _ => Ok(()),
        }
    }
}


impl BulbInfo {
    /// Writes the colours of eight neighbouring zones.
    fn apply_multizone(&mut self, count: u8, index: u8, colors: [Hsbk; 8]) -> (r: Result<
        (),
        InboundError,
    >)
        ensures
            handled(
                *old(self),
                *final(self),
                InboundMessage::StateMultiZone { count, index, colors },
                0,
            ),
            r.is_ok() == fits(
                *old(self),
                InboundMessage::StateMultiZone { count, index, colors },
            ),
    {
        match &mut self.color {
            LiColor::Multi(d) => {
                let known: usize = match &d.data {
                    Some(v) => v.len(),
                    None => count as usize,
                };
                if (index as usize) + 8 <= known {
                    let mut zones: Vec<Option<Hsbk>> = match d.data.take() {
                        Some(v) => v,
                        None => unknown_zones(count),
                    };
                    write_block(&mut zones, index as usize, &colors);
                    d.data = Some(zones);
                    Ok(())
                } else {
                    Err(InboundError::ZoneOutOfRange)
                }
            },
            _ => Ok(()),
        }
    }

    /// Stores what a light-state report tells: the label, and, where the
    /// device has a single colour, the colour with the brightness and the
    /// power that belong to it.  The texts shown to clients follow their
    /// cells.
    fn apply_light_state(&mut self, color: Hsbk, power: PowerLevel, label: String, now: u64)
        ensures
            handled(
                *old(self),
                *final(self),
                InboundMessage::LightState { color, power, label },
                now,
            ),
    {
        let single: bool = match &mut self.color {
            LiColor::Single(d) => {
                d.update(color, now);
                true
            },
            _ => false,
        };
        if single {
            self.lifx_color = Some(
                LifxColor {
                    hue: color.hue,
                    saturation: color.saturation,
                    kelvin: color.kelvin,
                    brightness: color.brightness,
                },
            );
            self.brightness = Number::Finite {
                nanos: (color.brightness as i64) * 1_000_000_000 / 65535,
            };
            self.power_level.update(power, now);
            match power {
                PowerLevel::Enabled => {
                    self.power = String::from_str("on");
                },
                PowerLevel::Standby => {
                    self.power = String::from_str("off");
                },
            }
        }
        self.label = label.clone();
        self.name.update(label, now);
    }
}

/// Applies an inbound message to the record of the device that sent it.
/// Each kind of message updates the cells that it reports on and the
/// fields shown to clients that are derived from them; a message of no use
/// changes nothing.  A zone report that does not fit the device is
/// dropped with an error and changes nothing either.
pub fn handle_message(msg: InboundMessage, bulb: &mut BulbInfo, now: u64) -> (r: Result<
    (),
    InboundError,
>)
    ensures
        handled(*old(bulb), *final(bulb), msg, now),
        r.is_ok() == fits(*old(bulb), msg),
{
    match msg {
        InboundMessage::StateService => Ok(()),
        InboundMessage::Other => Ok(()),
        InboundMessage::StateLabel { label } => {
            bulb.label = label.clone();
            bulb.name.update(label, now);
            Ok(())
        },
        InboundMessage::StateLocation { location, label } => {
            let shown = LifxLocation {
                id: format_ident_digits(location.as_slice()),
                name: label.clone(),
            };
            bulb.location.update(label, now);
            bulb.lifx_location = Some(shown);
            Ok(())
        },
        InboundMessage::StateVersion { vendor, product } => {
            let info: Option<ProductInfo> = lookup_product(vendor, product);
            bulb.apply_version(vendor, product, info, now);
            Ok(())
        },
        InboundMessage::StatePower { level } => {
            bulb.power_level.update(level, now);
            match level {
                PowerLevel::Enabled => {
                    bulb.power = String::from_str("on");
                },
                PowerLevel::Standby => {
                    bulb.power = String::from_str("off");
                },
            }
            Ok(())
        },
        InboundMessage::StateGroup { group, label } => {
            let cached = LifxGroup {
                id: format_ident_debug(group.as_slice()),
                name: label.clone(),
            };
            let shown = LifxGroup { id: format_ident_digits(group.as_slice()), name: label };
            bulb.group.update(cached, now);
            bulb.lifx_group = Some(shown);
            Ok(())
        },
        InboundMessage::StateHostFirmware { version } => {
            bulb.host_firmware.update(version, now);
            Ok(())
        },
        InboundMessage::StateWifiFirmware { version } => {
            bulb.wifi_firmware.update(version, now);
            Ok(())
        },
        InboundMessage::LightState { color, power, label } => {
            bulb.apply_light_state(color, power, label, now);
            Ok(())
        },
        InboundMessage::StateZone { count, index, color } => bulb.apply_zone(count, index, color),
        InboundMessage::StateMultiZone { count, index, colors } => bulb.apply_multizone(
            count,
            index,
            colors,
        ),
    }
}

/// The refresh requests that a device is due at time `now`: one for each
/// cell that is stale, in the order label, version, location, host
/// firmware, Wi-Fi firmware, power, group, colour.  A device whose colour
/// shape is not known yet is not asked for its colour.
pub open spec fn due_requests(b: BulbInfo, now: u64) -> Seq<RefreshRequest> {
    let a = if b.name.stale(now) {
        seq![b.name.refresh_msg]
    } else {
        Seq::empty()
    };
    let a = if b.model.stale(now) {
        a.push(b.model.refresh_msg)
    } else {
        a
    };
    let a = if b.location.stale(now) {
        a.push(b.location.refresh_msg)
    } else {
        a
    };
    let a = if b.host_firmware.stale(now) {
        a.push(b.host_firmware.refresh_msg)
    } else {
        a
    };
    let a = if b.wifi_firmware.stale(now) {
        a.push(b.wifi_firmware.refresh_msg)
    } else {
        a
    };
    let a = if b.power_level.stale(now) {
        a.push(b.power_level.refresh_msg)
    } else {
        a
    };
    let a = if b.group.stale(now) {
        a.push(b.group.refresh_msg)
    } else {
        a
    };
    match b.color {
        LiColor::Unknown => a,
        LiColor::Single(d) => if d.stale(now) {
            a.push(d.refresh_msg)
        } else {
            a
        },
        LiColor::Multi(d) => if d.stale(now) {
            a.push(d.refresh_msg)
        } else {
            a
        },
    }
}

impl BulbInfo {
    /// The refresh requests to send to the device at time `now`.
    pub fn query_for_missing_info(&self, now: u64) -> (r: Vec<RefreshRequest>)
        ensures
            r@ == due_requests(*self, now),
    {
        let mut out: Vec<RefreshRequest> = Vec::new();
        if self.name.needs_refresh(now) {
            out.push(self.name.refresh_msg);
        }
        if self.model.needs_refresh(now) {
            out.push(self.model.refresh_msg);
        }
        if self.location.needs_refresh(now) {
            out.push(self.location.refresh_msg);
        }
        if self.host_firmware.needs_refresh(now) {
            out.push(self.host_firmware.refresh_msg);
        }
        if self.wifi_firmware.needs_refresh(now) {
            out.push(self.wifi_firmware.refresh_msg);
        }
        if self.power_level.needs_refresh(now) {
            out.push(self.power_level.refresh_msg);
        }
        if self.group.needs_refresh(now) {
            out.push(self.group.refresh_msg);
        }
        match &self.color {
            LiColor::Unknown => {},
            LiColor::Single(d) => {
                if d.needs_refresh(now) {
                    out.push(d.refresh_msg);
                }
            },
            LiColor::Multi(d) => {
                if d.needs_refresh(now) {
                    out.push(d.refresh_msg);
                }
            },
        }
        assert(out@ =~= due_requests(*self, now));
        out
    }
}

} // verus!
