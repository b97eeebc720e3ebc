//! The lamps' wire format, through the protocol library: datagrams become
//! messages, and commands become datagrams.

use lifx_rs::lan::{BuildOptions, LifxString, Message, RawMessage, HSBK};
use vstd::prelude::*;
use vstd::string::StrSliceExecFns;
use vstd::string::StringExecFns;
use crate::color::Hsbk;
use crate::device::{InboundMessage, PowerLevel};
use crate::device_management::ManagementCommand;
use crate::registry::Datagram;
use crate::set_states::Step;
use crate::staleness::RefreshRequest;
use crate::text::join;

verus! {

/// Length of the header of a frame, in bytes.
pub const HEADER_BYTES: usize = 36;

/// The size that a frame claims in its first two bytes.
pub open spec fn claimed_size(bytes: Seq<u8>) -> int {
    bytes[0] as int + 256 * (bytes[1] as int)
}

/// Is the datagram a frame that can be taken apart: does it hold a whole
/// header, is it marked as addressable, and does the size that it claims
/// cover the header and lie within the datagram?
pub open spec fn is_frame(bytes: Seq<u8>) -> bool {
    &&& bytes.len() >= 36
    &&& bytes[3] & 0x10 != 0
    &&& 36 <= claimed_size(bytes) <= bytes.len()
}

/// Checks that the datagram is a frame that can be taken apart.
pub fn check_frame(bytes: &[u8]) -> (r: bool)
    ensures
        r == is_frame(bytes@),
{
    if bytes.len() < HEADER_BYTES {
        return false;
    }
    let size: usize = (bytes[0] as usize) + 256 * (bytes[1] as usize);
    bytes[3] & 0x10 != 0 && HEADER_BYTES <= size && size <= bytes.len()
}

/// What the protocol library reads out of a frame: the address of the
/// device that has sent it and the message that it carries, as the registry
/// reads it; `None` where the library cannot take the frame apart.  A frame
/// whose payload the library cannot read, and a message that the registry
/// has no use for, give the message `Other`.
pub uninterp spec fn frame_report(bytes: Seq<u8>) -> Option<(u64, InboundMessage)>;

/// What a message of the protocol reports of a single colour or of the
/// power.
pub enum LightReport {
    /// `StatePower`, with the level as the protocol numbers it.
    Power(u16),
    /// `LightState`, with the colour, the level of the power and the
    /// label.
    Light(Hsbk, u16, String),
    /// `StateZone`, with the count, the index and the colour.
    Zone(u8, u8, Hsbk),
}

/// The number that the protocol gives to a power: 65535 for a lamp that
/// is lit, zero for one that is not.
pub open spec fn level_number(level: PowerLevel) -> u16 {
    match level {
        PowerLevel::Enabled => 65535,
        PowerLevel::Standby => 0,
    }
}

/// The power that the protocol numbers `level`: every level but zero
/// means that the lamp is lit.
pub open spec fn power_of_level(level: u16) -> PowerLevel {
    if level == 0 {
        PowerLevel::Standby
    } else {
        PowerLevel::Enabled
    }
}

/// The message itself where it reports a label, a location or a group.
pub open spec fn named_part(m: InboundMessage) -> Option<InboundMessage> {
    match m {
        InboundMessage::StateLabel { .. } => Some(m),
        InboundMessage::StateLocation { .. } => Some(m),
        InboundMessage::StateGroup { .. } => Some(m),
        _ => None,
    }
}

/// The message itself where it reports on the device: its service, its
/// version or one of its firmwares.
pub open spec fn device_part(m: InboundMessage) -> Option<InboundMessage> {
    match m {
        InboundMessage::StateService => Some(m),
        InboundMessage::StateVersion { .. } => Some(m),
        InboundMessage::StateHostFirmware { .. } => Some(m),
        InboundMessage::StateWifiFirmware { .. } => Some(m),
        _ => None,
    }
}

/// The message itself where it reports on eight zones.
pub open spec fn zones_part(m: InboundMessage) -> Option<InboundMessage> {
    match m {
        InboundMessage::StateMultiZone { .. } => Some(m),
        _ => None,
    }
}

/// What the message reports of the power, of a single colour or of one
/// zone, with the power as the protocol numbers it.
pub open spec fn light_part(m: InboundMessage) -> Option<LightReport> {
    match m {
        InboundMessage::StatePower { level } => Some(LightReport::Power(level_number(level))),
        InboundMessage::LightState { color, power, label } => Some(
            LightReport::Light(color, level_number(power), label),
        ),
        InboundMessage::StateZone { count, index, color } => Some(
            LightReport::Zone(count, index, color),
        ),
        _ => None,
    }
}

/// `lifx_rs::lan::RawMessage::unpack` and `lifx_rs::lan::Message::from_raw`
/// on a frame: the address in the header, and the message where it is
/// `StateLabel`, `StateLocation` or `StateGroup`, field by field.  That is
/// the part of `frame_report` that reports a label.  `unpack` stops the
/// thread on a frame that is not marked addressable or whose claimed size
/// lies outside the datagram; those are left out.
#[verifier::external_body]
fn read_named(bytes: &[u8]) -> (r: Option<(u64, Option<InboundMessage>)>)
    requires
        is_frame(bytes@),
    ensures
        r == (match frame_report(bytes@) {
            Some(p) => Some((p.0, named_part(p.1))),
            None => None,
        }),
{
    let raw = RawMessage::unpack(bytes).ok()?;
    let part = match Message::from_raw(&raw) {
        Ok(Message::StateLabel { label }) => Some(InboundMessage::StateLabel { label: label.0 }),
        Ok(Message::StateLocation { location, label, .. }) => Some(InboundMessage::StateLocation { location: location.0.to_vec(), label: label.0 }),
        Ok(Message::StateGroup { group, label, .. }) => Some(InboundMessage::StateGroup { group: group.0.to_vec(), label: label.0 }),
        _ => None,
    };
    Some((raw.frame_addr.target, part))
}

/// `lifx_rs::lan::RawMessage::unpack` and `lifx_rs::lan::Message::from_raw`
/// on a frame: the address in the header, and the message where it is
/// `StateService`, `StateVersion`, `StateHostFirmware` or
/// `StateWifiFirmware`, field by field.  That is the part of `frame_report`
/// that reports on the device.  The frames on which `unpack` stops the
/// thread are left out.
#[verifier::external_body]
fn read_device(bytes: &[u8]) -> (r: Option<(u64, Option<InboundMessage>)>)
    requires
        is_frame(bytes@),
    ensures
        r == (match frame_report(bytes@) {
            Some(p) => Some((p.0, device_part(p.1))),
            None => None,
        }),
{
    let raw = RawMessage::unpack(bytes).ok()?;
    let part = match Message::from_raw(&raw) {
        Ok(Message::StateService { .. }) => Some(InboundMessage::StateService),
        Ok(Message::StateVersion { vendor, product, .. }) => Some(InboundMessage::StateVersion { vendor, product }),
        Ok(Message::StateHostFirmware { version, .. }) => Some(InboundMessage::StateHostFirmware { version }),
        Ok(Message::StateWifiFirmware { version, .. }) => Some(InboundMessage::StateWifiFirmware { version }),
        _ => None,
    };
    Some((raw.frame_addr.target, part))
}

/// `lifx_rs::lan::RawMessage::unpack` and `lifx_rs::lan::Message::from_raw`
/// on a frame: the address in the header, and the fields of the message
/// where it is `StatePower`, `LightState` or `StateZone`, with the power as
/// the number that the protocol gives it.  That is the part of
/// `frame_report` that reports on the light.  The frames on which `unpack`
/// stops the thread are left out.
#[verifier::external_body]
fn read_light(bytes: &[u8]) -> (r: Option<(u64, Option<LightReport>)>)
    requires
        is_frame(bytes@),
    ensures
        r == (match frame_report(bytes@) {
            Some(p) => Some((p.0, light_part(p.1))),
            None => None,
        }),
{
    let raw = RawMessage::unpack(bytes).ok()?;
    let own = |c: HSBK| Hsbk { hue: c.hue, saturation: c.saturation, brightness: c.brightness, kelvin: c.kelvin };
    let part = match Message::from_raw(&raw) {
        Ok(Message::StatePower { level }) => Some(LightReport::Power(level as u16)),
        Ok(Message::LightState { color, power, label, .. }) => Some(LightReport::Light(own(color), power as u16, label.0)),
        Ok(Message::StateZone { count, index, color }) => Some(LightReport::Zone(count, index, own(color))),
        _ => None,
    };
    Some((raw.frame_addr.target, part))
}

/// `lifx_rs::lan::RawMessage::unpack` and `lifx_rs::lan::Message::from_raw`
/// on a frame: the address in the header, and the message where it is
/// `StateMultiZone`, field by field.  That is the part of `frame_report`
/// that reports on eight zones.  The frames on which `unpack` stops the
/// thread are left out.
#[verifier::external_body]
fn read_zones(bytes: &[u8]) -> (r: Option<(u64, Option<InboundMessage>)>)
    requires
        is_frame(bytes@),
    ensures
        r == (match frame_report(bytes@) {
            Some(p) => Some((p.0, zones_part(p.1))),
            None => None,
        }),
{
    let raw = RawMessage::unpack(bytes).ok()?;
    let own = |c: HSBK| Hsbk { hue: c.hue, saturation: c.saturation, brightness: c.brightness, kelvin: c.kelvin };
    let part = match Message::from_raw(&raw) {
        Ok(Message::StateMultiZone { count, index, color0, color1, color2, color3, color4, color5, color6, color7 }) => Some(InboundMessage::StateMultiZone {
            count, index,
            colors: [own(color0), own(color1), own(color2), own(color3), own(color4), own(color5), own(color6), own(color7)],
        }),
        _ => None,
    };
    Some((raw.frame_addr.target, part))
}

/// The message that the registry reads out of what a message of the
/// protocol reports: the report of a label, else that on the device, else
/// that on eight zones, else that on the power or on a single colour, with
/// the level of the power read as on or off.  A message that reports none
/// of these is of no use to the registry.
pub open spec fn inbound_from(
    named: Option<InboundMessage>,
    device: Option<InboundMessage>,
    zones: Option<InboundMessage>,
    light: Option<LightReport>,
) -> InboundMessage {
    match named {
        Some(m) => m,
        None => match device {
            Some(m) => m,
            None => match zones {
                Some(m) => m,
                None => match light {
                    Some(LightReport::Power(level)) => InboundMessage::StatePower {
                        level: power_of_level(level),
                    },
                    Some(LightReport::Light(color, power, label)) => InboundMessage::LightState {
                        color,
                        power: power_of_level(power),
                        label,
                    },
                    Some(LightReport::Zone(count, index, color)) => InboundMessage::StateZone {
                        count,
                        index,
                        color,
                    },
                    None => InboundMessage::Other,
                },
            },
        },
    }
}

/// The parts of a message, put together, give the message back.
pub proof fn lemma_parts_make_the_message(m: InboundMessage)
    ensures
        inbound_from(named_part(m), device_part(m), zones_part(m), light_part(m)) == m,
{
}

fn power_from(level: u16) -> (r: PowerLevel)
    ensures
        r == power_of_level(level),
{
    if level == 0 {
        PowerLevel::Standby
    } else {
        PowerLevel::Enabled
    }
}

/// Puts together what was read out of a message of the protocol.
pub fn merge_reports(
    named: Option<InboundMessage>,
    device: Option<InboundMessage>,
    zones: Option<InboundMessage>,
    light: Option<LightReport>,
) -> (r: InboundMessage)
    ensures
        r == inbound_from(named, device, zones, light),
{
    if let Some(m) = named {
        return m;
    }
    if let Some(m) = device {
        return m;
    }
    if let Some(m) = zones {
        return m;
    }
    match light {
        Some(LightReport::Power(level)) => InboundMessage::StatePower { level: power_from(level) },
        Some(LightReport::Light(color, power, label)) => InboundMessage::LightState {
            color,
            power: power_from(power),
            label,
        },
        Some(LightReport::Zone(count, index, color)) => InboundMessage::StateZone {
            count,
            index,
            color,
        },
        None => InboundMessage::Other,
    }
}

fn part<T>(read: Option<(u64, Option<T>)>) -> (r: Option<T>)
    ensures
        r == (match read {
            Some(p) => p.1,
            None => None,
        }),
{
    match read {
        Some(p) => p.1,
        None => None,
    }
}

/// The address and the message of a frame, as the registry reads them:
/// what the protocol library reports of the frame is read out part by part
/// and put together.
fn inbound_of(bytes: &[u8]) -> (r: Option<(u64, InboundMessage)>)
    requires
        is_frame(bytes@),
    ensures
        r == frame_report(bytes@),
{
    match read_named(bytes) {
        None => None,
        Some((target, named)) => {
            let device: Option<InboundMessage> = part(read_device(bytes));
            let zones: Option<InboundMessage> = part(read_zones(bytes));
            let light: Option<LightReport> = part(read_light(bytes));
            proof {
                lemma_parts_make_the_message(frame_report(bytes@).unwrap().1);
            }
            Some((target, merge_reports(named, device, zones, light)))
        },
    }
}

/// What a datagram is to the registry.  A datagram without a byte is
/// empty; one that is no frame, or whose frame the protocol library cannot
/// take apart, is undecodable; any other is the message that the library
/// reads out of it, from the device whose address the header bears.
pub open spec fn datagram_of(bytes: Seq<u8>) -> Datagram {
    if bytes.len() == 0 {
        Datagram::Empty
    } else if !is_frame(bytes) {
        Datagram::Undecodable
    } else {
        match frame_report(bytes) {
            Some(p) => Datagram::Message { target: p.0, message: p.1 },
            None => Datagram::Undecodable,
        }
    }
}

/// Decodes what the socket has received.
pub fn decode(bytes: &[u8]) -> (r: Datagram)
    ensures
        r == datagram_of(bytes@),
{
    if bytes.len() == 0 {
        return Datagram::Empty;
    }
    if !check_frame(bytes) {
        return Datagram::Undecodable;
    }
    match inbound_of(bytes) {
        Some((target, message)) => Datagram::Message { target, message },
        None => Datagram::Undecodable,
    }
}

/// How a frame is addressed and what it asks of the device.
#[derive(Clone, Copy, Debug, PartialEq, Eq, Structural)]
pub struct FrameOptions {
    /// The device that the frame is for; `None` for every device.
    pub target: Option<u64>,
    /// Whether the device is to acknowledge the frame.
    pub ack_required: bool,
    /// Whether the device is to reply with its state.
    pub res_required: bool,
    /// The number of the frame.
    pub sequence: u8,
    /// The tag of the gateway.
    pub source: u32,
}

/// What a frame carries to a device.
pub enum Outbound {
    /// The discovery request.
    Discovery,
    /// A request that brings an attribute up to date.
    Request(RefreshRequest),
    /// The command that switches the device on or off.
    Power(PowerLevel),
    /// The command that sets the colour, with the time of the transition.
    Color(Hsbk, u32),
    /// The command that sets the infrared level.
    Infrared(u16),
    /// The command that sets the label.
    Label(Seq<char>),
}

/// The bytes of the frame that the protocol library makes of a message and
/// its options.
pub uninterp spec fn frame_of(options: FrameOptions, message: Outbound) -> Seq<u8>;

/// Is `r` the frame of the message, a datagram with a whole header?
pub open spec fn is_frame_of(r: Result<Vec<u8>, String>, options: FrameOptions, message: Outbound)
    -> bool {
    &&& r.is_ok()
    &&& r->Ok_0@ == frame_of(options, message)
    &&& r->Ok_0@.len() >= 36
}

/// `lifx_rs::lan::RawMessage::build` and `pack` on the discovery request,
/// `GetService`.  Every step of the two that could fail is a write that
/// appends to a vector of bytes, so they give a frame: its bytes are what
/// `frame_of` names, the 36 bytes of the header and the payload.
#[verifier::external_body]
fn frame_discovery(options: FrameOptions) -> (r: Result<Vec<u8>, String>)
    ensures
        r.is_ok(),
        r->Ok_0@ == frame_of(options, Outbound::Discovery),
        r->Ok_0@.len() >= 36,
{
    let o = BuildOptions { target: options.target, ack_required: options.ack_required, res_required: options.res_required, sequence: options.sequence, source: options.source };
    RawMessage::build(&o, Message::GetService).and_then(|raw| raw.pack()).map_err(|e| e.to_string())
}

/// `lifx_rs::lan::RawMessage::build` and `pack` on the request that brings
/// an attribute up to date.  Every step of the two that could fail is a
/// write that appends to a vector of bytes, so they give a frame: its bytes
/// are what `frame_of` names, the 36 bytes of the header and the payload.
#[verifier::external_body]
fn frame_request(options: FrameOptions, request: RefreshRequest) -> (r: Result<Vec<u8>, String>)
    ensures
        r.is_ok(),
        r->Ok_0@ == frame_of(options, Outbound::Request(request)),
        r->Ok_0@.len() >= 36,
{
    let o = BuildOptions { target: options.target, ack_required: options.ack_required, res_required: options.res_required, sequence: options.sequence, source: options.source };
    let message = match request {
        RefreshRequest::GetGroup => Message::GetGroup,
        RefreshRequest::GetLocation => Message::GetLocation,
        RefreshRequest::GetLabel => Message::GetLabel,
        RefreshRequest::GetVersion => Message::GetVersion,
        RefreshRequest::GetHostFirmware => Message::GetHostFirmware,
        RefreshRequest::GetWifiFirmware => Message::GetWifiFirmware,
        RefreshRequest::GetPower => Message::GetPower,
        RefreshRequest::GetColorZones { start_index, end_index } => Message::GetColorZones { start_index, end_index },
        RefreshRequest::LightGet => Message::LightGet,
    };
    RawMessage::build(&o, message).and_then(|raw| raw.pack()).map_err(|e| e.to_string())
}

/// `lifx_rs::lan::RawMessage::build` and `pack` on the command `SetPower`.
/// Every step of the two that could fail is a write that appends to a
/// vector of bytes, so they give a frame: its bytes are what `frame_of`
/// names, the 36 bytes of the header and the payload.
#[verifier::external_body]
fn frame_power(options: FrameOptions, level: PowerLevel) -> (r: Result<Vec<u8>, String>)
    ensures
        r.is_ok(),
        r->Ok_0@ == frame_of(options, Outbound::Power(level)),
        r->Ok_0@.len() >= 36,
{
    let o = BuildOptions { target: options.target, ack_required: options.ack_required, res_required: options.res_required, sequence: options.sequence, source: options.source };
    let level = match level {
        PowerLevel::Enabled => lifx_rs::lan::PowerLevel::Enabled,
        PowerLevel::Standby => lifx_rs::lan::PowerLevel::Standby,
    };
    RawMessage::build(&o, Message::SetPower { level }).and_then(|raw| raw.pack()).map_err(|e| e.to_string())
}

/// `lifx_rs::lan::RawMessage::build` and `pack` on the command
/// `LightSetColor`.  Every step of the two that could fail is a write that
/// appends to a vector of bytes, so they give a frame: its bytes are what
/// `frame_of` names, the 36 bytes of the header and the payload.
#[verifier::external_body]
fn frame_color(options: FrameOptions, color: Hsbk, duration: u32) -> (r: Result<Vec<u8>, String>)
    ensures
        r.is_ok(),
        r->Ok_0@ == frame_of(options, Outbound::Color(color, duration)),
        r->Ok_0@.len() >= 36,
{
    let o = BuildOptions { target: options.target, ack_required: options.ack_required, res_required: options.res_required, sequence: options.sequence, source: options.source };
    let color = HSBK { hue: color.hue, saturation: color.saturation, brightness: color.brightness, kelvin: color.kelvin };
    RawMessage::build(&o, Message::LightSetColor { reserved: 0, color, duration }).and_then(|raw| raw.pack()).map_err(|e| e.to_string())
}

/// `lifx_rs::lan::RawMessage::build` and `pack` on the command
/// `LightSetInfrared`.  Every step of the two that could fail is a write
/// that appends to a vector of bytes, so they give a frame: its bytes are
/// what `frame_of` names, the 36 bytes of the header and the payload.
#[verifier::external_body]
fn frame_infrared(options: FrameOptions, brightness: u16) -> (r: Result<Vec<u8>, String>)
    ensures
        r.is_ok(),
        r->Ok_0@ == frame_of(options, Outbound::Infrared(brightness)),
        r->Ok_0@.len() >= 36,
{
    let o = BuildOptions { target: options.target, ack_required: options.ack_required, res_required: options.res_required, sequence: options.sequence, source: options.source };
    RawMessage::build(&o, Message::LightSetInfrared { brightness }).and_then(|raw| raw.pack()).map_err(|e| e.to_string())
}

/// `lifx_rs::lan::RawMessage::build` and `pack` on the command `SetLabel`,
/// with the label made by `lifx_rs::lan::LifxString::new`.  The library
/// stops the thread on a label that it would have to cut inside a
/// character, or that holds a character of more than one byte; so the
/// label is to be ASCII and of at most 32 bytes.  Every step that could
/// fail is a write that appends to a vector of bytes, so the result is a
/// frame: its bytes are what `frame_of` names, the 36 bytes of the header
/// and the payload.
#[verifier::external_body]
fn frame_label(options: FrameOptions, label: &str) -> (r: Result<Vec<u8>, String>)
    requires
        label.is_ascii(),
        label@.len() <= 32,
    ensures
        r.is_ok(),
        r->Ok_0@ == frame_of(options, Outbound::Label(label@)),
        r->Ok_0@.len() >= 36,
{
    let o = BuildOptions { target: options.target, ack_required: options.ack_required, res_required: options.res_required, sequence: options.sequence, source: options.source };
    RawMessage::build(&o, Message::SetLabel { label: LifxString::new(label) }).and_then(|raw| raw.pack()).map_err(|e| e.to_string())
}

/// The outcome of the making of a frame as callers get it: the datagram,
/// or what the protocol library said, under the heading of a frame that
/// could not be built.
fn packed(made: Result<Vec<u8>, String>) -> (r: Result<Vec<u8>, String>)
    ensures
        match made {
            Ok(bytes) => r == Ok::<Vec<u8>, String>(bytes),
            Err(why) => r.is_err() && r->Err_0@ == "Failed to build message: "@ + why@,
        },
{
    match made {
        Ok(bytes) => Ok(bytes),
        Err(why) => Err(join("Failed to build message: ", why.as_str())),
    }
}

/// The options of the discovery request: it is for every device and asks
/// for nothing.
pub open spec fn discovery_options(source: u32) -> FrameOptions {
    FrameOptions { target: None, ack_required: false, res_required: false, sequence: 0, source }
}

/// The options of a frame for one device that asks for a reply.
pub open spec fn device_options(target: u64, source: u32) -> FrameOptions {
    FrameOptions {
        target: Some(target),
        ack_required: false,
        res_required: true,
        sequence: 0,
        source,
    }
}

/// The options of a management command: it names its device and asks for
/// an acknowledgement.
pub open spec fn management_options(target: u64, source: u32) -> FrameOptions {
    FrameOptions {
        target: Some(target),
        ack_required: true,
        res_required: false,
        sequence: 0,
        source,
    }
}

/// The datagram of the discovery request.
pub fn encode_discovery(source: u32) -> (r: Result<Vec<u8>, String>)
    ensures
        is_frame_of(r, discovery_options(source), Outbound::Discovery),
{
    let options = FrameOptions {
        target: None,
        ack_required: false,
        res_required: false,
        sequence: 0,
        source,
    };
    packed(frame_discovery(options))
}

/// The datagram of a refresh request for one device.
pub fn encode_refresh(target: u64, source: u32, request: RefreshRequest) -> (r: Result<
    Vec<u8>,
    String,
>)
    ensures
        is_frame_of(r, device_options(target, source), Outbound::Request(request)),
{
    let options = FrameOptions {
        target: Some(target),
        ack_required: false,
        res_required: true,
        sequence: 0,
        source,
    };
    packed(frame_request(options, request))
}

/// What a step of a unit of work sends: brightness is sent as a colour;
/// a step that only marks a colour that cannot be resolved sends nothing.
pub open spec fn step_message(step: Step) -> Option<Outbound> {
    match step {
        Step::Power(level) => Some(Outbound::Power(level)),
        Step::Color(color, duration) => Some(Outbound::Color(color, duration)),
        Step::Brightness(color, duration) => Some(Outbound::Color(color, duration)),
        Step::Infrared(brightness) => Some(Outbound::Infrared(brightness)),
        Step::Invalid(_) => None,
    }
}

/// The datagram of one step of a unit of work; `None` for a step that
/// sends nothing.
pub fn encode_step(target: u64, source: u32, step: &Step) -> (r: Option<Result<Vec<u8>, String>>)
    ensures
        r.is_some() == step_message(*step).is_some(),
        r.is_some() ==> is_frame_of(
            r.unwrap(),
            device_options(target, source),
            step_message(*step).unwrap(),
        ),
{
    let options = FrameOptions {
        target: Some(target),
        ack_required: false,
        res_required: true,
        sequence: 0,
        source,
    };
    match *step {
        Step::Power(level) => Some(packed(frame_power(options, level))),
        Step::Color(color, duration) => Some(packed(frame_color(options, color, duration))),
        Step::Brightness(color, duration) => Some(packed(frame_color(options, color, duration))),
        Step::Infrared(brightness) => Some(packed(frame_infrared(options, brightness))),
        Step::Invalid(_) => None,
    }
}

/// Can the label be sent to a device: is it ASCII and of at most 32
/// bytes?
pub open spec fn is_sendable_label(label: Seq<char>) -> bool {
    vstd::utf8::is_ascii_chars(label) && label.len() <= 32
}

/// What a management command sends, where it can be sent: the label, or,
/// for a reboot, the command that switches the device off.  A label that
/// is not ASCII or longer than 32 bytes cannot be sent.
pub open spec fn management_message(command: ManagementCommand) -> Option<Outbound> {
    match command {
        ManagementCommand::SetLabel(label) => if is_sendable_label(label@) {
            Some(Outbound::Label(label@))
        } else {
            None
        },
        ManagementCommand::Reboot { .. } => Some(Outbound::Power(PowerLevel::Standby)),
    }
}

/// The datagram of a management command, or the report that its label
/// cannot be sent.
pub fn encode_management(target: u64, source: u32, command: &ManagementCommand) -> (r: Result<
    Vec<u8>,
    String,
>)
    ensures
        match management_message(*command) {
            Some(message) => is_frame_of(r, management_options(target, source), message),
            None => r.is_err() && r->Err_0@
                == "Failed to build message: the label is not ASCII or too long"@,
        },
{
    let options = FrameOptions {
        target: Some(target),
        ack_required: true,
        res_required: false,
        sequence: 0,
        source,
    };
    match command {
        ManagementCommand::SetLabel(label) => {
            let text: &str = label.as_str();
            if text.is_ascii() && text.unicode_len() <= 32 {
                packed(frame_label(options, text))
            } else {
                Err(String::from_str("Failed to build message: the label is not ASCII or too long"))
            }
        },
        ManagementCommand::Reboot { .. } => packed(frame_power(options, PowerLevel::Standby)),
    }
}

} // verus!
