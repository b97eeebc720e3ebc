//! Waveform effects: pulse, breathe and strobe.

use vstd::prelude::*;
use vstd::string::StringExecFns;
use crate::color::{
    baseline, baseline_of, color_error_chars, effect_color, resolve_effect_color, Hsbk, LifxColor,
};
use crate::device::{BulbInfo, SocketAddress};
use crate::number::{millis_of, skew_of, Number};
use crate::text::utf8;

verus! {

/// What a client asks an effect to be.
#[derive(Clone, Debug)]
pub struct EffectRequest {
    pub color: Option<String>,
    pub from_color: Option<String>,
    pub period: Option<Number>,
    pub cycles: Option<Number>,
    pub persist: Option<bool>,
    pub power_on: Option<bool>,
    pub peak: Option<Number>,
}

/// What became of the effect on one device.
#[derive(Clone, Debug)]
pub struct EffectResult {
    pub id: String,
    pub label: String,
    pub status: String,
}

/// The answer to an effect request.
#[derive(Debug)]
pub struct EffectsResponse {
    pub results: Vec<EffectResult>,
}

/// The shape of a waveform.
#[derive(Clone, Copy, Debug, PartialEq, Eq, Structural)]
pub enum Waveform {
    Saw,
    Sine,
    HalfSine,
    Triangle,
    Pulse,
}

/// A waveform that a device is asked to play.
#[derive(Clone, Copy, Debug, PartialEq, Eq, Structural)]
pub struct WaveformCommand {
    /// Whether the colour before the effect returns after it.
    pub transient: bool,
    pub color: Hsbk,
    /// Length of one cycle, in milliseconds.
    pub period: u32,
    /// Number of cycles.
    pub cycles: Number,
    pub skew_ratio: i16,
    pub waveform: Waveform,
}

/// The three effects.
#[derive(Clone, Copy, Debug, PartialEq, Eq, Structural)]
pub enum EffectKind {
    Pulse,
    Breathe,
    Strobe,
}

/// The effect that one device is to play, or why it cannot.
#[derive(Debug)]
pub struct EffectOrder {
    pub id: String,
    pub label: String,
    pub target: u64,
    pub source: u32,
    pub addr: SocketAddress,
    pub command: Result<WaveformCommand, String>,
}

/// The number `n`, or `fallback` where there is none.
pub open spec fn number_or(n: Option<Number>, fallback: Number) -> Number {
    match n {
        Some(x) => x,
        None => fallback,
    }
}

/// The colour that an effect runs to: the colour that the request names,
/// resolved against the device's own, or white of 3500 kelvin at full
/// brightness where it names none.
pub open spec fn target_color(color: Option<String>, current: Option<LifxColor>) -> Result<
    Hsbk,
    Seq<char>,
> {
    match color {
        Some(c) => match effect_color(utf8(c@), baseline_of(current, 3500)) {
            Ok(h) => Ok(h),
            Err(e) => Err(color_error_chars(e, c@)),
        },
        None => Ok(Hsbk { hue: 0, saturation: 0, brightness: 65535, kelvin: 3500 }),
    }
}

/// The colour that an effect starts from: the colour that the request
/// names, resolved against the device's own, or the device's own.
pub open spec fn origin_color(color: Option<String>, current: Option<LifxColor>) -> Result<
    Hsbk,
    Seq<char>,
> {
    match color {
        Some(c) => match effect_color(utf8(c@), baseline_of(current, 3500)) {
            Ok(h) => Ok(h),
            Err(e) => Err(color_error_chars(e, c@)),
        },
        None => Ok(baseline_of(current, 3500)),
    }
}

/// The waveform of an effect for a device of the given colour, or the
/// report of the colour expression that cannot be resolved.  A pulse and a
/// breath last one second and run five times unless the request says
/// otherwise, and their skew follows the peak; a strobe lasts a tenth of a
/// second, runs ten times and has no skew.  Only a pulse looks at the
/// colour to start from.
pub open spec fn effect_command(kind: EffectKind, current: Option<LifxColor>, q: EffectRequest)
    -> Result<WaveformCommand, Seq<char>> {
    let strobe = kind == EffectKind::Strobe;
    let period = millis_of(
        number_or(
            q.period,
            if strobe {
                Number::Finite { nanos: 100_000_000 }
            } else {
                Number::Finite { nanos: 1_000_000_000 }
            },
        ),
    ) as u32;
    let cycles = number_or(
        q.cycles,
        if strobe {
            Number::Finite { nanos: 10_000_000_000 }
        } else {
            Number::Finite { nanos: 5_000_000_000 }
        },
    );
    let skew = if strobe {
        0i16
    } else {
        skew_of(number_or(q.peak, Number::Finite { nanos: 500_000_000 })) as i16
    };
    let from = if kind == EffectKind::Pulse {
        origin_color(q.from_color, current)
    } else {
        Ok(baseline_of(current, 3500))
    };
    match from {
        Err(e) => Err(e),
        Ok(_) => match target_color(q.color, current) {
            Err(e) => Err(e),
            Ok(to) => Ok(
                WaveformCommand {
                    transient: !(q.persist == Some(true)),
                    color: to,
                    period,
                    cycles,
                    skew_ratio: skew,
                    waveform: if kind == EffectKind::Breathe {
                        Waveform::Sine
                    } else {
                        Waveform::Pulse
                    },
                },
            ),
        },
    }
}

/// Does `r` give the command `expected`, or report the same error?
pub open spec fn same_command(
    r: Result<WaveformCommand, String>,
    expected: Result<WaveformCommand, Seq<char>>,
) -> bool {
    match expected {
        Ok(c) => r == Ok::<WaveformCommand, String>(c),
        Err(e) => r.is_err() && r->Err_0@ == e,
    }
}

/// Is `o` the order of the effect for the device `b`?
pub open spec fn is_effect_order(o: EffectOrder, kind: EffectKind, b: BulbInfo, q: EffectRequest)
    -> bool {
    &&& o.id == b.id
    &&& o.label == b.label
    &&& o.target == b.target
    &&& o.source == b.source
    &&& o.addr == b.addr
    &&& same_command(o.command, effect_command(kind, b.lifx_color, q))
}

/// The handler of effect requests.
pub struct EffectsHandler;

impl EffectsHandler {
    pub fn new() -> (r: Self)
        ensures
            r == EffectsHandler,
    {
        EffectsHandler
    }

    /// The skew ratio of a waveform whose peak lies at the given fraction
    /// of its period.
    pub fn peak_to_skew_ratio(&self, peak: Number) -> (r: i16)
        ensures
            r == skew_of(peak),
    {
        peak.to_skew_ratio()
    }

    /// Hue (degrees), saturation and lightness of a colour given by red,
    /// green and blue.
    pub fn rgb_to_hsl(&self, r: u8, g: u8, b: u8) -> (hsl: (Number, Number, Number))
        ensures
            hsl.0 == (Number::Finite {
                nanos: crate::color::hsl_hue_nanos(r as int, g as int, b as int) as i64,
            }),
            hsl.1 == (Number::Finite {
                nanos: crate::color::hsl_saturation_nanos(r as int, g as int, b as int) as i64,
            }),
            hsl.2 == (Number::Finite {
                nanos: crate::color::hsl_lightness_nanos(r as int, g as int, b as int) as i64,
            }),
    {
        crate::color::rgb_to_hsl(r, g, b)
    }

    /// Resolves the colour expression of an effect against the last known
    /// colour of a device; a device of unknown colour counts as white of
    /// 3500 kelvin at full brightness.
    pub fn parse_color_string(&self, color_str: &str, current: Option<&LifxColor>) -> (r: Result<
        Hsbk,
        String,
    >)
        ensures
            match effect_color(
                utf8(color_str@),
                baseline_of(
                    match current {
                        Some(c) => Some(*c),
                        None => None,
                    },
                    3500,
                ),
            ) {
                Ok(c) => r == Ok::<Hsbk, String>(c),
                Err(e) => r.is_err() && r->Err_0@ == color_error_chars(e, color_str@),
            },
    {
        let base: Hsbk = baseline(current, 3500);
        match resolve_effect_color(color_str.as_bytes(), base) {
            Ok(c) => Ok(c),
            Err(e) => Err(e.message(color_str)),
        }
    }

    /// The colour that the request names, or the device's own.
    pub fn parse_color_or_current(&self, color_str: Option<&String>, current: Option<&LifxColor>)
        -> (r: Result<Hsbk, String>)
        ensures
            match origin_color(
                match color_str {
                    Some(c) => Some(*c),
                    None => None,
                },
                match current {
                    Some(c) => Some(*c),
                    None => None,
                },
            ) {
                Ok(c) => r == Ok::<Hsbk, String>(c),
                Err(e) => r.is_err() && r->Err_0@ == e,
            },
    {
        match color_str {
            Some(c) => self.parse_color_string(c.as_str(), current),
            None => Ok(baseline(current, 3500)),
        }
    }

    /// The colour that the request names, or white.
    pub fn parse_color_or_default(&self, color_str: Option<&String>, current: Option<&LifxColor>)
        -> (r: Result<Hsbk, String>)
        ensures
            match target_color(
                match color_str {
                    Some(c) => Some(*c),
                    None => None,
                },
                match current {
                    Some(c) => Some(*c),
                    None => None,
                },
            ) {
                Ok(c) => r == Ok::<Hsbk, String>(c),
                Err(e) => r.is_err() && r->Err_0@ == e,
            },
    {
        match color_str {
            Some(c) => self.parse_color_string(c.as_str(), current),
            None => Ok(Hsbk { hue: 0, saturation: 0, brightness: 65535, kelvin: 3500 }),
        }
    }

    fn plan(&self, kind: EffectKind, bulb: &BulbInfo, request: &EffectRequest) -> (r: Result<
        WaveformCommand,
        String,
    >)
        ensures
            same_command(r, effect_command(kind, bulb.lifx_color, *request)),
    {
        let strobe: bool = match kind {
            EffectKind::Strobe => true,
            _ => false,
        };
        let period_in: Number = match request.period {
            Some(p) => p,
            None => if strobe {
                Number::Finite { nanos: 100_000_000 }
            } else {
                Number::Finite { nanos: 1_000_000_000 }
            },
        };
        let cycles: Number = match request.cycles {
            Some(c) => c,
            None => if strobe {
                Number::Finite { nanos: 10_000_000_000 }
            } else {
                Number::Finite { nanos: 5_000_000_000 }
            },
        };
        let skew: i16 = if strobe {
            0
        } else {
            let peak: Number = match request.peak {
                Some(p) => p,
                None => Number::Finite { nanos: 500_000_000 },
            };
            self.peak_to_skew_ratio(peak)
        };
        let current: Option<&LifxColor> = bulb.lifx_color.as_ref();
        match kind {
            EffectKind::Pulse => {
                match self.parse_color_or_current(request.from_color.as_ref(), current) {
                    Err(e) => {
                        return Err(e);
                    },
                    Ok(_) => {},
                }
            },
            _ => {},
        }
        match self.parse_color_or_default(request.color.as_ref(), current) {
            Err(e) => Err(e),
            Ok(to) => Ok(
                WaveformCommand {
                    transient: match request.persist {
                        Some(true) => false,
                        _ => true,
                    },
                    color: to,
                    period: period_in.to_millis(),
                    cycles,
                    skew_ratio: skew,
                    waveform: match kind {
                        EffectKind::Breathe => Waveform::Sine,
                        _ => Waveform::Pulse,
                    },
                },
            ),
        }
    }

    /// The pulse that a device is to play.
    pub fn apply_pulse_effect(&self, bulb: &BulbInfo, request: &EffectRequest) -> (r: Result<
        WaveformCommand,
        String,
    >)
        ensures
            same_command(r, effect_command(EffectKind::Pulse, bulb.lifx_color, *request)),
    {
        self.plan(EffectKind::Pulse, bulb, request)
    }

    /// The breath that a device is to play.
    pub fn apply_breathe_effect(&self, bulb: &BulbInfo, request: &EffectRequest) -> (r: Result<
        WaveformCommand,
        String,
    >)
        ensures
            same_command(r, effect_command(EffectKind::Breathe, bulb.lifx_color, *request)),
    {
        self.plan(EffectKind::Breathe, bulb, request)
    }

    /// The strobe that a device is to play.
    pub fn apply_strobe_effect(&self, bulb: &BulbInfo, request: &EffectRequest) -> (r: Result<
        WaveformCommand,
        String,
    >)
        ensures
            same_command(r, effect_command(EffectKind::Strobe, bulb.lifx_color, *request)),
    {
        self.plan(EffectKind::Strobe, bulb, request)
    }

    fn handle(&self, kind: EffectKind, bulbs: &Vec<&BulbInfo>, request: &EffectRequest) -> (r: Vec<
        EffectOrder,
    >)
        ensures
            r@.len() == bulbs@.len(),
            forall|k: int|
                0 <= k < bulbs@.len() ==> is_effect_order(
                    #[trigger] r@[k],
                    kind,
                    *bulbs@[k],
                    *request,
                ),
    {
        let mut out: Vec<EffectOrder> = Vec::new();
        let mut i: usize = 0;
        while i < bulbs.len()
            invariant
                i <= bulbs.len(),
                out@.len() == i,
                forall|k: int|
                    0 <= k < i ==> is_effect_order(#[trigger] out@[k], kind, *bulbs@[k], *request),
            decreases bulbs.len() - i,
        {
            let bulb: &BulbInfo = bulbs[i];
            out.push(
                EffectOrder {
                    id: bulb.id.clone(),
                    label: bulb.label.clone(),
                    target: bulb.target,
                    source: bulb.source,
                    addr: bulb.addr,
                    command: self.plan(kind, bulb, request),
                },
            );
            i += 1;
        }
        out
    }

    /// The pulses that the devices are to play, one order for each device
    /// and in the same order.
    pub fn handle_pulse(&self, bulbs: &Vec<&BulbInfo>, request: EffectRequest) -> (r: Vec<
        EffectOrder,
    >)
        ensures
            r@.len() == bulbs@.len(),
            forall|k: int|
                0 <= k < bulbs@.len() ==> is_effect_order(
                    #[trigger] r@[k],
                    EffectKind::Pulse,
                    *bulbs@[k],
                    request,
                ),
    {
        self.handle(EffectKind::Pulse, bulbs, &request)
    }

    /// The breaths that the devices are to play.
    pub fn handle_breathe(&self, bulbs: &Vec<&BulbInfo>, request: EffectRequest) -> (r: Vec<
        EffectOrder,
    >)
        ensures
            r@.len() == bulbs@.len(),
            forall|k: int|
                0 <= k < bulbs@.len() ==> is_effect_order(
                    #[trigger] r@[k],
                    EffectKind::Breathe,
                    *bulbs@[k],
                    request,
                ),
    {
        self.handle(EffectKind::Breathe, bulbs, &request)
    }

    /// The strobes that the devices are to play.
    pub fn handle_strobe(&self, bulbs: &Vec<&BulbInfo>, request: EffectRequest) -> (r: Vec<
        EffectOrder,
    >)
        ensures
            r@.len() == bulbs@.len(),
            forall|k: int|
                0 <= k < bulbs@.len() ==> is_effect_order(
                    #[trigger] r@[k],
                    EffectKind::Strobe,
                    *bulbs@[k],
                    request,
                ),
    {
        self.handle(EffectKind::Strobe, bulbs, &request)
    }

    /// Reports what became of an order: it went well if its waveform
    /// could be planned and was sent.
    pub fn report(&self, order: &EffectOrder, sent: bool) -> (r: EffectResult)
        ensures
            r.id == order.id,
            r.label == order.label,
            r.status@ == (if order.command.is_ok() && sent {
                "ok"@
            } else {
                "error"@
            }),
    {
        EffectResult {
            id: order.id.clone(),
            label: order.label.clone(),
            status: if order.command.is_ok() && sent {
                String::from_str("ok")
            } else {
                String::from_str("error")
            },
        }
    }
}

impl Default for EffectsHandler {
    fn default() -> (r: Self)
        ensures
            r == EffectsHandler,
    {
        EffectsHandler
    }
}

} // verus!
