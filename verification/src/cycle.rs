//! The cycle: a device moves on to the first of a list of states.

use vstd::prelude::*;
use vstd::string::StringExecFns;
use crate::color::{
    baseline, baseline_of, color_error_chars, cycle_color, resolve_cycle_color, Hsbk, LifxColor,
};
use crate::device::{BulbInfo, PowerLevel, SocketAddress};
use crate::effects::{Waveform, WaveformCommand};
use crate::number::{level_of, millis_of, Number};
use crate::text::{equals_text, is_text, utf8};

verus! {

/// One state of a cycle.
#[derive(Clone, Debug)]
pub struct CycleState {
    pub color: Option<String>,
    pub brightness: Option<Number>,
    pub duration: Option<Number>,
}

/// What stands in for the values that a state of a cycle leaves out.
#[derive(Clone, Debug)]
pub struct CycleDefaults {
    pub power: Option<String>,
    pub saturation: Option<Number>,
    pub brightness: Option<Number>,
    pub duration: Option<Number>,
}

/// A request to cycle.
#[derive(Clone, Debug)]
pub struct CycleRequest {
    pub states: Vec<CycleState>,
    pub defaults: Option<CycleDefaults>,
}

/// What became of the cycle on one device.
#[derive(Debug)]
pub struct CycleResult {
    pub id: String,
    pub label: String,
    pub status: String,
}

/// The answer to a request to cycle.
#[derive(Debug)]
pub struct CycleResponse {
    pub results: Vec<CycleResult>,
}

/// What one device is to do for a cycle.
#[derive(Debug)]
pub struct CyclePlan {
    /// The power to set first, where the defaults name one.
    pub power: Option<PowerLevel>,
    /// The waveform to play after it, or why there is none.
    pub waveform: Result<WaveformCommand, String>,
}

/// The cycle of one device.
#[derive(Debug)]
pub struct CycleOrder {
    pub id: String,
    pub label: String,
    pub target: u64,
    pub source: u32,
    pub addr: SocketAddress,
    pub plan: Result<CyclePlan, String>,
}

/// The brightness of a state of a cycle: its own, else the default, else
/// the device's, else full.
pub open spec fn cycle_brightness(
    own: Option<Number>,
    default_brightness: Option<Number>,
    current: Option<LifxColor>,
) -> u16 {
    match own {
        Some(b) => level_of(b) as u16,
        None => match default_brightness {
            Some(b) => level_of(b) as u16,
            None => match current {
                Some(c) => c.brightness,
                None => 65535,
            },
        },
    }
}

/// The colour from which the colour expression of a state of a cycle
/// starts.
pub open spec fn cycle_base(
    s: CycleState,
    current: Option<LifxColor>,
    default_brightness: Option<Number>,
) -> Hsbk {
    Hsbk {
        hue: baseline_of(current, 3500).hue,
        saturation: baseline_of(current, 3500).saturation,
        brightness: cycle_brightness(s.brightness, default_brightness, current),
        kelvin: baseline_of(current, 3500).kelvin,
    }
}

/// The colour of a state of a cycle, or the report of the colour
/// expression that cannot be resolved.
pub open spec fn cycle_state_color(
    s: CycleState,
    current: Option<LifxColor>,
    default_brightness: Option<Number>,
) -> Result<Hsbk, Seq<char>> {
    match s.color {
        None => Ok(cycle_base(s, current, default_brightness)),
        Some(c) => match cycle_color(utf8(c@), cycle_base(s, current, default_brightness)) {
            Ok(h) => Ok(h),
            Err(e) => Err(color_error_chars(e, c@)),
        },
    }
}

/// The time that the states of a cycle take together, in milliseconds
/// and confined to thirty-two bits; a state without a duration takes the
/// default.
pub open spec fn total_millis(states: Seq<CycleState>, default_duration: Number) -> int
    decreases states.len(),
{
    if states.len() == 0 {
        0
    } else {
        let sum = total_millis(states.drop_last(), default_duration) + millis_of(
            match states.last().duration {
                Some(d) => d,
                None => default_duration,
            },
        );
        if sum > 0xffff_ffff {
            0xffff_ffff
        } else {
            sum
        }
    }
}

/// The default duration of a state of a cycle: one second, unless the
/// defaults say otherwise.
pub open spec fn default_duration_of(d: Option<CycleDefaults>) -> Number {
    match d {
        Some(CycleDefaults { duration: Some(x), .. }) => x,
        _ => Number::Finite { nanos: 1_000_000_000 },
    }
}

/// The default brightness of a state of a cycle, where the defaults name
/// one.
pub open spec fn default_brightness_of(d: Option<CycleDefaults>) -> Option<Number> {
    match d {
        Some(x) => x.brightness,
        None => None,
    }
}

/// The power that the defaults of a cycle ask for.
pub open spec fn cycle_power(d: Option<CycleDefaults>) -> Option<PowerLevel> {
    match d {
        Some(CycleDefaults { power: Some(p), .. }) => Some(
            if is_text(utf8(p@), "on"@) {
                PowerLevel::Enabled
            } else {
                PowerLevel::Standby
            },
        ),
        _ => None,
    }
}

/// Is `plan` what a device of the given colour is to do for the cycle?  A
/// cycle without states is an error.  Otherwise the device is given the
/// power that the defaults name, and moves to the first state along a
/// triangle that takes as long as all states together.
pub open spec fn is_cycle_plan(
    plan: Result<CyclePlan, String>,
    current: Option<LifxColor>,
    q: CycleRequest,
) -> bool {
    if q.states@.len() == 0 {
        plan.is_err() && plan->Err_0@ == "Cycle states cannot be empty"@
    } else {
        &&& plan.is_ok()
        &&& plan->Ok_0.power == cycle_power(q.defaults)
        &&& match cycle_state_color(q.states@[0], current, default_brightness_of(q.defaults)) {
            Err(e) => plan->Ok_0.waveform.is_err() && plan->Ok_0.waveform->Err_0@ == e,
            Ok(h) => plan->Ok_0.waveform == Ok::<WaveformCommand, String>(
                WaveformCommand {
                    transient: false,
                    color: h,
                    period: total_millis(q.states@, default_duration_of(q.defaults)) as u32,
                    cycles: Number::Finite { nanos: 1_000_000_000 },
                    skew_ratio: 0,
                    waveform: Waveform::Triangle,
                },
            ),
        }
    }
}

/// The handler of requests to cycle.
pub struct CycleHandler;

impl CycleHandler {
    pub fn new() -> (r: Self)
        ensures
            r == CycleHandler,
    {
        CycleHandler
    }

    /// The colour of a state of a cycle for a device of the colour
    /// `current`.
    pub fn parse_cycle_state(
        &self,
        state: &CycleState,
        current: Option<&LifxColor>,
        default_brightness: Option<Number>,
    ) -> (r: Result<Hsbk, String>)
        ensures
            match cycle_state_color(
                *state,
                match current {
                    Some(c) => Some(*c),
                    None => None,
                },
                default_brightness,
            ) {
                Ok(c) => r == Ok::<Hsbk, String>(c),
                Err(e) => r.is_err() && r->Err_0@ == e,
            },
    {
        let own: Hsbk = baseline(current, 3500);
        let brightness: u16 = match state.brightness {
            Some(b) => b.to_level(),
            None => match default_brightness {
                Some(b) => b.to_level(),
                None => match current {
                    Some(c) => c.brightness,
                    None => 65535,
                },
            },
        };
        let base = Hsbk {
            hue: own.hue,
            saturation: own.saturation,
            brightness,
            kelvin: own.kelvin,
        };
        match &state.color {
            None => Ok(base),
            Some(c) => match resolve_cycle_color(c.as_str().as_bytes(), base) {
                Ok(h) => Ok(h),
                Err(e) => Err(e.message(c.as_str())),
            },
        }
    }

    fn total_period(&self, states: &Vec<CycleState>, default_duration: Number) -> (r: u32)
        ensures
            r == total_millis(states@, default_duration),
    {
        let mut sum: u32 = 0;
        let mut i: usize = 0;
        assert(states@.subrange(0, 0) =~= Seq::<CycleState>::empty());
        while i < states.len()
            invariant
                i <= states.len(),
                sum == total_millis(states@.subrange(0, i as int), default_duration),
            decreases states.len() - i,
        {
            proof {
                let longer = states@.subrange(0, i + 1);
                assert(longer.drop_last() =~= states@.subrange(0, i as int));
                assert(longer.last() == states@[i as int]);
            }
            let d: Number = match states[i].duration {
                Some(d) => d,
                None => default_duration,
            };
            let ms: u32 = d.to_millis();
            sum = if ms > 0xffff_ffff - sum {
                0xffff_ffff
            } else {
                sum + ms
            };
            i += 1;
        }
        assert(states@.subrange(0, i as int) =~= states@);
        sum
    }

    /// What a device is to do for the cycle.
    pub fn apply_cycle(&self, bulb: &BulbInfo, request: &CycleRequest) -> (r: Result<
        CyclePlan,
        String,
    >)
        ensures
            is_cycle_plan(r, bulb.lifx_color, *request),
    {
        if request.states.len() == 0 {
            return Err(String::from_str("Cycle states cannot be empty"));
        }
        let default_duration: Number = match &request.defaults {
            Some(d) => match d.duration {
                Some(x) => x,
                None => Number::Finite { nanos: 1_000_000_000 },
            },
            None => Number::Finite { nanos: 1_000_000_000 },
        };
        let default_brightness: Option<Number> = match &request.defaults {
            Some(d) => d.brightness,
            None => None,
        };
        let power: Option<PowerLevel> = match &request.defaults {
            Some(d) => match &d.power {
                Some(p) => if equals_text(p.as_str().as_bytes(), "on") {
                    Some(PowerLevel::Enabled)
                } else {
                    Some(PowerLevel::Standby)
                },
                None => None,
            },
            None => None,
        };
        let period: u32 = self.total_period(&request.states, default_duration);
        let waveform: Result<WaveformCommand, String> = match self.parse_cycle_state(
            &request.states[0],
            bulb.lifx_color.as_ref(),
            default_brightness,
        ) {
            Err(e) => Err(e),
            Ok(h) => Ok(
                WaveformCommand {
                    transient: false,
                    color: h,
                    period,
                    cycles: Number::Finite { nanos: 1_000_000_000 },
                    skew_ratio: 0,
                    waveform: Waveform::Triangle,
                },
            ),
        };
        Ok(CyclePlan { power, waveform })
    }

    /// What the devices are to do for the cycle, one order for each
    /// device and in the same order.
    pub fn handle_cycle(&self, bulbs: &Vec<&BulbInfo>, request: CycleRequest) -> (r: Vec<
        CycleOrder,
    >)
        ensures
            r@.len() == bulbs@.len(),
            forall|k: int|
                0 <= k < bulbs@.len() ==> {
                    &&& (#[trigger] r@[k]).id == bulbs@[k].id
                    &&& r@[k].label == bulbs@[k].label
                    &&& r@[k].target == bulbs@[k].target
                    &&& r@[k].source == bulbs@[k].source
                    &&& r@[k].addr == bulbs@[k].addr
                    &&& is_cycle_plan(r@[k].plan, bulbs@[k].lifx_color, request)
                },
    {
        let mut out: Vec<CycleOrder> = Vec::new();
        let mut i: usize = 0;
        while i < bulbs.len()
            invariant
                i <= bulbs.len(),
                out@.len() == i,
                forall|k: int|
                    0 <= k < i ==> {
                        &&& (#[trigger] out@[k]).id == bulbs@[k].id
                        &&& out@[k].label == bulbs@[k].label
                        &&& out@[k].target == bulbs@[k].target
                        &&& out@[k].source == bulbs@[k].source
                        &&& out@[k].addr == bulbs@[k].addr
                        &&& is_cycle_plan(out@[k].plan, bulbs@[k].lifx_color, request)
                    },
            decreases bulbs.len() - i,
        {
            let bulb: &BulbInfo = bulbs[i];
            out.push(
                CycleOrder {
                    id: bulb.id.clone(),
                    label: bulb.label.clone(),
                    target: bulb.target,
                    source: bulb.source,
                    addr: bulb.addr,
                    plan: self.apply_cycle(bulb, &request),
                },
            );
            i += 1;
        }
        out
    }

    /// Reports what became of an order: it went well if there was a
    /// waveform to play and everything was sent.
    pub fn report(&self, order: &CycleOrder, sent: bool) -> (r: CycleResult)
        ensures
            r.id == order.id,
            r.label == order.label,
            r.status@ == (if order.plan.is_ok() && order.plan->Ok_0.waveform.is_ok() && sent {
                "ok"@
            } else {
                "error"@
            }),
    {
        let planned: bool = match &order.plan {
            Ok(p) => p.waveform.is_ok(),
            Err(_) => false,
        };
        CycleResult {
            id: order.id.clone(),
            label: order.label.clone(),
            status: if planned && sent {
                String::from_str("ok")
            } else {
                String::from_str("error")
            },
        }
    }
}

impl Default for CycleHandler {
    fn default() -> (r: Self)
        ensures
            r == CycleHandler,
    {
        CycleHandler
    }
}

} // verus!
