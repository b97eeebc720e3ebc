//! The batch command: validation of a request, its expansion into one
//! unit of work for each device, and the retry policy of a unit.

use vstd::prelude::*;
use vstd::string::StringExecFns;
use crate::backoff::{double_capped, doubled};
use crate::color::{
    baseline, baseline_of, check_color, color_error_chars, color_valid,
    lemma_valid_color_resolves, resolve_state_color,
    state_color, ColorError, Hsbk,
};
use crate::device::{BulbInfo, PowerLevel, SocketAddress};
use crate::number::{level_of, number_chars, seconds_of, Number};
use crate::registry::Manager;
use crate::selector::{filter, filtered, records_of, valid_selector};
use crate::text::{decimal_chars, equals_text, is_text, join, push_decimal, utf8};

verus! {

/// Longest duration of a transition, in billionths of a second: a hundred
/// years.
pub const MAX_DURATION_NANOS: i64 = 3_155_760_000_000_000_000;

/// One entry of a batch: the devices it is meant for and what is to be
/// set on them.
#[derive(Clone, Debug)]
pub struct StateUpdate {
    pub selector: String,
    pub power: Option<String>,
    pub color: Option<String>,
    pub brightness: Option<Number>,
    pub duration: Option<Number>,
    pub infrared: Option<Number>,
    pub fast: Option<bool>,
}

/// A batch of state updates, with the values that stand in for what an
/// entry leaves out.
#[derive(Debug)]
pub struct StatesRequest {
    pub states: Vec<StateUpdate>,
    pub defaults: Option<StateUpdate>,
}

/// What became of the update of one device.
#[derive(Clone, Debug)]
pub struct StateResult {
    pub id: String,
    pub label: String,
    pub status: String,
    pub error: Option<String>,
}

/// The answer to a batch.
#[derive(Debug)]
pub struct StatesResponse {
    pub results: Vec<StateResult>,
}

/// The field of a state update that validation found fault with.
#[derive(Clone, Copy, Debug, PartialEq, Eq, Structural)]
pub enum Field {
    Selector,
    Power,
    Brightness,
    Infrared,
    Duration,
    Color,
}

/// The fault that validation found.
#[derive(Clone, Copy, Debug, PartialEq, Eq, Structural)]
pub enum Problem {
    /// The text is empty.
    Empty,
    /// The text does not follow its grammar.
    BadFormat,
    /// The power is neither `on` nor `off`.
    NotOnOff,
    /// The number is not finite.
    NotFinite,
    /// The number lies outside its range.
    OutOfRange,
}

/// Why a batch was rejected.
#[derive(Clone, Copy, Debug, PartialEq, Eq, Structural)]
pub enum ValidationError {
    /// The batch has no entry.
    EmptyStates,
    /// The entry at `index` is at fault.
    State { index: usize, field: Field, problem: Problem },
    /// The defaults are at fault.
    Defaults { field: Field, problem: Problem },
}

/// Is the power `on` or `off`?
pub open spec fn power_valid(p: Seq<u8>) -> bool {
    is_text(p, "on"@) || is_text(p, "off"@)
}

/// The fault of a number that has to be finite and to lie between zero
/// and `hi` billionths.
pub open spec fn number_problem(n: Option<Number>, hi: i64) -> Option<Problem> {
    match n {
        None => None,
        Some(Number::Finite { nanos }) => if 0 <= nanos <= hi {
            None
        } else {
            Some(Problem::OutOfRange)
        },
        Some(_) => Some(Problem::NotFinite),
    }
}

/// The first fault among the values of an update, in the order power,
/// brightness, infrared, duration, colour.
pub open spec fn values_problem(u: StateUpdate) -> Option<(Field, Problem)> {
    if u.power.is_some() && !power_valid(utf8(u.power.unwrap()@)) {
        Some((Field::Power, Problem::NotOnOff))
    } else if number_problem(u.brightness, 1_000_000_000).is_some() {
        Some((Field::Brightness, number_problem(u.brightness, 1_000_000_000).unwrap()))
    } else if number_problem(u.infrared, 1_000_000_000).is_some() {
        Some((Field::Infrared, number_problem(u.infrared, 1_000_000_000).unwrap()))
    } else if number_problem(u.duration, MAX_DURATION_NANOS).is_some() {
        Some((Field::Duration, number_problem(u.duration, MAX_DURATION_NANOS).unwrap()))
    } else if u.color.is_some() && !color_valid(utf8(u.color.unwrap()@)) {
        Some((Field::Color, Problem::BadFormat))
    } else {
        None
    }
}

/// The first fault of an entry: its selector is looked at before its
/// values.
pub open spec fn state_problem(u: StateUpdate) -> Option<(Field, Problem)> {
    if u.selector@.len() == 0 {
        Some((Field::Selector, Problem::Empty))
    } else if !valid_selector(utf8(u.selector@)) {
        Some((Field::Selector, Problem::BadFormat))
    } else {
        values_problem(u)
    }
}

/// Is the batch free of faults: does it have an entry, is every entry
/// well formed, and are the defaults?
pub open spec fn request_accepted(r: StatesRequest) -> bool {
    &&& r.states@.len() > 0
    &&& forall|i: int| 0 <= i < r.states@.len() ==> state_problem(#[trigger] r.states@[i]).is_none()
    &&& r.defaults.is_some() ==> values_problem(r.defaults.unwrap()).is_none()
}

/// Is `e` the fault for which the batch is rejected: the first fault of
/// its first faulty entry, or, where every entry is well formed, the first
/// fault of the defaults?
pub open spec fn is_verdict(r: StatesRequest, e: ValidationError) -> bool {
    match e {
        ValidationError::EmptyStates => r.states@.len() == 0,
        ValidationError::State { index, field, problem } => {
            &&& index < r.states@.len()
            &&& state_problem(r.states@[index as int]) == Some((field, problem))
            &&& forall|j: int| 0 <= j < index ==> state_problem(#[trigger] r.states@[j]).is_none()
        },
        ValidationError::Defaults { field, problem } => {
            &&& r.states@.len() > 0
            &&& forall|i: int|
                0 <= i < r.states@.len() ==> state_problem(#[trigger] r.states@[i]).is_none()
            &&& r.defaults.is_some()
            &&& values_problem(r.defaults.unwrap()) == Some((field, problem))
        },
    }
}

fn check_number(n: &Option<Number>, hi: i64) -> (r: Option<Problem>)
    ensures
        r == number_problem(*n, hi),
{
    match n {
        None => None,
        Some(x) => {
            if !x.is_finite() {
                Some(Problem::NotFinite)
            } else if x.is_between(0, hi) {
                None
            } else {
                Some(Problem::OutOfRange)
            }
        },
    }
}

fn check_values(u: &StateUpdate) -> (r: Option<(Field, Problem)>)
    ensures
        r == values_problem(*u),
{
    if let Some(power) = &u.power {
        let p: &[u8] = power.as_str().as_bytes();
        if !equals_text(p, "on") && !equals_text(p, "off") {
            return Some((Field::Power, Problem::NotOnOff));
        }
    }
    if let Some(p) = check_number(&u.brightness, 1_000_000_000) {
        return Some((Field::Brightness, p));
    }
    if let Some(p) = check_number(&u.infrared, 1_000_000_000) {
        return Some((Field::Infrared, p));
    }
    if let Some(p) = check_number(&u.duration, MAX_DURATION_NANOS) {
        return Some((Field::Duration, p));
    }
    if let Some(color) = &u.color {
        if !check_color(color.as_str().as_bytes()) {
            return Some((Field::Color, Problem::BadFormat));
        }
    }
    None
}

fn check_state(u: &StateUpdate) -> (r: Option<(Field, Problem)>)
    ensures
        r == state_problem(*u),
{
    if u.selector.as_str().is_empty() {
        Some((Field::Selector, Problem::Empty))
    } else if !crate::selector::is_valid_selector(u.selector.as_str()) {
        Some((Field::Selector, Problem::BadFormat))
    } else {
        check_values(u)
    }
}

/// Validates a batch as a whole.  The batch is accepted if and only if it
/// is free of faults; otherwise the error names the first fault.
pub fn check_request(request: &StatesRequest) -> (r: Result<(), ValidationError>)
    ensures
        r.is_ok() == request_accepted(*request),
        r.is_err() ==> is_verdict(*request, r->Err_0),
{
    if request.states.len() == 0 {
        return Err(ValidationError::EmptyStates);
    }
    let mut i: usize = 0;
    while i < request.states.len()
        invariant
            i <= request.states.len(),
            forall|j: int| 0 <= j < i ==> state_problem(#[trigger] request.states@[j]).is_none(),
        decreases request.states.len() - i,
    {
        if let Some((field, problem)) = check_state(&request.states[i]) {
            return Err(ValidationError::State { index: i, field, problem });
        }
        i += 1;
    }
    if let Some(defaults) = &request.defaults {
        if let Some((field, problem)) = check_values(defaults) {
            return Err(ValidationError::Defaults { field, problem });
        }
    }
    Ok(())
}

/// A batch in which any one entry is at fault is rejected as a whole,
/// whatever the other entries hold.
pub proof fn lemma_one_fault_rejects_batch(request: StatesRequest, i: int)
    requires
        0 <= i < request.states@.len(),
        state_problem(request.states@[i]).is_some(),
    ensures
        !request_accepted(request),
{
}


/// The text of an optional text; empty where there is none.
pub open spec fn text_or_empty(o: Option<String>) -> Seq<char> {
    match o {
        Some(s) => s@,
        None => Seq::empty(),
    }
}

/// The notation of an optional number; empty where there is none.
pub open spec fn number_or_empty(o: Option<Number>) -> Seq<char> {
    match o {
        Some(n) => number_chars(n),
        None => Seq::empty(),
    }
}

/// The words in which a fault of the update `u` is reported.
pub open spec fn problem_chars(u: StateUpdate, field: Field, problem: Problem, in_defaults: bool)
    -> Seq<char> {
    match field {
        Field::Selector => if problem == Problem::Empty {
            "selector cannot be empty"@
        } else {
            "invalid selector format '"@ + u.selector@ + "'"@
        },
        Field::Power => "power must be 'on' or 'off', got '"@ + text_or_empty(u.power) + "'"@,
        Field::Brightness => if problem == Problem::NotFinite {
            "brightness must be a finite number, got "@ + number_or_empty(u.brightness)
        } else {
            "brightness must be between 0.0 and 1.0, got "@ + number_or_empty(u.brightness)
        },
        Field::Infrared => if problem == Problem::NotFinite {
            "infrared must be a finite number, got "@ + number_or_empty(u.infrared)
        } else {
            "infrared must be between 0.0 and 1.0, got "@ + number_or_empty(u.infrared)
        },
        Field::Duration => if problem == Problem::NotFinite {
            "duration must be a finite number, got "@ + number_or_empty(u.duration)
        } else if in_defaults {
            "duration must be between 0 and 3155760000 seconds, got "@ + number_or_empty(
                u.duration,
            )
        } else {
            "duration must be between 0 and 3155760000 seconds"@
        },
        Field::Color => "invalid color format '"@ + text_or_empty(u.color) + "'"@,
    }
}

/// The words in which the rejection of a batch is reported.
pub open spec fn verdict_chars(r: StatesRequest, e: ValidationError) -> Seq<char> {
    match e {
        ValidationError::EmptyStates => "States array cannot be empty"@,
        ValidationError::State { index, field, problem } => "State["@ + decimal_chars(
            index as nat,
        ) + "]: "@ + problem_chars(r.states@[index as int], field, problem, false),
        ValidationError::Defaults { field, problem } => "Defaults: "@ + problem_chars(
            r.defaults.unwrap(),
            field,
            problem,
            true,
        ),
    }
}

fn number_text(o: &Option<Number>) -> (r: String)
    ensures
        r@ == number_or_empty(*o),
{
    match o {
        Some(n) => n.to_text(),
        None => String::new(),
    }
}

fn quoted(head: &str, o: &Option<String>) -> (r: String)
    ensures
        r@ == head@ + text_or_empty(*o) + "'"@,
{
    let mut out = String::from_str(head);
    match o {
        Some(s) => {
            out.append(s.as_str());
        },
        None => {
            assert(out@ + Seq::<char>::empty() =~= out@);
        },
    }
    out.append("'");
    out
}

/// Reports a fault of the update `u` in words.
pub fn problem_message(u: &StateUpdate, field: Field, problem: Problem, in_defaults: bool) -> (r:
    String)
    ensures
        r@ == problem_chars(*u, field, problem, in_defaults),
{
    match field {
        Field::Selector => match problem {
            Problem::Empty => String::from_str("selector cannot be empty"),
            _ => {
                let mut out = String::from_str("invalid selector format '");
                out.append(u.selector.as_str());
                out.append("'");
                out
            },
        },
        Field::Power => quoted("power must be 'on' or 'off', got '", &u.power),
        Field::Brightness => match problem {
            Problem::NotFinite => join(
                "brightness must be a finite number, got ",
                number_text(&u.brightness).as_str(),
            ),
            _ => join(
                "brightness must be between 0.0 and 1.0, got ",
                number_text(&u.brightness).as_str(),
            ),
        },
        Field::Infrared => match problem {
            Problem::NotFinite => join(
                "infrared must be a finite number, got ",
                number_text(&u.infrared).as_str(),
            ),
            _ => join(
                "infrared must be between 0.0 and 1.0, got ",
                number_text(&u.infrared).as_str(),
            ),
        },
        Field::Duration => match problem {
            Problem::NotFinite => join(
                "duration must be a finite number, got ",
                number_text(&u.duration).as_str(),
            ),
            _ => {
                if in_defaults {
                    join(
                        "duration must be between 0 and 3155760000 seconds, got ",
                        number_text(&u.duration).as_str(),
                    )
                } else {
                    String::from_str("duration must be between 0 and 3155760000 seconds")
                }
            },
        },
        Field::Color => quoted("invalid color format '", &u.color),
    }
}

/// Reports the rejection of a batch in words.
fn verdict_message(request: &StatesRequest, e: ValidationError) -> (r: String)
    requires
        is_verdict(*request, e),
    ensures
        r@ == verdict_chars(*request, e),
{
    match e {
        ValidationError::EmptyStates => String::from_str("States array cannot be empty"),
        ValidationError::State { index, field, problem } => {
            let mut out = String::from_str("State[");
            push_decimal(&mut out, index as u64);
            out.append("]: ");
            out.append(problem_message(&request.states[index], field, problem, false).as_str());
            out
        },
        ValidationError::Defaults { field, problem } => {
            match &request.defaults {
                Some(d) => join("Defaults: ", problem_message(d, field, problem, true).as_str()),
                None => String::new(),
            }
        },
    }
}

/// The handler of batch commands, with its retry policy.
pub struct SetStatesHandler {
    max_retries: u32,
    concurrent_workers: usize,
}

impl SetStatesHandler {
    #[verifier::type_invariant]
    spec fn policy(self) -> bool {
        self.max_retries == 3 && self.concurrent_workers == 4
    }

    /// The number of attempts that a unit of work is given.
    pub closed spec fn retries(self) -> nat {
        self.max_retries as nat
    }

    /// The number of workers that the handler is set up for.
    pub closed spec fn workers(self) -> nat {
        self.concurrent_workers as nat
    }

    /// A handler that gives each unit three attempts and is set up for
    /// four workers.
    pub fn new() -> (r: Self)
        ensures
            r.retries() == 3,
            r.workers() == 4,
    {
        SetStatesHandler { max_retries: 3, concurrent_workers: 4 }
    }

    /// The number of workers that the handler is set up for.
    pub fn concurrent_workers(&self) -> (r: usize)
        ensures
            r == self.workers() == 4,
    {
        proof {
            use_type_invariant(self);
        }
        self.concurrent_workers
    }

    /// The number of attempts that a unit of work is given.
    pub fn max_retries(&self) -> (r: u32)
        ensures
            r == self.retries() == 3,
    {
        proof {
            use_type_invariant(self);
        }
        self.max_retries
    }

    /// Validates a batch as a whole; the error is the report of its first
    /// fault.
    pub fn validate_request(&self, request: &StatesRequest) -> (r: Result<(), String>)
        ensures
            r.is_ok() == request_accepted(*request),
            r.is_err() ==> exists|e: ValidationError|
                is_verdict(*request, e) && r->Err_0@ == verdict_chars(*request, e),
    {
        match check_request(request) {
            Ok(()) => Ok(()),
            Err(e) => Err(verdict_message(request, e)),
        }
    }

    /// Does the selector follow the grammar?
    pub fn is_valid_selector(&self, selector: &str) -> (r: bool)
        ensures
            r == valid_selector(utf8(selector@)),
    {
        crate::selector::is_valid_selector(selector)
    }

    /// Does the text follow the grammar of colour expressions, with its
    /// values in range?
    pub fn is_valid_color(&self, color: &str) -> (r: bool)
        ensures
            r == color_valid(utf8(color@)),
    {
        check_color(color.as_bytes())
    }

    /// Resolves a colour expression against the last known colour of a
    /// device; a device of unknown colour counts as white of 6500 kelvin at
    /// full brightness.
    pub fn parse_color(color_str: &str, bulb: &BulbInfo) -> (r: Result<Hsbk, String>)
        ensures
            match state_color(utf8(color_str@), baseline_of(bulb.lifx_color, 6500)) {
                Ok(c) => r == Ok::<Hsbk, String>(c),
                Err(e) => r.is_err() && r->Err_0@ == color_error_chars(e, color_str@),
            },
    {
        let base: Hsbk = baseline(bulb.lifx_color.as_ref(), 6500);
        match resolve_state_color(color_str.as_bytes(), base) {
            Ok(c) => Ok(c),
            Err(e) => Err(e.message(color_str)),
        }
    }

    /// Resolves a selector to the devices that it names.
    pub fn filter_bulbs_by_selector<'a>(&self, bulbs: &'a Vec<BulbInfo>, selector: &str) -> (r:
        Vec<&'a BulbInfo>)
        ensures
            records_of(r@) == filtered(bulbs@, utf8(selector@)),
    {
        filter(bulbs, selector)
    }
}


/// The update `s` with the values of `d` wherever it has none of its own.
/// A value of the update itself always wins.
pub open spec fn merged(s: StateUpdate, d: StateUpdate) -> StateUpdate {
    StateUpdate {
        selector: s.selector,
        power: if s.power.is_none() {
            d.power
        } else {
            s.power
        },
        color: if s.color.is_none() {
            d.color
        } else {
            s.color
        },
        brightness: if s.brightness.is_none() {
            d.brightness
        } else {
            s.brightness
        },
        duration: if s.duration.is_none() {
            d.duration
        } else {
            s.duration
        },
        infrared: if s.infrared.is_none() {
            d.infrared
        } else {
            s.infrared
        },
        fast: if s.fast.is_none() {
            d.fast
        } else {
            s.fast
        },
    }
}

/// The entries of a batch with the defaults filled in.
pub open spec fn with_defaults(states: Seq<StateUpdate>, d: Option<StateUpdate>) -> Seq<
    StateUpdate,
> {
    match d {
        None => states,
        Some(d) => states.map_values(|s: StateUpdate| merged(s, d)),
    }
}

fn clone_text(o: &Option<String>) -> (r: Option<String>)
    ensures
        r == *o,
{
    match o {
        Some(s) => Some(s.clone()),
        None => None,
    }
}

fn first_text(a: &Option<String>, b: &Option<String>) -> (r: Option<String>)
    ensures
        r == (if a.is_none() {
            *b
        } else {
            *a
        }),
{
    match a {
        Some(s) => Some(s.clone()),
        None => clone_text(b),
    }
}

fn first_number(a: &Option<Number>, b: &Option<Number>) -> (r: Option<Number>)
    ensures
        r == (if a.is_none() {
            *b
        } else {
            *a
        }),
{
    match a {
        Some(n) => Some(*n),
        None => *b,
    }
}

fn merge(s: &StateUpdate, d: &StateUpdate) -> (r: StateUpdate)
    ensures
        r == merged(*s, *d),
{
    StateUpdate {
        selector: s.selector.clone(),
        power: first_text(&s.power, &d.power),
        color: first_text(&s.color, &d.color),
        brightness: first_number(&s.brightness, &d.brightness),
        duration: first_number(&s.duration, &d.duration),
        infrared: first_number(&s.infrared, &d.infrared),
        fast: match s.fast {
            Some(f) => Some(f),
            None => d.fast,
        },
    }
}

/// One step of a unit of work.
#[derive(Clone, Copy, Debug, PartialEq, Eq, Structural)]
pub enum Step {
    /// Switch the device on or off.
    Power(PowerLevel),
    /// Set the colour that the update names, over the given seconds.
    Color(Hsbk, u32),
    /// Set the brightness alone, which is sent as a colour.
    Brightness(Hsbk, u32),
    /// Set the infrared level.
    Infrared(u16),
    /// The colour expression cannot be resolved for this device: the
    /// attempt fails here.
    Invalid(ColorError),
}

/// Whole seconds of the transition that an update asks for.
pub open spec fn transition_of(u: StateUpdate) -> u32 {
    match u.duration {
        Some(d) => seconds_of(d) as u32,
        None => 0,
    }
}

/// The steps with the infrared step of the update, if it has one, at
/// their end.
pub open spec fn then_infrared(steps: Seq<Step>, u: StateUpdate) -> Seq<Step> {
    match u.infrared {
        Some(ir) => steps.push(Step::Infrared(level_of(ir) as u16)),
        None => steps,
    }
}

/// The steps that apply an update to a device, in their order: power;
/// then the colour, or, where no colour is named, the brightness alone;
/// then the infrared level.  A colour that cannot be resolved ends the
/// steps.
pub open spec fn planned_steps(b: BulbInfo, u: StateUpdate) -> Seq<Step> {
    let base = baseline_of(b.lifx_color, 6500);
    let first = match u.power {
        Some(p) => seq![
            Step::Power(
                if is_text(utf8(p@), "on"@) {
                    PowerLevel::Enabled
                } else {
                    PowerLevel::Standby
                },
            ),
        ],
        None => Seq::empty(),
    };
    match u.color {
        Some(c) => match state_color(utf8(c@), base) {
            Err(e) => first.push(Step::Invalid(e)),
            Ok(hsbk) => then_infrared(first.push(Step::Color(hsbk, transition_of(u))), u),
        },
        None => match u.brightness {
            Some(level) => then_infrared(
                first.push(
                    Step::Brightness(
                        Hsbk {
                            hue: base.hue,
                            saturation: base.saturation,
                            brightness: level_of(level) as u16,
                            kelvin: base.kelvin,
                        },
                        transition_of(u),
                    ),
                ),
                u,
            ),
            None => then_infrared(first, u),
        },
    }
}

/// Validation is all or nothing: in a batch that validation accepts, no
/// entry has a step that fails for want of a colour, whatever device the
/// entry is applied to and whatever the defaults have filled in.
pub proof fn lemma_accepted_batch_resolves(request: StatesRequest, i: int, b: BulbInfo)
    requires
        request_accepted(request),
        0 <= i < request.states@.len(),
    ensures
        forall|k: int|
            0 <= k < planned_steps(
                b,
                with_defaults(request.states@, request.defaults)[i],
            ).len() ==> !(#[trigger] planned_steps(
                b,
                with_defaults(request.states@, request.defaults)[i],
            )[k] is Invalid),
{
    let u = with_defaults(request.states@, request.defaults)[i];
    assert(state_problem(request.states@[i]).is_none());
    if u.color.is_some() {
        lemma_valid_color_resolves(utf8(u.color.unwrap()@), baseline_of(b.lifx_color, 6500));
    }
}

/// One unit of work: one update for one device, with the device's
/// addresses as they were when the batch was expanded.
#[derive(Debug)]
pub struct BulbUpdate {
    pub id: String,
    pub label: String,
    pub target: u64,
    pub source: u32,
    pub addr: SocketAddress,
    pub color: Option<String>,
    pub steps: Vec<Step>,
    pub attempt: u32,
}

impl BulbUpdate {
    /// Is this the unit that applies the update `u` to the device `b`?
    pub open spec fn is_unit_of(self, b: BulbInfo, u: StateUpdate) -> bool {
        &&& self.id == b.id
        &&& self.label == b.label
        &&& self.target == b.target
        &&& self.source == b.source
        &&& self.addr == b.addr
        &&& self.color == u.color
        &&& self.steps@ == planned_steps(b, u)
        &&& self.attempt == 0
    }
}

/// Plans the steps that apply an update to a device.
pub fn apply_state_to_bulb(bulb: &BulbInfo, state: &StateUpdate) -> (r: Vec<Step>)
    ensures
        r@ == planned_steps(*bulb, *state),
{
    let base: Hsbk = baseline(bulb.lifx_color.as_ref(), 6500);
    let duration: u32 = match &state.duration {
        Some(d) => d.to_seconds(),
        None => 0,
    };
    let mut steps: Vec<Step> = Vec::new();
    if let Some(power) = &state.power {
        if equals_text(power.as_str().as_bytes(), "on") {
            steps.push(Step::Power(PowerLevel::Enabled));
        } else {
            steps.push(Step::Power(PowerLevel::Standby));
        }
    }
    let ghost first = steps@;
    match &state.color {
        Some(c) => {
            match resolve_state_color(c.as_str().as_bytes(), base) {
                Err(e) => {
                    steps.push(Step::Invalid(e));
                    return steps;
                },
                Ok(hsbk) => {
                    steps.push(Step::Color(hsbk, duration));
                },
            }
        },
        None => {
            if let Some(level) = &state.brightness {
                steps.push(
                    Step::Brightness(
                        Hsbk {
                            hue: base.hue,
                            saturation: base.saturation,
                            brightness: level.to_level(),
                            kelvin: base.kelvin,
                        },
                        duration,
                    ),
                );
            }
        },
    }
    if let Some(ir) = &state.infrared {
        steps.push(Step::Infrared(ir.to_level()));
    }
    steps
}

/// The pairs of device and update that a list of updates expands to: the
/// updates in their order, and for each the devices that its selector
/// names, in the order of the registry.
pub open spec fn expansion(bulbs: Seq<BulbInfo>, states: Seq<StateUpdate>) -> Seq<
    (BulbInfo, StateUpdate),
>
    decreases states.len(),
{
    if states.len() == 0 {
        Seq::empty()
    } else {
        expansion(bulbs, states.drop_last()) + filtered(
            bulbs,
            utf8(states.last().selector@),
        ).map_values(|b: BulbInfo| (b, states.last()))
    }
}

/// The pairings that a batch comes to against the records `bulbs`: its
/// updates with the defaults filled in, each with the devices that its
/// selector names.
pub open spec fn batch_pairs(bulbs: Seq<BulbInfo>, request: StatesRequest) -> Seq<
    (BulbInfo, StateUpdate),
> {
    expansion(bulbs, with_defaults(request.states@, request.defaults))
}

/// Are `units` the units of work of the pairs `pairs`, one for each and in
/// the same order?
pub open spec fn are_units_of(units: Seq<BulbUpdate>, pairs: Seq<(BulbInfo, StateUpdate)>) -> bool {
    &&& units.len() == pairs.len()
    &&& forall|k: int|
        0 <= k < units.len() ==> (#[trigger] units[k]).is_unit_of(pairs[k].0, pairs[k].1)
}

impl SetStatesHandler {
    /// Fills the defaults into every entry that leaves a value out.
    pub fn apply_defaults(&self, states: Vec<StateUpdate>, defaults: Option<StateUpdate>) -> (r:
        Vec<StateUpdate>)
        ensures
            r@ == with_defaults(states@, defaults),
    {
        match defaults {
            None => states,
            Some(d) => {
                let mut out: Vec<StateUpdate> = Vec::new();
                let mut i: usize = 0;
                while i < states.len()
                    invariant
                        i <= states.len(),
                        out@.len() == i,
                        forall|k: int| 0 <= k < i ==> out@[k] == merged(states@[k], d),
                    decreases states.len() - i,
                {
                    out.push(merge(&states[i], &d));
                    i += 1;
                }
                assert(out@ =~= states@.map_values(|s: StateUpdate| merged(s, d)));
                out
            },
        }
    }

    /// Expands updates into units of work, one for each device that an
    /// update names.
    pub fn expand(&self, bulbs: &Vec<BulbInfo>, states: &Vec<StateUpdate>) -> (r: Vec<BulbUpdate>)
        ensures
            are_units_of(r@, expansion(bulbs@, states@)),
    {
        let mut out: Vec<BulbUpdate> = Vec::new();
        let mut i: usize = 0;
        assert(states@.subrange(0, 0) =~= Seq::<StateUpdate>::empty());
        while i < states.len()
            invariant
                i <= states.len(),
                are_units_of(out@, expansion(bulbs@, states@.subrange(0, i as int))),
            decreases states.len() - i,
        {
            let state: &StateUpdate = &states[i];
            let matching: Vec<&BulbInfo> = filter(bulbs, state.selector.as_str());
            let ghost done = expansion(bulbs@, states@.subrange(0, i as int));
            let ghost found = filtered(bulbs@, utf8(state.selector@));
            proof {
                let longer = states@.subrange(0, i + 1);
                assert(longer.drop_last() =~= states@.subrange(0, i as int));
                assert(longer.last() == states@[i as int]);
                assert(records_of(matching@).len() == matching@.len());
            }
            let mut j: usize = 0;
            while j < matching.len()
                invariant
                    j <= matching.len(),
                    records_of(matching@) == found,
                    matching@.len() == found.len(),
                    *state == states@[i as int],
                    out@.len() == done.len() + j,
                    forall|k: int|
                        0 <= k < done.len() ==> (#[trigger] out@[k]).is_unit_of(
                            done[k].0,
                            done[k].1,
                        ),
                    forall|k: int|
                        0 <= k < j ==> (#[trigger] out@[done.len() + k]).is_unit_of(
                            found[k],
                            *state,
                        ),
                decreases matching.len() - j,
            {
                let bulb: &BulbInfo = matching[j];
                assert(records_of(matching@)[j as int] == *bulb);
                out.push(
                    BulbUpdate {
                        id: bulb.id.clone(),
                        label: bulb.label.clone(),
                        target: bulb.target,
                        source: bulb.source,
                        addr: bulb.addr,
                        color: clone_text(&state.color),
                        steps: apply_state_to_bulb(bulb, state),
                        attempt: 0,
                    },
                );
                j += 1;
            }
            proof {
                let next = expansion(bulbs@, states@.subrange(0, i + 1));
                let tail = found.map_values(|b: BulbInfo| (b, states@[i as int]));
                assert(next == done + tail);
                assert forall|k: int| 0 <= k < out@.len() implies (#[trigger] out@[k]).is_unit_of(
                    next[k].0,
                    next[k].1,
                ) by {
                    if k >= done.len() {
                        assert(out@[done.len() + (k - done.len())].is_unit_of(
                            found[k - done.len()],
                            *state,
                        ));
                        assert(next[k] == tail[k - done.len()]);
                    }
                }
            }
            i += 1;
        }
        assert(states@.subrange(0, i as int) =~= states@);
        out
    }
}


/// Milliseconds to wait after the failed attempt number `attempt` before
/// the next one: a hundred, doubled with every further attempt, and
/// confined to what sixty-three bits hold.
pub open spec fn retry_delay(attempt: nat) -> nat {
    doubled(
        100,
        if attempt == 0 {
            0
        } else {
            (attempt - 1) as nat
        },
        0x7fff_ffff_ffff_ffff,
    )
}

/// The delay, in milliseconds, after the failed attempt number `attempt`.
pub fn retry_delay_ms(attempt: u32) -> (r: u64)
    ensures
        r == retry_delay(attempt as nat),
{
    let steps: u32 = if attempt == 0 {
        0
    } else {
        attempt - 1
    };
    double_capped(100, steps, 0x7fff_ffff_ffff_ffff)
}

/// The words in which the failure of a step is reported: what was being
/// set and the detail that the sender gave, or, for a colour that cannot
/// be resolved, why it cannot.
pub open spec fn step_failure_chars(step: Step, detail: Seq<char>, color: Seq<char>) -> Seq<char> {
    match step {
        Step::Power(_) => "Failed to set power: "@ + detail,
        Step::Color(_, _) => "Failed to set color: "@ + detail,
        Step::Brightness(_, _) => "Failed to set brightness: "@ + detail,
        Step::Infrared(_) => "Failed to set infrared: "@ + detail,
        Step::Invalid(e) => color_error_chars(e, color),
    }
}

impl Step {
    /// Reports the failure of the step in words.  `detail` is what the
    /// sender said of a failed send, `color` the colour expression of the
    /// update.
    pub fn failure(&self, detail: &str, color: &str) -> (r: String)
        ensures
            r@ == step_failure_chars(*self, detail@, color@),
    {
        match self {
            Step::Power(_) => join("Failed to set power: ", detail),
            Step::Color(_, _) => join("Failed to set color: ", detail),
            Step::Brightness(_, _) => join("Failed to set brightness: ", detail),
            Step::Infrared(_) => join("Failed to set infrared: ", detail),
            Step::Invalid(e) => e.message(color),
        }
    }
}

/// What an attempt does next.
#[derive(Debug)]
pub enum AttemptAction {
    /// Send this step.
    Send(Step),
    /// Every step was sent: the attempt has succeeded.
    Succeeded,
    /// The attempt has failed, with this report.
    Failed(String),
}

/// Is `a` what an attempt does when the steps before `position` are sent?
/// With no step left the attempt has succeeded.  A step that marks a colour
/// that cannot be resolved fails the attempt; any other step is sent.
pub open spec fn is_attempt_action(
    a: AttemptAction,
    steps: Seq<Step>,
    position: int,
    color: Seq<char>,
) -> bool {
    if position >= steps.len() {
        a is Succeeded
    } else {
        match steps[position] {
            Step::Invalid(e) => a is Failed && a->Failed_0@ == color_error_chars(e, color),
            step => a is Send && a->Send_0 == step,
        }
    }
}

/// What an attempt does when the steps before `position` are sent.
/// `color` is the colour expression of the update.
pub fn next_step(steps: &Vec<Step>, position: usize, color: &str) -> (a: AttemptAction)
    ensures
        is_attempt_action(a, steps@, position as int, color@),
{
    if position >= steps.len() {
        return AttemptAction::Succeeded;
    }
    let step: Step = steps[position];
    match step {
        Step::Invalid(e) => AttemptAction::Failed(e.message(color)),
        _ => AttemptAction::Send(step),
    }
}

/// What an attempt does after the step at `position` was handed to the
/// sender.  A step that was sent is followed by the next; the first step
/// that could not be sent ends the attempt, with the report of its
/// failure.  `outcome` is what the sender said.
pub fn after_send(
    steps: &Vec<Step>,
    position: usize,
    outcome: Result<(), String>,
    color: &str,
) -> (a: AttemptAction)
    ensures
        position >= steps@.len() ==> a is Succeeded,
        position < steps@.len() ==> (match outcome {
            Ok(_) => is_attempt_action(a, steps@, position + 1, color@),
            Err(detail) => a is Failed && a->Failed_0@ == step_failure_chars(
                steps@[position as int],
                detail@,
                color@,
            ),
        }),
{
    if position >= steps.len() {
        return AttemptAction::Succeeded;
    }
    match outcome {
        Ok(_) => next_step(steps, position + 1, color),
        Err(detail) => AttemptAction::Failed(steps[position].failure(detail.as_str(), color)),
    }
}

/// How far the attempts of one unit of work have come.
#[derive(Debug)]
pub struct RetryState {
    /// Attempts made so far.
    pub attempt: u32,
    /// Whether an attempt has succeeded.
    pub success: bool,
    /// The report of the last failed attempt.
    pub error: Option<String>,
}

/// What the executor does next for a unit of work.
#[derive(Clone, Copy, Debug, PartialEq, Eq, Structural)]
pub enum RetryAction {
    /// Make an attempt now.
    Attempt,
    /// Wait the given milliseconds, then make an attempt.
    Sleep(u64),
    /// The unit is finished: report its result.
    Finish,
}

/// The outcome of the update of one device, before it is reported.
#[derive(Debug)]
pub struct UpdateResult {
    pub id: String,
    pub label: String,
    pub success: bool,
    pub error: Option<String>,
}

/// The words in which the failure of the attempt number `attempt` is
/// reported.
pub open spec fn attempt_failure_chars(attempt: nat, why: Seq<char>) -> Seq<char> {
    "Attempt "@ + decimal_chars(attempt) + ": "@ + why
}

/// Is the unit finished: has an attempt succeeded, or are the attempts
/// used up?
pub open spec fn unit_finished(state: RetryState, retries: nat) -> bool {
    state.success || state.attempt >= retries
}

/// Is `n` the state that follows `o` once an attempt has ended with
/// `outcome`, and is `action` what the executor then does?  A finished
/// unit stays as it is.  Otherwise the attempt is counted; a success
/// finishes the unit; a failure is recorded and, unless the attempts are
/// used up, the next attempt follows after the retry delay.
pub open spec fn retry_step(
    o: RetryState,
    n: RetryState,
    outcome: Result<(), String>,
    retries: nat,
    action: RetryAction,
) -> bool {
    if unit_finished(o, retries) {
        n == o && action == RetryAction::Finish
    } else {
        &&& n.attempt == o.attempt + 1
        &&& match outcome {
            Ok(_) => n.success && n.error == o.error && action == RetryAction::Finish,
            Err(why) => {
                &&& !n.success
                &&& n.error.is_some()
                &&& n.error.unwrap()@ == attempt_failure_chars(n.attempt as nat, why@)
                &&& action == (if n.attempt < retries {
                    RetryAction::Sleep(retry_delay(n.attempt as nat) as u64)
                } else {
                    RetryAction::Finish
                })
            },
        }
    }
}

/// Is `r` the outcome of the unit `unit` whose attempts have ended in the
/// state `state`?  It names the unit's device, and it carries the last
/// failure only where no attempt has succeeded.
pub open spec fn is_result_of(r: UpdateResult, unit: BulbUpdate, state: RetryState) -> bool {
    &&& r.id == unit.id
    &&& r.label == unit.label
    &&& r.success == state.success
    &&& r.error == (if state.success {
        None
    } else {
        state.error
    })
}

/// Does the state after the attempt at position `i` follow from the state
/// before it?
pub open spec fn follows_at(
    states: Seq<RetryState>,
    outcomes: Seq<Result<(), String>>,
    retries: nat,
    i: int,
) -> bool {
    exists|action: RetryAction|
        #[trigger] retry_step(states[i], states[i + 1], outcomes[i], retries, action)
}

/// Are `states` the states that a unit of work goes through, from before
/// its first attempt, while its attempts end with `outcomes`, one after the
/// other?
pub open spec fn is_run(
    states: Seq<RetryState>,
    outcomes: Seq<Result<(), String>>,
    retries: nat,
) -> bool {
    &&& states.len() == outcomes.len() + 1
    &&& states[0] == (RetryState { attempt: 0, success: false, error: None })
    &&& forall|i: int|
        0 <= i < outcomes.len() ==> #[trigger] follows_at(states, outcomes, retries, i)
}

/// Has one of the first `retries` attempts succeeded?
pub open spec fn some_attempt_succeeds(outcomes: Seq<Result<(), String>>, retries: nat) -> bool {
    exists|j: int| 0 <= j < outcomes.len() && j < retries && #[trigger] outcomes[j] is Ok
}

/// The number of attempts that count when none of them succeeds.
pub open spec fn attempts_made(outcomes: Seq<Result<(), String>>, retries: nat) -> nat {
    if outcomes.len() <= retries {
        outcomes.len()
    } else {
        retries
    }
}

/// A unit of work succeeds exactly if one of its own first `retries`
/// attempts succeeds.  Where none does, every one of them has been counted,
/// and the unit carries the report of the last that was counted.
pub proof fn lemma_unit_outcome(
    states: Seq<RetryState>,
    outcomes: Seq<Result<(), String>>,
    retries: nat,
)
    requires
        is_run(states, outcomes, retries),
    ensures
        states.last().success == some_attempt_succeeds(outcomes, retries),
        !states.last().success ==> states.last().attempt == attempts_made(outcomes, retries),
        !states.last().success && attempts_made(outcomes, retries) > 0 ==> {
            let n = attempts_made(outcomes, retries);
            &&& outcomes[n - 1] is Err
            &&& states.last().error.is_some()
            &&& states.last().error.unwrap()@ == attempt_failure_chars(
                n,
                outcomes[n - 1]->Err_0@,
            )
        },
    decreases outcomes.len(),
{
    if outcomes.len() > 0 {
        let n = outcomes.len() - 1;
        let before = states.drop_last();
        let earlier = outcomes.drop_last();
        assert(is_run(before, earlier, retries)) by {
            assert forall|i: int| 0 <= i < earlier.len() implies #[trigger] follows_at(
                before,
                earlier,
                retries,
                i,
            ) by {
                assert(follows_at(states, outcomes, retries, i));
                let action = choose|action: RetryAction|
                    #[trigger] retry_step(states[i], states[i + 1], outcomes[i], retries, action);
                assert(retry_step(before[i], before[i + 1], earlier[i], retries, action));
            }
        }
        lemma_unit_outcome(before, earlier, retries);
        assert(before.last() == states[n]);
        assert(follows_at(states, outcomes, retries, n));
        if some_attempt_succeeds(earlier, retries) {
            let j = choose|j: int|
                0 <= j < earlier.len() && j < retries && #[trigger] earlier[j] is Ok;
            assert(outcomes[j] is Ok);
        }
        if some_attempt_succeeds(outcomes, retries) && !some_attempt_succeeds(earlier, retries) {
            let j = choose|j: int|
                0 <= j < outcomes.len() && j < retries && #[trigger] outcomes[j] is Ok;
            if j < n {
                assert(earlier[j] is Ok);
            }
        }
        let made = attempts_made(earlier, retries);
        if made > 0 {
            assert(earlier[made - 1] == outcomes[made - 1]);
        }
    }
}

/// Execution is isolated unit by unit.  Once validation has accepted a
/// batch, the answer has exactly one entry for each pairing of an update,
/// its defaults filled in, with a device that its selector names, in their
/// order and under that device's identifier and label; and an entry says
/// "ok" exactly if one of the attempts of its own unit succeeded, whatever
/// became of the other units.
pub proof fn lemma_one_result_per_unit(
    bulbs: Seq<BulbInfo>,
    request: StatesRequest,
    units: Seq<BulbUpdate>,
    logs: Seq<Seq<Result<(), String>>>,
    runs: Seq<Seq<RetryState>>,
    results: Seq<UpdateResult>,
    answer: StatesResponse,
    retries: nat,
)
    requires
        request_accepted(request),
        are_units_of(units, batch_pairs(bulbs, request)),
        logs.len() == units.len(),
        runs.len() == units.len(),
        results.len() == units.len(),
        forall|k: int| 0 <= k < units.len() ==> is_run(#[trigger] runs[k], logs[k], retries),
        forall|k: int|
            0 <= k < units.len() ==> is_result_of(#[trigger] results[k], units[k], runs[k].last()),
        answer.results@.len() == results.len(),
        forall|k: int|
            0 <= k < results.len() ==> reports(#[trigger] answer.results@[k], results[k]),
    ensures
        answer.results@.len() == batch_pairs(bulbs, request).len(),
        forall|k: int|
            0 <= k < answer.results@.len() ==> {
                &&& (#[trigger] answer.results@[k]).id == batch_pairs(bulbs, request)[k].0.id
                &&& answer.results@[k].label == batch_pairs(bulbs, request)[k].0.label
                &&& answer.results@[k].status@ == (if some_attempt_succeeds(logs[k], retries) {
                    "ok"@
                } else {
                    "error"@
                })
            },
{
    let pairs = batch_pairs(bulbs, request);
    assert forall|k: int| 0 <= k < answer.results@.len() implies {
        &&& (#[trigger] answer.results@[k]).id == pairs[k].0.id
        &&& answer.results@[k].label == pairs[k].0.label
        &&& answer.results@[k].status@ == (if some_attempt_succeeds(logs[k], retries) {
            "ok"@
        } else {
            "error"@
        })
    } by {
        assert(reports(answer.results@[k], results[k]));
        assert(is_result_of(results[k], units[k], runs[k].last()));
        assert(is_run(runs[k], logs[k], retries));
        assert(units[k].is_unit_of(pairs[k].0, pairs[k].1));
        lemma_unit_outcome(runs[k], logs[k], retries);
    }
}

impl SetStatesHandler {
    /// The state of a unit of work before its first attempt.
    pub fn begin_unit(&self) -> (r: RetryState)
        ensures
            r == (RetryState { attempt: 0, success: false, error: None }),
            !unit_finished(r, self.retries()),
    {
        proof {
            use_type_invariant(self);
        }
        RetryState { attempt: 0, success: false, error: None }
    }

    /// Takes note of how an attempt ended and says what follows.
    pub fn record_outcome(&self, state: &mut RetryState, outcome: Result<(), String>) -> (action:
        RetryAction)
        ensures
            retry_step(*old(state), *final(state), outcome, self.retries(), action),
    {
        proof {
            use_type_invariant(self);
        }
        if state.success || state.attempt >= self.max_retries {
            return RetryAction::Finish;
        }
        state.attempt = state.attempt + 1;
        match outcome {
            Ok(_) => {
                state.success = true;
                RetryAction::Finish
            },
            Err(why) => {
                let mut report = String::from_str("Attempt ");
                push_decimal(&mut report, state.attempt as u64);
                report.append(": ");
                report.append(why.as_str());
                state.error = Some(report);
                if state.attempt < self.max_retries {
                    RetryAction::Sleep(retry_delay_ms(state.attempt))
                } else {
                    RetryAction::Finish
                }
            },
        }
    }

    /// The outcome of a unit of work whose attempts have ended.
    pub fn finish_unit(&self, unit: &BulbUpdate, state: RetryState) -> (r: UpdateResult)
        ensures
            is_result_of(r, *unit, state),
    {
        UpdateResult {
            id: unit.id.clone(),
            label: unit.label.clone(),
            success: state.success,
            error: if state.success {
                None
            } else {
                state.error
            },
        }
    }
}

/// Is `r` the report of the outcome `u`?
pub open spec fn reports(r: StateResult, u: UpdateResult) -> bool {
    &&& r.id == u.id
    &&& r.label == u.label
    &&& r.status@ == (if u.success {
        "ok"@
    } else {
        "error"@
    })
    &&& r.error == u.error
}

/// Reports the outcomes of the units of a batch, one entry for each unit
/// and in the same order.
pub fn report_results(results: Vec<UpdateResult>) -> (r: StatesResponse)
    ensures
        r.results@.len() == results@.len(),
        forall|k: int| 0 <= k < results@.len() ==> reports(#[trigger] r.results@[k], results@[k]),
{
    let mut out: Vec<StateResult> = Vec::new();
    let mut i: usize = 0;
    while i < results.len()
        invariant
            i <= results.len(),
            out@.len() == i,
            forall|k: int| 0 <= k < i ==> reports(#[trigger] out@[k], results@[k]),
        decreases results.len() - i,
    {
        let u: &UpdateResult = &results[i];
        out.push(
            StateResult {
                id: u.id.clone(),
                label: u.label.clone(),
                status: if u.success {
                    String::from_str("ok")
                } else {
                    String::from_str("error")
                },
                error: clone_text(&u.error),
            },
        );
        i += 1;
    }
    StatesResponse { results: out }
}

/// Is `r` the answer with the single entry that reports an error under
/// the given identifier and label?
pub open spec fn is_failure_report(
    r: StatesResponse,
    id: Seq<char>,
    label: Seq<char>,
    error: Seq<char>,
) -> bool {
    &&& r.results@.len() == 1
    &&& r.results@[0].id@ == id
    &&& r.results@[0].label@ == label
    &&& r.results@[0].status@ == "error"@
    &&& r.results@[0].error.is_some()
    &&& r.results@[0].error.unwrap()@ == error
}

fn failure_report(id: &str, label: &str, error: String) -> (r: StatesResponse)
    ensures
        is_failure_report(r, id@, label@, error@),
{
    let mut results: Vec<StateResult> = Vec::new();
    results.push(
        StateResult {
            id: String::from_str(id),
            label: String::from_str(label),
            status: String::from_str("error"),
            error: Some(error),
        },
    );
    StatesResponse { results }
}

/// The answer to a batch that could not be looked at because the registry
/// could not be locked.
pub fn lock_failure_response() -> (r: StatesResponse)
    ensures
        is_failure_report(
            r,
            "mutex_error"@,
            "Internal Error"@,
            "Failed to acquire bulbs lock"@,
        ),
{
    failure_report("mutex_error", "Internal Error", String::from_str("Failed to acquire bulbs lock"))
}

/// The answer to a batch that validation rejected.
pub fn validation_failure_response(error: String) -> (r: StatesResponse)
    ensures
        is_failure_report(r, "validation_error"@, "Request Validation"@, error@),
{
    failure_report("validation_error", "Request Validation", error)
}


/// What is to be done with a batch.
#[derive(Debug)]
pub enum RequestPlan {
    /// The batch is rejected as a whole: no device is touched, and this is
    /// the answer.
    Rejected(StatesResponse),
    /// The batch is accepted: these are its units of work.
    Execute(Vec<BulbUpdate>),
}

impl SetStatesHandler {
    /// Decides what is to be done with a batch.  A batch with a fault is
    /// rejected as a whole, with the report of its first fault as the
    /// single entry of the answer.  A batch without fault is expanded:
    /// the defaults are filled into its entries, and each entry becomes
    /// one unit of work for each device that its selector names.  No
    /// device at all is no error: the batch then has no unit.
    pub fn handle_request(&self, mgr: &Manager, request: StatesRequest) -> (r: RequestPlan)
        ensures
            match r {
                RequestPlan::Rejected(answer) => {
                    &&& !request_accepted(request)
                    &&& exists|e: ValidationError|
                        is_verdict(request, e) && is_failure_report(
                            answer,
                            "validation_error"@,
                            "Request Validation"@,
                            verdict_chars(request, e),
                        )
                },
                RequestPlan::Execute(units) => {
                    &&& request_accepted(request)
                    &&& are_units_of(units@, batch_pairs(mgr.records(), request))
                },
            },
    {
        match self.validate_request(&request) {
            Err(report) => RequestPlan::Rejected(validation_failure_response(report)),
            Ok(_) => {
                let states: Vec<StateUpdate> = self.apply_defaults(
                    request.states,
                    request.defaults,
                );
                RequestPlan::Execute(self.expand(mgr.bulbs(), &states))
            },
        }
    }
}

} // verus!
