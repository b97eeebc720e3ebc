//! Scenes: named lists of states that can be stored and played back.

use vstd::prelude::*;
use vstd::string::StrSliceExecFns;
use vstd::string::StringExecFns;
use crate::clock::unix_seconds;
use crate::color::{baseline_of, Hsbk, LifxColor};
use crate::device::{BulbInfo, PowerLevel, SocketAddress};
use crate::error::{LifxError, LifxResult};
use crate::ident::{is_token, random_token};
use crate::number::{level_of, millis_of, Number};
use crate::registry::Manager;
use crate::selector::{filter, filtered, records_of};
use crate::set_states::Step;
use crate::text::{equals_text, is_text, join, utf8};

verus! {

/// A colour of a scene.
#[derive(Clone, Copy, Debug, PartialEq, Eq, Structural)]
pub struct SceneColor {
    pub hue: u16,
    pub saturation: u16,
    pub brightness: u16,
    pub kelvin: u16,
}

/// One state of a scene: the devices it is meant for and what they are
/// set to.
#[derive(Clone, Debug)]
pub struct SceneState {
    pub selector: String,
    pub power: Option<String>,
    pub color: Option<SceneColor>,
    pub brightness: Option<Number>,
    pub kelvin: Option<u16>,
}

/// A scene.
#[derive(Clone, Debug)]
pub struct Scene {
    pub uuid: String,
    pub name: String,
    pub states: Vec<SceneState>,
    pub created_at: u64,
    pub updated_at: u64,
}

/// A request to store a scene.
#[derive(Debug)]
pub struct CreateSceneRequest {
    pub name: String,
    pub states: Vec<SceneState>,
}

/// A request to play a scene.
#[derive(Debug)]
pub struct ActivateSceneRequest {
    pub duration: Option<Number>,
    pub fast: Option<bool>,
}

/// The answer that shows one scene.
#[derive(Debug)]
pub struct SceneResponse {
    pub scene: Scene,
}

/// The answer that shows all scenes.
#[derive(Debug)]
pub struct ScenesListResponse {
    pub scenes: Vec<Scene>,
}

/// What became of a scene on one device.
#[derive(Debug)]
pub struct ActivateResult {
    pub id: String,
    pub label: String,
    pub status: String,
}

/// The answer to a request to play a scene.
#[derive(Debug)]
pub struct ActivateSceneResponse {
    pub results: Vec<ActivateResult>,
}

/// What one device is to do for a scene.
#[derive(Debug)]
pub struct SceneOrder {
    pub id: String,
    pub label: String,
    pub target: u64,
    pub source: u32,
    pub addr: SocketAddress,
    pub steps: Vec<Step>,
}

/// Do the two scenes hold the same?
pub open spec fn same_scene(a: Scene, b: Scene) -> bool {
    &&& a.uuid == b.uuid
    &&& a.name == b.name
    &&& a.states@ == b.states@
    &&& a.created_at == b.created_at
    &&& a.updated_at == b.updated_at
}

/// The place of the scene with the given identifier, or the number of
/// scenes where there is none.
pub open spec fn scene_slot(scenes: Seq<Scene>, uuid: Seq<char>) -> int
    decreases scenes.len(),
{
    if scenes.len() == 0 || scenes[0].uuid@ == uuid {
        0
    } else {
        1 + scene_slot(scenes.drop_first(), uuid)
    }
}

proof fn lemma_scene_slot(scenes: Seq<Scene>, uuid: Seq<char>)
    ensures
        0 <= scene_slot(scenes, uuid) <= scenes.len(),
        scene_slot(scenes, uuid) < scenes.len() ==> scenes[scene_slot(scenes, uuid)].uuid@ == uuid,
        forall|k: int| 0 <= k < scene_slot(scenes, uuid) ==> (#[trigger] scenes[k]).uuid@ != uuid,
    decreases scenes.len(),
{
    if scenes.len() == 0 || scenes[0].uuid@ == uuid {
    } else {
        let rest = scenes.drop_first();
        lemma_scene_slot(rest, uuid);
        assert forall|k: int| 0 <= k < scene_slot(scenes, uuid) implies (#[trigger] scenes[k]).uuid@
            != uuid by {
            if k > 0 {
                assert(scenes[k] == rest[k - 1]);
            }
        }
    }
}

proof fn lemma_scene_slot_unique(scenes: Seq<Scene>, uuid: Seq<char>, i: int)
    requires
        0 <= i <= scenes.len(),
        forall|k: int| 0 <= k < i ==> (#[trigger] scenes[k]).uuid@ != uuid,
        i < scenes.len() ==> scenes[i].uuid@ == uuid,
    ensures
        scene_slot(scenes, uuid) == i,
{
    lemma_scene_slot(scenes, uuid);
    let j = scene_slot(scenes, uuid);
    if j < i {
        assert(scenes[j].uuid@ == uuid);
    } else if j > i {
        assert(scenes[i].uuid@ == uuid);
    }
}

fn copy_state(s: &SceneState) -> (r: SceneState)
    ensures
        r == *s,
{
    SceneState {
        selector: s.selector.clone(),
        power: match &s.power {
            Some(p) => Some(p.clone()),
            None => None,
        },
        color: s.color,
        brightness: s.brightness,
        kelvin: s.kelvin,
    }
}

fn copy_states(v: &Vec<SceneState>) -> (r: Vec<SceneState>)
    ensures
        r@ == v@,
{
    let mut out: Vec<SceneState> = Vec::new();
    let mut i: usize = 0;
    while i < v.len()
        invariant
            i <= v.len(),
            out@ == v@.subrange(0, i as int),
        decreases v.len() - i,
    {
        out.push(copy_state(&v[i]));
        assert(out@ =~= v@.subrange(0, i + 1));
        i += 1;
    }
    assert(v@.subrange(0, i as int) =~= v@);
    out
}

fn copy_scene(s: &Scene) -> (r: Scene)
    ensures
        same_scene(r, *s),
{
    Scene {
        uuid: s.uuid.clone(),
        name: s.name.clone(),
        states: copy_states(&s.states),
        created_at: s.created_at,
        updated_at: s.updated_at,
    }
}

/// The shape of a scene identifier: thirty-two letters and digits in
/// groups of eight, four, four, four and twelve, with hyphens between the
/// groups.
pub open spec fn hyphenated(raw: Seq<char>) -> Seq<char> {
    raw.subrange(0, 8) + "-"@ + raw.subrange(8, 12) + "-"@ + raw.subrange(12, 16) + "-"@
        + raw.subrange(16, 20) + "-"@ + raw.subrange(20, 32)
}

/// Is the text a scene identifier?
pub open spec fn is_scene_uuid(s: Seq<char>) -> bool {
    exists|raw: Seq<char>| #[trigger] is_token(raw, 32) && s == hyphenated(raw)
}

/// Puts the hyphens into thirty-two letters and digits.
pub fn hyphenate(raw: &str) -> (r: String)
    requires
        raw@.len() == 32,
    ensures
        r@ == hyphenated(raw@),
{
    let mut out = String::from_str(raw.substring_char(0, 8));
    out.append("-");
    out.append(raw.substring_char(8, 12));
    out.append("-");
    out.append(raw.substring_char(12, 16));
    out.append("-");
    out.append(raw.substring_char(16, 20));
    out.append("-");
    out.append(raw.substring_char(20, 32));
    out
}

/// The colour that a state of a scene sets on a device of the colour
/// `current`, where it sets one: its own colour, or, where it names only a
/// brightness or a colour temperature, the device's colour with these
/// replaced.
pub open spec fn scene_color(s: SceneState, current: Option<LifxColor>) -> Option<Hsbk> {
    match s.color {
        Some(c) => Some(
            Hsbk {
                hue: c.hue,
                saturation: c.saturation,
                brightness: c.brightness,
                kelvin: c.kelvin,
            },
        ),
        None => if s.brightness.is_some() || s.kelvin.is_some() {
            Some(
                Hsbk {
                    hue: baseline_of(current, 3500).hue,
                    saturation: baseline_of(current, 3500).saturation,
                    brightness: match s.brightness {
                        Some(b) => level_of(b) as u16,
                        None => baseline_of(current, 3500).brightness,
                    },
                    kelvin: match s.kelvin {
                        Some(k) => k,
                        None => baseline_of(current, 3500).kelvin,
                    },
                },
            )
        } else {
            None
        },
    }
}

/// The steps that apply a state of a scene to a device: the power, where
/// the state names one, then the colour, where it sets one.  `duration` is
/// the time of the transition.
pub open spec fn scene_steps(b: BulbInfo, s: SceneState, duration: u32) -> Seq<Step> {
    let first = match s.power {
        Some(p) => seq![
            Step::Power(
                if is_text(utf8(p@), "on"@) {
                    PowerLevel::Enabled
                } else {
                    PowerLevel::Standby
                },
            ),
        ],
        None => Seq::empty(),
    };
    match scene_color(s, b.lifx_color) {
        Some(c) => first.push(Step::Color(c, duration)),
        None => first,
    }
}

/// The pairs of device and state that the states of a scene expand to.
pub open spec fn scene_expansion(bulbs: Seq<BulbInfo>, states: Seq<SceneState>) -> Seq<
    (BulbInfo, SceneState),
>
    decreases states.len(),
{
    if states.len() == 0 {
        Seq::empty()
    } else {
        scene_expansion(bulbs, states.drop_last()) + filtered(
            bulbs,
            utf8(states.last().selector@),
        ).map_values(|b: BulbInfo| (b, states.last()))
    }
}

/// Is `o` the order that applies the state `s` to the device `b`?
pub open spec fn is_scene_order(o: SceneOrder, b: BulbInfo, s: SceneState, duration: u32) -> bool {
    &&& o.id == b.id
    &&& o.label == b.label
    &&& o.target == b.target
    &&& o.source == b.source
    &&& o.addr == b.addr
    &&& o.steps@ == scene_steps(b, s, duration)
}

/// Are `orders` the orders of the pairs, one for each and in the same
/// order?
pub open spec fn are_scene_orders(
    orders: Seq<SceneOrder>,
    pairs: Seq<(BulbInfo, SceneState)>,
    duration: u32,
) -> bool {
    &&& orders.len() == pairs.len()
    &&& forall|k: int|
        0 <= k < orders.len() ==> is_scene_order(
            #[trigger] orders[k],
            pairs[k].0,
            pairs[k].1,
            duration,
        )
}

/// Is `s` the state that records what the device `b` is set to?
pub open spec fn captures(s: SceneState, b: BulbInfo) -> bool {
    &&& s.selector@ == "id:"@ + b.id@
    &&& s.power == Some(b.power)
    &&& s.color == (match b.lifx_color {
        Some(c) => Some(
            SceneColor {
                hue: c.hue,
                saturation: c.saturation,
                brightness: c.brightness,
                kelvin: c.kelvin,
            },
        ),
        None => None,
    })
    &&& s.brightness == Some(b.brightness)
    &&& s.kelvin == (match b.lifx_color {
        Some(c) => Some(c.kelvin),
        None => None,
    })
}

/// Is the error the one with which the making of a scene fails: the
/// report that the system's clock could not be read?
pub open spec fn is_clock_failure(e: LifxError) -> bool {
    e matches LifxError::ValidationError(report) && report@
        == "Time error: system clock is before the Unix epoch"@
}

/// The store of scenes.
#[derive(Debug)]
pub struct ScenesHandler {
    scenes: Vec<Scene>,
}

impl ScenesHandler {
    /// The scenes of the store, in the order in which they were stored.
    pub closed spec fn stored(self) -> Seq<Scene> {
        self.scenes@
    }

    /// Is `n` the store `self` after `scene` was stored?  A scene whose
    /// identifier the store already has takes the place of the one that
    /// has it; any other comes behind the others.
    pub open spec fn stored_with(self, n: ScenesHandler, scene: Scene) -> bool {
        let i = scene_slot(self.stored(), scene.uuid@);
        if i < self.stored().len() {
            &&& n.stored().len() == self.stored().len()
            &&& same_scene(n.stored()[i], scene)
            &&& forall|j: int|
                0 <= j < n.stored().len() && j != i ==> #[trigger] n.stored()[j] == self.stored()[j]
        } else {
            &&& n.stored().len() == self.stored().len() + 1
            &&& n.stored().drop_last() == self.stored()
            &&& same_scene(n.stored().last(), scene)
        }
    }

    /// A store without a scene.
    pub fn new() -> (r: Self)
        ensures
            r.stored() == Seq::<Scene>::empty(),
    {
        ScenesHandler { scenes: Vec::new() }
    }

    fn find(&self, uuid: &str) -> (i: usize)
        ensures
            i == scene_slot(self.stored(), uuid@),
            i <= self.stored().len(),
    {
        let wanted = String::from_str(uuid);
        let mut i: usize = 0;
        while i < self.scenes.len()
            invariant
                i <= self.scenes.len(),
                wanted@ == uuid@,
                forall|k: int| 0 <= k < i ==> (#[trigger] self.scenes@[k]).uuid@ != uuid@,
            decreases self.scenes.len() - i,
        {
            if self.scenes[i].uuid == wanted {
                proof {
                    lemma_scene_slot_unique(self.scenes@, uuid@, i as int);
                }
                return i;
            }
            i += 1;
        }
        proof {
            lemma_scene_slot_unique(self.scenes@, uuid@, i as int);
        }
        i
    }

    /// A fresh random scene identifier.
    pub fn generate_uuid(&self) -> (r: String)
        ensures
            is_scene_uuid(r@),
    {
        let raw: String = random_token(32);
        let r = hyphenate(raw.as_str());
        assert(is_token(raw@, 32) && r@ == hyphenated(raw@));
        r
    }

    /// Stores the scene that the request describes under the identifier
    /// `uuid`, as made at time `now` (seconds since the Unix epoch).
    pub fn create_scene_at(&mut self, request: CreateSceneRequest, uuid: String, now: u64) -> (r:
        SceneResponse)
        ensures
            r.scene.uuid == uuid,
            r.scene.name == request.name,
            r.scene.states@ == request.states@,
            r.scene.created_at == now,
            r.scene.updated_at == now,
            old(self).stored_with(*final(self), r.scene),
    {
        let scene = Scene {
            uuid: uuid,
            name: request.name,
            states: request.states,
            created_at: now,
            updated_at: now,
        };
        let copy: Scene = copy_scene(&scene);
        let i: usize = self.find(scene.uuid.as_str());
        let ghost before = self.scenes@;
        if i < self.scenes.len() {
            self.scenes.set(i, copy);
        } else {
            self.scenes.push(copy);
            assert(self.scenes@.drop_last() =~= before);
        }
        SceneResponse { scene }
    }

    /// Stores the scene that the request describes, under a fresh
    /// identifier and as made now.  It fails only where the system's clock
    /// cannot be read.
    pub fn create_scene(&mut self, request: CreateSceneRequest) -> (r: LifxResult<SceneResponse>)
        ensures
            r.is_ok() ==> {
                &&& is_scene_uuid(r->Ok_0.scene.uuid@)
                &&& r->Ok_0.scene.name == request.name
                &&& r->Ok_0.scene.states@ == request.states@
                &&& r->Ok_0.scene.updated_at == r->Ok_0.scene.created_at
                &&& old(self).stored_with(*final(self), r->Ok_0.scene)
            },
            r.is_err() ==> final(self).stored() == old(self).stored() && is_clock_failure(
                r->Err_0,
            ),
    {
        let uuid: String = self.generate_uuid();
        match unix_seconds() {
            Some(now) => Ok(self.create_scene_at(request, uuid, now)),
            None => Err(
                LifxError::ValidationError(
                    String::from_str("Time error: system clock is before the Unix epoch"),
                ),
            ),
        }
    }

    /// All scenes of the store.
    pub fn list_scenes(&self) -> (r: LifxResult<ScenesListResponse>)
        ensures
            r.is_ok(),
            r->Ok_0.scenes@.len() == self.stored().len(),
            forall|k: int|
                0 <= k < self.stored().len() ==> same_scene(
                    #[trigger] r->Ok_0.scenes@[k],
                    self.stored()[k],
                ),
    {
        let mut out: Vec<Scene> = Vec::new();
        let mut i: usize = 0;
        while i < self.scenes.len()
            invariant
                i <= self.scenes.len(),
                out@.len() == i,
                forall|k: int| 0 <= k < i ==> same_scene(#[trigger] out@[k], self.scenes@[k]),
            decreases self.scenes.len() - i,
        {
            out.push(copy_scene(&self.scenes[i]));
            i += 1;
        }
        Ok(ScenesListResponse { scenes: out })
    }

    /// The scene with the given identifier, if the store has it.
    pub fn get_scene(&self, uuid: &str) -> (r: LifxResult<Option<Scene>>)
        ensures
            r.is_ok(),
            r->Ok_0.is_some() == (scene_slot(self.stored(), uuid@) < self.stored().len()),
            r->Ok_0.is_some() ==> same_scene(
                r->Ok_0.unwrap(),
                self.stored()[scene_slot(self.stored(), uuid@)],
            ),
    {
        let i: usize = self.find(uuid);
        if i < self.scenes.len() {
            Ok(Some(copy_scene(&self.scenes[i])))
        } else {
            Ok(None)
        }
    }

    /// Removes the scene with the given identifier and tells whether
    /// there was one.
    pub fn delete_scene(&mut self, uuid: &str) -> (r: LifxResult<bool>)
        ensures
            r.is_ok(),
            r->Ok_0 == (scene_slot(old(self).stored(), uuid@) < old(self).stored().len()),
            final(self).stored() == (if r->Ok_0 {
                old(self).stored().remove(scene_slot(old(self).stored(), uuid@))
            } else {
                old(self).stored()
            }),
    {
        let i: usize = self.find(uuid);
        if i < self.scenes.len() {
            let _gone: Scene = self.scenes.remove(i);
            Ok(true)
        } else {
            Ok(false)
        }
    }

    /// Resolves a selector to the devices that it names.
    pub fn filter_bulbs_by_selector<'a>(&self, bulbs: &'a Vec<BulbInfo>, selector: &str) -> (r:
        Vec<&'a BulbInfo>)
        ensures
            records_of(r@) == filtered(bulbs@, utf8(selector@)),
    {
        filter(bulbs, selector)
    }

    /// Plans the steps that apply a state of a scene to a device.
    pub fn apply_scene_state(&self, bulb: &BulbInfo, state: &SceneState, duration: u32) -> (r: Vec<
        Step,
    >)
        ensures
            r@ == scene_steps(*bulb, *state, duration),
    {
        let mut steps: Vec<Step> = Vec::new();
        if let Some(power) = &state.power {
            if equals_text(power.as_str().as_bytes(), "on") {
                steps.push(Step::Power(PowerLevel::Enabled));
            } else {
                steps.push(Step::Power(PowerLevel::Standby));
            }
        }
        match state.color {
            Some(c) => {
                steps.push(
                    Step::Color(
                        Hsbk {
                            hue: c.hue,
                            saturation: c.saturation,
                            brightness: c.brightness,
                            kelvin: c.kelvin,
                        },
                        duration,
                    ),
                );
            },
            None => {
                if state.brightness.is_some() || state.kelvin.is_some() {
                    let own: Hsbk = crate::color::baseline(bulb.lifx_color.as_ref(), 3500);
                    steps.push(
                        Step::Color(
                            Hsbk {
                                hue: own.hue,
                                saturation: own.saturation,
                                brightness: match state.brightness {
                                    Some(b) => b.to_level(),
                                    None => own.brightness,
                                },
                                kelvin: match state.kelvin {
                                    Some(k) => k,
                                    None => own.kelvin,
                                },
                            },
                            duration,
                        ),
                    );
                }
            },
        }
        steps
    }

    /// Plans the playing of a scene: each of its states becomes one order
    /// for each device that its selector names.  The transition takes the
    /// time that the request names, or one second.  A scene that the store
    /// does not have is an error.
    pub fn activate_scene(&self, mgr: &Manager, uuid: &str, request: ActivateSceneRequest) -> (r:
        LifxResult<Vec<SceneOrder>>)
        ensures
            r.is_ok() == (scene_slot(self.stored(), uuid@) < self.stored().len()),
            r.is_err() ==> (r->Err_0 matches LifxError::SceneNotFound(missing) && missing@
                == uuid@),
            r.is_ok() ==> are_scene_orders(
                r->Ok_0@,
                scene_expansion(
                    mgr.records(),
                    self.stored()[scene_slot(self.stored(), uuid@)].states@,
                ),
                millis_of(
                    match request.duration {
                        Some(d) => d,
                        None => Number::Finite { nanos: 1_000_000_000 },
                    },
                ) as u32,
            ),
    {
        let at: usize = self.find(uuid);
        if at >= self.scenes.len() {
            return Err(LifxError::SceneNotFound(String::from_str(uuid)));
        }
        let states: &Vec<SceneState> = &self.scenes[at].states;
        let duration: u32 = match request.duration {
            Some(d) => d.to_millis(),
            None => Number::Finite { nanos: 1_000_000_000 }.to_millis(),
        };
        let bulbs: &Vec<BulbInfo> = mgr.bulbs();
        let mut out: Vec<SceneOrder> = Vec::new();
        let mut i: usize = 0;
        assert(states@.subrange(0, 0) =~= Seq::<SceneState>::empty());
        while i < states.len()
            invariant
                i <= states.len(),
                are_scene_orders(
                    out@,
                    scene_expansion(bulbs@, states@.subrange(0, i as int)),
                    duration,
                ),
            decreases states.len() - i,
        {
            let state: &SceneState = &states[i];
            let matching: Vec<&BulbInfo> = filter(bulbs, state.selector.as_str());
            let ghost done = scene_expansion(bulbs@, states@.subrange(0, i as int));
            let ghost found = filtered(bulbs@, utf8(state.selector@));
            proof {
                let longer = states@.subrange(0, i + 1);
                assert(longer.drop_last() =~= states@.subrange(0, i as int));
                assert(longer.last() == states@[i as int]);
                assert(records_of(matching@).len() == matching@.len());
            }
            let mut j: usize = 0;
            while j < matching.len()
                invariant
                    j <= matching.len(),
                    records_of(matching@) == found,
                    matching@.len() == found.len(),
                    *state == states@[i as int],
                    out@.len() == done.len() + j,
                    forall|k: int|
                        0 <= k < done.len() ==> is_scene_order(
                            #[trigger] out@[k],
                            done[k].0,
                            done[k].1,
                            duration,
                        ),
                    forall|k: int|
                        0 <= k < j ==> is_scene_order(
                            #[trigger] out@[done.len() + k],
                            found[k],
                            *state,
                            duration,
                        ),
                decreases matching.len() - j,
            {
                let bulb: &BulbInfo = matching[j];
                assert(records_of(matching@)[j as int] == *bulb);
                out.push(
                    SceneOrder {
                        id: bulb.id.clone(),
                        label: bulb.label.clone(),
                        target: bulb.target,
                        source: bulb.source,
                        addr: bulb.addr,
                        steps: self.apply_scene_state(bulb, state, duration),
                    },
                );
                j += 1;
            }
            proof {
                let next = scene_expansion(bulbs@, states@.subrange(0, i + 1));
                let tail = found.map_values(|b: BulbInfo| (b, states@[i as int]));
                assert(next == done + tail);
                assert forall|k: int| 0 <= k < out@.len() implies is_scene_order(
                    #[trigger] out@[k],
                    next[k].0,
                    next[k].1,
                    duration,
                ) by {
                    if k >= done.len() {
                        assert(is_scene_order(
                            out@[done.len() + (k - done.len())],
                            found[k - done.len()],
                            *state,
                            duration,
                        ));
                        assert(next[k] == tail[k - done.len()]);
                    }
                }
            }
            i += 1;
        }
        assert(states@.subrange(0, i as int) =~= states@);
        Ok(out)
    }

    /// Reports what became of an order.
    pub fn report(&self, order: &SceneOrder, sent: bool) -> (r: ActivateResult)
        ensures
            r.id == order.id,
            r.label == order.label,
            r.status@ == (if sent {
                "ok"@
            } else {
                "error"@
            }),
    {
        ActivateResult {
            id: order.id.clone(),
            label: order.label.clone(),
            status: if sent {
                String::from_str("ok")
            } else {
                String::from_str("error")
            },
        }
    }

    /// The states that record what every device of the registry is set
    /// to, one for each device and in the order of the registry.
    pub fn capture_states(&self, mgr: &Manager) -> (r: Vec<SceneState>)
        ensures
            r@.len() == mgr.records().len(),
            forall|k: int|
                0 <= k < r@.len() ==> captures(#[trigger] r@[k], mgr.records()[k]),
    {
        let bulbs: &Vec<BulbInfo> = mgr.bulbs();
        let mut out: Vec<SceneState> = Vec::new();
        let mut i: usize = 0;
        while i < bulbs.len()
            invariant
                i <= bulbs.len(),
                out@.len() == i,
                forall|k: int| 0 <= k < i ==> captures(#[trigger] out@[k], bulbs@[k]),
            decreases bulbs.len() - i,
        {
            let b: &BulbInfo = &bulbs[i];
            out.push(
                SceneState {
                    selector: join("id:", b.id.as_str()),
                    power: Some(b.power.clone()),
                    color: match b.lifx_color {
                        Some(c) => Some(
                            SceneColor {
                                hue: c.hue,
                                saturation: c.saturation,
                                brightness: c.brightness,
                                kelvin: c.kelvin,
                            },
                        ),
                        None => None,
                    },
                    brightness: Some(b.brightness),
                    kelvin: match b.lifx_color {
                        Some(c) => Some(c.kelvin),
                        None => None,
                    },
                },
            );
            i += 1;
        }
        out
    }

    /// Stores what every device is set to as a scene of the given name.
    pub fn capture_current_state(&mut self, mgr: &Manager, name: String) -> (r: LifxResult<
        SceneResponse,
    >)
        ensures
            r.is_ok() ==> {
                &&& is_scene_uuid(r->Ok_0.scene.uuid@)
                &&& r->Ok_0.scene.name == name
                &&& r->Ok_0.scene.states@.len() == mgr.records().len()
                &&& forall|k: int|
                    0 <= k < mgr.records().len() ==> captures(
                        #[trigger] r->Ok_0.scene.states@[k],
                        mgr.records()[k],
                    )
                &&& old(self).stored_with(*final(self), r->Ok_0.scene)
            },
            r.is_err() ==> final(self).stored() == old(self).stored() && is_clock_failure(
                r->Err_0,
            ),
    {
        let states: Vec<SceneState> = self.capture_states(mgr);
        self.create_scene(CreateSceneRequest { name, states })
    }
}

impl Default for ScenesHandler {
    fn default() -> (r: Self)
        ensures
            r.stored() == Seq::<Scene>::empty(),
    {
        ScenesHandler { scenes: Vec::new() }
    }
}

} // verus!
