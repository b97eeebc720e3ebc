//! The routes of the HTTP interface: what a method and a path ask for.

use vstd::prelude::*;
use vstd::slice::slice_subrange;
use crate::text::{after, equals_text, find_byte, index_of_byte, is_text, lemma_index_of_byte, utf8};

verus! {

/// The segment number `n` of a path, counted from zero: what stands
/// between the slashes number `n` and `n + 1`.  A path that begins with a
/// slash has the empty text as its first segment.
pub open spec fn segment(path: Seq<u8>, n: nat) -> Option<Seq<u8>>
    decreases n,
{
    let k = index_of_byte(path, 47);
    if n == 0 {
        Some(path.subrange(0, k))
    } else if k >= path.len() {
        None
    } else {
        segment(after(path, (k + 1) as nat), (n - 1) as nat)
    }
}

/// Where the segment number `n` of a path lies: the position of its first
/// byte and the position behind its last.
pub fn find_segment(path: &[u8], n: usize) -> (r: Option<(usize, usize)>)
    ensures
        r.is_some() == segment(path@, n as nat).is_some(),
        r.is_some() ==> r.unwrap().0 <= r.unwrap().1 <= path@.len() && path@.subrange(
            r.unwrap().0 as int,
            r.unwrap().1 as int,
        ) == segment(path@, n as nat).unwrap(),
{
    let mut start: usize = 0;
    let mut left: usize = n;
    assert(after(path@, 0) =~= path@);
    while left > 0
        invariant
            start <= path.len(),
            left <= n,
            segment(path@, n as nat) == segment(after(path@, start as nat), left as nat),
        decreases left,
    {
        let rest: &[u8] = slice_subrange(path, start, path.len());
        let k: usize = find_byte(rest, 47);
        if k >= rest.len() {
            return None;
        }
        proof {
            assert(after(rest@, (k + 1) as nat) =~= after(path@, (start + k + 1) as nat));
        }
        start = start + k + 1;
        left = left - 1;
    }
    let rest: &[u8] = slice_subrange(path, start, path.len());
    let k: usize = find_byte(rest, 47);
    proof {
        lemma_index_of_byte(rest@, 47);
        assert(rest@.subrange(0, k as int) =~= path@.subrange(start as int, start + k));
    }
    Some((start, start + k))
}

/// What a request asks for.
#[derive(Clone, Copy, Debug, PartialEq, Eq, Structural)]
pub enum Route {
    /// `GET /v1/scenes`
    ListScenes,
    /// `POST /v1/scenes`
    CreateScene,
    /// `POST /v1/scenes/capture`
    CaptureScene,
    /// `PUT /v1/scenes/{id}/activate`
    ActivateScene,
    /// `DELETE /v1/scenes/{id}`
    DeleteScene,
    /// `PUT /v1/lights/states`
    SetStates,
    /// `GET /v1/lights/{selector}`
    ListLights,
    /// `PUT /v1/lights/{selector}/state`
    SetState,
    /// `POST /v1/lights/{selector}/effects/pulse`
    Pulse,
    /// `POST /v1/lights/{selector}/effects/breathe`
    Breathe,
    /// `POST /v1/lights/{selector}/effects/strobe`
    Strobe,
    /// `POST /v1/lights/{selector}/cycle`
    Cycle,
    /// `POST /v1/lights/{selector}/clean`
    Clean,
    /// `PUT /v1/lights/{selector}/label`
    SetLabel,
    /// `GET /v1/lights/{selector}/config`
    GetConfig,
    /// `PUT /v1/lights/{selector}/wifi`
    SetWifi,
    /// `POST /v1/lights/{selector}/reboot`
    Reboot,
    /// `GET /v1/lights/{selector}/info`
    GetInfo,
    /// Anything else.
    Unknown,
}

/// Is the segment there, and is it the given text?
pub open spec fn segment_is(path: Seq<u8>, n: nat, text: Seq<char>) -> bool {
    segment(path, n) == Some(utf8(text))
}

/// The route of a request under `/v1/scenes`.
pub open spec fn scene_route(method: Seq<u8>, path: Seq<u8>) -> Route {
    if segment(path, 3).is_none() {
        if is_text(method, "GET"@) {
            Route::ListScenes
        } else if is_text(method, "POST"@) {
            Route::CreateScene
        } else {
            Route::Unknown
        }
    } else if segment(path, 4).is_none() {
        if segment_is(path, 3, "capture"@) && is_text(method, "POST"@) {
            Route::CaptureScene
        } else if is_text(method, "DELETE"@) {
            Route::DeleteScene
        } else {
            Route::Unknown
        }
    } else if segment(path, 5).is_none() && segment_is(path, 4, "activate"@) && is_text(
        method,
        "PUT"@,
    ) {
        Route::ActivateScene
    } else {
        Route::Unknown
    }
}

/// The route of a request under `/v1/lights/{selector}` that names an
/// action.
pub open spec fn action_route(method: Seq<u8>, path: Seq<u8>) -> Route {
    if segment(path, 5).is_none() {
        if segment_is(path, 4, "state"@) && is_text(method, "PUT"@) {
            Route::SetState
        } else if segment_is(path, 4, "cycle"@) && is_text(method, "POST"@) {
            Route::Cycle
        } else if segment_is(path, 4, "clean"@) && is_text(method, "POST"@) {
            Route::Clean
        } else if segment_is(path, 4, "label"@) && is_text(method, "PUT"@) {
            Route::SetLabel
        } else if segment_is(path, 4, "config"@) && is_text(method, "GET"@) {
            Route::GetConfig
        } else if segment_is(path, 4, "wifi"@) && is_text(method, "PUT"@) {
            Route::SetWifi
        } else if segment_is(path, 4, "reboot"@) && is_text(method, "POST"@) {
            Route::Reboot
        } else if segment_is(path, 4, "info"@) && is_text(method, "GET"@) {
            Route::GetInfo
        } else {
            Route::Unknown
        }
    } else if segment(path, 6).is_none() && segment_is(path, 4, "effects"@) && is_text(
        method,
        "POST"@,
    ) {
        if segment_is(path, 5, "pulse"@) {
            Route::Pulse
        } else if segment_is(path, 5, "breathe"@) {
            Route::Breathe
        } else if segment_is(path, 5, "strobe"@) {
            Route::Strobe
        } else {
            Route::Unknown
        }
    } else {
        Route::Unknown
    }
}

/// The route of a request.  Every route lies under `/v1`; the segment
/// behind `scenes` or `lights` names the scene or the devices that the
/// request is about.
pub open spec fn route_of(method: Seq<u8>, path: Seq<u8>) -> Route {
    if !(segment_is(path, 0, ""@) && segment_is(path, 1, "v1"@)) {
        Route::Unknown
    } else if segment_is(path, 2, "scenes"@) {
        scene_route(method, path)
    } else if segment_is(path, 2, "lights"@) {
        if segment(path, 3).is_none() {
            Route::Unknown
        } else if segment(path, 4).is_none() {
            if segment_is(path, 3, "states"@) && is_text(method, "PUT"@) {
                Route::SetStates
            } else if is_text(method, "GET"@) {
                Route::ListLights
            } else {
                Route::Unknown
            }
        } else {
            action_route(method, path)
        }
    } else {
        Route::Unknown
    }
}

fn has_segment(path: &[u8], n: usize) -> (r: bool)
    ensures
        r == segment(path@, n as nat).is_some(),
{
    find_segment(path, n).is_some()
}

fn segment_equals(path: &[u8], n: usize, text: &str) -> (r: bool)
    ensures
        r == segment_is(path@, n as nat, text@),
{
    match find_segment(path, n) {
        Some((a, b)) => equals_text(slice_subrange(path, a, b), text),
        None => false,
    }
}

fn route_scene(method: &[u8], path: &[u8]) -> (r: Route)
    ensures
        r == scene_route(method@, path@),
{
    if !has_segment(path, 3) {
        if equals_text(method, "GET") {
            Route::ListScenes
        } else if equals_text(method, "POST") {
            Route::CreateScene
        } else {
            Route::Unknown
        }
    } else if !has_segment(path, 4) {
        if segment_equals(path, 3, "capture") && equals_text(method, "POST") {
            Route::CaptureScene
        } else if equals_text(method, "DELETE") {
            Route::DeleteScene
        } else {
            Route::Unknown
        }
    } else if !has_segment(path, 5) && segment_equals(path, 4, "activate") && equals_text(
        method,
        "PUT",
    ) {
        Route::ActivateScene
    } else {
        Route::Unknown
    }
}

fn route_action(method: &[u8], path: &[u8]) -> (r: Route)
    ensures
        r == action_route(method@, path@),
{
    if !has_segment(path, 5) {
        if segment_equals(path, 4, "state") && equals_text(method, "PUT") {
            Route::SetState
        } else if segment_equals(path, 4, "cycle") && equals_text(method, "POST") {
            Route::Cycle
        } else if segment_equals(path, 4, "clean") && equals_text(method, "POST") {
            Route::Clean
        } else if segment_equals(path, 4, "label") && equals_text(method, "PUT") {
            Route::SetLabel
        } else if segment_equals(path, 4, "config") && equals_text(method, "GET") {
            Route::GetConfig
        } else if segment_equals(path, 4, "wifi") && equals_text(method, "PUT") {
            Route::SetWifi
        } else if segment_equals(path, 4, "reboot") && equals_text(method, "POST") {
            Route::Reboot
        } else if segment_equals(path, 4, "info") && equals_text(method, "GET") {
            Route::GetInfo
        } else {
            Route::Unknown
        }
    } else if !has_segment(path, 6) && segment_equals(path, 4, "effects") && equals_text(
        method,
        "POST",
    ) {
        if segment_equals(path, 5, "pulse") {
            Route::Pulse
        } else if segment_equals(path, 5, "breathe") {
            Route::Breathe
        } else if segment_equals(path, 5, "strobe") {
            Route::Strobe
        } else {
            Route::Unknown
        }
    } else {
        Route::Unknown
    }
}

/// Where a request is routed to, with the place of the segment that names
/// its subject: the first byte of the segment and the position behind its
/// last.
#[derive(Clone, Copy, Debug, PartialEq, Eq, Structural)]
pub struct Routed {
    pub route: Route,
    pub subject_start: usize,
    pub subject_end: usize,
}

/// Routes a request by its method and its path.
pub fn route(method: &str, path: &str) -> (r: Routed)
    ensures
        r.route == route_of(utf8(method@), utf8(path@)),
        match segment(utf8(path@), 3) {
            Some(s) => r.subject_start <= r.subject_end <= utf8(path@).len() && utf8(
                path@,
            ).subrange(r.subject_start as int, r.subject_end as int) == s,
            None => r.subject_start == 0 && r.subject_end == 0,
        },
{
    let m: &[u8] = method.as_bytes();
    let p: &[u8] = path.as_bytes();
    let subject: (usize, usize) = match find_segment(p, 3) {
        Some(range) => range,
        None => (0, 0),
    };
    let found: Route = if !(segment_equals(p, 0, "") && segment_equals(p, 1, "v1")) {
        Route::Unknown
    } else if segment_equals(p, 2, "scenes") {
        route_scene(m, p)
    } else if segment_equals(p, 2, "lights") {
        if !has_segment(p, 3) {
            Route::Unknown
        } else if !has_segment(p, 4) {
            if segment_equals(p, 3, "states") && equals_text(m, "PUT") {
                Route::SetStates
            } else if equals_text(m, "GET") {
                Route::ListLights
            } else {
                Route::Unknown
            }
        } else {
            route_action(m, p)
        }
    } else {
        Route::Unknown
    };
    Routed { route: found, subject_start: subject.0, subject_end: subject.1 }
}

/// Does a route ask for the elevated credential?  The routes that change
/// the Wi-Fi settings and that reboot a device do.
pub fn needs_elevation(route: Route) -> (r: bool)
    ensures
        r == (route == Route::SetWifi || route == Route::Reboot),
{
    match route {
        Route::SetWifi => true,
        Route::Reboot => true,
        _ => false,
    }
}

/// Does a route change the configuration of devices, so that it counts
/// against the client's configuration limit?  The routes that set a label
/// and that change the Wi-Fi settings do.
pub fn counts_as_config_change(route: Route) -> (r: bool)
    ensures
        r == (route == Route::SetLabel || route == Route::SetWifi),
{
    match route {
        Route::SetLabel => true,
        Route::SetWifi => true,
        _ => false,
    }
}

} // verus!
