//! The clean cycle of the lamps that have a germicidal light.

use vstd::prelude::*;
use vstd::string::StringExecFns;
use crate::device::BulbInfo;

verus! {

/// A request to clean.
#[derive(Clone, Debug)]
pub struct CleanRequest {
    pub duration: Option<u32>,
    pub stop: Option<bool>,
}

/// What became of the request on one device.
#[derive(Debug)]
pub struct CleanResult {
    pub id: String,
    pub label: String,
    pub status: String,
    pub message: Option<String>,
}

/// The answer to a request to clean.
#[derive(Debug)]
pub struct CleanResponse {
    pub results: Vec<CleanResult>,
}

/// Does the device have a germicidal light?
pub open spec fn has_hev(b: BulbInfo) -> bool {
    match b.product {
        Some(p) => p.capabilities.has_hev,
        None => false,
    }
}

/// Is `r` the answer that the device `b` gets?  A device with a
/// germicidal light has the request acknowledged; any other is told that
/// it cannot clean.
pub open spec fn is_clean_result(r: CleanResult, b: BulbInfo) -> bool {
    &&& r.id == b.id
    &&& r.label == b.label
    &&& r.message.is_some()
    &&& if has_hev(b) {
        r.status@ == "ok"@ && r.message.unwrap()@
            == "Clean mode operation acknowledged (HEV message type not yet implemented in lifx-rs)"@
    } else {
        r.status@ == "error"@ && r.message.unwrap()@ == "Device does not support HEV/Clean mode"@
    }
}

/// The handler of requests to clean.
pub struct CleanHandler;

impl CleanHandler {
    pub fn new() -> (r: Self)
        ensures
            r == CleanHandler,
    {
        CleanHandler
    }

    /// Answers a request to clean, one entry for each device and in the
    /// same order.
    pub fn handle_clean(&self, bulbs: &Vec<&BulbInfo>, _request: CleanRequest) -> (r:
        CleanResponse)
        ensures
            r.results@.len() == bulbs@.len(),
            forall|k: int|
                0 <= k < bulbs@.len() ==> is_clean_result(#[trigger] r.results@[k], *bulbs@[k]),
    {
        let mut results: Vec<CleanResult> = Vec::new();
        let mut i: usize = 0;
        while i < bulbs.len()
            invariant
                i <= bulbs.len(),
                results@.len() == i,
                forall|k: int|
                    0 <= k < i ==> is_clean_result(#[trigger] results@[k], *bulbs@[k]),
            decreases bulbs.len() - i,
        {
            let bulb: &BulbInfo = bulbs[i];
            let able: bool = match &bulb.product {
                Some(p) => p.capabilities.has_hev,
                None => false,
            };
            if able {
                results.push(
                    CleanResult {
                        id: bulb.id.clone(),
                        label: bulb.label.clone(),
                        status: String::from_str("ok"),
                        message: Some(
                            String::from_str(
                                "Clean mode operation acknowledged (HEV message type not yet implemented in lifx-rs)",
                            ),
                        ),
                    },
                );
            } else {
                results.push(
                    CleanResult {
                        id: bulb.id.clone(),
                        label: bulb.label.clone(),
                        status: String::from_str("error"),
                        message: Some(String::from_str("Device does not support HEV/Clean mode")),
                    },
                );
            }
            i += 1;
        }
        CleanResponse { results }
    }
}

impl Default for CleanHandler {
    fn default() -> (r: Self)
        ensures
            r == CleanHandler,
    {
        CleanHandler
    }
}

} // verus!
