//! Maps raw browser cookie state to a three-valued consent verdict
//! (granted, denied, pending) for a data-collection pipeline that must
//! respect user consent. The vendor consent cookie is located in the
//! supplied collection, percent-decoded and parsed as a JSON object, and a
//! deterministic policy over its fields decides the verdict; any failure on
//! the way resolves to the fail-safe Pending.

use vstd::prelude::*;

pub mod cookie;
pub mod json;
pub mod laws;
pub mod policy;
pub mod record;
pub mod strings;

use crate::policy::{evaluate, spec_verdict, Consent};
use crate::record::{spec_from_dict, ConsentRecord};

verus! {

/// What the boundary owes the host for a cookie collection: the policy's
/// verdict on the decoded record, or the fail-safe Pending when the cookie
/// is missing or any step of the decode fails.
pub open spec fn spec_map(cs: Seq<(String, String)>) -> Consent {
    match spec_from_dict(cs) {
        Err(_) => Consent::Pending,
        Ok(rec) => spec_verdict(rec),
    }
}

/// The host-facing component: a pure mapping from cookie state to a verdict.
pub struct Component;

impl Component {
    /// Maps the supplied cookie collection to a consent verdict. The
    /// settings collection is accepted and ignored. A verdict is always
    /// present: failures of the locator or the decoder resolve to Pending,
    /// never to an error or to an absent verdict.
    pub fn map(cookies: Vec<(String, String)>, _settings: Vec<(String, String)>) -> (r: Option<
        Consent,
    >)
        ensures
            r == Some(spec_map(cookies@)),
    {
        let rec = match ConsentRecord::from_dict(&cookies) {
            Ok(rec) => rec,
            Err(_) => {
                return Some(Consent::Pending);
            },
        };
        Some(evaluate(&rec))
    }
}

} // verus!
