use vstd::prelude::*;
use crate::json::{FieldValue, PurposeValue};
use crate::record::{ConsentRecord, ConsentRecordView};
use crate::strings::{has_reserved_prefix, spec_reserved_prefix, str_eq_lit};

verus! {

/// The three-valued consent decision handed back to the host.
#[derive(Clone, Copy, Debug, PartialEq, Eq, Structural)]
pub enum Consent {
    Granted,
    Denied,
    Pending,
}

/// True for the two metadata keys of the per-purpose consent map, which are
/// not purposes and never count as denials.
pub open spec fn is_meta_key(k: String) -> bool {
    k@ == "version"@ || k@ == "wait_for_update"@
}

/// A per-purpose entry denies consent when its key is a purpose (not a
/// metadata key), its value is a string, and that string is not "granted".
pub open spec fn purpose_denies(e: (String, PurposeValue)) -> bool {
    !is_meta_key(e.0) && match e.1 {
        PurposeValue::Str(s) => s@ != "granted"@,
        PurposeValue::Other => false,
    }
}

pub open spec fn gcm_denies(g: Seq<(String, PurposeValue)>) -> bool {
    exists|i: int| 0 <= i < g.len() && purpose_denies(g[i])
}

/// An extra field denies consent when its name lacks the reserved `$$`
/// prefix and its value is the boolean false.
pub open spec fn extra_denies(e: (String, FieldValue)) -> bool {
    !spec_reserved_prefix(e.0@) && match e.1 {
        FieldValue::Bool(b) => !b,
        _ => false,
    }
}

pub open spec fn extras_deny(es: Seq<(String, FieldValue)>) -> bool {
    exists|i: int| 0 <= i < es.len() && extra_denies(es[i])
}

/// The verdict the policy owes a decoded record: Pending until the consent
/// flow was completed; then Denied as soon as any per-purpose entry or any
/// extra field denies; else Granted.
pub open spec fn spec_verdict(rec: ConsentRecordView) -> Consent {
    if rec.completed != Some(true) {
        Consent::Pending
    } else if match rec.google_consent_mode {
        Some(g) => gcm_denies(g),
        None => false,
    } {
        Consent::Denied
    } else if extras_deny(rec.extra_fields) {
        Consent::Denied
    } else {
        Consent::Granted
    }
}

/// Applies the decision rules to a decoded consent record.
#[verifier::loop_isolation(false)]
pub fn evaluate(rec: &ConsentRecord) -> (v: Consent)
    ensures
        v == spec_verdict(rec@),
{
    match rec.completed {
        Some(true) => {},
        _ => {
            return Consent::Pending;
        },
    }
    if let Some(g) = &rec.google_consent_mode {
        let n: usize = g.len();
        for i in 0..n
            invariant
                forall|j: int| 0 <= j < i ==> !purpose_denies(g@[j]),
        {
            let entry = &g[i];
            let meta = str_eq_lit(&entry.0, "version") || str_eq_lit(&entry.0, "wait_for_update");
            if !meta {
                match &entry.1 {
                    PurposeValue::Str(s) => {
                        if !str_eq_lit(s, "granted") {
                            proof {
                                assert(purpose_denies(g@[i as int]));
                            }
                            return Consent::Denied;
                        }
                    },
                    PurposeValue::Other => {},
                }
            }
        }
    }
    let es = &rec.extra_fields;
    let m: usize = es.len();
    for i in 0..m
        invariant
            forall|j: int| 0 <= j < i ==> !extra_denies(es@[j]),
    {
        let entry = &es[i];
        if !has_reserved_prefix(&entry.0) {
            match &entry.1 {
                FieldValue::Bool(b) => {
                    if !*b {
                        proof {
                            assert(extra_denies(es@[i as int]));
                        }
                        return Consent::Denied;
                    }
                },
                _ => {},
            }
        }
    }
    Consent::Granted
}

} // verus!
