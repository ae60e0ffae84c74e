use vstd::prelude::*;
use crate::cookie::{cookie_name, last_named_value};
use crate::json::{FieldValue, PurposeValue};
use crate::policy::{extra_denies, extras_deny, is_meta_key, purpose_denies, spec_verdict, Consent};
use crate::record::{spec_from_dict, ConsentRecordView};
use crate::spec_map;
use crate::strings::spec_reserved_prefix;

verus! {

proof fn lemma_last_named_value_found(cs: Seq<(String, String)>)
    requires
        last_named_value(cs) is Some,
    ensures
        exists|i: int|
            0 <= i < cs.len() && #[trigger] cs[i].0@ == cookie_name() && cs[i].1
                == last_named_value(cs)->0,
    decreases cs.len(),
{
    if cs.len() == 0 {
    } else if cs.last().0@ == cookie_name() {
        assert(cs[cs.len() - 1] == cs.last());
    } else {
        lemma_last_named_value_found(cs.drop_last());
        let i: int = choose|i: int|
            0 <= i < cs.drop_last().len() && #[trigger] cs.drop_last()[i].0@ == cookie_name()
                && cs.drop_last()[i].1 == last_named_value(cs.drop_last())->0;
        assert(cs[i] == cs.drop_last()[i]);
    }
}

/// A cookie collection with no entry named after the consent cookie, or with
/// only empty values under that name, always maps to Pending.
pub proof fn lemma_missing_cookie_pending(cs: Seq<(String, String)>)
    requires
        forall|i: int|
            0 <= i < cs.len() && #[trigger] cs[i].0@ == cookie_name() ==> cs[i].1@.len() == 0,
    ensures
        spec_map(cs) == Consent::Pending,
{
    if last_named_value(cs) is Some {
        lemma_last_named_value_found(cs);
    }
}

/// A record whose completion flag is absent or false maps to Pending,
/// whatever its other fields hold.
pub proof fn lemma_not_completed_pending(rec: ConsentRecordView)
    requires
        rec.completed != Some(true),
    ensures
        spec_verdict(rec) == Consent::Pending,
{
}

/// A completed record with an absent or empty per-purpose consent map and no
/// boolean extra field equal to false maps to Granted.
pub proof fn lemma_completed_clean_granted(rec: ConsentRecordView)
    requires
        rec.completed == Some(true),
        match rec.google_consent_mode {
            Some(g) => g.len() == 0,
            None => true,
        },
        forall|i: int|
            0 <= i < rec.extra_fields.len() ==> match (#[trigger] rec.extra_fields[i]).1 {
                FieldValue::Bool(b) => b,
                _ => true,
            },
    ensures
        spec_verdict(rec) == Consent::Granted,
{
    assert(!extras_deny(rec.extra_fields)) by {
        if extras_deny(rec.extra_fields) {
            let i: int = choose|i: int|
                0 <= i < rec.extra_fields.len() && extra_denies(rec.extra_fields[i]);
            assert(match rec.extra_fields[i].1 {
                FieldValue::Bool(b) => b,
                _ => true,
            });
        }
    };
}

/// A completed record with any per-purpose entry whose key is a purpose (not
/// a metadata key) and whose value is a string other than "granted" maps to
/// Denied.
pub proof fn lemma_purpose_denial_denied(rec: ConsentRecordView, i: int)
    requires
        rec.completed == Some(true),
        rec.google_consent_mode is Some,
        0 <= i < rec.google_consent_mode->0.len(),
        !is_meta_key(rec.google_consent_mode->0[i].0),
        rec.google_consent_mode->0[i].1 matches PurposeValue::Str(s) && s@ != "granted"@,
    ensures
        spec_verdict(rec) == Consent::Denied,
{
    assert(purpose_denies(rec.google_consent_mode->0[i]));
}

/// A completed record with any extra field that lacks the reserved `$$`
/// prefix and holds the boolean false maps to Denied.
pub proof fn lemma_extra_denial_denied(rec: ConsentRecordView, i: int)
    requires
        rec.completed == Some(true),
        0 <= i < rec.extra_fields.len(),
        !spec_reserved_prefix(rec.extra_fields[i].0@),
        rec.extra_fields[i].1 matches FieldValue::Bool(false),
    ensures
        spec_verdict(rec) == Consent::Denied,
{
    assert(extra_denies(rec.extra_fields[i]));
}

/// The mapping is a pure function of the cookie collection: identical inputs
/// yield identical verdicts, however often it is invoked.
pub proof fn lemma_map_deterministic(cs1: Seq<(String, String)>, cs2: Seq<(String, String)>)
    requires
        cs1 == cs2,
    ensures
        spec_map(cs1) == spec_map(cs2),
{
}

/// A failure of the locator or of either decoding step never propagates to
/// the caller: the mapping resolves it to Pending.
pub proof fn lemma_decode_failure_pending(cs: Seq<(String, String)>)
    requires
        spec_from_dict(cs) is Err,
    ensures
        spec_map(cs) == Consent::Pending,
{
}

} // verus!
