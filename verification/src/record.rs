use vstd::prelude::*;
use crate::cookie::{locate_cookie, located_cookie};
use crate::json::{
    json_fields_of, parse_json_fields, url_decode, url_decoded, FieldValue, PurposeValue,
};
use crate::strings::str_eq_lit;

verus! {

/// Why a consent record could not be produced from the cookie collection.
#[derive(Clone, Copy, Debug, PartialEq, Eq, Structural)]
pub enum DecodeFailure {
    /// The consent cookie is absent, or present only with an empty value.
    CookieNotFound,
    /// Percent-decoding of the cookie value failed.
    DecodeError,
    /// The decoded value is not a JSON object, or a reserved field has the
    /// wrong type.
    ParseError,
}

impl DecodeFailure {
    /// A short operator-facing description of the failure, for a diagnostic
    /// line at the host boundary.
    pub fn describe(&self) -> (r: String)
        ensures
            r@ == match self {
                DecodeFailure::CookieNotFound => "Cookie not found: axeptio_cookies"@,
                DecodeFailure::DecodeError => "Could not percent-decode the cookie value"@,
                DecodeFailure::ParseError => "Could not parse the cookie value as a consent record"@,
            },
    {
        match self {
            DecodeFailure::CookieNotFound => "Cookie not found: axeptio_cookies".to_owned(),
            DecodeFailure::DecodeError => "Could not percent-decode the cookie value".to_owned(),
            DecodeFailure::ParseError => "Could not parse the cookie value as a consent record".to_owned(),
        }
    }
}

/// The decoded consent record: the completion flag, the optional per-purpose
/// consent map, and every other field of the JSON object under its original
/// name.
pub struct ConsentRecord {
    pub completed: Option<bool>,
    pub google_consent_mode: Option<Vec<(String, PurposeValue)>>,
    pub extra_fields: Vec<(String, FieldValue)>,
}

/// The record as contracts speak of it, with sequences for the two maps.
pub struct ConsentRecordView {
    pub completed: Option<bool>,
    pub google_consent_mode: Option<Seq<(String, PurposeValue)>>,
    pub extra_fields: Seq<(String, FieldValue)>,
}

impl View for ConsentRecord {
    type V = ConsentRecordView;

    open spec fn view(&self) -> ConsentRecordView {
        ConsentRecordView {
            completed: self.completed,
            google_consent_mode: match self.google_consent_mode {
                Some(g) => Some(g@),
                None => None,
            },
            extra_fields: self.extra_fields@,
        }
    }
}

/// The record of a JSON object with no fields at all.
pub open spec fn empty_record_view() -> ConsentRecordView {
    ConsentRecordView {
        completed: None,
        google_consent_mode: None,
        extra_fields: Seq::empty(),
    }
}

/// How one JSON field lands in the record: the two reserved names claim the
/// completion flag and the consent map, and fail the whole decode on a type
/// mismatch; every other field joins the extra fields under its own name.
pub open spec fn record_step(
    acc: ConsentRecordView,
    k: String,
    v: FieldValue,
) -> Result<ConsentRecordView, DecodeFailure> {
    if k@ == "$$completed"@ {
        match v {
            FieldValue::Bool(b) => Ok(ConsentRecordView { completed: Some(b), ..acc }),
            _ => Err(DecodeFailure::ParseError),
        }
    } else if k@ == "$$googleConsentMode"@ {
        match v {
            FieldValue::Obj(g) => Ok(
                ConsentRecordView { google_consent_mode: Some(g@), ..acc },
            ),
            _ => Err(DecodeFailure::ParseError),
        }
    } else {
        Ok(ConsentRecordView { extra_fields: acc.extra_fields.push((k, v)), ..acc })
    }
}

pub open spec fn extract_from(
    acc: ConsentRecordView,
    fields: Seq<(String, FieldValue)>,
) -> Result<ConsentRecordView, DecodeFailure>
    decreases fields.len(),
{
    if fields.len() == 0 {
        Ok(acc)
    } else {
        match record_step(acc, fields.first().0, fields.first().1) {
            Ok(acc2) => extract_from(acc2, fields.drop_first()),
            Err(e) => Err(e),
        }
    }
}

/// The record that a sequence of JSON fields decodes to, or the failure that
/// stops the decode: all-or-nothing, with no partial record.
pub open spec fn spec_extract(
    fields: Seq<(String, FieldValue)>,
) -> Result<ConsentRecordView, DecodeFailure> {
    extract_from(empty_record_view(), fields)
}

pub open spec fn record_result_view(
    r: Result<ConsentRecord, DecodeFailure>,
) -> Result<ConsentRecordView, DecodeFailure> {
    match r {
        Ok(rec) => Ok(rec@),
        Err(e) => Err(e),
    }
}

/// Sorts the fields of the decoded JSON object into a consent record.
#[verifier::loop_isolation(false)]
pub fn extract_record(fields: Vec<(String, FieldValue)>) -> (r: Result<
    ConsentRecord,
    DecodeFailure,
>)
    ensures
        record_result_view(r) == spec_extract(fields@),
{
    let ghost all = fields@;
    let mut rest = fields;
    let mut rec = ConsentRecord {
        completed: None,
        google_consent_mode: None,
        extra_fields: Vec::new(),
    };
    while rest.len() > 0
        invariant
            extract_from(empty_record_view(), all) == extract_from(rec@, rest@),
        decreases rest.len(),
    {
        let ghost rest_prev = rest@;
        let ghost rec_prev = rec@;
        let (k, v) = rest.remove(0);
        proof {
            assert(rest_prev.remove(0) =~= rest_prev.drop_first());
        }
        if str_eq_lit(&k, "$$completed") {
            match v {
                FieldValue::Bool(b) => {
                    rec.completed = Some(b);
                },
                _ => {
                    proof {
                        assert(record_step(rec_prev, rest_prev.first().0, rest_prev.first().1)
                            == Err::<ConsentRecordView, DecodeFailure>(DecodeFailure::ParseError));
                        assert(extract_from(rec_prev, rest_prev)
                            == Err::<ConsentRecordView, DecodeFailure>(DecodeFailure::ParseError));
                    }
                    return Err(DecodeFailure::ParseError);
                },
            }
        } else if str_eq_lit(&k, "$$googleConsentMode") {
            match v {
                FieldValue::Obj(g) => {
                    rec.google_consent_mode = Some(g);
                },
                _ => {
                    proof {
                        assert(record_step(rec_prev, rest_prev.first().0, rest_prev.first().1)
                            == Err::<ConsentRecordView, DecodeFailure>(DecodeFailure::ParseError));
                        assert(extract_from(rec_prev, rest_prev)
                            == Err::<ConsentRecordView, DecodeFailure>(DecodeFailure::ParseError));
                    }
                    return Err(DecodeFailure::ParseError);
                },
            }
        } else {
            rec.extra_fields.push((k, v));
        }
        proof {
            assert(record_step(rec_prev, rest_prev.first().0, rest_prev.first().1)
                == Ok::<ConsentRecordView, DecodeFailure>(rec@));
        }
    }
    Ok(rec)
}

/// How a raw cookie value decodes: percent-decoding, then JSON parsing, then
/// field extraction, each step stopping the decode with its own failure.
pub open spec fn spec_decode(raw: Seq<char>) -> Result<ConsentRecordView, DecodeFailure> {
    match url_decoded(raw) {
        None => Err(DecodeFailure::DecodeError),
        Some(d) => match json_fields_of(d) {
            None => Err(DecodeFailure::ParseError),
            Some(fields) => spec_extract(fields@),
        },
    }
}

/// Decodes a raw cookie value into a consent record.
pub fn decode_cookie_value(raw: &String) -> (r: Result<ConsentRecord, DecodeFailure>)
    ensures
        record_result_view(r) == spec_decode(raw@),
{
    let decoded = match url_decode(raw) {
        Some(d) => d,
        None => {
            return Err(DecodeFailure::DecodeError);
        },
    };
    let fields = match parse_json_fields(&decoded) {
        Some(f) => f,
        None => {
            return Err(DecodeFailure::ParseError);
        },
    };
    extract_record(fields)
}

/// What a whole cookie collection decodes to: the located cookie's value,
/// decoded; or the failure that stopped the locator or the decoder.
pub open spec fn spec_from_dict(
    cs: Seq<(String, String)>,
) -> Result<ConsentRecordView, DecodeFailure> {
    match located_cookie(cs) {
        None => Err(DecodeFailure::CookieNotFound),
        Some(v) => spec_decode(v@),
    }
}

impl ConsentRecord {
    /// Locates the consent cookie in the collection and decodes its value.
    pub fn from_dict(cookies: &Vec<(String, String)>) -> (r: Result<
        ConsentRecord,
        DecodeFailure,
    >)
        ensures
            record_result_view(r) == spec_from_dict(cookies@),
    {
        match locate_cookie(cookies) {
            None => Err(DecodeFailure::CookieNotFound),
            Some(v) => decode_cookie_value(&v),
        }
    }
}

} // verus!
