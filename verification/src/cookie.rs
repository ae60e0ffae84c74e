use vstd::prelude::*;
use crate::strings::str_eq_lit;

verus! {

/// The name of the vendor consent cookie this library looks for.
pub open spec fn cookie_name() -> Seq<char> {
    "axeptio_cookies"@
}

/// The value of the last entry carrying the consent cookie's name, if any.
/// Later duplicates shadow earlier ones, as a collection-to-map conversion
/// that lets the last occurrence win would have it.
pub open spec fn last_named_value(cs: Seq<(String, String)>) -> Option<String>
    decreases cs.len(),
{
    if cs.len() == 0 {
        None
    } else if cs.last().0@ == cookie_name() {
        Some(cs.last().1)
    } else {
        last_named_value(cs.drop_last())
    }
}

/// The located cookie value: present only when an entry with the consent
/// cookie's name exists and the winning value is non-empty.
pub open spec fn located_cookie(cs: Seq<(String, String)>) -> Option<String> {
    match last_named_value(cs) {
        Some(v) => if v@.len() > 0 {
            Some(v)
        } else {
            None
        },
        None => None,
    }
}

/// Scans the cookie collection for the consent cookie and hands back its
/// value, or nothing when it is absent or empty.
pub fn locate_cookie(cookies: &Vec<(String, String)>) -> (r: Option<String>)
    ensures
        r == located_cookie(cookies@),
{
    let mut found: Option<String> = None;
    let n: usize = cookies.len();
    for i in 0..n
        invariant
            n == cookies.len(),
            found == last_named_value(cookies@.take(i as int)),
    {
        let pair = &cookies[i];
        if str_eq_lit(&pair.0, "axeptio_cookies") {
            found = Some(pair.1.clone());
        }
        proof {
            assert(cookies@.take(i as int + 1).drop_last() =~= cookies@.take(i as int));
            assert(cookies@.take(i as int + 1).last() == cookies@[i as int]);
        }
    }
    proof {
        assert(cookies@.take(n as int) =~= cookies@);
    }
    match found {
        Some(v) => {
            if v.as_str().is_empty() {
                None
            } else {
                Some(v)
            }
        },
        None => None,
    }
}

} // verus!
