use vstd::prelude::*;
use vstd::string::StrSliceExecFns;

verus! {

/// True when the key carries the reserved two-character `$$` prefix.
pub open spec fn spec_reserved_prefix(k: Seq<char>) -> bool {
    k.len() >= 2 && k[0] == '$' && k[1] == '$'
}

/// Compares a string against a literal, by characters.
pub fn str_eq_lit(s: &String, lit: &str) -> (r: bool)
    ensures
        r == (s@ == lit@),
{
    let owned: String = lit.to_owned();
    *s == owned
}

/// Tests for the reserved `$$` prefix on a field name.
pub fn has_reserved_prefix(s: &String) -> (r: bool)
    ensures
        r == spec_reserved_prefix(s@),
{
    let st: &str = s.as_str();
    if st.unicode_len() < 2 {
        false
    } else {
        st.get_char(0) == '$' && st.get_char(1) == '$'
    }
}

} // verus!
