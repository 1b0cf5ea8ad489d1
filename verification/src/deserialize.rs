//! Reading booleans written in the many ways that spreadsheets and hand
//! edited files spell them.
use crate::text::{str_equals, to_lowercase, unicode_lowercase};
use vstd::prelude::*;

verus! {

/// The spellings read as `true` as they stand.
pub open spec fn truthy_spelling(s: Seq<char>) -> bool {
    s == "t"@ || s == "T"@ || s == "true"@ || s == "True"@ || s == "1"@ || s == "on"@ || s == "On"@
        || s == "y"@ || s == "Y"@ || s == "yes"@ || s == "Yes"@
}

/// The spellings read as `false` as they stand.
pub open spec fn falsy_spelling(s: Seq<char>) -> bool {
    s == "f"@ || s == "F"@ || s == "false"@ || s == "False"@ || s == "0"@ || s == "off"@ || s
        == "Off"@ || s == "n"@ || s == "N"@ || s == "no"@ || s == "No"@
}

/// The boolean that `s` spells: a truthy spelling (t, true, 1, on, y, yes
/// in the listed cases) is `true`, a falsy one (f, false, 0, off, n, no) is
/// `false`; any other string is read by its lower-case form, which must be
/// `true`, `on`, `yes`, `false`, `off` or `no`; else `s` spells none.
pub open spec fn bool_from_str_spec(s: Seq<char>) -> Option<bool> {
    if truthy_spelling(s) {
        Some(true)
    } else if falsy_spelling(s) {
        Some(false)
    } else {
        let l = unicode_lowercase(s);
        if l == "true"@ || l == "on"@ || l == "yes"@ {
            Some(true)
        } else if l == "false"@ || l == "off"@ || l == "no"@ {
            Some(false)
        } else {
            None
        }
    }
}

fn is_truthy_spelling(s: &str) -> (res: bool)
    ensures
        res == truthy_spelling(s@),
{
    str_equals(s, "t") || str_equals(s, "T") || str_equals(s, "true") || str_equals(s, "True")
        || str_equals(s, "1") || str_equals(s, "on") || str_equals(s, "On") || str_equals(s, "y")
        || str_equals(s, "Y") || str_equals(s, "yes") || str_equals(s, "Yes")
}

fn is_falsy_spelling(s: &str) -> (res: bool)
    ensures
        res == falsy_spelling(s@),
{
    str_equals(s, "f") || str_equals(s, "F") || str_equals(s, "false") || str_equals(s, "False")
        || str_equals(s, "0") || str_equals(s, "off") || str_equals(s, "Off") || str_equals(s, "n")
        || str_equals(s, "N") || str_equals(s, "no") || str_equals(s, "No")
}

/// Converts a string to a boolean based on truthy and falsy values; `None`
/// for a string that spells neither.
pub fn bool_from_str(s: &str) -> (res: Option<bool>)
    ensures
        res == bool_from_str_spec(s@),
{
    if is_truthy_spelling(s) {
        return Some(true);
    }
    if is_falsy_spelling(s) {
        return Some(false);
    }
    let lower = to_lowercase(s);
    let l = lower.as_str();
    if str_equals(l, "true") || str_equals(l, "on") || str_equals(l, "yes") {
        Some(true)
    } else if str_equals(l, "false") || str_equals(l, "off") || str_equals(l, "no") {
        Some(false)
    } else {
        None
    }
}

} // verus!
