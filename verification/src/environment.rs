//! Desktop-session compatibility rules.

use vstd::prelude::*;

verus! {

/// Whether a `HYPRLAND_INSTANCE_SIGNATURE` value marks a Hyprland session:
/// the variable is set and not empty.
pub fn is_hyprland_session(signature: Option<&str>) -> (r: bool)
    ensures
        r == (signature matches Some(s) && s@.len() > 0),
{
    match signature {
        Some(s) => !s.is_empty(),
        None => false,
    }
}

/// Human-readable support statement for the current Rustle runtime contract.
pub fn supported_session_label() -> (r: &'static str)
    ensures
        r@ == "Hyprland"@,
{
    "Hyprland"
}

/// The session that Rustle expects, when the current one is not it: a
/// warning is due outside Hyprland.
pub fn unsupported_session_warning(signature: Option<&str>) -> (r: Option<&'static str>)
    ensures
        (signature matches Some(s) && s@.len() > 0) ==> r is None,
        !(signature matches Some(s) && s@.len() > 0) ==> (r matches Some(l) && l@ == "Hyprland"@),
{
    if is_hyprland_session(signature) {
        None
    } else {
        Some(supported_session_label())
    }
}

} // verus!
