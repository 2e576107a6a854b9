//! The constant identification strings the navigator object reports.
//! The function names follow the WebIDL attributes they implement.

use vstd::prelude::*;

use crate::domstring::DOMString;

verus! {

/// The rendering engine name reported to content.
#[allow(non_snake_case)]
pub fn Product() -> (s: DOMString)
    ensures
        s@ == "Gecko"@,
{
    DOMString::from_str_slice("Gecko")
}

/// Whether the (long gone) taint facility is enabled: it never is.
#[allow(non_snake_case)]
pub fn TaintEnabled() -> (b: bool)
    ensures
        !b,
{
    false
}

/// The application name reported to content, as other engines report
/// it.
#[allow(non_snake_case)]
pub fn AppName() -> (s: DOMString)
    ensures
        s@ == "Netscape"@,
{
    DOMString::from_str_slice("Netscape")
}

/// The application code name reported to content.
#[allow(non_snake_case)]
pub fn AppCodeName() -> (s: DOMString)
    ensures
        s@ == "Mozilla"@,
{
    DOMString::from_str_slice("Mozilla")
}

/// The application version reported to content.
#[allow(non_snake_case)]
pub fn AppVersion() -> (s: DOMString)
    ensures
        s@ == "4.0"@,
{
    DOMString::from_str_slice("4.0")
}

} // verus!
