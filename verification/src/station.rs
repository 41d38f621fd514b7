//! The stations, told apart by the modem number that a file's name starts
//! with.

use vstd::prelude::*;
use vstd::string::*;

verus! {

/// The station whose files have names of this form, if the name starts with
/// the modem number of one of the four stations.
pub open spec fn station_name_of(file_name: Seq<char>) -> Option<Seq<char>> {
    if "300025060000500"@.is_prefix_of(file_name) {
        Some("Pan_de_Azucar"@)
    } else if "300025060004660"@.is_prefix_of(file_name) {
        Some("La_Campana"@)
    } else if "300025060007390"@.is_prefix_of(file_name) {
        Some("Santa_Gracia"@)
    } else if "300025060008580"@.is_prefix_of(file_name) {
        Some("Nahuelbuta"@)
    } else {
        None
    }
}

/// Whether `text` begins with `prefix`, character by character.
pub fn starts_with(text: &str, prefix: &str) -> (found: bool)
    ensures
        found == prefix@.is_prefix_of(text@),
{
    let wanted: usize = prefix.unicode_len();
    let given: usize = text.unicode_len();
    if given < wanted {
        return false;
    }
    let mut at: usize = 0;
    while at < wanted
        invariant
            at <= wanted,
            wanted == prefix@.len(),
            wanted <= text@.len(),
            forall|i: int| 0 <= i < at ==> text@[i] == prefix@[i],
        decreases wanted - at,
    {
        if text.get_char(at) != prefix.get_char(at) {
            assert(text@.subrange(0, wanted as int)[at as int] != prefix@[at as int]);
            return false;
        }
        at = at + 1;
    }
    assert(prefix@ =~= text@.subrange(0, wanted as int));
    true
}

/// Names the station that sent the file `file_name`, where the name starts
/// with a known modem number.
pub fn station_of_file(file_name: &str) -> (name: Option<&'static str>)
    ensures
        match name {
            Some(station) => station_name_of(file_name@) == Some(station@),
            None => station_name_of(file_name@) is None,
        },
{
    if starts_with(file_name, "300025060000500") {
        Some("Pan_de_Azucar")
    } else if starts_with(file_name, "300025060004660") {
        Some("La_Campana")
    } else if starts_with(file_name, "300025060007390") {
        Some("Santa_Gracia")
    } else if starts_with(file_name, "300025060008580") {
        Some("Nahuelbuta")
    } else {
        None
    }
}

} // verus!
