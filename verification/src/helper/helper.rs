use vstd::prelude::*;

use crate::helper::text::{is_blank, str_is_blank};

verus! {

/// Whether the optional text is present and holds something besides white space.
pub fn is_option_has_string_value(data: &Option<String>) -> (r: bool)
    ensures
        r == (data matches Some(s) && !is_blank(s@)),
{
    match data {
        Some(s) => !str_is_blank(s.as_str()),
        None => false,
    }
}

} // verus!
