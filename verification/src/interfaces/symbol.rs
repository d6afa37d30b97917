use vstd::prelude::*;

use crate::string::JsString;

verus! {

/// JavaScript symbols. Creating one is an engine call that takes an optional
/// description.
pub struct Symbol;

impl Symbol {
    /// The description the engine receives for a new symbol: the given
    /// description's reference, or the null reference for a symbol without
    /// description.
    ///
    /// A given description must not have been released.
    pub fn description_ref(description: Option<&JsString>) -> (r: usize)
        requires
            description matches Some(d) ==> d@ is Some,
        ensures
            description matches Some(d) ==> Some(r) == d@,
            description is None ==> r == 0,
    {
        match description {
            Some(d) => d.as_ptr(),
            None => 0,
        }
    }
}

} // verus!
