//! Results as contracts see them.

use vstd::prelude::*;

verus! {

/// A result with its error taken by its view.
pub open spec fn judged<T, E: View>(r: Result<T, E>) -> Result<T, E::V> {
    match r {
        Ok(t) => Ok(t),
        Err(e) => Err(e@),
    }
}

/// A result with its value and its error taken by their views.
pub open spec fn viewed<T: View, E: View>(r: Result<T, E>) -> Result<T::V, E::V> {
    match r {
        Ok(t) => Ok(t@),
        Err(e) => Err(e@),
    }
}

/// An optional value taken by its view.
pub open spec fn seen<T: View>(o: Option<T>) -> Option<T::V> {
    match o {
        Some(t) => Some(t@),
        None => None,
    }
}

} // verus!
