//! Models of values that may be absent.

use vstd::prelude::*;

verus! {

/// The model of a value that may be absent: the model of the value, or
/// nothing.
pub open spec fn model<T: View>(value: Option<T>) -> Option<T::V> {
    match value {
        Some(v) => Some(v@),
        None => None,
    }
}

} // verus!
