use vstd::prelude::*;

verus! {

/// Pairs a caller-supplied 64-bit identifier with a payload value. The
/// identifier is opaque to this crate: no uniqueness is enforced here.
#[derive(Clone, Debug)]
pub struct Entity<T> {
    pub id: u64,
    pub data: T,
}

impl<T> Entity<T> {
    /// Wraps `data` under the identifier `id`, changing neither.
    pub fn new(id: u64, data: T) -> (e: Self)
        ensures
            e.id == id,
            e.data == data,
    {
        Entity { id, data }
    }
}

} // verus!
