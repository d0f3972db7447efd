use vstd::prelude::*;

verus! {

/// The standard response envelope: a message plus no data, one record, or a
/// collection, serialized as `{"message": ..., "data": ...}`.
pub struct ApiResponse<'a, T> {
    pub message: &'a str,
    pub data: Data<T>,
}

/// The payload variant of the envelope. `Empty` renders as JSON `null`.
pub enum Data<T> {
    Single(T),
    Multiple(Vec<T>),
    Empty,
}

} // verus!
