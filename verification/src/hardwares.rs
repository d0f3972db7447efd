use vstd::prelude::*;

verus! {

/// A hardware catalog entry. `type_` ranges over a fixed domain of three
/// names; anything else is rejected at creation and update.
pub struct Hardware {
    pub id: i32,
    pub name: String,
    pub type_: String,
    pub description: String,
}

/// Body of POST /hardwares/ and PUT /hardwares/{id}.
pub struct HardwarePayload {
    pub name: String,
    pub type_: String,
    pub description: String,
}

} // verus!
