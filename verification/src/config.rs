use vstd::prelude::*;

verus! {

/// Identity of the device the sensors belong to, supplied once from global
/// configuration and read-only thereafter.
pub struct ConfigDevice {
    pub name: String,
    pub manufacturer: String,
    pub model: String,
}

} // verus!
