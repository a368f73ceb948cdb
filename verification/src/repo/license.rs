use vstd::prelude::*;

verus! {

/// This machine's license row: its permanent device id and, once
/// activated, the key it was activated with.
#[derive(Debug, Clone)]
pub struct LicenseRow {
    pub device_id: String,
    pub key_text: Option<String>,
}

} // verus!
