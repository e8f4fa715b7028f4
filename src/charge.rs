//! Charge data as the API sends it.

use vstd::prelude::*;

verus! {

/// A [charge](https://www.weg.li/charges) as received by the API call.
#[derive(Debug, Clone)]
pub struct ChargeJson {
    /// The "Tatbestandsnummer", a unique identifier for the element of an offense ("Tatbestand")
    pub tbnr: String,
    pub description: String,
    /// The fine associated, in Euros as stringified float
    pub fine: String,
    pub bkat: String,
    pub penalty: Option<String>,
    pub fap: Option<String>,
    pub points: Option<u8>,
    /// Start date of legal validity
    pub valid_from: Option<String>,
    /// End date of legal validity
    pub valid_to: Option<String>,
    pub implementation: Option<u8>,
    pub classification: u8,
    pub variant_table_id: Option<u32>,
    pub rule_id: u16,
    pub table_id: Option<u32>,
    pub required_refinements: String,
    pub number_required_refinements: u8,
    pub max_fine: String,
    /// Creation date of the charge in weg.li
    pub created_at: String,
    /// Update date of the charge in weg.li
    pub updated_at: String,
}

} // verus!
