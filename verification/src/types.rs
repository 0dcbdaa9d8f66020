//! The value objects a print or send call is made of.
//!
//! Amounts are carried as plain integers with implied fractional digits:
//! prices and payment amounts in hundredths (two implied digits), fiscal
//! quantities in thousandths (three implied digits). The renderers place the
//! decimal point; nothing here ever holds a partial value.

use vstd::prelude::*;

use crate::encoding::Model;
use crate::encoding::model_of;

verus! {

/// One configured printer: identity, the display lines of the receipt head,
/// the target address, and the fiscal-path options.
#[derive(Clone, Debug)]
pub struct PrinterConfig {
    pub id: String,
    pub name: String,
    /// "hydra" | "bixolon" | "epson" | "rp850use" | "custom"; absent means generic.
    pub model: Option<String>,
    pub header: String,
    pub address: String,
    pub city: String,
    pub phone: String,
    pub vat: String,
    /// A serial device path (prefix `\\.\`) or `host:port`.
    pub printer_port: String,
    /// Path of the fiscal endpoint; default "/hydra-fiscal".
    pub hydra_path: Option<String>,
    /// Operator code, optional.
    pub hydra_op: Option<String>,
    /// Department / VAT-class code, optional.
    pub hydra_dep: Option<String>,
}

/// One line of a non-fiscal receipt.
#[derive(Clone, Debug)]
pub struct SaleLine {
    pub name: String,
    /// Unit price in hundredths.
    pub price: u64,
    /// Whole-unit quantity.
    pub qty: u32,
}

/// One item of a fiscal sale.
#[derive(Clone, Debug)]
pub struct SaleItem {
    pub desc: String,
    /// Quantity in thousandths.
    pub qty: u64,
    /// Unit price in hundredths.
    pub price: u64,
    /// VAT class code ("A", "B", ...); absent means "A".
    pub vat_code: Option<String>,
}

/// One payment of a fiscal sale.
#[derive(Clone, Debug)]
pub struct Payment {
    /// Free text, normalized at encode time.
    pub method: String,
    /// Amount in hundredths.
    pub amount: u64,
}

/// The model a profile resolves to; an absent or unknown string means generic.
pub open spec fn profile_model(p: PrinterConfig) -> Model {
    match p.model {
        Some(s) => model_of(s@),
        None => Model::Generic,
    }
}

/// Resolves the profile's model string into its closed variant.
pub fn resolve_model(p: &PrinterConfig) -> (m: Model)
    ensures
        m == profile_model(*p),
{
    match &p.model {
        Some(s) => crate::encoding::parse_model(s.as_str()),
        None => Model::Generic,
    }
}

} // verus!
