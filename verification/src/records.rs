//! The rows of the service's tables, as plain values.

use vstd::prelude::*;
use crate::decimal::Amount;

verus! {

/// A client of the store.
pub struct Client {
    pub name: String,
    pub email: String,
    pub phone: String,
    pub cpf: Option<String>,
    pub cnpj: Option<String>,
    pub zipcode: String,
    pub state: String,
    pub city: String,
    pub street: String,
    pub complement: Option<String>,
    pub neighborhood: Option<String>,
    pub observation: Option<String>,
    /// Seconds since the Unix epoch, UTC.
    pub created_at: i64,
    /// Seconds since the Unix epoch, UTC.
    pub updated_at: i64,
}

/// A user of the service.
pub struct User {
    pub username: String,
    pub email: Option<String>,
    pub blocked: bool,
    /// Seconds since the Unix epoch, UTC.
    pub created_at: i64,
    /// Seconds since the Unix epoch, UTC.
    pub updated_at: i64,
}

/// A product as the product export reads it, with the names of its brand,
/// class and type and the image of its brand.
pub struct ProductExportRow {
    pub id: u128,
    pub code: String,
    pub description: String,
    pub blocked: bool,
    pub price_kg: Option<Amount>,
    pub price_kg_no_cut: Option<Amount>,
    pub price_kg_cut: Option<Amount>,
    pub price_3mt: Option<Amount>,
    pub price_br: Option<Amount>,
    pub price_rod: Option<Amount>,
    pub price_p_mt: Option<Amount>,
    pub br_price: Option<Amount>,
    pub weight: Option<Amount>,
    pub weight_3mts: Option<Amount>,
    pub weight_esp: Option<Amount>,
    pub weight_p_br: Option<Amount>,
    pub weight_p_mm: Option<Amount>,
    pub cut_percentage: Option<Amount>,
    /// Seconds since the Unix epoch, UTC.
    pub created_at: i64,
    /// Seconds since the Unix epoch, UTC.
    pub updated_at: i64,
    pub brand_name: Option<String>,
    pub class_name: Option<String>,
    pub type_label: Option<String>,
    pub brand_image_id: Option<u128>,
}

/// An optional amount is absent or within range.
pub open spec fn amount_ok(a: Option<Amount>) -> bool {
    match a {
        Some(x) => x.wf(),
        None => true,
    }
}

impl ProductExportRow {
    /// The amounts the export writes are within range.
    pub open spec fn wf(self) -> bool {
        &&& amount_ok(self.weight)
        &&& amount_ok(self.price_kg)
        &&& amount_ok(self.price_p_mt)
        &&& amount_ok(self.cut_percentage)
        &&& amount_ok(self.price_kg_cut)
        &&& amount_ok(self.weight_p_mm)
        &&& amount_ok(self.price_kg_no_cut)
    }
}

/// The text of an optional text, empty when there is none.
pub open spec fn text_or_empty(o: Option<String>) -> Seq<char> {
    match o {
        Some(s) => s@,
        None => ""@,
    }
}

/// The text of an optional text, empty when there is none.
pub fn or_empty(o: &Option<String>) -> (r: String)
    ensures
        r@ == text_or_empty(*o),
{
    match o {
        Some(s) => s.clone(),
        None => String::from_str(""),
    }
}

} // verus!
