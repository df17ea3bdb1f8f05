use vstd::prelude::*;

use crate::text::{eq_ignore_ascii_case, same_ignoring_ascii_case, trim, trim_of};

verus! {

/// A product catalog entry, as far as purchases read it.
pub struct ProductEntry {
    pub category: String,
    pub brand: String,
    pub product_type: String,
    pub price: i64,
}

/// A catalog label that marks e-money: `E-MONEY` in any ASCII case, once
/// trimmed.
pub open spec fn emoney_label(s: Seq<char>) -> bool {
    same_ignoring_ascii_case(trim_of(s), "E-MONEY"@)
}

/// An entry in the e-money category by its category, brand or type.
pub open spec fn entry_is_emoney(e: ProductEntry) -> bool {
    emoney_label(e.category@) || emoney_label(e.brand@) || emoney_label(e.product_type@)
}

/// A product code that names e-money directly, without a catalog lookup.
pub open spec fn emoney_code(sku: Seq<char>) -> bool {
    same_ignoring_ascii_case(sku, "emoney"@)
}

/// Whether a trimmed label is the e-money label.
pub fn is_emoney_word(t: &str) -> (r: bool)
    ensures
        r == same_ignoring_ascii_case(t@, "E-MONEY"@),
{
    eq_ignore_ascii_case(t, "E-MONEY")
}

fn is_emoney_label(s: &String) -> (r: bool)
    ensures
        r == emoney_label(s@),
{
    let t = trim(s.as_str());
    is_emoney_word(t.as_str())
}

/// Whether a catalog entry is in the e-money category; only such products
/// honour a customer-chosen amount.
pub fn is_emoney_entry(e: &ProductEntry) -> (r: bool)
    ensures
        r == entry_is_emoney(*e),
{
    is_emoney_label(&e.category) || is_emoney_label(&e.brand) || is_emoney_label(&e.product_type)
}

/// Whether a product code names e-money directly.
pub fn is_emoney_code(sku: &str) -> (r: bool)
    ensures
        r == emoney_code(sku@),
{
    eq_ignore_ascii_case(sku, "emoney")
}

} // verus!
