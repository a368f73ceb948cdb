//! The pieces of a printed document that the library composes; drawing
//! them onto a page happens outside it.
use vstd::prelude::*;

verus! {

#[derive(Debug, Clone, Copy, PartialEq, Eq, Structural)]
pub enum Align {
    Left,
    Right,
}

/// The shop identity block printed at the top of every document.
pub struct Masthead<'a> {
    pub shop_name: &'a str,
    /// Address, phone, GSTIN: whichever the shop has filled in.
    pub lines: Vec<String>,
    /// Raw bytes of the shop's logo, if it has set one.
    pub logo: Option<&'a [u8]>,
    /// What this document is: "TAX INVOICE", "SALE RECEIPT", "REPORT".
    pub doc_label: &'a str,
    /// Reference and date, printed under the label on the right.
    pub doc_ref: Option<String>,
    pub doc_date: Option<String>,
}

} // verus!
