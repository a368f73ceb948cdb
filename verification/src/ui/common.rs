//! Pieces shared by several screens: the item picker's state, the option
//! type it lists, and the shop identity printed on documents.
use vstd::prelude::*;
use crate::models::ShopProfile;
use crate::text::{clone_strings, spec_trim, trim};

verus! {

/// The largest photo or logo file the forms take, in bytes.
pub const MAX_IMAGE_BYTES: usize = 5_000_000;

/// Whether an image file of `len` bytes is small enough to store.
pub fn image_size_ok(len: usize) -> (r: bool)
    ensures
        r == (len <= MAX_IMAGE_BYTES),
{
    len <= MAX_IMAGE_BYTES
}

/// An item as a picker lists it: its id and its name.
#[derive(Debug, Clone, PartialEq, Eq)]
pub struct ItemOption {
    pub id: i64,
    pub name: String,
}

/// Which screen's item picker a message is about. All three pickers share
/// one query and one set of candidates, but hand the answer to different
/// places.
#[derive(Debug, Clone, Copy, PartialEq, Eq, Structural)]
pub enum PickerTarget {
    Sale,
    Bill,
    Report,
}

/// What the shopkeeper has typed into an item picker, and the candidates
/// that came back for it.
#[derive(Debug)]
pub struct PickerState {
    /// The text in the field.
    pub query: String,
    /// The candidates, replaced on every keystroke.
    pub options: Vec<ItemOption>,
    /// Which picker the query belongs to; `None` hides the results list.
    pub target: Option<PickerTarget>,
}

impl Default for PickerState {
    fn default() -> (r: PickerState)
        ensures
            r.query@ == Seq::<char>::empty(),
            r.options@.len() == 0,
            r.target is None,
    {
        PickerState { query: String::new(), options: Vec::new(), target: None }
    }
}

impl PickerState {
    /// Records a keystroke against one picker.
    pub fn typed(&mut self, target: PickerTarget, query: String)
        ensures
            final(self).query == query,
            final(self).target == Some(target),
            final(self).options == old(self).options,
    {
        self.target = Some(target);
        self.query = query;
    }

    /// An item was chosen: the field shows its name and the list closes.
    pub fn chose(&mut self, name: String)
        ensures
            final(self).query == name,
            final(self).target is None,
            final(self).options == old(self).options,
    {
        self.query = name;
        self.target = None;
    }

    /// Empties the field and the candidates and closes the list.
    pub fn clear(&mut self)
        ensures
            final(self).query@ == Seq::<char>::empty(),
            final(self).options@.len() == 0,
            final(self).target is None,
    {
        self.query = String::new();
        self.options = Vec::new();
        self.target = None;
    }
}

/// Everything the printed masthead needs about the shop, snapshotted so an
/// export owns its data.
#[derive(Debug, Clone)]
pub struct ShopIdentity {
    pub name: String,
    /// Address, phone and GSTIN, minus whatever the shop left blank.
    pub lines: Vec<String>,
    pub logo: Option<Vec<u8>>,
}

/// The masthead lines for a shop: its address and phone, trimmed, then
/// "GSTIN: …", leaving out whatever is blank.
pub open spec fn identity_lines(address: Seq<char>, phone: Seq<char>, gstin: Option<Seq<char>>) -> Seq<Seq<char>> {
    let a: Seq<Seq<char>> = if spec_trim(address).len() > 0 { seq![spec_trim(address)] } else { Seq::empty() };
    let p: Seq<Seq<char>> = if spec_trim(phone).len() > 0 { seq![spec_trim(phone)] } else { Seq::empty() };
    let g: Seq<Seq<char>> = match gstin {
        Some(g) => if spec_trim(g).len() > 0 { seq!["GSTIN: "@ + spec_trim(g)] } else { Seq::empty() },
        None => Seq::empty(),
    };
    a + p + g
}

pub open spec fn gstin_view(g: Option<String>) -> Option<Seq<char>> {
    match g {
        Some(s) => Some(s@),
        None => None,
    }
}

pub open spec fn bytes_view(b: Option<Vec<u8>>) -> Option<Seq<u8>> {
    match b {
        Some(v) => Some(v@),
        None => None,
    }
}

/// A copy of an optional byte buffer.
pub fn copy_bytes(b: &Option<Vec<u8>>) -> (r: Option<Vec<u8>>)
    ensures
        bytes_view(r) == bytes_view(*b),
{
    match b {
        Some(v) => Some(vstd::slice::slice_to_vec(v.as_slice())),
        None => None,
    }
}

pub open spec fn strings_view(v: Seq<String>) -> Seq<Seq<char>> {
    v.map_values(|s: String| s@)
}

impl ShopIdentity {
    /// The identity of the registered shop (with its logo), or the app's
    /// own name when no shop is registered yet.
    pub fn from_state(shop: &Option<ShopProfile>, shop_logo: &Option<Vec<u8>>) -> (r: ShopIdentity)
        ensures
            shop is None ==> (r.name@ == "Srotas Desk"@ && r.lines@.len() == 0 && r.logo is None),
            shop matches Some(s) ==> (r.name@ == s.shop_name@ && strings_view(r.lines@) == identity_lines(
                s.address@,
                s.phone@,
                gstin_view(s.gstin),
            ) && bytes_view(r.logo) == bytes_view(*shop_logo)),
    {
        match shop {
            None => {
                let r = ShopIdentity { name: String::from_str("Srotas Desk"), lines: Vec::new(), logo: None };
                assert(r.name@ == "Srotas Desk"@);
                assert(r.lines@.len() == 0);
                r
            },
            Some(s) => {
                let mut lines: Vec<String> = Vec::new();
                let address = trim(s.address.as_str());
                if address.unicode_len() > 0 {
                    lines.push(String::from_str(address));
                }
                let phone = trim(s.phone.as_str());
                if phone.unicode_len() > 0 {
                    lines.push(String::from_str(phone));
                }
                let ghost before = strings_view(lines@);
                match &s.gstin {
                    Some(g) => {
                        let g = trim(g.as_str());
                        if g.unicode_len() > 0 {
                            let mut line = String::from_str("GSTIN: ");
                            line.append(g);
                            lines.push(line);
                        }
                    },
                    None => {},
                }
                assert(strings_view(lines@) =~= identity_lines(s.address@, s.phone@, gstin_view(s.gstin)));
                ShopIdentity { name: s.shop_name.clone(), lines, logo: copy_bytes(shop_logo) }
            },
        }
    }

    /// The masthead this identity produces for a document.
    pub fn masthead<'a>(&'a self, doc_label: &'a str, doc_ref: Option<String>, doc_date: Option<String>) -> (r:
        crate::pdf::Masthead<'a>)
        ensures
            r.shop_name@ == self.name@,
            r.lines@ == self.lines@,
            r.doc_label == doc_label,
            r.doc_ref == doc_ref,
            r.doc_date == doc_date,
            self.logo is None ==> r.logo is None,
            self.logo matches Some(l) ==> (r.logo matches Some(b) && b@ == l@),
    {
        let logo: Option<&'a [u8]> = match &self.logo {
            Some(bytes) => Some(bytes.as_slice()),
            None => None,
        };
        crate::pdf::Masthead {
            shop_name: self.name.as_str(),
            lines: clone_strings(&self.lines),
            logo,
            doc_label,
            doc_ref,
            doc_date,
        }
    }
}

} // verus!
