//! First-run registration of the shop.
use vstd::prelude::*;
use crate::text::{spec_trim, trim};
use crate::pin::{spec_validate_new, validate_new};

verus! {

#[derive(Debug, Clone, Copy, PartialEq, Eq, Structural)]
pub enum Field {
    ShopName,
    OwnerName,
    Phone,
    Address,
    Pin,
    PinConfirm,
}

#[derive(Debug)]
pub struct RegisterForm {
    pub shop_name: String,
    pub owner_name: String,
    pub phone: String,
    pub address: String,
    pub pin: String,
    pub pin_confirm: String,
}

impl Default for RegisterForm {
    fn default() -> (r: RegisterForm)
        ensures
            r.shop_name@.len() == 0 && r.owner_name@.len() == 0 && r.phone@.len() == 0,
            r.address@.len() == 0 && r.pin@.len() == 0 && r.pin_confirm@.len() == 0,
    {
        RegisterForm {
            shop_name: String::new(),
            owner_name: String::new(),
            phone: String::new(),
            address: String::new(),
            pin: String::new(),
            pin_confirm: String::new(),
        }
    }
}

impl RegisterForm {
    /// The text currently in `field`.
    pub open spec fn value(&self, field: Field) -> Seq<char> {
        match field {
            Field::ShopName => self.shop_name@,
            Field::OwnerName => self.owner_name@,
            Field::Phone => self.phone@,
            Field::Address => self.address@,
            Field::Pin => self.pin@,
            Field::PinConfirm => self.pin_confirm@,
        }
    }

    pub fn set_field(&mut self, field: Field, value: String)
        ensures
            final(self).value(field) == value@,
            forall|g: Field| g != field ==> final(self).value(g) == old(self).value(g),
    {
        match field {
            Field::ShopName => self.shop_name = value,
            Field::OwnerName => self.owner_name = value,
            Field::Phone => self.phone = value,
            Field::Address => self.address = value,
            Field::Pin => self.pin = value,
            Field::PinConfirm => self.pin_confirm = value,
        }
    }

    pub fn get_field(&self, field: Field) -> (r: String)
        ensures
            r@ == self.value(field),
    {
        match field {
            Field::ShopName => self.shop_name.clone(),
            Field::OwnerName => self.owner_name.clone(),
            Field::Phone => self.phone.clone(),
            Field::Address => self.address.clone(),
            Field::Pin => self.pin.clone(),
            Field::PinConfirm => self.pin_confirm.clone(),
        }
    }
}

/// A registration ready to store: every text field trimmed, and the PIN
/// (if one was chosen) validated.
#[derive(Debug)]
pub struct Parsed {
    pub shop_name: String,
    pub owner_name: String,
    pub phone: String,
    pub address: String,
    pub pin: Option<String>,
}

/// Checks the registration form: the shop needs a name, and a PIN, if
/// given, must pass `pin::validate_new`.
pub fn parse(form: &RegisterForm) -> (r: Result<Parsed, String>)
    ensures
        if spec_trim(form.shop_name@).len() == 0 {
            r matches Err(e) && e@ == "shop name cannot be empty"@
        } else {
            match spec_validate_new(form.pin@, form.pin_confirm@) {
                Err(m) => r matches Err(e) && e@ == m,
                Ok(pin) => r matches Ok(p) && p.shop_name@ == spec_trim(form.shop_name@)
                    && p.owner_name@ == spec_trim(form.owner_name@) && p.phone@ == spec_trim(form.phone@)
                    && p.address@ == spec_trim(form.address@) && match (p.pin, pin) {
                    (None, None) => true,
                    (Some(x), Some(y)) => x@ == y,
                    _ => false,
                },
            }
        },
{
    let shop_name = trim(form.shop_name.as_str());
    if shop_name.unicode_len() == 0 {
        return Err(String::from_str("shop name cannot be empty"));
    }
    let pin = validate_new(form.pin.as_str(), form.pin_confirm.as_str())?;
    Ok(Parsed {
        shop_name: String::from_str(shop_name),
        owner_name: String::from_str(trim(form.owner_name.as_str())),
        phone: String::from_str(trim(form.phone.as_str())),
        address: String::from_str(trim(form.address.as_str())),
        pin,
    })
}

} // verus!
