//! The Settings screens' forms.
use vstd::prelude::*;
use crate::models::ShopProfile;
use crate::money::{amount_fits, paise_to_input, rupees_to_paise, spec_paise_to_input, spec_rupees_to_paise};
use crate::pin::{spec_argon2_accepts, spec_validate_new, validate_new};
use crate::text::{spec_trim, trim};
use crate::ui::common::{bytes_view, copy_bytes};
use crate::ui::login::text_option;

verus! {

#[derive(Debug, Clone, Copy, PartialEq, Eq, Structural)]
pub enum SettingsTab {
    Profile,
    Security,
    Performance,
}

#[derive(Debug, Clone, Copy, PartialEq, Eq, Structural)]
pub enum ProfileField {
    ShopName,
    OwnerName,
    Phone,
    Address,
    Gstin,
    DefaultGstRate,
}

#[derive(Debug, Clone, Copy, PartialEq, Eq, Structural)]
pub enum SecurityField {
    CurrentPin,
    NewPin,
    ConfirmPin,
}

pub struct ProfileForm {
    pub shop_name: String,
    pub owner_name: String,
    pub phone: String,
    pub address: String,
    pub gstin: String,
    /// Default GST rate as a percentage string (e.g. "18.00").
    pub default_gst_rate: String,
    /// A newly chosen logo; `None` leaves the stored one as it is.
    pub logo: Option<Vec<u8>>,
    pub logo_removed: bool,
}

impl Default for ProfileForm {
    fn default() -> (r: ProfileForm)
        ensures
            r.shop_name@.len() == 0 && r.owner_name@.len() == 0 && r.phone@.len() == 0,
            r.address@.len() == 0 && r.gstin@.len() == 0 && r.default_gst_rate@.len() == 0,
            r.logo is None && !r.logo_removed,
    {
        ProfileForm {
            shop_name: String::new(),
            owner_name: String::new(),
            phone: String::new(),
            address: String::new(),
            gstin: String::new(),
            default_gst_rate: String::new(),
            logo: None,
            logo_removed: false,
        }
    }
}

/// `form` is the profile form filled from `shop`: its text as stored, a
/// missing GSTIN blank, the default rate as a typed amount, and no logo
/// change pending.
pub open spec fn profile_form_of(form: ProfileForm, shop: ShopProfile) -> bool {
    &&& form.shop_name@ == shop.shop_name@
    &&& form.owner_name@ == shop.owner_name@
    &&& form.phone@ == shop.phone@
    &&& form.address@ == shop.address@
    &&& form.gstin@ == match shop.gstin {
        Some(g) => g@,
        None => Seq::<char>::empty(),
    }
    &&& form.default_gst_rate@ == spec_paise_to_input(shop.gst_rate_bp as int)
    &&& form.logo is None
    &&& !form.logo_removed
}

impl ProfileForm {
    pub open spec fn value(&self, field: ProfileField) -> Seq<char> {
        match field {
            ProfileField::ShopName => self.shop_name@,
            ProfileField::OwnerName => self.owner_name@,
            ProfileField::Phone => self.phone@,
            ProfileField::Address => self.address@,
            ProfileField::Gstin => self.gstin@,
            ProfileField::DefaultGstRate => self.default_gst_rate@,
        }
    }

    /// The form pre-filled from the stored profile.
    pub fn from_shop(shop: &ShopProfile) -> (r: ProfileForm)
        ensures
            profile_form_of(r, *shop),
    {
        ProfileForm {
            shop_name: shop.shop_name.clone(),
            owner_name: shop.owner_name.clone(),
            phone: shop.phone.clone(),
            address: shop.address.clone(),
            gstin: match &shop.gstin {
                Some(g) => g.clone(),
                None => String::new(),
            },
            default_gst_rate: paise_to_input(shop.gst_rate_bp),
            logo: None,
            logo_removed: false,
        }
    }

    pub fn set_field(&mut self, field: ProfileField, value: String)
        ensures
            final(self).value(field) == value@,
            forall|g: ProfileField| g != field ==> final(self).value(g) == old(self).value(g),
            final(self).logo == old(self).logo,
            final(self).logo_removed == old(self).logo_removed,
    {
        match field {
            ProfileField::ShopName => self.shop_name = value,
            ProfileField::OwnerName => self.owner_name = value,
            ProfileField::Phone => self.phone = value,
            ProfileField::Address => self.address = value,
            ProfileField::Gstin => self.gstin = value,
            ProfileField::DefaultGstRate => self.default_gst_rate = value,
        }
    }

    pub fn get_field(&self, field: ProfileField) -> (r: String)
        ensures
            r@ == self.value(field),
    {
        match field {
            ProfileField::ShopName => self.shop_name.clone(),
            ProfileField::OwnerName => self.owner_name.clone(),
            ProfileField::Phone => self.phone.clone(),
            ProfileField::Address => self.address.clone(),
            ProfileField::Gstin => self.gstin.clone(),
            ProfileField::DefaultGstRate => self.default_gst_rate.clone(),
        }
    }
}

pub struct SecurityForm {
    pub current_pin: String,
    pub new_pin: String,
    pub confirm_pin: String,
}

impl Default for SecurityForm {
    fn default() -> (r: SecurityForm)
        ensures
            r.current_pin@.len() == 0 && r.new_pin@.len() == 0 && r.confirm_pin@.len() == 0,
    {
        SecurityForm { current_pin: String::new(), new_pin: String::new(), confirm_pin: String::new() }
    }
}

impl SecurityForm {
    pub open spec fn value(&self, field: SecurityField) -> Seq<char> {
        match field {
            SecurityField::CurrentPin => self.current_pin@,
            SecurityField::NewPin => self.new_pin@,
            SecurityField::ConfirmPin => self.confirm_pin@,
        }
    }

    pub fn set_field(&mut self, field: SecurityField, value: String)
        ensures
            final(self).value(field) == value@,
            forall|g: SecurityField| g != field ==> final(self).value(g) == old(self).value(g),
    {
        match field {
            SecurityField::CurrentPin => self.current_pin = value,
            SecurityField::NewPin => self.new_pin = value,
            SecurityField::ConfirmPin => self.confirm_pin = value,
        }
    }
}

/// What happens to the stored logo when the profile is saved.
#[derive(Debug)]
pub enum LogoChange {
    Keep,
    Remove,
    Replace(Vec<u8>),
}

/// A checked profile, ready to store.
#[derive(Debug)]
pub struct ProfileUpdate {
    pub shop_name: String,
    pub owner_name: String,
    pub phone: String,
    pub address: String,
    /// `None` when left blank.
    pub gstin: Option<String>,
    /// The default GST rate in basis points; a blank rate is zero.
    pub gst_rate_bp: i64,
    pub logo: LogoChange,
}

/// The rates the validation reaches fit in basis points.
pub open spec fn profile_rate_fits(form: ProfileForm) -> bool {
    spec_trim(form.shop_name@).len() > 0 && spec_trim(form.default_gst_rate@).len() > 0 ==> amount_fits(
        form.default_gst_rate@,
    )
}

/// Checks the profile form: the shop needs a name, and a default GST rate,
/// if given, must read as a percentage with at most two decimals. Every
/// text is trimmed; a removed logo wins over a newly chosen one.
pub fn check_profile(form: &ProfileForm) -> (r: Result<ProfileUpdate, String>)
    requires
        profile_rate_fits(*form),
    ensures
        if spec_trim(form.shop_name@).len() == 0 {
            r matches Err(e) && e@ == "shop name cannot be empty"@
        } else if spec_trim(form.default_gst_rate@).len() > 0 && spec_rupees_to_paise(form.default_gst_rate@)
            is None {
            r matches Err(e) && e@ == "default GST rate must be a valid percentage, e.g. 18 or 18.00"@
        } else {
            r matches Ok(u) && {
                &&& u.shop_name@ == spec_trim(form.shop_name@)
                &&& u.owner_name@ == spec_trim(form.owner_name@)
                &&& u.phone@ == spec_trim(form.phone@)
                &&& u.address@ == spec_trim(form.address@)
                &&& text_option(u.gstin) == (if spec_trim(form.gstin@).len() == 0 {
                    None
                } else {
                    Some(spec_trim(form.gstin@))
                })
                &&& (if spec_trim(form.default_gst_rate@).len() == 0 {
                    u.gst_rate_bp == 0
                } else {
                    spec_rupees_to_paise(form.default_gst_rate@) == Some(u.gst_rate_bp as int)
                })
                &&& if form.logo_removed {
                    u.logo is Remove
                } else {
                    match form.logo {
                        None => u.logo is Keep,
                        Some(b) => u.logo matches LogoChange::Replace(c) && c@ == b@,
                    }
                }
            }
        },
{
    let shop_name = trim(form.shop_name.as_str());
    if shop_name.unicode_len() == 0 {
        return Err(String::from_str("shop name cannot be empty"));
    }
    let gst_rate_bp = if trim(form.default_gst_rate.as_str()).unicode_len() == 0 {
        0
    } else {
        match rupees_to_paise(form.default_gst_rate.as_str()) {
            Some(v) => v,
            None => return Err(String::from_str("default GST rate must be a valid percentage, e.g. 18 or 18.00")),
        }
    };
    let gstin = trim(form.gstin.as_str());
    let gstin = if gstin.unicode_len() == 0 {
        None
    } else {
        Some(String::from_str(gstin))
    };
    let logo = if form.logo_removed {
        LogoChange::Remove
    } else {
        match copy_bytes(&form.logo) {
            Some(bytes) => LogoChange::Replace(bytes),
            None => LogoChange::Keep,
        }
    };
    Ok(ProfileUpdate {
        shop_name: String::from_str(shop_name),
        owner_name: String::from_str(trim(form.owner_name.as_str())),
        phone: String::from_str(trim(form.phone.as_str())),
        address: String::from_str(trim(form.address.as_str())),
        gstin,
        gst_rate_bp,
        logo,
    })
}

/// A checked PIN change: the current PIN to prove first (when the shop has
/// one), and the new PIN (`None` removes it).
#[derive(Debug)]
pub struct PinChange {
    pub current_pin: Option<String>,
    pub new_pin: Option<String>,
}

/// Checks the security form: the new PIN must pass `validate_new`, and a
/// shop that already has a PIN must be given it (trimmed) before it
/// changes.
pub fn check_pin_change(form: &SecurityForm, has_existing_pin: bool) -> (r: Result<PinChange, String>)
    ensures
        match spec_validate_new(form.new_pin@, form.confirm_pin@) {
            Err(m) => r matches Err(e) && e@ == m,
            Ok(new_pin) => if has_existing_pin && spec_trim(form.current_pin@).len() == 0 {
                r matches Err(e) && e@ == "enter your current PIN to change it"@
            } else {
                r matches Ok(c) && text_option(c.new_pin) == new_pin && text_option(c.current_pin) == (
                if has_existing_pin {
                    Some(spec_trim(form.current_pin@))
                } else {
                    None
                })
            },
        },
{
    let new_pin = validate_new(form.new_pin.as_str(), form.confirm_pin.as_str())?;
    let current = trim(form.current_pin.as_str());
    if has_existing_pin && current.unicode_len() == 0 {
        return Err(String::from_str("enter your current PIN to change it"));
    }
    let current_pin = if has_existing_pin {
        Some(String::from_str(current))
    } else {
        None
    };
    Ok(PinChange { current_pin, new_pin })
}

/// Whether the typed current PIN proves the change: it must match the
/// stored hash, and a PIN removed meanwhile leaves nothing to prove.
pub fn current_pin_accepted(current_pin: &str, stored_hash: Option<String>) -> (r: bool)
    ensures
        r == match stored_hash {
            None => true,
            Some(h) => spec_argon2_accepts(current_pin@, h@),
        },
{
    match stored_hash {
        None => true,
        Some(h) => crate::pin::verify(current_pin, h.as_str()),
    }
}

} // verus!
