//! The vendors that packages can come from.

use crate::text::{lowercase, lower_of, trim, trimmed};
use vstd::prelude::*;
use vstd::string::*;

verus! {

/// A supported vendor.
#[derive(Debug, Clone, Copy, PartialEq, Eq)]
pub enum Vendor {
    Azul,
    Eclipse,
}

/// Why a vendor name was refused.
#[derive(Debug)]
pub enum VendorError {
    /// No supported vendor has this name.
    Unsupported,
}

impl Vendor {
    pub open spec fn id_spec(&self) -> Seq<char> {
        match self {
            Vendor::Azul => "azul"@,
            Vendor::Eclipse => "eclipse"@,
        }
    }

    pub open spec fn name_spec(&self) -> Seq<char> {
        match self {
            Vendor::Azul => "Azul"@,
            Vendor::Eclipse => "Eclipse"@,
        }
    }

    /// The id of the vendor, as configurations and metadata name it.
    pub fn id(&self) -> (r: &'static str)
        ensures
            r@ == self.id_spec(),
    {
        match self {
            Vendor::Azul => "azul",
            Vendor::Eclipse => "eclipse",
        }
    }

    /// The display name of the vendor.
    pub fn name(&self) -> (r: &'static str)
        ensures
            r@ == self.name_spec(),
    {
        match self {
            Vendor::Azul => "Azul",
            Vendor::Eclipse => "Eclipse",
        }
    }

    /// The vendor with the id `id`, as it is written.
    pub fn from_id(id: &str) -> (r: Option<Vendor>)
        ensures
            match r {
                Some(v) => v.id_spec() == id@,
                None => id@ != "azul"@ && id@ != "eclipse"@,
            },
    {
        if crate::text::same_text(id, "azul") {
            Some(Vendor::Azul)
        } else if crate::text::same_text(id, "eclipse") {
            Some(Vendor::Eclipse)
        } else {
            None
        }
    }

    /// The vendor whose id is `value`, trimmed and in lower case.
    pub fn try_from(value: &str) -> (r: Result<Vendor, VendorError>)
        ensures
            match r {
                Ok(v) => v.id_spec() == lower_of(trimmed(value@)),
                Err(_) => lower_of(trimmed(value@)) != "azul"@ && lower_of(trimmed(value@)) != "eclipse"@,
            },
    {
        let t = trim(value);
        let id = lowercase(t);
        match Vendor::from_id(id.as_str()) {
            Some(v) => Ok(v),
            None => Err(VendorError::Unsupported),
        }
    }
}

} // verus!
