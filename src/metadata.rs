//! The record of what is installed in a target directory.

use crate::version::{SemVer, SemVerModel};
use crate::vars::pairs_view;
use vstd::prelude::*;
use vstd::string::*;

verus! {

/// What is installed: vendor, version, checksum of the package, and further properties.
#[derive(Debug)]
pub struct Metadata {
    /// The checksum of the downloaded package.
    pub checksum: String,
    /// Additional properties.
    pub props: Vec<(String, String)>,
    /// The vendor of the installation.
    pub vendor: String,
    /// The version of the installation.
    pub version: SemVer,
}

/// The model of a metadata record: vendor, version, checksum, properties.
pub type MetadataModel = (Seq<char>, SemVerModel, Seq<char>, Seq<(Seq<char>, Seq<char>)>);

impl Metadata {
    pub open spec fn view(&self) -> MetadataModel {
        (self.vendor@, self.version.view(), self.checksum@, pairs_view(self.props@))
    }

    /// A record without further properties.
    pub fn new(vendor: &str, version: SemVer, checksum: &str) -> (r: Self)
        ensures
            r.view() == (vendor@, version.view(), checksum@, Seq::<(Seq<char>, Seq<char>)>::empty()),
    {
        let r = Metadata {
            checksum: String::from_str(checksum),
            props: Vec::new(),
            vendor: String::from_str(vendor),
            version,
        };
        assert(pairs_view(r.props@) =~= Seq::<(Seq<char>, Seq<char>)>::empty());
        r
    }
}

/// Whether the properties are the default, empty ones (then they are not written).
pub fn default(props: &Vec<(String, String)>) -> (r: bool)
    ensures
        r == (props@.len() == 0),
{
    props.len() == 0
}

} // verus!
