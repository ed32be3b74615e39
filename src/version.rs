//! The version field of a channel end.
//!
//! The version is opaque to the core protocol: no validation is done here and
//! the empty string is allowed (on channel open init it means "let the bound
//! module choose").
use vstd::prelude::*;

verus! {

/// The characters of the transfer application's version string.
pub open spec fn transfer_version_view() -> Seq<char> {
    seq!['i', 'c', 's', '2', '0', '-', '1']
}

/// The version field for a channel end.
#[derive(Debug)]
pub struct Version(pub String);

impl Version {
    pub open spec fn view(&self) -> Seq<char> {
        self.0@
    }

    pub fn new(v: String) -> (r: Self)
        ensures
            r@ == v@,
    {
        Version(v)
    }

    pub fn ics20() -> (r: Self)
        ensures
            r@ == transfer_version_view(),
    {
        proof {
            reveal_strlit("ics20-1");
        }
        Self::new(String::from_str("ics20-1"))
    }

    pub fn empty() -> (r: Self)
        ensures
            r@ == Seq::<char>::empty(),
    {
        Self::new(String::new())
    }

    pub fn is_empty(&self) -> (r: bool)
        ensures
            r == (self@.len() == 0),
    {
        self.0.as_str().is_empty()
    }

    /// Whether this is the transfer application's version.
    pub fn is_ics20(&self) -> (r: bool)
        ensures
            r == (self@ == transfer_version_view()),
    {
        let v = Self::ics20();
        self.0 == v.0
    }

    pub fn duplicate(&self) -> (r: Self)
        ensures
            r@ == self@,
    {
        Version(self.0.clone())
    }

    pub fn as_str(&self) -> (r: &str)
        ensures
            r@ == self@,
    {
        self.0.as_str()
    }
}

impl Clone for Version {
    fn clone(&self) -> (r: Self)
        ensures
            r@ == self@,
    {
        self.duplicate()
    }
}

impl PartialEq for Version {
    fn eq(&self, o: &Version) -> (r: bool) {
        self.0 == o.0
    }
}

impl vstd::std_specs::cmp::PartialEqSpecImpl for Version {
    open spec fn obeys_eq_spec() -> bool {
        true
    }

    open spec fn eq_spec(&self, o: &Version) -> bool {
        self@ == o@
    }
}

impl Eq for Version {
}

impl From<String> for Version {
    fn from(s: String) -> (r: Self) {
        Version(s)
    }
}

impl vstd::std_specs::convert::FromSpecImpl<String> for Version {
    open spec fn obeys_from_spec() -> bool {
        true
    }

    open spec fn from_spec(s: String) -> Version {
        Version(s)
    }
}

impl core::str::FromStr for Version {
    type Err = core::convert::Infallible;

    fn from_str(s: &str) -> Result<Self, Self::Err> {
        Ok(Version::new(s.to_owned()))
    }
}

/// The default version is empty (unspecified).
impl Default for Version {
    fn default() -> (r: Self)
        ensures
            r@ == Seq::<char>::empty(),
    {
        Self::empty()
    }
}

} // verus!
