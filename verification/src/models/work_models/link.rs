use vstd::prelude::*;
use vstd::string::*;

verus! {

/// A link of a work: the service sends either a bare address or an object
/// that also names the link's type.
#[derive(Debug, PartialEq, PartialOrd, Hash)]
pub enum LinkType {
    /// A bare address.
    Raw(String),
    /// An address with its type.
    Structured(Link),
}

/// An address with its type.
#[derive(Debug, PartialEq, PartialOrd, Hash, Default)]
pub struct Link {
    /// Type of the link.
    pub link_type: String,
    /// URL of the link.
    pub url: String,
}

impl Link {
    /// The link written with its field names, for people to read.
    pub open spec fn described(&self) -> Seq<char> {
        "Link { type: "@ + self.link_type@ + ", url: "@ + self.url@ + " }"@
    }

    /// Writes the link for people to read.
    pub fn to_string(&self) -> (s: String)
        ensures
            s@ == self.described(),
    {
        let mut s = String::from_str("Link { type: ");
        s.append(self.link_type.as_str());
        s.append(", url: ");
        s.append(self.url.as_str());
        s.append(" }");
        s
    }
}

impl LinkType {
    /// The link written with the name of its form, for people to read.
    pub open spec fn described(&self) -> Seq<char> {
        match self {
            LinkType::Raw(address) => "Raw Link: "@ + address@,
            LinkType::Structured(link) => "Structured Link: "@ + link.described(),
        }
    }

    /// Writes the link for people to read.
    pub fn to_string(&self) -> (s: String)
        ensures
            s@ == self.described(),
    {
        match self {
            LinkType::Raw(address) => String::from_str("Raw Link: ").concat(address.as_str()),
            LinkType::Structured(link) => String::from_str("Structured Link: ").concat(
                link.to_string().as_str(),
            ),
        }
    }
}

impl Default for LinkType {
    /// A bare, empty address.
    fn default() -> (link: Self)
        ensures
            link matches LinkType::Raw(address) && address@ == Seq::<char>::empty(),
    {
        LinkType::Raw(String::new())
    }
}

} // verus!
