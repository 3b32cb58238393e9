use vstd::prelude::*;
use vstd::string::*;

verus! {

/// The HTTP method a request is sent with.
#[derive(Debug, Clone, Copy, PartialEq, Eq, Structural, PartialOrd, Hash)]
pub enum QueryRequestType {
    Get,
    Post,
}

impl QueryRequestType {
    /// The variant's name.
    pub open spec fn name(self) -> Seq<char> {
        match self {
            QueryRequestType::Get => "Get"@,
            QueryRequestType::Post => "Post"@,
        }
    }

    /// Writes the variant's name, `Get` or `Post`.
    pub fn to_string(&self) -> (s: String)
        ensures
            s@ == self.name(),
    {
        match self {
            QueryRequestType::Get => String::from_str("Get"),
            QueryRequestType::Post => String::from_str("Post"),
        }
    }
}

} // verus!
