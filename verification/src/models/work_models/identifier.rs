use vstd::prelude::*;
use vstd::string::*;

verus! {

/// The identifiers of a record: a list of typed identifiers on a work, a
/// pair of DOI and OAI on an output.
#[derive(Debug, PartialEq, PartialOrd, Hash)]
pub enum IdentifierEntry {
    IdentifierWork(Vec<Identifier>),
    IdentifierOuputs(DoiIdentifier),
}

/// An identifier and the scheme it belongs to.
#[derive(Debug, PartialEq, PartialOrd, Hash, Default)]
pub struct Identifier {
    /// Identifier value.
    pub identifier: String,
    /// Type of the identifier.
    pub identifier_type: String,
}

/// The DOI and the OAI identifier of an output.
#[derive(Debug, PartialEq, PartialOrd, Hash, Default)]
pub struct DoiIdentifier {
    pub doi: Option<String>,
    pub oai: Option<String>,
}

/// An optional text, with `None` written out for a missing one.
pub open spec fn text_or_none(value: Option<String>) -> Seq<char> {
    match value {
        Some(text) => text@,
        None => "None"@,
    }
}

/// Identifiers written one after another, with a comma and a space between
/// neighbours.
pub open spec fn identifiers_text(identifiers: Seq<Identifier>) -> Seq<char>
    decreases identifiers.len(),
{
    if identifiers.len() == 0 {
        Seq::empty()
    } else if identifiers.len() == 1 {
        identifiers[0].described()
    } else {
        identifiers_text(identifiers.drop_last()) + ", "@ + identifiers.last().described()
    }
}

impl Identifier {
    /// The identifier written with its field names, for people to read.
    pub open spec fn described(&self) -> Seq<char> {
        "Identifier { value: "@ + self.identifier@ + ", type: "@ + self.identifier_type@ + " }"@
    }

    /// Writes the identifier for people to read.
    pub fn to_string(&self) -> (s: String)
        ensures
            s@ == self.described(),
    {
        let mut s = String::from_str("Identifier { value: ");
        s.append(self.identifier.as_str());
        s.append(", type: ");
        s.append(self.identifier_type.as_str());
        s.append(" }");
        s
    }
}

impl DoiIdentifier {
    /// The pair written with its field names, for people to read.
    pub open spec fn described(&self) -> Seq<char> {
        "DoiIdentifier { doi: "@ + text_or_none(self.doi) + ", oai: "@ + text_or_none(self.oai)
            + " }"@
    }

    /// Writes the pair for people to read.
    pub fn to_string(&self) -> (s: String)
        ensures
            s@ == self.described(),
    {
        let mut s = String::from_str("DoiIdentifier { doi: ");
        match &self.doi {
            Some(doi) => s.append(doi.as_str()),
            None => s.append("None"),
        }
        s.append(", oai: ");
        match &self.oai {
            Some(oai) => s.append(oai.as_str()),
            None => s.append("None"),
        }
        s.append(" }");
        s
    }
}

impl IdentifierEntry {
    /// The identifiers written with the name of their form, for people to
    /// read.
    pub open spec fn described(&self) -> Seq<char> {
        match self {
            IdentifierEntry::IdentifierWork(identifiers) => "IdentifierWork: ["@
                + identifiers_text(identifiers@) + "]"@,
            IdentifierEntry::IdentifierOuputs(pair) => "IdentifierOuputs: "@ + pair.described(),
        }
    }

    /// Writes the identifiers for people to read.
    pub fn to_string(&self) -> (s: String)
        ensures
            s@ == self.described(),
    {
        match self {
            IdentifierEntry::IdentifierWork(identifiers) => {
                let mut list = String::new();
                let mut i: usize = 0;
                while i < identifiers.len()
                    invariant
                        i <= identifiers.len(),
                        list@ == identifiers_text(identifiers@.take(i as int)),
                    decreases identifiers.len() - i,
                {
                    if i > 0 {
                        list.append(", ");
                    }
                    list.append(identifiers[i].to_string().as_str());
                    proof {
                        let upto = identifiers@.take(i as int + 1);
                        assert(upto.drop_last() =~= identifiers@.take(i as int));
                    }
                    i += 1;
                }
                assert(identifiers@.take(i as int) =~= identifiers@);
                let mut s = String::from_str("IdentifierWork: [");
                s.append(list.as_str());
                s.append("]");
                s
            },
            IdentifierEntry::IdentifierOuputs(pair) => String::from_str(
                "IdentifierOuputs: ",
            ).concat(pair.to_string().as_str()),
        }
    }
}

impl Default for IdentifierEntry {
    /// A work's identifiers, none of them.
    fn default() -> (entry: Self)
        ensures
            entry matches IdentifierEntry::IdentifierWork(identifiers) && identifiers@.len() == 0,
    {
        IdentifierEntry::IdentifierWork(Vec::new())
    }
}

} // verus!
