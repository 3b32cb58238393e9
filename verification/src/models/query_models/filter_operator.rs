use crate::text::{infix, Text};
use vstd::prelude::*;
use vstd::string::*;

verus! {

/// One comparison between a field and a value, or a test that a field exists.
///
/// `T1` is the type of the field's name and `T2` the type of the value it is
/// compared with; both are written out through [`Text`]. Neither is escaped
/// or checked: what they render to is what appears in the query string.
#[derive(Debug, Clone, PartialEq, PartialOrd, Hash)]
pub enum FilterOperator<T1, T2> {
    /// `key<value`
    Smaller(T1, T2),
    /// `key>value`
    Bigger(T1, T2),
    /// `key=value`
    Eq(T1, T2),
    /// `key<=value`
    SmallerEq(T1, T2),
    /// `key>=value`
    BiggerEq(T1, T2),
    /// `_exists_:key`
    Exists(T1),
    /// `key:value`
    HasValue(T1, T2),
}

impl<T1: Text, T2: Text> FilterOperator<T1, T2> {
    /// The comparison as it appears in a query string.
    pub open spec fn serialized(&self) -> Seq<char> {
        match self {
            FilterOperator::Smaller(key, value) => key.text() + "<"@ + value.text(),
            FilterOperator::Bigger(key, value) => key.text() + ">"@ + value.text(),
            FilterOperator::Eq(key, value) => key.text() + "="@ + value.text(),
            FilterOperator::SmallerEq(key, value) => key.text() + "<="@ + value.text(),
            FilterOperator::BiggerEq(key, value) => key.text() + ">="@ + value.text(),
            FilterOperator::Exists(key) => "_exists_:"@ + key.text(),
            FilterOperator::HasValue(key, value) => key.text() + ":"@ + value.text(),
        }
    }

    /// The comparison written as its variant's name and its fields, for
    /// people to read.
    pub open spec fn described(&self) -> Seq<char> {
        match self {
            FilterOperator::Smaller(key, value) => "Smaller("@ + key.text() + ", "@ + value.text()
                + ")"@,
            FilterOperator::Bigger(key, value) => "Bigger("@ + key.text() + ", "@ + value.text()
                + ")"@,
            FilterOperator::Eq(key, value) => "Eq("@ + key.text() + ", "@ + value.text() + ")"@,
            FilterOperator::SmallerEq(key, value) => "SmallerEq("@ + key.text() + ", "@
                + value.text() + ")"@,
            FilterOperator::BiggerEq(key, value) => "BiggerEq("@ + key.text() + ", "@
                + value.text() + ")"@,
            FilterOperator::Exists(key) => "Exists("@ + key.text() + ")"@,
            FilterOperator::HasValue(key, value) => "HasValue("@ + key.text() + ", "@
                + value.text() + ")"@,
        }
    }

    /// Writes the comparison for a query string, leaving the value in place.
    pub fn render(&self) -> (s: String)
        ensures
            s@ == self.serialized(),
    {
        match self {
            FilterOperator::Smaller(key, value) => infix(key.to_text(), "<", value.to_text()),
            FilterOperator::Bigger(key, value) => infix(key.to_text(), ">", value.to_text()),
            FilterOperator::Eq(key, value) => infix(key.to_text(), "=", value.to_text()),
            FilterOperator::SmallerEq(key, value) => infix(key.to_text(), "<=", value.to_text()),
            FilterOperator::BiggerEq(key, value) => infix(key.to_text(), ">=", value.to_text()),
            FilterOperator::Exists(key) => String::from_str("_exists_:").concat(
                key.to_text().as_str(),
            ),
            FilterOperator::HasValue(key, value) => infix(key.to_text(), ":", value.to_text()),
        }
    }

    /// Writes the comparison for a query string.
    pub fn parse(self) -> (s: String)
        ensures
            s@ == self.serialized(),
    {
        self.render()
    }

    /// Writes the comparison for people to read, as in `Eq(publisher, OJS)`.
    pub fn to_string(&self) -> (s: String)
        ensures
            s@ == self.described(),
    {
        match self {
            FilterOperator::Smaller(key, value) => call_form("Smaller(", key, value),
            FilterOperator::Bigger(key, value) => call_form("Bigger(", key, value),
            FilterOperator::Eq(key, value) => call_form("Eq(", key, value),
            FilterOperator::SmallerEq(key, value) => call_form("SmallerEq(", key, value),
            FilterOperator::BiggerEq(key, value) => call_form("BiggerEq(", key, value),
            FilterOperator::Exists(key) => {
                let mut s = String::from_str("Exists(");
                s.append(key.to_text().as_str());
                s.append(")");
                s
            },
            FilterOperator::HasValue(key, value) => call_form("HasValue(", key, value),
        }
    }
}

/// Writes a name with its opening bracket, two fields separated by a comma
/// and a space, and the closing bracket.
fn call_form<T1: Text, T2: Text>(opening: &str, key: &T1, value: &T2) -> (s: String)
    ensures
        s@ == opening@ + key.text() + ", "@ + value.text() + ")"@,
{
    let mut s = String::from_str(opening);
    s.append(key.to_text().as_str());
    s.append(", ");
    s.append(value.to_text().as_str());
    s.append(")");
    s
}

} // verus!
