use vstd::prelude::*;
use vstd::string::*;

verus! {

/// How a filter joins the expression built so far.
#[derive(Debug, Clone, Copy, PartialEq, Eq, Structural, PartialOrd, Hash)]
pub enum LogicalOperator {
    And,
    Or,
}

impl LogicalOperator {
    /// The connector as it appears in a query string: the keyword between
    /// two percent-encoded spaces.
    pub open spec fn token(self) -> Seq<char> {
        match self {
            LogicalOperator::And => "%20AND%20"@,
            LogicalOperator::Or => "%20OR%20"@,
        }
    }

    /// The variant's name.
    pub open spec fn name(self) -> Seq<char> {
        match self {
            LogicalOperator::And => "And"@,
            LogicalOperator::Or => "Or"@,
        }
    }

    /// Writes the connector for a query string.
    pub fn parse(self) -> (s: String)
        ensures
            s@ == self.token(),
    {
        match self {
            LogicalOperator::And => String::from_str("%20AND%20"),
            LogicalOperator::Or => String::from_str("%20OR%20"),
        }
    }

    /// Writes the variant's name, `And` or `Or`.
    pub fn to_string(&self) -> (s: String)
        ensures
            s@ == self.name(),
    {
        match self {
            LogicalOperator::And => String::from_str("And"),
            LogicalOperator::Or => String::from_str("Or"),
        }
    }
}

} // verus!
