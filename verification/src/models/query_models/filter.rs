use super::filter_operator::FilterOperator;
use super::logical_operator::LogicalOperator;
use crate::text::Text;
use vstd::prelude::*;
use vstd::string::*;

verus! {

/// One entry of a filter chain: a comparison and the connector that joins it
/// to whatever came before it.
#[derive(Debug, Clone, PartialEq, PartialOrd, Hash)]
pub struct Filter<T1, T2> {
    pub logical_operator: LogicalOperator,
    pub filter_operator: FilterOperator<T1, T2>,
}

impl<T1: Text, T2: Text> Filter<T1, T2> {
    /// The entry as it appears in a query string: the connector, then the
    /// comparison, with nothing between them.
    pub open spec fn serialized(&self) -> Seq<char> {
        self.logical_operator.token() + self.filter_operator.serialized()
    }

    /// The entry written with its field names, for people to read.
    pub open spec fn described(&self) -> Seq<char> {
        "Filter { logical_operator: "@ + self.logical_operator.name() + ", filter_operator: "@
            + self.filter_operator.described() + " }"@
    }

    /// Writes the entry for a query string, leaving the value in place.
    pub fn render(&self) -> (s: String)
        ensures
            s@ == self.serialized(),
    {
        let mut s = self.logical_operator.parse();
        s.append(self.filter_operator.render().as_str());
        s
    }

    /// Writes the entry for a query string.
    pub fn parse(self) -> (s: String)
        ensures
            s@ == self.serialized(),
    {
        self.render()
    }

    /// Writes the entry for people to read.
    pub fn to_string(&self) -> (s: String)
        ensures
            s@ == self.described(),
    {
        let mut s = String::from_str("Filter { logical_operator: ");
        s.append(self.logical_operator.to_string().as_str());
        s.append(", filter_operator: ");
        s.append(self.filter_operator.to_string().as_str());
        s.append(" }");
        s
    }
}

/// A filter chain as it appears in a query string: its entries in order,
/// each with its connector, the first one included.
pub open spec fn chain_text<T1: Text, T2: Text>(filters: Seq<Filter<T1, T2>>) -> Seq<char>
    decreases filters.len(),
{
    if filters.len() == 0 {
        Seq::empty()
    } else {
        chain_text(filters.drop_last()) + filters.last().serialized()
    }
}

} // verus!
