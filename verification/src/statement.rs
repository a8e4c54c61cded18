//! Statements as the engine takes them: a text and the values bound to its
//! placeholders.

use vstd::prelude::*;

verus! {

/// A value bound to a placeholder of a statement.
#[derive(Clone, Debug, PartialEq, Eq)]
pub enum Binding {
    /// A text value.
    Text(String),
    /// An integer value.
    Integer(i64),
}

/// What a [`Binding`] holds, as a mathematical value.
pub enum BoundValue {
    Text(Seq<char>),
    Integer(i64),
}

impl View for Binding {
    type V = BoundValue;

    open spec fn view(&self) -> BoundValue {
        match self {
            Binding::Text(text) => BoundValue::Text(text@),
            Binding::Integer(number) => BoundValue::Integer(*number),
        }
    }
}

/// A statement and the values of its placeholders. The first binding belongs
/// to the first placeholder of the text, the second to the second, and so on.
#[derive(Clone, Debug, PartialEq, Eq)]
pub struct Statement {
    /// The text of the statement.
    pub sql: String,
    /// The values of the placeholders, in the order of the placeholders.
    pub bindings: Vec<Binding>,
}

/// What a [`Statement`] holds, as mathematical values.
pub struct StatementText {
    pub sql: Seq<char>,
    pub bindings: Seq<BoundValue>,
}

/// The values that `bindings` hold, in the same order.
pub open spec fn bound_values(bindings: Seq<Binding>) -> Seq<BoundValue> {
    bindings.map_values(|binding: Binding| binding@)
}

/// One text binding for each of `names`, in the same order.
pub open spec fn text_values(names: Seq<Seq<char>>) -> Seq<BoundValue> {
    names.map_values(|name: Seq<char>| BoundValue::Text(name))
}

impl View for Statement {
    type V = StatementText;

    open spec fn view(&self) -> StatementText {
        StatementText { sql: self.sql@, bindings: bound_values(self.bindings@) }
    }
}

impl Statement {
    /// A statement without placeholders.
    pub fn plain(sql: &str) -> (statement: Statement)
        ensures
            statement@ == (StatementText { sql: sql@, bindings: Seq::empty() }),
    {
        let statement = Statement { sql: String::from_str(sql), bindings: Vec::new() };
        assert(bound_values(statement.bindings@) == Seq::<BoundValue>::empty());
        statement
    }
}

} // verus!
