//! SQL statements as plain values: the text and the values bound to its
//! parameters, for the caller to run against the notebook's store.

use vstd::prelude::*;

verus! {

/// A value bound to a parameter of a statement.
#[derive(Debug, PartialEq, Eq)]
pub enum SqlValue {
    Integer(i64),
    Text(String),
    Bool(bool),
}

/// The mathematical value of a bound parameter.
pub enum SqlParam {
    Integer(int),
    Text(Seq<char>),
    Bool(bool),
}

impl View for SqlValue {
    type V = SqlParam;

    open spec fn view(&self) -> SqlParam {
        match self {
            SqlValue::Integer(i) => SqlParam::Integer(*i as int),
            SqlValue::Text(s) => SqlParam::Text(s@),
            SqlValue::Bool(b) => SqlParam::Bool(*b),
        }
    }
}

/// A statement: its SQL text and the values of its parameters, in order.
#[derive(Debug, PartialEq, Eq)]
pub struct Statement {
    pub sql: String,
    pub params: Vec<SqlValue>,
}

/// The mathematical value of a statement.
pub struct StatementView {
    pub sql: Seq<char>,
    pub params: Seq<SqlParam>,
}

pub open spec fn params_view(params: Seq<SqlValue>) -> Seq<SqlParam> {
    params.map_values(|p: SqlValue| p@)
}

impl View for Statement {
    type V = StatementView;

    open spec fn view(&self) -> StatementView {
        StatementView { sql: self.sql@, params: params_view(self.params@) }
    }
}

pub open spec fn statements_view(stmts: Seq<Statement>) -> Seq<StatementView> {
    stmts.map_values(|s: Statement| s@)
}

pub open spec fn stmt(sql: Seq<char>, params: Seq<SqlParam>) -> StatementView {
    StatementView { sql, params }
}

/// A statement with its SQL text and no parameters.
pub fn plain_statement(sql: &str) -> (res: Statement)
    ensures
        res@ == stmt(sql@, seq![]),
{
    let params: Vec<SqlValue> = Vec::new();
    let res = Statement { sql: String::from_str(sql), params };
    assert(res@.params =~= Seq::<SqlParam>::empty());
    res
}

} // verus!
