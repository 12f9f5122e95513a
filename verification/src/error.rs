//! The errors a builder can report.

use vstd::prelude::*;

verus! {

/// A defect in the shape of the input given to a builder. A builder records
/// the first such defect and reports it when the statement is built.
#[derive(Debug, PartialEq, Eq)]
pub enum SqlBuilderError {
    /// The statement has no target table.
    NoTableName,
    /// An update has no field assignments.
    NoSetFields,
    /// An empty condition was given to a predicate-adding operation.
    NoWhereCond,
    /// A predicate was started on, or continued from, an empty expression.
    NoWhereField,
    /// A comparison was given an empty operand; carries the predicate text
    /// built so far.
    NoWhereValue(String),
}

/// The mathematical value of a [`SqlBuilderError`].
pub enum ErrorModel {
    NoTableName,
    NoSetFields,
    NoWhereCond,
    NoWhereField,
    NoWhereValue(Seq<char>),
}

impl View for SqlBuilderError {
    type V = ErrorModel;

    open spec fn view(&self) -> ErrorModel {
        match self {
            SqlBuilderError::NoTableName => ErrorModel::NoTableName,
            SqlBuilderError::NoSetFields => ErrorModel::NoSetFields,
            SqlBuilderError::NoWhereCond => ErrorModel::NoWhereCond,
            SqlBuilderError::NoWhereField => ErrorModel::NoWhereField,
            SqlBuilderError::NoWhereValue(text) => ErrorModel::NoWhereValue(text@),
        }
    }
}

impl ErrorModel {
    /// The message that describes the error.
    pub open spec fn message(self) -> Seq<char> {
        match self {
            ErrorModel::NoTableName => "No table name"@,
            ErrorModel::NoSetFields => "No set fields"@,
            ErrorModel::NoWhereCond => "WHERE condition is empty"@,
            ErrorModel::NoWhereField => "WHERE field not defined"@,
            ErrorModel::NoWhereValue(text) => "WHERE value for field \""@ + text
                + "\" not defined"@,
        }
    }
}

/// The mathematical value of an optional error.
pub open spec fn error_model(e: Option<SqlBuilderError>) -> Option<ErrorModel> {
    match e {
        Some(e) => Some(e@),
        None => None,
    }
}

/// The mathematical value of what a terminal operation returns.
pub open spec fn outcome(r: Result<String, SqlBuilderError>) -> Result<Seq<char>, ErrorModel> {
    match r {
        Ok(text) => Ok(text@),
        Err(e) => Err(e@),
    }
}

impl Clone for SqlBuilderError {
    fn clone(&self) -> (r: Self)
        ensures
            r@ == self@,
    {
        match self {
            SqlBuilderError::NoTableName => SqlBuilderError::NoTableName,
            SqlBuilderError::NoSetFields => SqlBuilderError::NoSetFields,
            SqlBuilderError::NoWhereCond => SqlBuilderError::NoWhereCond,
            SqlBuilderError::NoWhereField => SqlBuilderError::NoWhereField,
            SqlBuilderError::NoWhereValue(text) => SqlBuilderError::NoWhereValue(text.clone()),
        }
    }
}

/// A copy of `e`.
pub fn clone_error(e: &Option<SqlBuilderError>) -> (out: Option<SqlBuilderError>)
    ensures
        error_model(out) == error_model(*e),
{
    match e {
        Some(e) => Some(e.clone()),
        None => None,
    }
}

impl SqlBuilderError {
    /// The message that describes the error.
    pub fn to_string(&self) -> (s: String)
        ensures
            s@ == self@.message(),
    {
        match self {
            SqlBuilderError::NoTableName => String::from_str("No table name"),
            SqlBuilderError::NoSetFields => String::from_str("No set fields"),
            SqlBuilderError::NoWhereCond => String::from_str("WHERE condition is empty"),
            SqlBuilderError::NoWhereField => String::from_str("WHERE field not defined"),
            SqlBuilderError::NoWhereValue(text) => {
                let mut s = String::from_str("WHERE value for field \"");
                s.append(text.as_str());
                s.append("\" not defined");
                s
            },
        }
    }
}

} // verus!
