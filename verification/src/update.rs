//! The builder of `UPDATE` statements.

use vstd::prelude::*;
use crate::arg::SqlArg;
use crate::error::{clone_error, error_model, outcome, ErrorModel, SqlBuilderError};
use crate::text::{clone_opt_text, clone_texts, join, joined, opt_text, texts, ToText};
use crate::where_builder::{make_wheres, where_clause};

verus! {

/// Accumulates the clauses of an `UPDATE` statement. A clause that breaks a
/// rule is not stored; the first such defect is recorded instead and
/// reported by [`UpdateBuilder::build`].
pub struct UpdateBuilder {
    table: String,
    sets: Vec<String>,
    returning: Option<String>,
    wheres: Vec<String>,
    error: Option<SqlBuilderError>,
}

/// The mathematical value of an [`UpdateBuilder`]: the clauses collected so
/// far and the first defect recorded, if any.
#[verifier::ext_equal]
pub struct UpdateModel {
    pub table: Seq<char>,
    pub sets: Seq<Seq<char>>,
    pub returning: Option<Seq<char>>,
    pub wheres: Seq<Seq<char>>,
    pub error: Option<ErrorModel>,
}

impl UpdateModel {
    /// A statement on `table` with no other clause.
    pub open spec fn update_table(table: Seq<char>) -> UpdateModel {
        UpdateModel {
            table,
            sets: Seq::empty(),
            returning: None,
            wheres: Seq::empty(),
            error: None,
        }
    }

    /// Records `e` unless a defect is recorded already.
    pub open spec fn failed(self, e: ErrorModel) -> UpdateModel {
        UpdateModel { error: if self.error is Some { self.error } else { Some(e) }, ..self }
    }

    /// Adds the assignment `field = value`, `value` being SQL text.
    pub open spec fn set(self, field: Seq<char>, value: Seq<char>) -> UpdateModel {
        UpdateModel { sets: self.sets.push(field + " = "@ + value), ..self }
    }

    /// Adds a condition; an empty one is a defect and adds nothing.
    pub open spec fn and_where(self, cond: Seq<char>) -> UpdateModel {
        if cond.len() == 0 {
            self.failed(ErrorModel::NoWhereCond)
        } else {
            UpdateModel { wheres: self.wheres.push(cond), ..self }
        }
    }

    /// Extends the last condition by ` OR cond`, or adds `cond` as the first
    /// condition; an empty one is a defect and changes no condition.
    pub open spec fn or_where(self, cond: Seq<char>) -> UpdateModel {
        if cond.len() == 0 {
            self.failed(ErrorModel::NoWhereCond)
        } else if self.wheres.len() == 0 {
            UpdateModel { wheres: self.wheres.push(cond), ..self }
        } else {
            UpdateModel {
                wheres: self.wheres.drop_last().push(self.wheres.last() + " OR "@ + cond),
                ..self
            }
        }
    }

    pub open spec fn returning(self, field: Seq<char>) -> UpdateModel {
        UpdateModel { returning: Some(field), ..self }
    }

    pub open spec fn returning_text(self) -> Seq<char> {
        match self.returning {
            Some(field) => " RETURNING "@ + field,
            None => Seq::empty(),
        }
    }

    /// The statement text, terminated by a semicolon.
    pub open spec fn statement_text(self) -> Seq<char> {
        ("UPDATE "@ + self.table + " SET "@ + joined(self.sets, ", "@) + where_clause(self.wheres)
            + self.returning_text()).push(';')
    }

    /// What [`UpdateBuilder::build`] returns: the recorded defect; without
    /// one, the defect of an empty table name, then that of no assignment;
    /// else the statement.
    pub open spec fn build_result(self) -> Result<Seq<char>, ErrorModel> {
        match self.error {
            Some(e) => Err(e),
            None => if self.table.len() == 0 {
                Err(ErrorModel::NoTableName)
            } else if self.sets.len() == 0 {
                Err(ErrorModel::NoSetFields)
            } else {
                Ok(self.statement_text())
            },
        }
    }
}

/// One clause-adding operation on an `UPDATE` statement, with its
/// arguments.
pub enum UpdateOp {
    Assign(Seq<char>, Seq<char>),
    AndWhere(Seq<char>),
    OrWhere(Seq<char>),
    Returning(Seq<char>),
}

impl UpdateModel {
    /// The statement after the operation `op`.
    pub open spec fn apply(self, op: UpdateOp) -> UpdateModel {
        match op {
            UpdateOp::Assign(field, value) => self.set(field, value),
            UpdateOp::AndWhere(cond) => self.and_where(cond),
            UpdateOp::OrWhere(cond) => self.or_where(cond),
            UpdateOp::Returning(field) => self.returning(field),
        }
    }

    /// The statement after the operations `ops`, applied in order.
    pub open spec fn apply_all(self, ops: Seq<UpdateOp>) -> UpdateModel
        decreases ops.len(),
    {
        if ops.len() == 0 {
            self
        } else {
            self.apply_all(ops.drop_last()).apply(ops.last())
        }
    }
}

/// A recorded defect stays: whatever operations follow, the defect that was
/// recorded first is the one that building reports.
pub proof fn lemma_update_error_is_kept(m: UpdateModel, ops: Seq<UpdateOp>)
    requires
        m.error is Some,
    ensures
        m.apply_all(ops).error == m.error,
        m.apply_all(ops).build_result() == Err::<Seq<char>, ErrorModel>(m.error->0),
    decreases ops.len(),
{
    if ops.len() > 0 {
        lemma_update_error_is_kept(m, ops.drop_last());
    }
}

/// The only defect that a chain of operations records is the missing
/// condition.
pub proof fn lemma_update_records_missing_condition_only(table: Seq<char>, ops: Seq<UpdateOp>)
    ensures
        UpdateModel::update_table(table).apply_all(ops).error is None || UpdateModel::update_table(
            table,
        ).apply_all(ops).error == Some(ErrorModel::NoWhereCond),
    decreases ops.len(),
{
    if ops.len() > 0 {
        lemma_update_records_missing_condition_only(table, ops.drop_last());
    }
}

/// An empty condition is reported at the end: whatever operations come
/// before it and after it, building reports the missing condition, and
/// neither a statement text nor another defect.
pub proof fn lemma_update_empty_condition_is_reported(
    table: Seq<char>,
    before: Seq<UpdateOp>,
    after: Seq<UpdateOp>,
)
    ensures
        UpdateModel::update_table(table).apply_all(before).and_where(Seq::empty()).apply_all(
            after,
        ).build_result() == Err::<Seq<char>, ErrorModel>(ErrorModel::NoWhereCond),
        UpdateModel::update_table(table).apply_all(before).or_where(Seq::empty()).apply_all(
            after,
        ).build_result() == Err::<Seq<char>, ErrorModel>(ErrorModel::NoWhereCond),
{
    let m = UpdateModel::update_table(table).apply_all(before);
    lemma_update_records_missing_condition_only(table, before);
    lemma_update_error_is_kept(m.and_where(Seq::empty()), after);
    lemma_update_error_is_kept(m.or_where(Seq::empty()), after);
}

/// An operation that records a defect changes no clause.
pub proof fn lemma_update_defect_changes_no_clause(m: UpdateModel, op: UpdateOp)
    requires
        m.apply(op).error != m.error,
    ensures
        m.apply(op) == (UpdateModel { error: m.apply(op).error, ..m }),
{
}

impl View for UpdateBuilder {
    type V = UpdateModel;

    closed spec fn view(&self) -> UpdateModel {
        UpdateModel {
            table: self.table@,
            sets: texts(self.sets@),
            returning: opt_text(self.returning),
            wheres: texts(self.wheres@),
            error: error_model(self.error),
        }
    }
}

/// A copy is a builder of its own with the same clauses.
impl Clone for UpdateBuilder {
    fn clone(&self) -> (r: Self)
        ensures
            r@ == self@,
    {
        let r = UpdateBuilder {
            table: self.table.clone(),
            sets: clone_texts(&self.sets),
            returning: clone_opt_text(&self.returning),
            wheres: clone_texts(&self.wheres),
            error: clone_error(&self.error),
        };
        assert(r@ =~= self@);
        r
    }
}

impl UpdateBuilder {
    fn default() -> (r: Self)
        ensures
            r@ == UpdateModel::update_table(Seq::empty()),
    {
        let r = UpdateBuilder {
            table: String::new(),
            sets: Vec::new(),
            returning: None,
            wheres: Vec::new(),
            error: None,
        };
        assert(r@ =~= UpdateModel::update_table(Seq::empty()));
        r
    }

    /// Starts a statement that updates `table`.
    pub fn update_table<S: ToText>(table: S) -> (r: Self)
        ensures
            r@ == UpdateModel::update_table(table.text()),
    {
        let mut r = Self::default();
        r.table = table.to_text();
        assert(r@ =~= UpdateModel::update_table(table.text()));
        r
    }

    /// Adds the assignment of `value`, written as SQL text, to `field`.
    pub fn set<S: ToText, T: SqlArg>(&mut self, field: S, value: T) -> (ret: &mut Self)
        ensures
            ret@ == old(self)@.set(field.text(), value.sql_text()),
            *final(self) == *final(ret),
    {
        let mut expr = field.to_text();
        expr.append(" = ");
        expr.append(value.sql_arg().as_str());
        self.sets.push(expr);
        assert(self@ =~= old(self)@.set(field.text(), value.sql_text()));
        self
    }

    /// Adds the condition `cond`, to hold together with those added before.
    /// An empty `cond` is recorded as a defect and adds no condition.
    pub fn and_where<S: ToText>(&mut self, cond: S) -> (ret: &mut Self)
        ensures
            ret@ == old(self)@.and_where(cond.text()),
            *final(self) == *final(ret),
    {
        let cond = cond.to_text();
        if cond.as_str().is_empty() {
            self.set_error(SqlBuilderError::NoWhereCond);
            return self;
        }
        self.wheres.push(cond);
        assert(self@ =~= old(self)@.and_where(cond@));
        self
    }

    /// Extends the condition added last by ` OR cond`; where there is none,
    /// adds `cond`. An empty `cond` is recorded as a defect and changes no
    /// condition.
    pub fn or_where<S: ToText>(&mut self, cond: S) -> (ret: &mut Self)
        ensures
            ret@ == old(self)@.or_where(cond.text()),
            *final(self) == *final(ret),
    {
        let cond = cond.to_text();
        if cond.as_str().is_empty() {
            self.set_error(SqlBuilderError::NoWhereCond);
            return self;
        }
        match self.wheres.pop() {
            Some(mut last) => {
                last.append(" OR ");
                last.append(cond.as_str());
                self.wheres.push(last);
            },
            None => {
                self.wheres.push(cond);
            },
        }
        assert(self@ =~= old(self)@.or_where(cond@));
        self
    }

    /// Records `err` unless a defect is recorded already.
    fn set_error(&mut self, err: SqlBuilderError)
        ensures
            final(self)@ == old(self)@.failed(err@),
    {
        if self.error.is_none() {
            self.error = Some(err);
        }
        assert(self@ =~= old(self)@.failed(err@));
    }

    /// The recorded defect; without one, the defect of an empty table name,
    /// then that of no assignment; else the statement text, terminated by a
    /// semicolon.
    pub fn build(&self) -> (r: Result<String, SqlBuilderError>)
        ensures
            outcome(r) == self@.build_result(),
    {
        if let Some(err) = &self.error {
            return Err(err.clone());
        }
        if self.table.as_str().is_empty() {
            return Err(SqlBuilderError::NoTableName);
        }
        if self.sets.len() == 0 {
            return Err(SqlBuilderError::NoSetFields);
        }
        let sets = join(&self.sets, ", ");
        let wheres = make_wheres(&self.wheres);
        let returning = match &self.returning {
            Some(field) => {
                let mut text = String::from_str(" RETURNING ");
                text.append(field.as_str());
                text
            },
            None => String::new(),
        };
        let mut sql = String::from_str("UPDATE ");
        sql.append(self.table.as_str());
        sql.append(" SET ");
        sql.append(sets.as_str());
        sql.append(wheres.as_str());
        sql.append(returning.as_str());
        sql.push(';');
        Ok(sql)
    }

    /// Sets the field that the statement returns.
    pub fn returning<S: ToText>(&mut self, field: S) -> (ret: &mut Self)
        ensures
            ret@ == old(self)@.returning(field.text()),
            *final(self) == *final(ret),
    {
        self.returning = Some(field.to_text());
        assert(self@ =~= old(self)@.returning(field.text()));
        self
    }
}

} // verus!
