//! The builder of `SELECT` statements.

use vstd::prelude::*;
use crate::error::{clone_error, error_model, outcome, ErrorModel, SqlBuilderError};
use crate::text::{
    clone_opt_text, clone_texts, item_texts, join, joined, opt_text, texts, texts_of, ToText,
};
use crate::where_builder::{make_wheres, where_clause};

verus! {

/// Accumulates the clauses of a `SELECT` statement. A clause that breaks a
/// rule is not stored; the first such defect is recorded instead and
/// reported by [`SelectBuilder::build`] and [`SelectBuilder::query`].
pub struct SelectBuilder {
    table: String,
    joins: Vec<String>,
    fields: Vec<String>,
    group_by: Vec<String>,
    having: Option<String>,
    unions: String,
    wheres: Vec<String>,
    order_by: Vec<String>,
    limit: Option<String>,
    offset: Option<String>,
    error: Option<SqlBuilderError>,
}

/// The mathematical value of a [`SelectBuilder`]: the clauses collected so
/// far and the first defect recorded, if any.
#[verifier::ext_equal]
pub struct SelectModel {
    pub table: Seq<char>,
    pub joins: Seq<Seq<char>>,
    pub fields: Seq<Seq<char>>,
    pub group_by: Seq<Seq<char>>,
    pub having: Option<Seq<char>>,
    pub unions: Seq<char>,
    pub wheres: Seq<Seq<char>>,
    pub order_by: Seq<Seq<char>>,
    pub limit: Option<Seq<char>>,
    pub offset: Option<Seq<char>>,
    pub error: Option<ErrorModel>,
}

impl SelectModel {
    /// A statement over `table` with no other clause.
    pub open spec fn select_from(table: Seq<char>) -> SelectModel {
        SelectModel {
            table,
            joins: Seq::empty(),
            fields: Seq::empty(),
            group_by: Seq::empty(),
            having: None,
            unions: Seq::empty(),
            wheres: Seq::empty(),
            order_by: Seq::empty(),
            limit: None,
            offset: None,
            error: None,
        }
    }

    /// Records `e` unless a defect is recorded already.
    pub open spec fn failed(self, e: ErrorModel) -> SelectModel {
        SelectModel { error: if self.error is Some { self.error } else { Some(e) }, ..self }
    }

    pub open spec fn and_table(self, table: Seq<char>) -> SelectModel {
        SelectModel { table: self.table + ", "@ + table, ..self }
    }

    /// Adds the join `keyword` followed by `table`; `keyword` ends in a
    /// space.
    pub open spec fn add_join(self, keyword: Seq<char>, table: Seq<char>) -> SelectModel {
        SelectModel { joins: self.joins.push(keyword + table), ..self }
    }

    /// Appends ` ON constraint` to the last join; nothing without a join.
    pub open spec fn on(self, constraint: Seq<char>) -> SelectModel {
        if self.joins.len() == 0 {
            self
        } else {
            SelectModel {
                joins: self.joins.drop_last().push(self.joins.last() + " ON "@ + constraint),
                ..self
            }
        }
    }

    pub open spec fn fields(self, fields: Seq<Seq<char>>) -> SelectModel {
        SelectModel { fields: self.fields + fields, ..self }
    }

    pub open spec fn field(self, field: Seq<char>) -> SelectModel {
        SelectModel { fields: self.fields.push(field), ..self }
    }

    pub open spec fn group_by(self, field: Seq<char>) -> SelectModel {
        SelectModel { group_by: self.group_by.push(field), ..self }
    }

    pub open spec fn having(self, cond: Seq<char>) -> SelectModel {
        SelectModel { having: Some(cond), ..self }
    }

    /// Adds a condition; an empty one is a defect and adds nothing.
    pub open spec fn and_where(self, cond: Seq<char>) -> SelectModel {
        if cond.len() == 0 {
            self.failed(ErrorModel::NoWhereCond)
        } else {
            SelectModel { wheres: self.wheres.push(cond), ..self }
        }
    }

    /// Extends the last condition by ` OR cond`, or adds `cond` as the first
    /// condition; an empty one is a defect and changes no condition.
    pub open spec fn or_where(self, cond: Seq<char>) -> SelectModel {
        if cond.len() == 0 {
            self.failed(ErrorModel::NoWhereCond)
        } else if self.wheres.len() == 0 {
            SelectModel { wheres: self.wheres.push(cond), ..self }
        } else {
            SelectModel {
                wheres: self.wheres.drop_last().push(self.wheres.last() + " OR "@ + cond),
                ..self
            }
        }
    }

    pub open spec fn union(self, query: Seq<char>) -> SelectModel {
        SelectModel { unions: self.unions + " UNION "@ + query, ..self }
    }

    pub open spec fn union_all(self, query: Seq<char>) -> SelectModel {
        SelectModel { unions: self.unions + " UNION ALL "@ + query, ..self }
    }

    pub open spec fn order_by(self, field: Seq<char>) -> SelectModel {
        SelectModel { order_by: self.order_by.push(field), ..self }
    }

    pub open spec fn limit(self, limit: Seq<char>) -> SelectModel {
        SelectModel { limit: Some(limit), ..self }
    }

    pub open spec fn offset(self, offset: Seq<char>) -> SelectModel {
        SelectModel { offset: Some(offset), ..self }
    }

    /// The selected fields: `*` where none was named.
    pub open spec fn fields_text(self) -> Seq<char> {
        if self.fields.len() == 0 {
            "*"@
        } else {
            joined(self.fields, ", "@)
        }
    }

    pub open spec fn joins_text(self) -> Seq<char> {
        if self.joins.len() == 0 {
            Seq::empty()
        } else {
            " "@ + joined(self.joins, " "@)
        }
    }

    /// The `HAVING` part, which is written only after a `GROUP BY`.
    pub open spec fn having_text(self) -> Seq<char> {
        match self.having {
            Some(cond) => " HAVING "@ + cond,
            None => Seq::empty(),
        }
    }

    pub open spec fn group_text(self) -> Seq<char> {
        if self.group_by.len() == 0 {
            Seq::empty()
        } else {
            " GROUP BY "@ + joined(self.group_by, ", "@) + self.having_text()
        }
    }

    /// The `ORDER BY` part, which is left out of a statement with a union.
    pub open spec fn order_text(self) -> Seq<char> {
        if self.order_by.len() == 0 || self.unions.len() != 0 {
            Seq::empty()
        } else {
            " ORDER BY "@ + joined(self.order_by, ", "@)
        }
    }

    pub open spec fn limit_text(self) -> Seq<char> {
        match self.limit {
            Some(limit) => " LIMIT "@ + limit,
            None => Seq::empty(),
        }
    }

    pub open spec fn offset_text(self) -> Seq<char> {
        match self.offset {
            Some(offset) => " OFFSET "@ + offset,
            None => Seq::empty(),
        }
    }

    /// The statement text, without a terminator.
    pub open spec fn query_text(self) -> Seq<char> {
        "SELECT "@ + self.fields_text() + " FROM "@ + self.table + self.joins_text()
            + where_clause(self.wheres) + self.group_text() + self.unions + self.order_text()
            + self.limit_text() + self.offset_text()
    }

    /// What [`SelectBuilder::query`] returns: the recorded defect, or the
    /// statement text.
    pub open spec fn query_result(self) -> Result<Seq<char>, ErrorModel> {
        match self.error {
            Some(e) => Err(e),
            None => Ok(self.query_text()),
        }
    }

    /// What [`SelectBuilder::build`] returns: the recorded defect; without
    /// one, the defect of an empty table name; else the terminated
    /// statement.
    pub open spec fn build_result(self) -> Result<Seq<char>, ErrorModel> {
        match self.error {
            Some(e) => Err(e),
            None => if self.table.len() == 0 {
                Err(ErrorModel::NoTableName)
            } else {
                Ok(self.query_text().push(';'))
            },
        }
    }
}

/// One clause-adding operation on a `SELECT` statement, with its
/// arguments.
pub enum SelectOp {
    AndTable(Seq<char>),
    LeftJoin(Seq<char>),
    RightJoin(Seq<char>),
    InnerJoin(Seq<char>),
    CrossJoin(Seq<char>),
    Join(Seq<char>),
    On(Seq<char>),
    Fields(Seq<Seq<char>>),
    Field(Seq<char>),
    GroupBy(Seq<char>),
    Having(Seq<char>),
    AndWhere(Seq<char>),
    OrWhere(Seq<char>),
    Union(Seq<char>),
    UnionAll(Seq<char>),
    OrderBy(Seq<char>),
    Limit(Seq<char>),
    Offset(Seq<char>),
}

impl SelectModel {
    /// The statement after the operation `op`.
    pub open spec fn apply(self, op: SelectOp) -> SelectModel {
        match op {
            SelectOp::AndTable(table) => self.and_table(table),
            SelectOp::LeftJoin(table) => self.add_join("LEFT JOIN "@, table),
            SelectOp::RightJoin(table) => self.add_join("RIGHT JOIN "@, table),
            SelectOp::InnerJoin(table) => self.add_join("INNER JOIN "@, table),
            SelectOp::CrossJoin(table) => self.add_join("CROSS JOIN "@, table),
            SelectOp::Join(table) => self.add_join("JOIN "@, table),
            SelectOp::On(constraint) => self.on(constraint),
            SelectOp::Fields(fields) => self.fields(fields),
            SelectOp::Field(field) => self.field(field),
            SelectOp::GroupBy(field) => self.group_by(field),
            SelectOp::Having(cond) => self.having(cond),
            SelectOp::AndWhere(cond) => self.and_where(cond),
            SelectOp::OrWhere(cond) => self.or_where(cond),
            SelectOp::Union(query) => self.union(query),
            SelectOp::UnionAll(query) => self.union_all(query),
            SelectOp::OrderBy(field) => self.order_by(field),
            SelectOp::Limit(limit) => self.limit(limit),
            SelectOp::Offset(offset) => self.offset(offset),
        }
    }

    /// The statement after the operations `ops`, applied in order.
    pub open spec fn apply_all(self, ops: Seq<SelectOp>) -> SelectModel
        decreases ops.len(),
    {
        if ops.len() == 0 {
            self
        } else {
            self.apply_all(ops.drop_last()).apply(ops.last())
        }
    }
}

/// A recorded defect stays: whatever operations follow, the defect that was
/// recorded first is the one that both terminal operations report.
pub proof fn lemma_select_error_is_kept(m: SelectModel, ops: Seq<SelectOp>)
    requires
        m.error is Some,
    ensures
        m.apply_all(ops).error == m.error,
        m.apply_all(ops).build_result() == Err::<Seq<char>, ErrorModel>(m.error->0),
        m.apply_all(ops).query_result() == Err::<Seq<char>, ErrorModel>(m.error->0),
    decreases ops.len(),
{
    if ops.len() > 0 {
        lemma_select_error_is_kept(m, ops.drop_last());
    }
}

/// The only defect that a chain of operations records is the missing
/// condition.
pub proof fn lemma_select_records_missing_condition_only(table: Seq<char>, ops: Seq<SelectOp>)
    ensures
        SelectModel::select_from(table).apply_all(ops).error is None || SelectModel::select_from(
            table,
        ).apply_all(ops).error == Some(ErrorModel::NoWhereCond),
    decreases ops.len(),
{
    if ops.len() > 0 {
        lemma_select_records_missing_condition_only(table, ops.drop_last());
    }
}

/// An empty condition is reported at the end: whatever operations come
/// before it and after it, building reports the missing condition, and
/// neither a statement text nor another defect.
pub proof fn lemma_select_empty_condition_is_reported(
    table: Seq<char>,
    before: Seq<SelectOp>,
    after: Seq<SelectOp>,
)
    ensures
        SelectModel::select_from(table).apply_all(before).and_where(Seq::empty()).apply_all(
            after,
        ).build_result() == Err::<Seq<char>, ErrorModel>(ErrorModel::NoWhereCond),
        SelectModel::select_from(table).apply_all(before).or_where(Seq::empty()).apply_all(
            after,
        ).build_result() == Err::<Seq<char>, ErrorModel>(ErrorModel::NoWhereCond),
{
    let m = SelectModel::select_from(table).apply_all(before);
    lemma_select_records_missing_condition_only(table, before);
    lemma_select_error_is_kept(m.and_where(Seq::empty()), after);
    lemma_select_error_is_kept(m.or_where(Seq::empty()), after);
}

/// An operation that records a defect changes no clause.
pub proof fn lemma_select_defect_changes_no_clause(m: SelectModel, op: SelectOp)
    requires
        m.apply(op).error != m.error,
    ensures
        m.apply(op) == (SelectModel { error: m.apply(op).error, ..m }),
{
}

impl View for SelectBuilder {
    type V = SelectModel;

    closed spec fn view(&self) -> SelectModel {
        SelectModel {
            table: self.table@,
            joins: texts(self.joins@),
            fields: texts(self.fields@),
            group_by: texts(self.group_by@),
            having: opt_text(self.having),
            unions: self.unions@,
            wheres: texts(self.wheres@),
            order_by: texts(self.order_by@),
            limit: opt_text(self.limit),
            offset: opt_text(self.offset),
            error: error_model(self.error),
        }
    }
}

/// A copy is a builder of its own with the same clauses.
impl Clone for SelectBuilder {
    fn clone(&self) -> (r: Self)
        ensures
            r@ == self@,
    {
        let r = SelectBuilder {
            table: self.table.clone(),
            joins: clone_texts(&self.joins),
            fields: clone_texts(&self.fields),
            group_by: clone_texts(&self.group_by),
            having: clone_opt_text(&self.having),
            unions: self.unions.clone(),
            wheres: clone_texts(&self.wheres),
            order_by: clone_texts(&self.order_by),
            limit: clone_opt_text(&self.limit),
            offset: clone_opt_text(&self.offset),
            error: clone_error(&self.error),
        };
        assert(r@ =~= self@);
        r
    }
}

impl SelectBuilder {
    fn default() -> (r: Self)
        ensures
            r@ == SelectModel::select_from(Seq::empty()),
    {
        let r = SelectBuilder {
            table: String::new(),
            joins: Vec::new(),
            fields: Vec::new(),
            group_by: Vec::new(),
            having: None,
            unions: String::new(),
            wheres: Vec::new(),
            order_by: Vec::new(),
            limit: None,
            offset: None,
            error: None,
        };
        assert(r@ =~= SelectModel::select_from(Seq::empty()));
        r
    }

    /// Starts a statement that selects from `table`.
    pub fn select_from<S: ToText>(table: S) -> (r: Self)
        ensures
            r@ == SelectModel::select_from(table.text()),
    {
        let mut r = Self::default();
        r.table = table.to_text();
        assert(r@ =~= SelectModel::select_from(table.text()));
        r
    }

    /// Adds `table` to the tables selected from.
    pub fn and_table<S: ToText>(&mut self, table: S) -> (ret: &mut Self)
        ensures
            ret@ == old(self)@.and_table(table.text()),
            *final(self) == *final(ret),
    {
        self.table.append(", ");
        self.table.append(table.to_text().as_str());
        assert(self@ =~= old(self)@.and_table(table.text()));
        self
    }

    /// Adds a join that consists of `keyword` and `table`.
    fn add_join(&mut self, keyword: &str, table: &str)
        ensures
            final(self)@ == old(self)@.add_join(keyword@, table@),
    {
        let mut text = String::from_str(keyword);
        text.append(table);
        self.joins.push(text);
        assert(self@ =~= old(self)@.add_join(keyword@, table@));
    }

    /// Adds `LEFT JOIN table`.
    pub fn left_join<S: ToText>(&mut self, table: S) -> (ret: &mut Self)
        ensures
            ret@ == old(self)@.add_join("LEFT JOIN "@, table.text()),
            *final(self) == *final(ret),
    {
        self.add_join("LEFT JOIN ", table.to_text().as_str());
        self
    }

    /// Adds `RIGHT JOIN table`.
    pub fn right_join<S: ToText>(&mut self, table: S) -> (ret: &mut Self)
        ensures
            ret@ == old(self)@.add_join("RIGHT JOIN "@, table.text()),
            *final(self) == *final(ret),
    {
        self.add_join("RIGHT JOIN ", table.to_text().as_str());
        self
    }

    /// Adds `INNER JOIN table`.
    pub fn inner_join<S: ToText>(&mut self, table: S) -> (ret: &mut Self)
        ensures
            ret@ == old(self)@.add_join("INNER JOIN "@, table.text()),
            *final(self) == *final(ret),
    {
        self.add_join("INNER JOIN ", table.to_text().as_str());
        self
    }

    /// Adds `CROSS JOIN table`.
    pub fn cross_join<S: ToText>(&mut self, table: S) -> (ret: &mut Self)
        ensures
            ret@ == old(self)@.add_join("CROSS JOIN "@, table.text()),
            *final(self) == *final(ret),
    {
        self.add_join("CROSS JOIN ", table.to_text().as_str());
        self
    }

    /// Adds `JOIN table`.
    pub fn join<S: ToText>(&mut self, table: S) -> (ret: &mut Self)
        ensures
            ret@ == old(self)@.add_join("JOIN "@, table.text()),
            *final(self) == *final(ret),
    {
        self.add_join("JOIN ", table.to_text().as_str());
        self
    }

    /// Appends ` ON constraint` to the join added last; does nothing where
    /// no join was added.
    pub fn on<S: ToText>(&mut self, constraint: S) -> (ret: &mut Self)
        ensures
            ret@ == old(self)@.on(constraint.text()),
            *final(self) == *final(ret),
    {
        if let Some(mut last) = self.joins.pop() {
            last.append(" ON ");
            last.append(constraint.to_text().as_str());
            self.joins.push(last);
        }
        assert(self@ =~= old(self)@.on(constraint.text()));
        self
    }

    /// Adds `fields`, in order, to the selected fields.
    pub fn fields<S: ToText>(&mut self, fields: &[S]) -> (ret: &mut Self)
        ensures
            ret@ == old(self)@.fields(item_texts(fields@)),
            *final(self) == *final(ret),
    {
        let mut added = texts_of(fields);
        let ghost before = self.fields@;
        self.fields.append(&mut added);
        assert(texts(self.fields@) =~= texts(before) + item_texts(fields@));
        assert(self@ =~= old(self)@.fields(item_texts(fields@)));
        self
    }

    /// Adds `field` to the selected fields.
    pub fn field<S: ToText>(&mut self, field: S) -> (ret: &mut Self)
        ensures
            ret@ == old(self)@.field(field.text()),
            *final(self) == *final(ret),
    {
        self.fields.push(field.to_text());
        assert(self@ =~= old(self)@.field(field.text()));
        self
    }

    /// Adds `field` to the fields grouped by.
    pub fn group_by<S: ToText>(&mut self, field: S) -> (ret: &mut Self)
        ensures
            ret@ == old(self)@.group_by(field.text()),
            *final(self) == *final(ret),
    {
        self.group_by.push(field.to_text());
        assert(self@ =~= old(self)@.group_by(field.text()));
        self
    }

    /// Sets the condition on groups.
    pub fn having<S: ToText>(&mut self, cond: S) -> (ret: &mut Self)
        ensures
            ret@ == old(self)@.having(cond.text()),
            *final(self) == *final(ret),
    {
        self.having = Some(cond.to_text());
        assert(self@ =~= old(self)@.having(cond.text()));
        self
    }

    /// Records `err` unless a defect is recorded already.
    fn set_error(&mut self, err: SqlBuilderError)
        ensures
            final(self)@ == old(self)@.failed(err@),
    {
        if self.error.is_none() {
            self.error = Some(err);
        }
        assert(self@ =~= old(self)@.failed(err@));
    }

    /// Adds the condition `cond`, to hold together with those added before.
    /// An empty `cond` is recorded as a defect and adds no condition.
    pub fn and_where<S: ToText>(&mut self, cond: S) -> (ret: &mut Self)
        ensures
            ret@ == old(self)@.and_where(cond.text()),
            *final(self) == *final(ret),
    {
        let cond = cond.to_text();
        if cond.as_str().is_empty() {
            self.set_error(SqlBuilderError::NoWhereCond);
            return self;
        }
        self.wheres.push(cond);
        assert(self@ =~= old(self)@.and_where(cond@));
        self
    }

    /// Extends the condition added last by ` OR cond`; where there is none,
    /// adds `cond`. An empty `cond` is recorded as a defect and changes no
    /// condition.
    pub fn or_where<S: ToText>(&mut self, cond: S) -> (ret: &mut Self)
        ensures
            ret@ == old(self)@.or_where(cond.text()),
            *final(self) == *final(ret),
    {
        let cond = cond.to_text();
        if cond.as_str().is_empty() {
            self.set_error(SqlBuilderError::NoWhereCond);
            return self;
        }
        match self.wheres.pop() {
            Some(mut last) => {
                last.append(" OR ");
                last.append(cond.as_str());
                self.wheres.push(last);
            },
            None => {
                self.wheres.push(cond);
            },
        }
        assert(self@ =~= old(self)@.or_where(cond@));
        self
    }

    /// Appends ` UNION query`.
    pub fn union<S: ToText>(&mut self, query: S) -> (ret: &mut Self)
        ensures
            ret@ == old(self)@.union(query.text()),
            *final(self) == *final(ret),
    {
        self.unions.append(" UNION ");
        self.unions.append(query.to_text().as_str());
        assert(self@ =~= old(self)@.union(query.text()));
        self
    }

    /// Appends ` UNION ALL query`.
    pub fn union_all<S: ToText>(&mut self, query: S) -> (ret: &mut Self)
        ensures
            ret@ == old(self)@.union_all(query.text()),
            *final(self) == *final(ret),
    {
        self.unions.append(" UNION ALL ");
        self.unions.append(query.to_text().as_str());
        assert(self@ =~= old(self)@.union_all(query.text()));
        self
    }

    /// Adds `field` to the fields ordered by.
    pub fn order_by<S: ToText>(&mut self, field: S) -> (ret: &mut Self)
        ensures
            ret@ == old(self)@.order_by(field.text()),
            *final(self) == *final(ret),
    {
        self.order_by.push(field.to_text());
        assert(self@ =~= old(self)@.order_by(field.text()));
        self
    }

    /// Sets the limit.
    pub fn limit<S: ToText>(&mut self, limit: S) -> (ret: &mut Self)
        ensures
            ret@ == old(self)@.limit(limit.text()),
            *final(self) == *final(ret),
    {
        self.limit = Some(limit.to_text());
        assert(self@ =~= old(self)@.limit(limit.text()));
        self
    }

    /// Sets the offset.
    pub fn offset<S: ToText>(&mut self, offset: S) -> (ret: &mut Self)
        ensures
            ret@ == old(self)@.offset(offset.text()),
            *final(self) == *final(ret),
    {
        self.offset = Some(offset.to_text());
        assert(self@ =~= old(self)@.offset(offset.text()));
        self
    }

    /// The recorded defect, or the statement text without a terminator.
    pub fn query(&self) -> (r: Result<String, SqlBuilderError>)
        ensures
            outcome(r) == self@.query_result(),
    {
        if let Some(err) = &self.error {
            return Err(err.clone());
        }
        let fields = if self.fields.len() == 0 {
            String::from_str("*")
        } else {
            join(&self.fields, ", ")
        };
        let joins = if self.joins.len() == 0 {
            String::new()
        } else {
            let mut joins = String::from_str(" ");
            joins.append(join(&self.joins, " ").as_str());
            joins
        };
        let group_by = if self.group_by.len() == 0 {
            String::new()
        } else {
            let mut group_by = String::from_str(" GROUP BY ");
            group_by.append(join(&self.group_by, ", ").as_str());
            if let Some(having) = &self.having {
                let mut text = String::from_str(" HAVING ");
                text.append(having.as_str());
                group_by.append(text.as_str());
            }
            group_by
        };
        let wheres = make_wheres(&self.wheres);
        let order_by = if self.order_by.len() == 0 || !self.unions.as_str().is_empty() {
            String::new()
        } else {
            let mut order_by = String::from_str(" ORDER BY ");
            order_by.append(join(&self.order_by, ", ").as_str());
            order_by
        };
        let limit = match &self.limit {
            Some(limit) => {
                let mut text = String::from_str(" LIMIT ");
                text.append(limit.as_str());
                text
            },
            None => String::new(),
        };
        let offset = match &self.offset {
            Some(offset) => {
                let mut text = String::from_str(" OFFSET ");
                text.append(offset.as_str());
                text
            },
            None => String::new(),
        };
        let mut sql = String::from_str("SELECT ");
        sql.append(fields.as_str());
        sql.append(" FROM ");
        sql.append(self.table.as_str());
        sql.append(joins.as_str());
        sql.append(wheres.as_str());
        sql.append(group_by.as_str());
        sql.append(self.unions.as_str());
        sql.append(order_by.as_str());
        sql.append(limit.as_str());
        sql.append(offset.as_str());
        Ok(sql)
    }

    /// The recorded defect; without one, the defect of an empty table name;
    /// else the statement text, terminated by a semicolon.
    pub fn build(&self) -> (r: Result<String, SqlBuilderError>)
        ensures
            outcome(r) == self@.build_result(),
    {
        if let Some(err) = &self.error {
            return Err(err.clone());
        }
        if self.table.as_str().is_empty() {
            return Err(SqlBuilderError::NoTableName);
        }
        match self.query() {
            Ok(mut text) => {
                text.push(';');
                Ok(text)
            },
            Err(e) => Err(e),
        }
    }
}

} // verus!
