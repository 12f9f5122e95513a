//! Predicates: the builder of a single condition, the combinators on
//! condition texts, and the assembly of a `WHERE` clause from its
//! conditions.

use vstd::prelude::*;
use crate::error::{clone_error, error_model, outcome, ErrorModel, SqlBuilderError};
use crate::text::{item_texts, join, join_items, joined, texts, ToText};

verus! {

/// Each of `parts` between round brackets.
pub open spec fn bracketed(parts: Seq<Seq<char>>) -> Seq<Seq<char>> {
    Seq::new(parts.len(), |i: int| "("@ + parts[i] + ")"@)
}

/// The `WHERE` clause of a statement with the conditions `wheres`: nothing
/// without a condition, the bare condition where there is one, and
/// otherwise every condition in brackets, joined by `AND`.
pub open spec fn where_clause(wheres: Seq<Seq<char>>) -> Seq<char> {
    if wheres.len() == 0 {
        Seq::empty()
    } else if wheres.len() == 1 {
        " WHERE "@ + wheres[0]
    } else {
        " WHERE "@ + joined(bracketed(wheres), " AND "@)
    }
}

/// The shapes of the `WHERE` clause: it is absent without a condition, a
/// single condition stands in it bare, and two conditions stand in it in
/// brackets with `AND` between them.
pub proof fn lemma_where_clause_shapes(a: Seq<char>, b: Seq<char>)
    ensures
        where_clause(Seq::empty()) == Seq::<char>::empty(),
        where_clause(seq![a]) == " WHERE "@ + a,
        where_clause(seq![a, b]) == " WHERE "@ + ("("@ + a + ")"@ + " AND "@ + ("("@ + b + ")"@)),
{
    let both = bracketed(seq![a, b]);
    assert(both.drop_last() == seq!["("@ + a + ")"@]);
    assert(joined(both.drop_last(), " AND "@) == "("@ + a + ")"@);
    assert(both.last() == "("@ + b + ")"@);
}

/// Assembles the `WHERE` clause of a statement, with its leading space.
pub fn make_wheres(wheres: &Vec<String>) -> (out: String)
    ensures
        out@ == where_clause(texts(wheres@)),
{
    let n = wheres.len();
    if n == 0 {
        String::new()
    } else if n == 1 {
        let mut out = String::from_str(" WHERE ");
        out.append(wheres[0].as_str());
        out
    } else {
        let mut parts: Vec<String> = Vec::new();
        let mut i: usize = 0;
        while i < n
            invariant
                n == wheres.len(),
                i <= n,
                parts.len() == i,
                texts(parts@) == bracketed(texts(wheres@)).take(i as int),
            decreases n - i,
        {
            let mut part = String::from_str("(");
            part.append(wheres[i].as_str());
            part.append(")");
            parts.push(part);
            i += 1;
            assert(texts(parts@) =~= bracketed(texts(wheres@)).take(i as int));
        }
        assert(texts(parts@) =~= bracketed(texts(wheres@)));
        let all = join(&parts, " AND ");
        let mut out = String::from_str(" WHERE ");
        out.append(all.as_str());
        out
    }
}

/// The conditions `conds`, to hold together: each in round brackets,
/// joined by `AND`.
pub open spec fn and_text(conds: Seq<Seq<char>>) -> Seq<char> {
    "("@ + joined(conds, ") AND ("@) + ")"@
}

/// The conditions `conds`, one of which is to hold: joined by `OR`.
pub open spec fn or_text(conds: Seq<Seq<char>>) -> Seq<char> {
    joined(conds, " OR "@)
}

/// The negation of the condition `cond`.
pub open spec fn not_text(cond: Seq<char>) -> Seq<char> {
    "NOT "@ + cond
}

/// The list of `items` in round brackets, separated by `, `.
pub open spec fn brackets_text(items: Seq<Seq<char>>) -> Seq<char> {
    "("@ + joined(items, ", "@) + ")"@
}

/// The conditions `conds`, to hold together.
pub fn and<S: ToText>(conds: &[S]) -> (out: String)
    ensures
        out@ == and_text(item_texts(conds@)),
{
    let mut out = String::from_str("(");
    out.append(join_items(conds, ") AND (").as_str());
    out.append(")");
    out
}

/// The conditions `conds`, one of which is to hold.
pub fn or<S: ToText>(conds: &[S]) -> (out: String)
    ensures
        out@ == or_text(item_texts(conds@)),
{
    join_items(conds, " OR ")
}

/// The negation of the condition `cond`.
pub fn not<S: ToText>(cond: S) -> (out: String)
    ensures
        out@ == not_text(cond.text()),
{
    let mut out = String::from_str("NOT ");
    out.append(cond.to_text().as_str());
    out
}

/// The list of `items` in round brackets.
pub fn brackets<S: ToText>(items: &[S]) -> (out: String)
    ensures
        out@ == brackets_text(item_texts(items@)),
{
    let mut out = String::from_str("(");
    out.append(join_items(items, ", ").as_str());
    out.append(")");
    out
}

/// Builds one condition, step by step. A step that breaks a rule changes
/// no text; the first such defect is recorded instead and reported by
/// [`Where::build`].
pub struct Where {
    text: String,
    error: Option<SqlBuilderError>,
    was_and: bool,
}

/// The mathematical value of a [`Where`]: the text so far, the first defect
/// recorded, if any, and whether the text is a conjunction already.
#[verifier::ext_equal]
pub struct WhereModel {
    pub text: Seq<char>,
    pub error: Option<ErrorModel>,
    pub was_and: bool,
}

impl WhereModel {
    /// The condition without text.
    pub open spec fn empty() -> WhereModel {
        WhereModel { text: Seq::empty(), error: None, was_and: false }
    }

    /// The condition that starts with `text`; an empty `text` is a defect.
    pub open spec fn new(text: Seq<char>) -> WhereModel {
        if text.len() == 0 {
            WhereModel::empty().failed(ErrorModel::NoWhereField)
        } else {
            WhereModel { text, ..WhereModel::empty() }
        }
    }

    /// Records `e` unless a defect is recorded already.
    pub open spec fn failed(self, e: ErrorModel) -> WhereModel {
        WhereModel { error: if self.error is Some { self.error } else { Some(e) }, ..self }
    }

    /// Puts the text in round brackets; a defect on an empty text.
    pub open spec fn in_brackets(self) -> WhereModel {
        if self.text.len() == 0 {
            self.failed(ErrorModel::NoWhereField)
        } else {
            WhereModel { text: "("@ + self.text + ")"@, ..self }
        }
    }

    /// Negates the text; a defect on an empty text.
    pub open spec fn not(self) -> WhereModel {
        if self.text.len() == 0 {
            self.failed(ErrorModel::NoWhereField)
        } else {
            WhereModel { text: "NOT "@ + self.text, ..self }
        }
    }

    /// The text in round brackets, unless it is a conjunction already.
    pub open spec fn conjunct(self) -> Seq<char> {
        if self.was_and {
            self.text
        } else {
            "("@ + self.text + ")"@
        }
    }

    /// Adds `cond`, in round brackets, as a further conjunct. An empty text
    /// is a defect, and so is an empty `cond`.
    pub open spec fn and(self, cond: Seq<char>) -> WhereModel {
        if self.text.len() == 0 {
            self.failed(ErrorModel::NoWhereField)
        } else if cond.len() == 0 {
            self.failed(ErrorModel::NoWhereValue(self.text))
        } else {
            WhereModel { text: self.conjunct() + " AND ("@ + cond + ")"@, was_and: true, ..self }
        }
    }

    /// Adds `cond` as an alternative. An empty text is a defect, and so is
    /// an empty `cond`.
    pub open spec fn or(self, cond: Seq<char>) -> WhereModel {
        if self.text.len() == 0 {
            self.failed(ErrorModel::NoWhereField)
        } else if cond.len() == 0 {
            self.failed(ErrorModel::NoWhereValue(self.text))
        } else {
            WhereModel { text: self.text + " OR "@ + cond, ..self }
        }
    }

    /// Appends the operator `op`, which has a space on either side, and the
    /// operand `value`; an empty operand is a defect.
    pub open spec fn compared(self, op: Seq<char>, value: Seq<char>) -> WhereModel {
        if value.len() == 0 {
            self.failed(ErrorModel::NoWhereValue(self.text))
        } else {
            WhereModel { text: self.text + op + value, ..self }
        }
    }

    /// Appends the test for membership in `items`; an empty list is a
    /// defect.
    pub open spec fn is_in(self, items: Seq<Seq<char>>) -> WhereModel {
        if items.len() == 0 {
            self.failed(ErrorModel::NoWhereValue(self.text))
        } else {
            WhereModel { text: self.text + " in ("@ + joined(items, ", "@) + ")"@, ..self }
        }
    }

    /// Appends the test for the range from `min` to `max`; an empty bound
    /// is a defect.
    pub open spec fn between(self, min: Seq<char>, max: Seq<char>) -> WhereModel {
        if min.len() == 0 || max.len() == 0 {
            self.failed(ErrorModel::NoWhereValue(self.text))
        } else {
            WhereModel { text: self.text + " BETWEEN "@ + min + " AND "@ + max, ..self }
        }
    }

    /// Appends `suffix`.
    pub open spec fn followed_by(self, suffix: Seq<char>) -> WhereModel {
        WhereModel { text: self.text + suffix, ..self }
    }

    /// What [`Where::build`] returns: the recorded defect, or the text.
    pub open spec fn build_result(self) -> Result<Seq<char>, ErrorModel> {
        match self.error {
            Some(e) => Err(e),
            None => Ok(self.text),
        }
    }
}

/// One step in the building of a condition, with its arguments.
pub enum WhereOp {
    InBrackets,
    Not,
    And(Seq<char>),
    Or(Seq<char>),
    Compared(Seq<char>, Seq<char>),
    IsIn(Seq<Seq<char>>),
    Between(Seq<char>, Seq<char>),
    FollowedBy(Seq<char>),
}

impl WhereModel {
    /// The condition after the step `op`.
    pub open spec fn apply(self, op: WhereOp) -> WhereModel {
        match op {
            WhereOp::InBrackets => self.in_brackets(),
            WhereOp::Not => self.not(),
            WhereOp::And(cond) => self.and(cond),
            WhereOp::Or(cond) => self.or(cond),
            WhereOp::Compared(op, value) => self.compared(op, value),
            WhereOp::IsIn(items) => self.is_in(items),
            WhereOp::Between(min, max) => self.between(min, max),
            WhereOp::FollowedBy(suffix) => self.followed_by(suffix),
        }
    }

    /// The condition after the steps `ops`, applied in order.
    pub open spec fn apply_all(self, ops: Seq<WhereOp>) -> WhereModel
        decreases ops.len(),
    {
        if ops.len() == 0 {
            self
        } else {
            self.apply_all(ops.drop_last()).apply(ops.last())
        }
    }
}

/// A recorded defect stays: whatever steps follow, the defect that was
/// recorded first is the one that building reports.
pub proof fn lemma_where_error_is_kept(m: WhereModel, ops: Seq<WhereOp>)
    requires
        m.error is Some,
    ensures
        m.apply_all(ops).error == m.error,
        m.apply_all(ops).build_result() == Err::<Seq<char>, ErrorModel>(m.error->0),
    decreases ops.len(),
{
    if ops.len() > 0 {
        lemma_where_error_is_kept(m, ops.drop_last());
    }
}

/// A step that records a defect changes no text.
pub proof fn lemma_where_defect_changes_no_text(m: WhereModel, op: WhereOp)
    requires
        m.apply(op).error != m.error,
    ensures
        m.apply(op) == (WhereModel { error: m.apply(op).error, ..m }),
{
}

impl View for Where {
    type V = WhereModel;

    closed spec fn view(&self) -> WhereModel {
        WhereModel { text: self.text@, error: error_model(self.error), was_and: self.was_and }
    }
}

impl Where {
    /// Starts a condition with `smth`. An empty `smth` is recorded as a
    /// defect.
    pub fn new<S: ToText>(smth: S) -> (r: Self)
        ensures
            r@ == WhereModel::new(smth.text()),
    {
        let text = smth.to_text();
        let mut r = Self::empty();
        if text.as_str().is_empty() {
            r.set_error(SqlBuilderError::NoWhereField);
        } else {
            r.text = text;
        }
        assert(r@ =~= WhereModel::new(smth.text()));
        r
    }

    /// Starts a condition without text.
    pub fn empty() -> (r: Self)
        ensures
            r@ == WhereModel::empty(),
    {
        Where { text: String::new(), error: None, was_and: false }
    }

    /// Records `err` unless a defect is recorded already.
    fn set_error(&mut self, err: SqlBuilderError)
        ensures
            final(self)@ == old(self)@.failed(err@),
    {
        if self.error.is_none() {
            self.error = Some(err);
        }
        assert(self@ =~= old(self)@.failed(err@));
    }

    /// Records that an operand is missing, with the text built so far.
    fn set_no_value(&mut self)
        ensures
            final(self)@ == old(self)@.failed(ErrorModel::NoWhereValue(old(self)@.text)),
    {
        let context = self.text.clone();
        self.set_error(SqlBuilderError::NoWhereValue(context));
    }

    /// Puts the text in round brackets. On an empty text this is recorded as
    /// a defect.
    pub fn in_brackets(&mut self) -> (ret: &mut Self)
        ensures
            ret@ == old(self)@.in_brackets(),
            *final(self) == *final(ret),
    {
        if self.text.as_str().is_empty() {
            self.set_error(SqlBuilderError::NoWhereField);
            return self;
        }
        let mut text = String::from_str("(");
        text.append(self.text.as_str());
        text.append(")");
        self.text = text;
        assert(self@ =~= old(self)@.in_brackets());
        self
    }

    /// Negates the text. On an empty text this is recorded as a defect.
    pub fn not(&mut self) -> (ret: &mut Self)
        ensures
            ret@ == old(self)@.not(),
            *final(self) == *final(ret),
    {
        if self.text.as_str().is_empty() {
            self.set_error(SqlBuilderError::NoWhereField);
            return self;
        }
        let mut text = String::from_str("NOT ");
        text.append(self.text.as_str());
        self.text = text;
        assert(self@ =~= old(self)@.not());
        self
    }

    /// Adds `smth`, in round brackets, as a further conjunct; the text so
    /// far is put in round brackets first, unless it is a conjunction
    /// already. An empty text is recorded as a defect, and so is an empty
    /// `smth`.
    pub fn and<S: ToText>(&mut self, smth: S) -> (ret: &mut Self)
        ensures
            ret@ == old(self)@.and(smth.text()),
            *final(self) == *final(ret),
    {
        if self.text.as_str().is_empty() {
            self.set_error(SqlBuilderError::NoWhereField);
            return self;
        }
        let smth = smth.to_text();
        if smth.as_str().is_empty() {
            self.set_no_value();
            return self;
        }
        if !self.was_and {
            let mut text = String::from_str("(");
            text.append(self.text.as_str());
            text.append(")");
            self.text = text;
            self.was_and = true;
        }
        self.text.append(" AND (");
        self.text.append(smth.as_str());
        self.text.append(")");
        assert(self@ =~= old(self)@.and(smth@));
        self
    }

    /// Adds `smth` as an alternative. An empty text is recorded as a defect,
    /// and so is an empty `smth`.
    pub fn or<S: ToText>(&mut self, smth: S) -> (ret: &mut Self)
        ensures
            ret@ == old(self)@.or(smth.text()),
            *final(self) == *final(ret),
    {
        if self.text.as_str().is_empty() {
            self.set_error(SqlBuilderError::NoWhereField);
            return self;
        }
        let smth = smth.to_text();
        if smth.as_str().is_empty() {
            self.set_no_value();
            return self;
        }
        self.text.append(" OR ");
        self.text.append(smth.as_str());
        assert(self@ =~= old(self)@.or(smth@));
        self
    }

    /// Appends the operator `op` and the operand `smth`.
    fn compare(&mut self, op: &str, smth: &str)
        ensures
            final(self)@ == old(self)@.compared(op@, smth@),
    {
        if smth.is_empty() {
            self.set_no_value();
        } else {
            self.text.append(op);
            self.text.append(smth);
            assert(self@ =~= old(self)@.compared(op@, smth@));
        }
    }

    /// Appends ` = smth`. An empty `smth` is recorded as a defect.
    pub fn eq<S: ToText>(&mut self, smth: S) -> (ret: &mut Self)
        ensures
            ret@ == old(self)@.compared(" = "@, smth.text()),
            *final(self) == *final(ret),
    {
        self.compare(" = ", smth.to_text().as_str());
        self
    }

    /// Appends ` <> smth`. An empty `smth` is recorded as a defect.
    pub fn ne<S: ToText>(&mut self, smth: S) -> (ret: &mut Self)
        ensures
            ret@ == old(self)@.compared(" <> "@, smth.text()),
            *final(self) == *final(ret),
    {
        self.compare(" <> ", smth.to_text().as_str());
        self
    }

    /// Appends ` in (..)` with the items of `smth`, separated by `, `. An
    /// empty list is recorded as a defect.
    pub fn is_in<S: ToText>(&mut self, smth: Vec<S>) -> (ret: &mut Self)
        ensures
            ret@ == old(self)@.is_in(item_texts(smth@)),
            *final(self) == *final(ret),
    {
        if smth.len() == 0 {
            self.set_no_value();
            return self;
        }
        self.text.append(" in (");
        self.text.append(join_items(smth.as_slice(), ", ").as_str());
        self.text.append(")");
        assert(self@ =~= old(self)@.is_in(item_texts(smth@)));
        self
    }

    /// Appends ` BETWEEN min AND max`. An empty bound is recorded as a
    /// defect.
    pub fn between<S: ToText>(&mut self, min: S, max: S) -> (ret: &mut Self)
        ensures
            ret@ == old(self)@.between(min.text(), max.text()),
            *final(self) == *final(ret),
    {
        let min = min.to_text();
        let max = max.to_text();
        if min.as_str().is_empty() || max.as_str().is_empty() {
            self.set_no_value();
            return self;
        }
        self.text.append(" BETWEEN ");
        self.text.append(min.as_str());
        self.text.append(" AND ");
        self.text.append(max.as_str());
        assert(self@ =~= old(self)@.between(min@, max@));
        self
    }

    /// Appends ` IS NULL`.
    pub fn is_null(&mut self) -> (ret: &mut Self)
        ensures
            ret@ == old(self)@.followed_by(" IS NULL"@),
            *final(self) == *final(ret),
    {
        self.text.append(" IS NULL");
        assert(self@ =~= old(self)@.followed_by(" IS NULL"@));
        self
    }

    /// Appends ` IS NOT NULL`.
    pub fn not_null(&mut self) -> (ret: &mut Self)
        ensures
            ret@ == old(self)@.followed_by(" IS NOT NULL"@),
            *final(self) == *final(ret),
    {
        self.text.append(" IS NOT NULL");
        assert(self@ =~= old(self)@.followed_by(" IS NOT NULL"@));
        self
    }

    /// Appends ` < smth`. An empty `smth` is recorded as a defect.
    pub fn lower_then(&mut self, smth: &str) -> (ret: &mut Self)
        ensures
            ret@ == old(self)@.compared(" < "@, smth@),
            *final(self) == *final(ret),
    {
        self.compare(" < ", smth);
        self
    }

    /// Appends ` <= smth`. An empty `smth` is recorded as a defect.
    pub fn lower_equal(&mut self, smth: &str) -> (ret: &mut Self)
        ensures
            ret@ == old(self)@.compared(" <= "@, smth@),
            *final(self) == *final(ret),
    {
        self.compare(" <= ", smth);
        self
    }

    /// Appends ` > smth`. An empty `smth` is recorded as a defect.
    pub fn greater_then(&mut self, smth: &str) -> (ret: &mut Self)
        ensures
            ret@ == old(self)@.compared(" > "@, smth@),
            *final(self) == *final(ret),
    {
        self.compare(" > ", smth);
        self
    }

    /// Appends ` >= smth`. An empty `smth` is recorded as a defect.
    pub fn greater_equal(&mut self, smth: &str) -> (ret: &mut Self)
        ensures
            ret@ == old(self)@.compared(" >= "@, smth@),
            *final(self) == *final(ret),
    {
        self.compare(" >= ", smth);
        self
    }

    /// The recorded defect, or the text of the condition.
    pub fn build(&self) -> (r: Result<String, SqlBuilderError>)
        ensures
            outcome(r) == self@.build_result(),
    {
        match &self.error {
            Some(err) => Err(err.clone()),
            None => Ok(self.text.clone()),
        }
    }

    /// The text built so far, whether or not a defect is recorded.
    pub fn to_string(&self) -> (out: String)
        ensures
            out@ == self@.text,
    {
        self.text.clone()
    }
}

/// A copy is a condition of its own with the same text.
impl Clone for Where {
    fn clone(&self) -> (r: Self)
        ensures
            r@ == self@,
    {
        Where {
            text: self.text.clone(),
            error: clone_error(&self.error),
            was_and: self.was_and,
        }
    }
}

impl Default for Where {
    fn default() -> (r: Self)
        ensures
            r@ == WhereModel::empty(),
    {
        Where::empty()
    }
}

/// A condition has the text built so far as its plain text.
impl ToText for Where {
    open spec fn text(&self) -> Seq<char> {
        self@.text
    }

    fn to_text(&self) -> (out: String) {
        self.to_string()
    }
}

} // verus!
