//! The builder of `INSERT` statements.

use vstd::prelude::*;
use crate::arg::SqlArg;
use crate::text::ToText;

verus! {

/// Accumulates the fields of an `INSERT` statement and their values.
#[derive(Debug)]
pub struct Insert {
    table_name: String,
    fields: String,
    values: String,
}

/// The mathematical value of an [`Insert`]: the table, and the lists of
/// fields and of values as they will stand in the statement.
#[verifier::ext_equal]
pub struct InsertModel {
    pub table_name: Seq<char>,
    pub fields: Seq<char>,
    pub values: Seq<char>,
}

impl InsertModel {
    /// A statement into `table_name` without fields.
    pub open spec fn into_table(table_name: Seq<char>) -> InsertModel {
        InsertModel { table_name, fields: Seq::empty(), values: Seq::empty() }
    }

    /// Adds the field `field_name` and its value, `value` being SQL text.
    /// The first field is written as it is; each later one in backticks,
    /// after a comma.
    pub open spec fn field_value(self, field_name: Seq<char>, value: Seq<char>) -> InsertModel {
        if self.fields.len() > 0 {
            InsertModel {
                fields: self.fields + ", `"@ + field_name + "`"@,
                values: self.values + ", "@ + value,
                ..self
            }
        } else {
            InsertModel { fields: self.fields + field_name, values: self.values + value, ..self }
        }
    }

    pub open spec fn reset_table(self, table_name: Seq<char>) -> InsertModel {
        InsertModel { table_name, ..self }
    }

    /// The statement text, terminated by a semicolon.
    pub open spec fn statement_text(self) -> Seq<char> {
        ("INSERT INTO `"@ + self.table_name + "` ("@ + self.fields + ") VALUES ("@ + self.values
            + ")"@).push(';')
    }
}

impl View for Insert {
    type V = InsertModel;

    closed spec fn view(&self) -> InsertModel {
        InsertModel { table_name: self.table_name@, fields: self.fields@, values: self.values@ }
    }
}

impl Clone for Insert {
    fn clone(&self) -> (r: Self)
        ensures
            r@ == self@,
    {
        Insert {
            table_name: self.table_name.clone(),
            fields: self.fields.clone(),
            values: self.values.clone(),
        }
    }
}

impl Insert {
    /// Starts a statement that inserts into `table_name`.
    pub fn into_table<S: ToText>(table_name: S) -> (r: Self)
        ensures
            r@ == InsertModel::into_table(table_name.text()),
    {
        Insert { table_name: table_name.to_text(), fields: String::new(), values: String::new() }
    }

    /// Adds the field `field_name` with `value`, written as SQL text.
    pub fn field_value<T: SqlArg>(&mut self, field_name: &str, value: T) -> (ret: &mut Self)
        ensures
            ret@ == old(self)@.field_value(field_name@, value.sql_text()),
            *final(self) == *final(ret),
    {
        if !self.fields.as_str().is_empty() {
            self.fields.append(", `");
            self.fields.append(field_name);
            self.fields.append("`");
            self.values.append(", ");
            self.values.append(value.sql_arg().as_str());
        } else {
            self.fields.append(field_name);
            self.values.append(value.sql_arg().as_str());
        }
        assert(self@ =~= old(self)@.field_value(field_name@, value.sql_text()));
        self
    }

    /// Names another table to insert into.
    pub fn reset_table<S: ToText>(&mut self, table_name: S) -> (ret: &mut Self)
        ensures
            ret@ == old(self)@.reset_table(table_name.text()),
            *final(self) == *final(ret),
    {
        self.table_name = table_name.to_text();
        assert(self@ =~= old(self)@.reset_table(table_name.text()));
        self
    }

    /// The statement text, terminated by a semicolon.
    pub fn build(&self) -> (out: String)
        ensures
            out@ == self@.statement_text(),
    {
        let mut out = String::from_str("INSERT INTO `");
        out.append(self.table_name.as_str());
        out.append("` (");
        out.append(self.fields.as_str());
        out.append(") VALUES (");
        out.append(self.values.as_str());
        out.append(")");
        out.push(';');
        out
    }
}

} // verus!
