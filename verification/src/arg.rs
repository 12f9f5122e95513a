//! Serialization of values into SQL literal text.

use vstd::prelude::*;
use std::borrow::Cow;
use crate::quote::{quote, quote_text};
use crate::text::{decimal, join, joined, signed_text, texts, unsigned_text, wrap, wrapped};

verus! {

/// A value that can be written into a statement as SQL text.
///
/// Serialization is total and pure: every value has exactly one text,
/// [`SqlArg::sql_text`], and [`SqlArg::sql_arg`] returns it.
pub trait SqlArg {
    /// The SQL text that stands for the value.
    spec fn sql_text(&self) -> Seq<char>;

    /// The SQL text that stands for the value.
    fn sql_arg(&self) -> (out: String)
        ensures
            out@ == self.sql_text(),
    ;
}

/// The SQL texts of the values in `items`, in order.
pub open spec fn arg_texts<T: SqlArg>(items: Seq<T>) -> Seq<Seq<char>> {
    Seq::new(items.len(), |i: int| items[i].sql_text())
}

/// A reference is written as the value it refers to.
impl<T: SqlArg + ?Sized> SqlArg for &T {
    open spec fn sql_text(&self) -> Seq<char> {
        (**self).sql_text()
    }

    fn sql_arg(&self) -> (out: String) {
        (**self).sql_arg()
    }
}

/// A boxed value is written as the value in the box.
impl<T: SqlArg + ?Sized> SqlArg for Box<T> {
    open spec fn sql_text(&self) -> Seq<char> {
        (**self).sql_text()
    }

    fn sql_arg(&self) -> (out: String) {
        (**self).sql_arg()
    }
}

/// Text is written as a string literal.
impl SqlArg for str {
    open spec fn sql_text(&self) -> Seq<char> {
        quote_text(self@)
    }

    fn sql_arg(&self) -> (out: String) {
        quote(self)
    }
}

/// Text is written as a string literal.
impl SqlArg for String {
    open spec fn sql_text(&self) -> Seq<char> {
        quote_text(self@)
    }

    fn sql_arg(&self) -> (out: String) {
        quote(self.as_str())
    }
}

/// Text is written as a string literal.
impl SqlArg for Cow<'_, str> {
    open spec fn sql_text(&self) -> Seq<char> {
        quote_text(self@)
    }

    fn sql_arg(&self) -> (out: String) {
        match self {
            Cow::Borrowed(text) => quote(text),
            Cow::Owned(text) => quote(text.as_str()),
        }
    }
}

/// An integer is written in decimal.
impl SqlArg for i8 {
    open spec fn sql_text(&self) -> Seq<char> {
        decimal(*self as int)
    }

    fn sql_arg(&self) -> (out: String) {
        signed_text(*self as i128)
    }
}

/// An integer is written in decimal.
impl SqlArg for i16 {
    open spec fn sql_text(&self) -> Seq<char> {
        decimal(*self as int)
    }

    fn sql_arg(&self) -> (out: String) {
        signed_text(*self as i128)
    }
}

/// An integer is written in decimal.
impl SqlArg for i32 {
    open spec fn sql_text(&self) -> Seq<char> {
        decimal(*self as int)
    }

    fn sql_arg(&self) -> (out: String) {
        signed_text(*self as i128)
    }
}

/// An integer is written in decimal.
impl SqlArg for i64 {
    open spec fn sql_text(&self) -> Seq<char> {
        decimal(*self as int)
    }

    fn sql_arg(&self) -> (out: String) {
        signed_text(*self as i128)
    }
}

/// An integer is written in decimal.
impl SqlArg for i128 {
    open spec fn sql_text(&self) -> Seq<char> {
        decimal(*self as int)
    }

    fn sql_arg(&self) -> (out: String) {
        signed_text(*self)
    }
}

/// An integer is written in decimal.
impl SqlArg for isize {
    open spec fn sql_text(&self) -> Seq<char> {
        decimal(*self as int)
    }

    fn sql_arg(&self) -> (out: String) {
        signed_text(*self as i128)
    }
}

/// An integer is written in decimal.
impl SqlArg for u8 {
    open spec fn sql_text(&self) -> Seq<char> {
        decimal(*self as int)
    }

    fn sql_arg(&self) -> (out: String) {
        unsigned_text(*self as u128)
    }
}

/// An integer is written in decimal.
impl SqlArg for u16 {
    open spec fn sql_text(&self) -> Seq<char> {
        decimal(*self as int)
    }

    fn sql_arg(&self) -> (out: String) {
        unsigned_text(*self as u128)
    }
}

/// An integer is written in decimal.
impl SqlArg for u32 {
    open spec fn sql_text(&self) -> Seq<char> {
        decimal(*self as int)
    }

    fn sql_arg(&self) -> (out: String) {
        unsigned_text(*self as u128)
    }
}

/// An integer is written in decimal.
impl SqlArg for u64 {
    open spec fn sql_text(&self) -> Seq<char> {
        decimal(*self as int)
    }

    fn sql_arg(&self) -> (out: String) {
        unsigned_text(*self as u128)
    }
}

/// An integer is written in decimal.
impl SqlArg for u128 {
    open spec fn sql_text(&self) -> Seq<char> {
        decimal(*self as int)
    }

    fn sql_arg(&self) -> (out: String) {
        unsigned_text(*self)
    }
}

/// An integer is written in decimal.
impl SqlArg for usize {
    open spec fn sql_text(&self) -> Seq<char> {
        decimal(*self as int)
    }

    fn sql_arg(&self) -> (out: String) {
        unsigned_text(*self as u128)
    }
}

/// A boolean is written as the keyword `TRUE` or `FALSE`.
impl SqlArg for bool {
    open spec fn sql_text(&self) -> Seq<char> {
        if *self {
            "TRUE"@
        } else {
            "FALSE"@
        }
    }

    fn sql_arg(&self) -> (out: String) {
        if *self {
            String::from_str("TRUE")
        } else {
            String::from_str("FALSE")
        }
    }
}

/// An absent value is written as `NULL`, a present one as itself.
impl<T: SqlArg> SqlArg for Option<T> {
    open spec fn sql_text(&self) -> Seq<char> {
        match self {
            Some(value) => value.sql_text(),
            None => "NULL"@,
        }
    }

    fn sql_arg(&self) -> (out: String) {
        match self {
            Some(value) => value.sql_arg(),
            None => String::from_str("NULL"),
        }
    }
}

/// The absent value of no particular type.
pub struct NULL;

impl SqlArg for NULL {
    open spec fn sql_text(&self) -> Seq<char> {
        "NULL"@
    }

    fn sql_arg(&self) -> (out: String) {
        String::from_str("NULL")
    }
}

/// SQL text that is written as it stands: the text of a value that was
/// serialized elsewhere, such as a floating-point number.
pub struct Raw(pub String);

impl SqlArg for Raw {
    open spec fn sql_text(&self) -> Seq<char> {
        self.0@
    }

    fn sql_arg(&self) -> (out: String) {
        self.0.clone()
    }
}

/// The SQL texts of the values in `items`, in order.
pub fn serialize_all<T: SqlArg>(items: &[T]) -> (out: Vec<String>)
    ensures
        texts(out@) == arg_texts(items@),
{
    let mut out: Vec<String> = Vec::new();
    let mut i: usize = 0;
    while i < items.len()
        invariant
            i <= items.len(),
            texts(out@) == arg_texts(items@).take(i as int),
        decreases items.len() - i,
    {
        let ghost before = out@;
        let text = items[i].sql_arg();
        out.push(text);
        proof {
            let all = arg_texts(items@);
            assert(texts(out@) =~= texts(before).push(text@));
            assert(all.take(i + 1) =~= all.take(i as int).push(items@[i as int].sql_text()));
        }
        i += 1;
    }
    assert(arg_texts(items@).take(items.len() as int) == arg_texts(items@));
    out
}

/// A sequence is written as its items, separated by `, `; an empty one as
/// the empty text.
impl<T: SqlArg> SqlArg for [T] {
    open spec fn sql_text(&self) -> Seq<char> {
        joined(arg_texts(self@), ", "@)
    }

    fn sql_arg(&self) -> (out: String) {
        join(&serialize_all(self), ", ")
    }
}

/// A sequence is written as its items, separated by `, `; an empty one as
/// the empty text.
impl<T: SqlArg> SqlArg for Vec<T> {
    open spec fn sql_text(&self) -> Seq<char> {
        joined(arg_texts(self@), ", "@)
    }

    fn sql_arg(&self) -> (out: String) {
        join(&serialize_all(self.as_slice()), ", ")
    }
}

/// A tuple, given as an array, is written as its items, separated by `, `,
/// between round brackets.
impl<T: SqlArg, const N: usize> SqlArg for [T; N] {
    open spec fn sql_text(&self) -> Seq<char> {
        wrapped('(', joined(arg_texts(self@), ", "@), ')')
    }

    fn sql_arg(&self) -> (out: String) {
        wrap('(', join(&serialize_all(self.as_slice()), ", ").as_str(), ')')
    }
}

/// The two booleans are written as the keywords `TRUE` and `FALSE`.
pub proof fn lemma_bool_keywords()
    ensures
        true.sql_text() == "TRUE"@,
        false.sql_text() == "FALSE"@,
{
}

/// An absent value is written as `NULL`, whatever the type of the value
/// that is absent.
pub proof fn lemma_absent_is_null<T: SqlArg>()
    ensures
        None::<T>.sql_text() == "NULL"@,
        NULL.sql_text() == "NULL"@,
{
}

/// An ordered list of values, each of which is written by itself.
pub trait SqlArgs {
    /// The SQL texts of the values, in order.
    spec fn sql_texts(&self) -> Seq<Seq<char>>;

    /// The SQL texts of the values, in order.
    fn sql_args(&self) -> (out: Vec<String>)
        ensures
            texts(out@) == self.sql_texts(),
    ;
}

/// A reference to a list is the list.
impl<A: SqlArgs + ?Sized> SqlArgs for &A {
    open spec fn sql_texts(&self) -> Seq<Seq<char>> {
        (**self).sql_texts()
    }

    fn sql_args(&self) -> (out: Vec<String>) {
        (**self).sql_args()
    }
}

impl<T: SqlArg> SqlArgs for [T] {
    open spec fn sql_texts(&self) -> Seq<Seq<char>> {
        arg_texts(self@)
    }

    fn sql_args(&self) -> (out: Vec<String>) {
        serialize_all(self)
    }
}

impl<T: SqlArg> SqlArgs for Vec<T> {
    open spec fn sql_texts(&self) -> Seq<Seq<char>> {
        arg_texts(self@)
    }

    fn sql_args(&self) -> (out: Vec<String>) {
        serialize_all(self.as_slice())
    }
}

impl<T: SqlArg, const N: usize> SqlArgs for [T; N] {
    open spec fn sql_texts(&self) -> Seq<Seq<char>> {
        arg_texts(self@)
    }

    fn sql_args(&self) -> (out: Vec<String>) {
        serialize_all(self.as_slice())
    }
}

} // verus!
