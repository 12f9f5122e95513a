//! Binding of values to the placeholders of a template.
//!
//! A template is text with placeholders: `?`, which stands for the next
//! value; `$` followed by a number, which stands for the value of that
//! number; and a name between colons, which stands for the value of that
//! name. Binding never changes the template: it returns a new text.

use vstd::prelude::*;
use crate::arg::{SqlArg, SqlArgs};
use crate::text::{
    bind_cyclic, bound_cyclic, digits, replace_all, replace_first, replaced, replaced_first,
    unsigned_text, ToText,
};

verus! {

/// The placeholder of the name `name`: the name between colons.
pub open spec fn name_token(name: Seq<char>) -> Seq<char> {
    seq![':'] + name + seq![':']
}

/// The placeholder of the number `num`: a dollar sign and the number in
/// decimal.
pub open spec fn num_token(num: nat) -> Seq<char> {
    seq!['$'] + digits(num)
}

/// Binding to a template without the placeholder changes nothing.
pub proof fn lemma_bind_without_placeholder(t: Seq<char>, c: char, with: Seq<char>)
    requires
        !t.contains(c),
    ensures
        replaced_first(t, c, with) == t,
    decreases t.len(),
{
    if t.len() > 0 {
        assert(t[0] != c);
        assert forall|i: int| 0 <= i < t.drop_first().len() implies t.drop_first()[i] != c by {
            assert(t[i + 1] != c);
        }
        lemma_bind_without_placeholder(t.drop_first(), c, with);
        assert(seq![t[0]] + t.drop_first() == t);
    }
}

/// Binding replaces the first placeholder and nothing else: the text
/// before it, which holds no placeholder, and the text after it, whatever
/// it holds, stay as they are.
pub proof fn lemma_bind_replaces_first_placeholder(
    before: Seq<char>,
    c: char,
    after: Seq<char>,
    with: Seq<char>,
)
    requires
        !before.contains(c),
    ensures
        replaced_first(before + seq![c] + after, c, with) == before + with + after,
    decreases before.len(),
{
    let t = before + seq![c] + after;
    if before.len() == 0 {
        assert(t.drop_first() == after);
        assert(before + with + after == with + after);
    } else {
        assert(t[0] == before[0]);
        assert(before[0] != c);
        assert forall|i: int| 0 <= i < before.drop_first().len() implies before.drop_first()[i]
            != c by {
            assert(before[i + 1] != c);
        }
        assert(t.drop_first() == before.drop_first() + seq![c] + after);
        lemma_bind_replaces_first_placeholder(before.drop_first(), c, after, with);
        assert(seq![t[0]] + (before.drop_first() + with + after) == before + with + after);
    }
}

/// Text that serves as a template.
pub trait Bind {
    /// The text of the template.
    spec fn template(&self) -> Seq<char>;

    /// Replaces the first `?` by the SQL text of `arg`. A template without
    /// `?` is returned as it is.
    fn bind<S: SqlArg>(&self, arg: S) -> (out: String)
        ensures
            out@ == replaced_first(self.template(), '?', arg.sql_text()),
    ;

    /// Replaces every `?` by the SQL text of one of `args`: the values are
    /// taken in order, and from the first again when the last is used.
    /// The list may be empty only for a template without `?`.
    fn binds<SS: SqlArgs>(&self, args: SS) -> (out: String)
        requires
            args.sql_texts().len() > 0 || !self.template().contains('?'),
        ensures
            out@ == bound_cyclic(self.template(), '?', args.sql_texts()),
    ;

    /// Replaces every occurrence of the plain text of `name` between
    /// colons by the SQL text of `arg`.
    fn bind_name<N: ToText, S: SqlArg>(&self, name: N, arg: S) -> (out: String)
        ensures
            out@ == replaced(self.template(), name_token(name.text()), arg.sql_text()),
    ;

    /// Replaces every occurrence of `$` followed by the decimal text of
    /// `num` by the SQL text of `arg`. The replacement is textual: the
    /// placeholder is also found where further digits follow it.
    fn bind_num<S: SqlArg>(&self, num: u128, arg: S) -> (out: String)
        ensures
            out@ == replaced(self.template(), num_token(num as nat), arg.sql_text()),
    ;
}

impl Bind for str {
    open spec fn template(&self) -> Seq<char> {
        self@
    }

    fn bind<S: SqlArg>(&self, arg: S) -> (out: String) {
        replace_first(self, '?', arg.sql_arg().as_str())
    }

    fn binds<SS: SqlArgs>(&self, args: SS) -> (out: String) {
        bind_cyclic(self, '?', &args.sql_args())
    }

    fn bind_name<N: ToText, S: SqlArg>(&self, name: N, arg: S) -> (out: String) {
        let mut token = String::new();
        token.push(':');
        token.append(name.to_text().as_str());
        token.push(':');
        assert(token@ == name_token(name.text()));
        replace_all(self, token.as_str(), arg.sql_arg().as_str())
    }

    fn bind_num<S: SqlArg>(&self, num: u128, arg: S) -> (out: String) {
        let mut token = String::new();
        token.push('$');
        token.append(unsigned_text(num).as_str());
        assert(token@ == num_token(num as nat));
        replace_all(self, token.as_str(), arg.sql_arg().as_str())
    }
}

impl Bind for String {
    open spec fn template(&self) -> Seq<char> {
        self@
    }

    fn bind<S: SqlArg>(&self, arg: S) -> (out: String) {
        self.as_str().bind(arg)
    }

    fn binds<SS: SqlArgs>(&self, args: SS) -> (out: String) {
        self.as_str().binds(args)
    }

    fn bind_name<N: ToText, S: SqlArg>(&self, name: N, arg: S) -> (out: String) {
        self.as_str().bind_name(name, arg)
    }

    fn bind_num<S: SqlArg>(&self, num: u128, arg: S) -> (out: String) {
        self.as_str().bind_num(num, arg)
    }
}

} // verus!
