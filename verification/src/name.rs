//! Identifiers: names of tables, columns and aliases, and their safe
//! rendering.

use vstd::prelude::*;
use crate::arg::SqlArg;
use crate::quote::{
    baquote, baquote_text, brquote, brquote_text, dquote, dquote_text, quote, quote_text,
};
use crate::text::{
    clone_opt_text, clone_texts, item_texts, join, joined, opt_text, texts, texts_of, ToText,
};

verus! {

/// How the parts of an identifier are quoted.
#[derive(Clone, Copy, Debug, PartialEq, Eq)]
pub enum QuoteType {
    /// Unquoted where every part is safe, else in backticks.
    Plain,
    /// In single quotes.
    Single,
    /// In double quotes.
    Double,
    /// In backticks.
    Backtick,
    /// In square brackets.
    Bracket,
}

impl Default for QuoteType {
    fn default() -> (mode: QuoteType)
        ensures
            mode == QuoteType::Plain,
    {
        QuoteType::Plain
    }
}

/// An identifier: one or more name parts, written with dots between them,
/// an optional alias, and the way the parts are quoted.
pub struct SqlName {
    quote_type: QuoteType,
    parts: Vec<String>,
    alias: Option<String>,
}

/// The mathematical value of a [`SqlName`].
#[verifier::ext_equal]
pub struct NameModel {
    pub quote_type: QuoteType,
    pub parts: Seq<Seq<char>>,
    pub alias: Option<Seq<char>>,
}

impl NameModel {
    /// The unquoted, unaliased identifier of the single part `name`.
    pub open spec fn new(name: Seq<char>) -> NameModel {
        NameModel { quote_type: QuoteType::Plain, parts: seq![name], alias: None }
    }

    pub open spec fn with_part(self, name: Seq<char>) -> NameModel {
        NameModel { parts: self.parts.push(name), ..self }
    }

    pub open spec fn with_alias(self, alias: Seq<char>) -> NameModel {
        NameModel { alias: Some(alias), ..self }
    }

    pub open spec fn with_quote(self, mode: QuoteType) -> NameModel {
        NameModel { quote_type: mode, ..self }
    }

    /// The text of the identifier.
    pub open spec fn text(self) -> Seq<char> {
        identifier_text(self.parts, self.alias, self.quote_type)
    }
}

/// Whether `c` may stand in an unquoted identifier: a lower-case letter of
/// `a` to `z`, a digit or an underscore.
pub open spec fn is_safe_char(c: char) -> bool {
    ('a' <= c && c <= 'z') || ('0' <= c && c <= '9') || c == '_'
}

/// Whether `s` holds safe characters only.
pub open spec fn is_safe_text(s: Seq<char>) -> bool {
    forall|i: int| 0 <= i < s.len() ==> is_safe_char(#[trigger] s[i])
}

/// Whether each of `parts` is safe.
pub open spec fn all_safe(parts: Seq<Seq<char>>) -> bool {
    forall|i: int| 0 <= i < parts.len() ==> is_safe_text(#[trigger] parts[i])
}

/// `part` quoted in the way `mode` names; unchanged under
/// [`QuoteType::Plain`].
pub open spec fn quoted_part(mode: QuoteType, part: Seq<char>) -> Seq<char> {
    match mode {
        QuoteType::Plain => part,
        QuoteType::Single => quote_text(part),
        QuoteType::Double => dquote_text(part),
        QuoteType::Backtick => baquote_text(part),
        QuoteType::Bracket => brquote_text(part),
    }
}

/// Each of `parts` quoted in the way `mode` names.
pub open spec fn quoted_parts(mode: QuoteType, parts: Seq<Seq<char>>) -> Seq<Seq<char>> {
    Seq::new(parts.len(), |i: int| quoted_part(mode, parts[i]))
}

/// The way the parts are quoted in fact: a name that asks for no quoting
/// falls back to backticks as soon as one of its parts is unsafe.
pub open spec fn effective_quote(mode: QuoteType, parts: Seq<Seq<char>>) -> QuoteType {
    if mode == QuoteType::Plain && !all_safe(parts) {
        QuoteType::Backtick
    } else {
        mode
    }
}

/// The text of an optional alias.
pub open spec fn alias_text(alias: Option<&str>) -> Option<Seq<char>> {
    match alias {
        Some(alias) => Some(alias@),
        None => None,
    }
}

/// `name` as it is, where it is safe, and in backticks where it is not.
pub open spec fn safe_name_text(name: Seq<char>) -> Seq<char> {
    if is_safe_text(name) {
        name
    } else {
        baquote_text(name)
    }
}

/// `name`, followed by ` AS ` and the alias where there is one. The alias
/// is made safe by itself, whatever the quoting of the name.
pub open spec fn aliased(name: Seq<char>, alias: Option<Seq<char>>) -> Seq<char> {
    match alias {
        Some(alias) => name + " AS "@ + safe_name_text(alias),
        None => name,
    }
}

/// The text of the identifier with the given parts, alias and quoting:
/// the parts, each quoted by itself, with dots between them, then the alias.
pub open spec fn identifier_text(
    parts: Seq<Seq<char>>,
    alias: Option<Seq<char>>,
    mode: QuoteType,
) -> Seq<char> {
    aliased(joined(quoted_parts(effective_quote(mode, parts), parts), "."@), alias)
}

/// A safe name that asks for no quoting is written as it is.
pub proof fn lemma_safe_name_is_unchanged(name: Seq<char>)
    requires
        is_safe_text(name),
    ensures
        identifier_text(seq![name], None, QuoteType::Plain) == name,
{
    let parts = seq![name];
    assert forall|i: int| 0 <= i < parts.len() implies is_safe_text(#[trigger] parts[i]) by {}
    assert(quoted_parts(QuoteType::Plain, parts) == parts);
}

/// An unsafe name that asks for no quoting is written in backticks.
pub proof fn lemma_unsafe_name_is_backquoted(name: Seq<char>)
    requires
        !is_safe_text(name),
    ensures
        identifier_text(seq![name], None, QuoteType::Plain) == baquote_text(name),
{
    let parts = seq![name];
    assert(parts[0] == name);
    assert(quoted_parts(QuoteType::Backtick, parts) == seq![baquote_text(name)]);
}

impl View for SqlName {
    type V = NameModel;

    closed spec fn view(&self) -> NameModel {
        NameModel {
            quote_type: self.quote_type,
            parts: texts(self.parts@),
            alias: opt_text(self.alias),
        }
    }
}

impl Clone for SqlName {
    fn clone(&self) -> (r: Self)
        ensures
            r@ == self@,
    {
        let r = SqlName {
            quote_type: self.quote_type,
            parts: clone_texts(&self.parts),
            alias: clone_opt_text(&self.alias),
        };
        assert(r@ =~= self@);
        r
    }
}

/// The unquoted identifier of the single part `part`.
pub fn name(part: &str) -> (r: SqlName)
    ensures
        r@ == NameModel::new(part@),
{
    SqlName::new(part)
}

impl SqlName {
    /// The unquoted identifier `name`.
    pub fn new<S: ToText>(name: S) -> (r: Self)
        ensures
            r@ == NameModel::new(name.text()),
    {
        let mut parts: Vec<String> = Vec::new();
        parts.push(name.to_text());
        let r = SqlName { quote_type: QuoteType::Plain, parts, alias: None };
        assert(r@ =~= NameModel::new(name.text()));
        r
    }

    /// Adds a further part to the identifier.
    pub fn add<S: ToText>(&mut self, name: S) -> (ret: &mut Self)
        ensures
            ret@ == old(self)@.with_part(name.text()),
            *final(self) == *final(ret),
    {
        self.parts.push(name.to_text());
        assert(self@ =~= old(self)@.with_part(name.text()));
        self
    }

    /// Sets the alias of the identifier.
    pub fn alias<S: ToText>(&mut self, alias: S) -> (ret: &mut Self)
        ensures
            ret@ == old(self)@.with_alias(alias.text()),
            *final(self) == *final(ret),
    {
        self.alias = Some(alias.to_text());
        assert(self@ =~= old(self)@.with_alias(alias.text()));
        self
    }

    /// Asks for no quoting, as far as the parts are safe.
    pub fn safe(&mut self) -> (ret: &Self)
        ensures
            ret@ == old(self)@.with_quote(QuoteType::Plain),
            *final(self) == *ret,
    {
        self.quote_type = QuoteType::Plain;
        self
    }

    /// Asks for single quotes.
    pub fn quoted(&mut self) -> (ret: &Self)
        ensures
            ret@ == old(self)@.with_quote(QuoteType::Single),
            *final(self) == *ret,
    {
        self.quote_type = QuoteType::Single;
        self
    }

    /// Asks for backticks.
    pub fn baquoted(&mut self) -> (ret: &Self)
        ensures
            ret@ == old(self)@.with_quote(QuoteType::Backtick),
            *final(self) == *ret,
    {
        self.quote_type = QuoteType::Backtick;
        self
    }

    /// Asks for square brackets.
    pub fn brquoted(&mut self) -> (ret: &Self)
        ensures
            ret@ == old(self)@.with_quote(QuoteType::Bracket),
            *final(self) == *ret,
    {
        self.quote_type = QuoteType::Bracket;
        self
    }

    /// Asks for double quotes.
    pub fn dquoted(&mut self) -> (ret: &Self)
        ensures
            ret@ == old(self)@.with_quote(QuoteType::Double),
            *final(self) == *ret,
    {
        self.quote_type = QuoteType::Double;
        self
    }

    /// Whether `name` holds safe characters only.
    pub fn is_safe(name: &str) -> (safe: bool)
        ensures
            safe == is_safe_text(name@),
    {
        let mut safe = true;
        let chars = name.chars();
        for c in it: chars
            invariant
                it.seq() == name@,
                safe == is_safe_text(name@.take(it.index())),
        {
            let ghost seen = name@.take(it.index());
            let ghost next = name@.take(it.index() + 1);
            let c_safe = ('a' <= c && c <= 'z') || ('0' <= c && c <= '9') || c == '_';
            proof {
                assert(next.drop_last() == seen);
                assert(next.last() == c);
                if safe && c_safe {
                    assert forall|i: int| 0 <= i < next.len() implies is_safe_char(
                        #[trigger] next[i],
                    ) by {
                        if i < seen.len() {
                            assert(next[i] == seen[i]);
                        }
                    }
                } else if !safe {
                    let bad = choose|i: int| 0 <= i < seen.len() && !is_safe_char(seen[i]);
                    assert(next[bad] == seen[bad]);
                } else {
                    assert(next[next.len() - 1] == c);
                }
            }
            safe = safe && c_safe;
        }
        assert(name@.take(name@.len() as int) == name@);
        safe
    }

    /// Whether each part of the identifier is safe.
    fn all_is_safe(&self) -> (safe: bool)
        ensures
            safe == all_safe(self@.parts),
    {
        let mut i: usize = 0;
        while i < self.parts.len()
            invariant
                i <= self.parts.len(),
                all_safe(self@.parts.take(i as int)),
            decreases self.parts.len() - i,
        {
            if !Self::is_safe(self.parts[i].as_str()) {
                assert(self@.parts[i as int] == self.parts@[i as int]@);
                return false;
            }
            proof {
                let seen = self@.parts.take(i as int);
                let next = self@.parts.take(i + 1);
                assert forall|k: int| 0 <= k < next.len() implies is_safe_text(
                    #[trigger] next[k],
                ) by {
                    if k < seen.len() {
                        assert(next[k] == seen[k]);
                    }
                }
            }
            i += 1;
        }
        assert(self@.parts.take(self.parts.len() as int) == self@.parts);
        true
    }

    /// `name` as it is, where it is safe, and in backticks where it is not.
    fn make_safe_name(name: &str) -> (out: String)
        ensures
            out@ == safe_name_text(name@),
    {
        if Self::is_safe(name) {
            String::from_str(name)
        } else {
            baquote(name)
        }
    }

    /// Each part, quoted in the way `mode` names.
    fn quote_parts(&self, mode: QuoteType) -> (out: Vec<String>)
        ensures
            texts(out@) == quoted_parts(mode, self@.parts),
    {
        let mut out: Vec<String> = Vec::new();
        let mut i: usize = 0;
        while i < self.parts.len()
            invariant
                i <= self.parts.len(),
                texts(out@) == quoted_parts(mode, self@.parts).take(i as int),
            decreases self.parts.len() - i,
        {
            let ghost before = out@;
            let part = self.parts[i].as_str();
            let text = match mode {
                QuoteType::Plain => String::from_str(part),
                QuoteType::Single => quote(part),
                QuoteType::Double => dquote(part),
                QuoteType::Backtick => baquote(part),
                QuoteType::Bracket => brquote(part),
            };
            out.push(text);
            proof {
                let all = quoted_parts(mode, self@.parts);
                assert(texts(out@) =~= texts(before).push(text@));
                assert(all.take(i + 1) =~= all.take(i as int).push(text@));
            }
            i += 1;
        }
        assert(quoted_parts(mode, self@.parts).take(self.parts.len() as int) == quoted_parts(
            mode,
            self@.parts,
        ));
        out
    }

    /// The parts as they are, where each is safe, and each in backticks
    /// where one is not.
    fn make_safe_parts(&self) -> (out: Vec<String>)
        ensures
            texts(out@) == quoted_parts(effective_quote(QuoteType::Plain, self@.parts), self@.parts),
    {
        if self.all_is_safe() {
            self.quote_parts(QuoteType::Plain)
        } else {
            self.quote_parts(QuoteType::Backtick)
        }
    }

    /// `safe_name`, followed by ` AS ` and the alias, made safe, where the
    /// identifier has one.
    fn join_with_alias(&self, safe_name: String) -> (out: String)
        ensures
            out@ == aliased(safe_name@, self@.alias),
    {
        match &self.alias {
            Some(alias) => {
                let mut out = safe_name;
                out.append(" AS ");
                out.append(Self::make_safe_name(alias.as_str()).as_str());
                out
            },
            None => safe_name,
        }
    }

    /// The text of the identifier.
    pub fn to_string(&self) -> (out: String)
        ensures
            out@ == self@.text(),
    {
        let parts = match self.quote_type {
            QuoteType::Plain => self.make_safe_parts(),
            mode => self.quote_parts(mode),
        };
        self.join_with_alias(join(&parts, "."))
    }
}

/// The text of the identifier with the given parts, alias and quoting.
pub fn quote_identifier<S: ToText>(
    parts: &[S],
    alias: Option<&str>,
    mode: QuoteType,
) -> (out: String)
    ensures
        out@ == identifier_text(item_texts(parts@), alias_text(alias), mode),
{
    let name = SqlName {
        quote_type: mode,
        parts: texts_of(parts),
        alias: match alias {
            Some(alias) => Some(String::from_str(alias)),
            None => None,
        },
    };
    name.to_string()
}

/// An identifier has its text as its plain text.
impl ToText for SqlName {
    open spec fn text(&self) -> Seq<char> {
        self@.text()
    }

    fn to_text(&self) -> (out: String) {
        self.to_string()
    }
}

/// An identifier is written as its text, not as a string literal.
impl SqlArg for SqlName {
    open spec fn sql_text(&self) -> Seq<char> {
        self@.text()
    }

    fn sql_arg(&self) -> (out: String) {
        self.to_string()
    }
}

} // verus!
