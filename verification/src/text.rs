//! Text primitives: sequences of characters as the model of SQL fragments,
//! and the verified routines that assemble them.

use vstd::prelude::*;
use vstd::arithmetic::div_mod::{lemma_add_mod_noop_right, lemma_mod_bound, lemma_small_mod};

verus! {

/// `String::push` appends the character `ch` to the end of the string and
/// leaves the characters before it as they were.
pub assume_specification[ String::push ](s: &mut String, ch: char)
    ensures
        final(s)@ == old(s)@.push(ch),
;

/// The texts held by a sequence of strings.
pub open spec fn texts(v: Seq<String>) -> Seq<Seq<char>> {
    Seq::new(v.len(), |i: int| v[i]@)
}

/// The text held by an optional string.
pub open spec fn opt_text(o: Option<String>) -> Option<Seq<char>> {
    match o {
        Some(s) => Some(s@),
        None => None,
    }
}

/// `parts` written one after another with `sep` between neighbours.
pub open spec fn joined(parts: Seq<Seq<char>>, sep: Seq<char>) -> Seq<char>
    decreases parts.len(),
{
    if parts.len() == 0 {
        Seq::empty()
    } else if parts.len() == 1 {
        parts[0]
    } else {
        joined(parts.drop_last(), sep) + sep + parts.last()
    }
}

/// `body` between the characters `open` and `close`.
pub open spec fn wrapped(open: char, body: Seq<char>, close: char) -> Seq<char> {
    seq![open] + body + seq![close]
}

/// `s` with every occurrence of the character `q` written twice.
pub open spec fn doubled(s: Seq<char>, q: char) -> Seq<char>
    decreases s.len(),
{
    if s.len() == 0 {
        Seq::empty()
    } else if s[0] == q {
        seq![q, q] + doubled(s.drop_first(), q)
    } else {
        seq![s[0]] + doubled(s.drop_first(), q)
    }
}

/// Inverse of [`doubled`]: every pair `qq` becomes one `q`. A `q` that is
/// not followed by a second one has no preimage, and the result is `None`.
pub open spec fn halved(s: Seq<char>, q: char) -> Option<Seq<char>>
    decreases s.len(),
{
    if s.len() == 0 {
        Some(Seq::empty())
    } else if s[0] != q {
        match halved(s.drop_first(), q) {
            Some(rest) => Some(seq![s[0]] + rest),
            None => None,
        }
    } else if s.len() >= 2 && s[1] == q {
        match halved(s.skip(2), q) {
            Some(rest) => Some(seq![q] + rest),
            None => None,
        }
    } else {
        None
    }
}

/// `s` with its first occurrence of the character `c` replaced by `with`;
/// `s` itself where `c` does not occur.
pub open spec fn replaced_first(s: Seq<char>, c: char, with: Seq<char>) -> Seq<char>
    decreases s.len(),
{
    if s.len() == 0 {
        Seq::empty()
    } else if s[0] == c {
        with + s.drop_first()
    } else {
        seq![s[0]] + replaced_first(s.drop_first(), c, with)
    }
}

/// Whether `s` begins with `pat`.
pub open spec fn starts_with(s: Seq<char>, pat: Seq<char>) -> bool {
    pat.len() <= s.len() && s.take(pat.len() as int) == pat
}

/// `s` with every occurrence of `pat` replaced by `with`. Occurrences are
/// found from left to right and do not overlap; an empty `pat` occurs
/// nowhere.
pub open spec fn replaced(s: Seq<char>, pat: Seq<char>, with: Seq<char>) -> Seq<char>
    decreases s.len(),
{
    if s.len() == 0 || pat.len() == 0 {
        s
    } else if starts_with(s, pat) {
        with + replaced(s.skip(pat.len() as int), pat, with)
    } else {
        seq![s[0]] + replaced(s.drop_first(), pat, with)
    }
}

/// Number of occurrences of the character `c` in `s`.
pub open spec fn count_char(s: Seq<char>, c: char) -> nat
    decreases s.len(),
{
    if s.len() == 0 {
        0
    } else {
        count_char(s.drop_last(), c) + if s.last() == c { 1nat } else { 0nat }
    }
}

/// `t` with its occurrences of the character `mark` replaced by the texts
/// of `args`, taken in turn and started over when they are used up: the
/// occurrence number `i`, counted from zero, gives way to the text number
/// `i` modulo the number of texts.
pub open spec fn bound_cyclic(t: Seq<char>, mark: char, args: Seq<Seq<char>>) -> Seq<char>
    recommends
        args.len() > 0 || !t.contains(mark),
    decreases t.len(),
{
    if t.len() == 0 {
        Seq::empty()
    } else if t.last() == mark {
        bound_cyclic(t.drop_last(), mark, args) + args[(count_char(t.drop_last(), mark)
            % args.len()) as int]
    } else {
        bound_cyclic(t.drop_last(), mark, args).push(t.last())
    }
}

/// The decimal digit `d` as a character.
pub open spec fn digit_char(d: nat) -> char
    recommends
        d < 10,
{
    (48 + d) as char
}

/// The decimal digits of `n`, most significant first, without padding.
pub open spec fn digits(n: nat) -> Seq<char>
    decreases n,
{
    if n < 10 {
        seq![digit_char(n)]
    } else {
        digits(n / 10).push(digit_char(n % 10))
    }
}

/// The decimal text of `i`: its digits, after a minus sign where `i` is
/// negative.
pub open spec fn decimal(i: int) -> Seq<char> {
    if i < 0 {
        seq!['-'] + digits((-i) as nat)
    } else {
        digits(i as nat)
    }
}

/// The characters of `s`, in order.
pub fn chars_of(s: &str) -> (v: Vec<char>)
    ensures
        v@ == s@,
{
    let mut v: Vec<char> = Vec::new();
    let chars = s.chars();
    for c in it: chars
        invariant
            it.seq() == s@,
            v@ == s@.take(it.index()),
    {
        v.push(c);
    }
    v
}

/// `body` between the characters `open` and `close`.
pub fn wrap(open: char, body: &str, close: char) -> (out: String)
    ensures
        out@ == wrapped(open, body@, close),
{
    let mut out = String::new();
    out.push(open);
    out.append(body);
    out.push(close);
    out
}

/// `s` with every occurrence of the character `q` written twice.
pub fn double_char(s: &str, q: char) -> (out: String)
    ensures
        out@ == doubled(s@, q),
{
    let mut out = String::new();
    let chars = s.chars();
    assert(s@.skip(0) == s@);
    assert(out@ + doubled(s@, q) == doubled(s@, q));
    for c in it: chars
        invariant
            it.seq() == s@,
            out@ + doubled(s@.skip(it.index()), q) == doubled(s@, q),
    {
        let ghost before = out@;
        let ghost rest = s@.skip(it.index());
        assert(rest.drop_first() == s@.skip(it.index() + 1));
        out.push(c);
        if c == q {
            out.push(c);
            assert(out@ + doubled(rest.drop_first(), q) == before + (seq![q, q] + doubled(
                rest.drop_first(),
                q,
            )));
        } else {
            assert(out@ + doubled(rest.drop_first(), q) == before + (seq![c] + doubled(
                rest.drop_first(),
                q,
            )));
        }
    }
    out
}

/// `s` with its first occurrence of the character `c` replaced by `with`.
pub fn replace_first(s: &str, c: char, with: &str) -> (out: String)
    ensures
        out@ == replaced_first(s@, c, with@),
{
    let mut out = String::new();
    let mut done = false;
    let chars = s.chars();
    assert(s@.skip(0) == s@);
    assert(out@ + replaced_first(s@, c, with@) == replaced_first(s@, c, with@));
    for ch in it: chars
        invariant
            it.seq() == s@,
            !done ==> out@ + replaced_first(s@.skip(it.index()), c, with@) == replaced_first(
                s@,
                c,
                with@,
            ),
            done ==> out@ + s@.skip(it.index()) == replaced_first(s@, c, with@),
    {
        let ghost before = out@;
        let ghost rest = s@.skip(it.index());
        assert(rest.drop_first() == s@.skip(it.index() + 1));
        if done {
            out.push(ch);
            assert(out@ + rest.drop_first() == before + rest);
        } else if ch == c {
            out.append(with);
            done = true;
            assert(out@ + rest.drop_first() == before + (with@ + rest.drop_first()));
        } else {
            out.push(ch);
            assert(out@ + replaced_first(rest.drop_first(), c, with@) == before + (seq![ch]
                + replaced_first(rest.drop_first(), c, with@)));
        }
    }
    assert(s@.skip(s@.len() as int) == Seq::<char>::empty());
    assert(out@ + Seq::<char>::empty() == out@);
    out
}

/// Whether `pat` stands in `v` at the index `at`.
fn matches_at(v: &Vec<char>, at: usize, pat: &Vec<char>) -> (found: bool)
    requires
        at <= v.len(),
    ensures
        found == starts_with(v@.skip(at as int), pat@),
{
    let m = pat.len();
    if m > v.len() - at {
        return false;
    }
    let ghost rest = v@.skip(at as int);
    let mut k: usize = 0;
    while k < m
        invariant
            m == pat.len(),
            at + m <= v.len(),
            rest == v@.skip(at as int),
            k <= m,
            rest.take(k as int) == pat@.take(k as int),
        decreases m - k,
    {
        if v[at + k] != pat[k] {
            assert(rest.take(m as int)[k as int] != pat@[k as int]);
            return false;
        }
        assert(rest.take(k + 1) == rest.take(k as int).push(rest[k as int]));
        assert(pat@.take(k + 1) == pat@.take(k as int).push(pat@[k as int]));
        k += 1;
    }
    assert(pat@.take(m as int) == pat@);
    true
}

/// `s` with every occurrence of `pat` replaced by `with`. An empty `pat`
/// occurs nowhere.
pub fn replace_all(s: &str, pat: &str, with: &str) -> (out: String)
    ensures
        out@ == replaced(s@, pat@, with@),
{
    let v = chars_of(s);
    let p = chars_of(pat);
    let n = v.len();
    let m = p.len();
    if m == 0 {
        return String::from_str(s);
    }
    let mut out = String::new();
    let mut i: usize = 0;
    assert(s@.skip(0) == s@);
    assert(out@ + replaced(s@, pat@, with@) == replaced(s@, pat@, with@));
    while i < n
        invariant
            v@ == s@,
            p@ == pat@,
            n == v.len(),
            m == p.len(),
            m > 0,
            i <= n,
            out@ + replaced(s@.skip(i as int), pat@, with@) == replaced(s@, pat@, with@),
        decreases n - i,
    {
        let ghost before = out@;
        let ghost rest = s@.skip(i as int);
        if matches_at(&v, i, &p) {
            out.append(with);
            assert(rest.skip(m as int) == s@.skip(i + m));
            assert(out@ + replaced(rest.skip(m as int), pat@, with@) == before + (with@
                + replaced(rest.skip(m as int), pat@, with@)));
            i += m;
        } else {
            out.push(v[i]);
            assert(rest.drop_first() == s@.skip(i + 1));
            assert(out@ + replaced(rest.drop_first(), pat@, with@) == before + (seq![rest[0]]
                + replaced(rest.drop_first(), pat@, with@)));
            i += 1;
        }
    }
    assert(out@ + Seq::<char>::empty() == out@);
    out
}

/// `t` with its occurrences of the character `mark` replaced by the texts of
/// `args`, taken in turn and started over when they are used up.
pub fn bind_cyclic(t: &str, mark: char, args: &Vec<String>) -> (out: String)
    requires
        args.len() > 0 || !t@.contains(mark),
    ensures
        out@ == bound_cyclic(t@, mark, texts(args@)),
{
    let len = args.len();
    let mut offset: usize = 0;
    let mut out = String::new();
    let chars = t.chars();
    proof {
        assert(count_char(t@.take(0), mark) == 0);
        if len > 0 {
            lemma_small_mod(0, len as nat);
        }
    }
    for ch in it: chars
        invariant
            it.seq() == t@,
            len == args.len(),
            len > 0 || !t@.contains(mark),
            out@ == bound_cyclic(t@.take(it.index()), mark, texts(args@)),
            len > 0 ==> offset == count_char(t@.take(it.index()), mark) % (len as nat),
    {
        let ghost seen = t@.take(it.index());
        let ghost next = t@.take(it.index() + 1);
        assert(next.drop_last() == seen);
        assert(next.last() == ch);
        if ch == mark {
            assert(t@[it.index()] == mark);
            assert(len > 0);
            proof {
                lemma_add_mod_noop_right(1, count_char(seen, mark) as int, len as int);
                lemma_mod_bound(count_char(seen, mark) as int, len as int);
            }
            out.append(args[offset].as_str());
            offset = (offset + 1) % len;
        } else {
            out.push(ch);
        }
    }
    assert(t@.take(t@.len() as int) == t@);
    out
}

/// The decimal digit `d` as a character.
fn digit(d: u8) -> (c: char)
    requires
        d < 10,
    ensures
        c == digit_char(d as nat),
{
    (48u8 + d) as char
}

/// The decimal text of `n`.
pub fn unsigned_text(n: u128) -> (out: String)
    ensures
        out@ == digits(n as nat),
{
    // The digits of `n` below those of `m`, least significant first.
    let mut low: Vec<char> = Vec::new();
    let mut m: u128 = n;
    assert(digits(m as nat) + low@.reverse() == digits(n as nat));
    while m >= 10
        invariant
            digits(m as nat) + low@.reverse() == digits(n as nat),
        decreases m,
    {
        let ghost before = low@;
        let d = digit((m % 10) as u8);
        low.push(d);
        assert(low@.reverse() == seq![d] + before.reverse());
        assert(digits((m / 10) as nat).push(d) + before.reverse() == digits((m / 10) as nat)
            + (seq![d] + before.reverse()));
        m = m / 10;
    }
    let ghost before = low@;
    let d = digit(m as u8);
    low.push(d);
    assert(low@.reverse() == seq![d] + before.reverse());
    assert(low@.reverse() == digits(n as nat));
    let mut out = String::new();
    let mut i: usize = low.len();
    while i > 0
        invariant
            i <= low.len(),
            out@ == low@.reverse().take(low.len() - i),
        decreases i,
    {
        i -= 1;
        out.push(low[i]);
        assert(out@ == low@.reverse().take(low.len() - i));
    }
    assert(low@.reverse().take(low.len() as int) == low@.reverse());
    out
}

/// The decimal text of `i`.
pub fn signed_text(i: i128) -> (out: String)
    ensures
        out@ == decimal(i as int),
{
    if i < 0 {
        let magnitude: u128 = (-(i + 1)) as u128 + 1;
        let mut out = String::new();
        out.push('-');
        out.append(unsigned_text(magnitude).as_str());
        out
    } else {
        unsigned_text(i as u128)
    }
}

/// `parts` written one after another with `sep` between neighbours.
pub fn join(parts: &Vec<String>, sep: &str) -> (out: String)
    ensures
        out@ == joined(texts(parts@), sep@),
{
    let mut out = String::new();
    let mut i: usize = 0;
    while i < parts.len()
        invariant
            i <= parts.len(),
            out@ == joined(texts(parts@).take(i as int), sep@),
        decreases parts.len() - i,
    {
        proof {
            let next = texts(parts@).take(i + 1);
            assert(next.drop_last() == texts(parts@).take(i as int));
            assert(next.last() == parts@[i as int]@);
        }
        if i > 0 {
            out.append(sep);
        }
        out.append(parts[i].as_str());
        i += 1;
    }
    assert(texts(parts@).take(parts.len() as int) == texts(parts@));
    out
}

/// A copy of `parts`.
pub fn clone_texts(parts: &Vec<String>) -> (out: Vec<String>)
    ensures
        texts(out@) == texts(parts@),
{
    let mut out: Vec<String> = Vec::new();
    let mut i: usize = 0;
    while i < parts.len()
        invariant
            i <= parts.len(),
            texts(out@) == texts(parts@).take(i as int),
        decreases parts.len() - i,
    {
        let ghost before = out@;
        out.push(parts[i].clone());
        proof {
            assert(texts(out@) =~= texts(before).push(parts@[i as int]@));
            assert(texts(parts@).take(i + 1) =~= texts(parts@).take(i as int).push(
                parts@[i as int]@,
            ));
        }
        i += 1;
    }
    assert(texts(parts@).take(parts.len() as int) == texts(parts@));
    out
}

/// A copy of `text`.
pub fn clone_opt_text(text: &Option<String>) -> (out: Option<String>)
    ensures
        opt_text(out) == opt_text(*text),
{
    match text {
        Some(text) => Some(text.clone()),
        None => None,
    }
}

/// A value that has a plain text: the text it is written as where no SQL
/// quoting applies, as in the name of a table, a condition or a limit.
pub trait ToText {
    /// The plain text of the value.
    spec fn text(&self) -> Seq<char>;

    /// The plain text of the value.
    fn to_text(&self) -> (out: String)
        ensures
            out@ == self.text(),
    ;
}

/// The plain texts of the values in `items`, in order.
pub open spec fn item_texts<S: ToText>(items: Seq<S>) -> Seq<Seq<char>> {
    Seq::new(items.len(), |i: int| items[i].text())
}

/// A reference has the text of the value it refers to.
impl<T: ToText + ?Sized> ToText for &T {
    open spec fn text(&self) -> Seq<char> {
        (**self).text()
    }

    fn to_text(&self) -> (out: String) {
        (**self).to_text()
    }
}

impl ToText for str {
    open spec fn text(&self) -> Seq<char> {
        self@
    }

    fn to_text(&self) -> (out: String) {
        String::from_str(self)
    }
}

impl ToText for String {
    open spec fn text(&self) -> Seq<char> {
        self@
    }

    fn to_text(&self) -> (out: String) {
        self.clone()
    }
}

impl ToText for char {
    open spec fn text(&self) -> Seq<char> {
        seq![*self]
    }

    fn to_text(&self) -> (out: String) {
        let mut out = String::new();
        out.push(*self);
        out
    }
}

impl ToText for bool {
    open spec fn text(&self) -> Seq<char> {
        if *self {
            "true"@
        } else {
            "false"@
        }
    }

    fn to_text(&self) -> (out: String) {
        if *self {
            String::from_str("true")
        } else {
            String::from_str("false")
        }
    }
}

impl ToText for i8 {
    open spec fn text(&self) -> Seq<char> {
        decimal(*self as int)
    }

    fn to_text(&self) -> (out: String) {
        signed_text(*self as i128)
    }
}

impl ToText for i16 {
    open spec fn text(&self) -> Seq<char> {
        decimal(*self as int)
    }

    fn to_text(&self) -> (out: String) {
        signed_text(*self as i128)
    }
}

impl ToText for i32 {
    open spec fn text(&self) -> Seq<char> {
        decimal(*self as int)
    }

    fn to_text(&self) -> (out: String) {
        signed_text(*self as i128)
    }
}

impl ToText for i64 {
    open spec fn text(&self) -> Seq<char> {
        decimal(*self as int)
    }

    fn to_text(&self) -> (out: String) {
        signed_text(*self as i128)
    }
}

impl ToText for i128 {
    open spec fn text(&self) -> Seq<char> {
        decimal(*self as int)
    }

    fn to_text(&self) -> (out: String) {
        signed_text(*self)
    }
}

impl ToText for isize {
    open spec fn text(&self) -> Seq<char> {
        decimal(*self as int)
    }

    fn to_text(&self) -> (out: String) {
        signed_text(*self as i128)
    }
}

impl ToText for u8 {
    open spec fn text(&self) -> Seq<char> {
        decimal(*self as int)
    }

    fn to_text(&self) -> (out: String) {
        unsigned_text(*self as u128)
    }
}

impl ToText for u16 {
    open spec fn text(&self) -> Seq<char> {
        decimal(*self as int)
    }

    fn to_text(&self) -> (out: String) {
        unsigned_text(*self as u128)
    }
}

impl ToText for u32 {
    open spec fn text(&self) -> Seq<char> {
        decimal(*self as int)
    }

    fn to_text(&self) -> (out: String) {
        unsigned_text(*self as u128)
    }
}

impl ToText for u64 {
    open spec fn text(&self) -> Seq<char> {
        decimal(*self as int)
    }

    fn to_text(&self) -> (out: String) {
        unsigned_text(*self as u128)
    }
}

impl ToText for u128 {
    open spec fn text(&self) -> Seq<char> {
        decimal(*self as int)
    }

    fn to_text(&self) -> (out: String) {
        unsigned_text(*self)
    }
}

impl ToText for usize {
    open spec fn text(&self) -> Seq<char> {
        decimal(*self as int)
    }

    fn to_text(&self) -> (out: String) {
        unsigned_text(*self as u128)
    }
}

/// The plain texts of `items`, in order.
pub fn texts_of<S: ToText>(items: &[S]) -> (out: Vec<String>)
    ensures
        texts(out@) == item_texts(items@),
{
    let mut out: Vec<String> = Vec::new();
    let mut i: usize = 0;
    while i < items.len()
        invariant
            i <= items.len(),
            texts(out@) == item_texts(items@).take(i as int),
        decreases items.len() - i,
    {
        let ghost before = out@;
        let text = items[i].to_text();
        out.push(text);
        proof {
            let all = item_texts(items@);
            assert(texts(out@) =~= texts(before).push(text@));
            assert(all.take(i + 1) =~= all.take(i as int).push(items@[i as int].text()));
        }
        i += 1;
    }
    assert(item_texts(items@).take(items.len() as int) == item_texts(items@));
    out
}

/// The plain texts of `items`, written one after another with `sep`
/// between neighbours.
pub fn join_items<S: ToText>(items: &[S], sep: &str) -> (out: String)
    ensures
        out@ == joined(item_texts(items@), sep@),
{
    join(&texts_of(items), sep)
}

} // verus!
