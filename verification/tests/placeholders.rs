use sql_builder::arg::SqlArg;
use sql_builder::bind::Bind;
use sql_builder::text::{bind_cyclic, replace_all, replace_first};

#[test]
fn bind_replaces_the_first_placeholder_only() {
    assert_eq!("a ? b ?".bind(1), "a 1 b ?");
    assert_eq!("?".bind("x"), "'x'");
    assert_eq!("??".bind(false), "FALSE?");
}

#[test]
fn bind_without_placeholder_changes_nothing() {
    assert_eq!("no placeholder".bind(1), "no placeholder");
    assert_eq!("".bind(1), "");
}

#[test]
fn bind_does_not_touch_the_template() {
    let template = String::from("a = ?");
    let bound = template.bind(5);
    assert_eq!(bound, "a = 5");
    assert_eq!(template, "a = ?");
}

#[test]
fn bind_does_not_rescan_the_bound_text() {
    assert_eq!("? and ?".bind("?"), "'?' and ?");
    assert_eq!("? and ?".bind("?").bind(2), "'2' and ?");
}

#[test]
fn binds_reuses_the_values_cyclically() {
    assert_eq!("?f?o?o?".binds([10, 20, 30]), "10f20o30o10");
    assert_eq!("???????".binds([1, 2, 3]), "1231231");
    assert_eq!("? ?".binds([7]), "7 7");
    assert_eq!("?".binds([1, 2, 3]), "1");
    assert_eq!("no mark".binds([1, 2, 3]), "no mark");
}

#[test]
fn binds_accepts_an_empty_list_where_nothing_is_to_bind() {
    assert_eq!("no mark".binds(Vec::<i32>::new()), "no mark");
    assert_eq!("".binds(Vec::<i32>::new()), "");
    assert_eq!(bind_cyclic("abc", '?', &Vec::new()), "abc");
}

#[test]
fn binds_takes_lists_of_several_shapes() {
    assert_eq!("?,?".binds(vec![1, 2]), "1,2");
    let slice: &[&str] = &["a", "b"];
    assert_eq!("?,?".binds(slice), "'a','b'");
    let mixed: Vec<Box<dyn SqlArg>> = vec![Box::new(1), Box::new("b")];
    assert_eq!("?,?,?".binds(&mixed), "1,'b',1");
}

#[test]
fn numbered_binding_is_global() {
    assert_eq!(
        "$1f$2o$1o$3".bind_num(1, 10).bind_num(2, "lol"),
        "10f'lol'o10o$3"
    );
    assert_eq!(
        "$1f$2o$1o$3".bind_num(2, "lol").bind_num(1, 10),
        "10f'lol'o10o$3"
    );
    assert_eq!("$3 $3 $3".bind_num(3, true), "TRUE TRUE TRUE");
    assert_eq!("no number".bind_num(1, 1), "no number");
}

#[test]
fn numbered_binding_is_textual() {
    assert_eq!("$10".bind_num(1, 5), "50");
    assert_eq!("$10".bind_num(10, 5), "5");
    assert_eq!("$1$10".bind_num(10, 0).bind_num(1, 7), "70");
    assert_eq!("$".bind_num(1, 5), "$");
    assert_eq!("$65535".bind_num(65535, 1), "1");
    assert_eq!(
        "$340282366920938463463374607431768211455".bind_num(u128::MAX, 1),
        "1"
    );
    assert_eq!("$0".bind_num(0, 9), "9");
}

#[test]
fn named_binding_is_global() {
    assert_eq!(
        ":a: and :b: and :a:".bind_name("a", 1).bind_name("b", "x"),
        "1 and 'x' and 1"
    );
    assert_eq!("f:abc:oo:def:".bind_name("abc", "lol"), "f'lol'oo:def:");
    assert_eq!(":abc".bind_name("abc", 1), ":abc");
    assert_eq!(":ab:".bind_name("abc", 1), ":ab:");
    assert_eq!("a::b".bind_name("", 1), "a1b");
    assert_eq!(
        String::from(":name:, :costs:")
            .bind_name("name", "Harry Potter and the Philosopher's Stone")
            .bind_name("costs", 150),
        "'Harry Potter and the Philosopher''s Stone', 150"
    );
}

#[test]
fn replacement_goes_from_left_to_right_without_overlap() {
    assert_eq!(replace_all("aaa", "aa", "b"), "ba");
    assert_eq!(replace_all("aaaa", "aa", "b"), "bb");
    assert_eq!(replace_all("abab", "ab", "ba"), "baba");
    assert_eq!(replace_all("abc", "abcd", "x"), "abc");
    assert_eq!(replace_all("", "a", "x"), "");
    assert_eq!(replace_all("abc", "c", ""), "ab");
    assert_eq!(replace_all("a.b.c", ".", "::"), "a::b::c");
    assert_eq!(replace_first("a.b.c", '.', "::"), "a::b.c");
    assert_eq!(replace_first("abc", '.', "::"), "abc");
}

#[test]
fn replacement_agrees_with_the_standard_one() {
    let cases = [
        ("hello world", "o", "0"),
        ("aaaaa", "aa", "x"),
        ("::a::", ":", "::"),
        ("ab", "ab", ""),
        ("xyz", "q", "r"),
        ("ünïcödé ü", "ü", "u"),
    ];
    for (text, pat, with) in cases {
        assert_eq!(replace_all(text, pat, with), text.replace(pat, with));
    }
    assert_eq!(
        replace_first("a?b?c", '?', "!"),
        "a?b?c".replacen('?', "!", 1)
    );
}
