use sql_builder::arg::{Raw, SqlArg};
use sql_builder::bind::Bind;
use sql_builder::select::SelectBuilder;

/// A floating-point value in its shortest decimal form.
fn float_text(x: f64) -> Raw {
    Raw(x.to_string())
}

#[test]
fn test_bind() {
    let foo = "f?o?o";

    assert_eq!("'lol'foo?", &"?foo?".bind(&"lol"));
    assert_eq!("'lol'foo10", &"?foo?".bind(&"lol").bind(&10));
    assert_eq!("'lol'foo?", &"?foo?".bind(&String::from("lol")));
    assert_eq!("'lol'foo?", &String::from("?foo?").bind(&"lol"));
    assert_eq!("f'lol'o?o", &foo.bind(&"lol"));
    assert_eq!("fo'f?o?o'o", &"fo?o".bind(&foo));
    assert_eq!("fo10o", &"fo?o".bind(&10_usize));
    assert_eq!("fo10o", &"fo?o".bind(&10));
    assert_eq!("fo10o", &"fo?o".bind(&10_isize));
    assert_eq!("foTRUEo", &"fo?o".bind(&true));
    assert_eq!("foFALSEo", &"fo?o".bind(&false));
    assert_eq!("f'lol'oo:def:", &"f:abc:oo:def:".bind_name(&"abc", &"lol"));
}

#[test]
fn test_binds() {
    assert_eq!("10f20o30o10", &"?f?o?o?".binds([10, 20, 30]));
    assert_eq!(
        "'abc'f'def'o'ghi'o'abc'",
        &"?f?o?o?".binds(["abc", "def", "ghi"])
    );
    assert_eq!("10f20o30o10", &String::from("?f?o?o?").binds([10, 20, 30]));
    let mixed: [&dyn SqlArg; 3] = [&10, &"AAA", &true];
    assert_eq!("10f'AAA'oTRUEo10", &String::from("?f?o?o?").binds(mixed));
    assert_eq!(
        "1f1.5o0.0000001o1",
        &"?f?o?o?".binds([float_text(1.0), float_text(1.5), float_text(0.0000001)])
    );
}

#[test]
fn test_bind_doc() {
    let args: [&dyn SqlArg; 2] = [&100, &"Harry Potter%"];
    let sql = SelectBuilder::select_from("books")
        .fields(&["title", "price"])
        .and_where("price > ? AND title LIKE ?".binds(args))
        .build()
        .unwrap();

    assert_eq!(
        "SELECT title, price FROM books WHERE price > 100 AND title LIKE 'Harry Potter%';",
        &sql
    );
}

#[test]
fn test_null() {
    let foo: Option<&str> = None;
    assert_eq!("foNULLo", &"fo?o".bind(&foo));

    let foo = Some("foo");
    assert_eq!("fo'foo'o", &"fo?o".bind(&foo));
}

#[test]
fn test_in() {
    assert_eq!("10 IN (1, 2, 3)", &"10 IN (?)".bind(vec![1, 2, 3]));
}
