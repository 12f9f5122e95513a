use sql_builder::where_builder::{and, brackets, not, or, Where};

#[test]
fn test_macro_and() {
    let sql = and(&["10", "20", "30"]);
    assert_eq!("(10) AND (20) AND (30)", sql);
}

#[test]
fn test_macro_or() {
    let sql = or(&["10", "20", "30"]);
    assert_eq!("10 OR 20 OR 30", sql);
}

#[test]
fn test_macro_not() {
    let sql = not("10");
    assert_eq!("NOT 10", sql);
}

#[test]
fn test_macro_brackets() {
    let sql = brackets(&["10", "20", "30"]);
    assert_eq!("(10, 20, 30)", sql);

    let sql = brackets(&["10"]);
    assert_eq!("(10)", sql);
}

#[test]
fn test_macro_and_or_not() {
    let sql = and(&["10", or(&["20", not("30").as_str(), "40"]).as_str()]);
    assert_eq!("(10) AND (20 OR NOT 30 OR 40)", &sql);
}

#[test]
fn test_new_where() {
    let text = Where::new("abc").to_string();
    assert_eq!("abc", &text);
}

#[test]
fn test_where_brackets() {
    let text = Where::new("abc").eq(10).in_brackets().to_string();
    assert_eq!("(abc = 10)", &text);
}

#[test]
fn test_where_build() {
    let res = Where::new("abc").eq(10).build();
    assert_eq!(Ok("abc = 10".to_string()), res);
}

#[test]
fn test_where_not() {
    let text = Where::new("abc").eq(10).in_brackets().not().to_string();
    assert_eq!("NOT (abc = 10)", &text);
}

#[test]
fn test_where_and() {
    let text = Where::new("abc").eq(10).and(20).to_string();
    assert_eq!("(abc = 10) AND (20)", &text);
}

#[test]
fn test_where_or() {
    let text = Where::new("abc").eq(10).or(20).to_string();
    assert_eq!("abc = 10 OR 20", &text);
}

#[test]
fn test_where_eq() {
    let text = Where::new("abc").eq(10).to_string();
    assert_eq!("abc = 10", &text);
}

#[test]
fn test_where_is_in() {
    let text = Where::new("abc").is_in(vec![1, 2, 3]).to_string();
    assert_eq!("abc in (1, 2, 3)", &text);
}

#[test]
fn test_where_ne() {
    let text = Where::new("abc").ne(10).to_string();
    assert_eq!("abc <> 10", &text);
}

#[test]
fn test_where_between() {
    let text = Where::new("abc").between(1, 10).to_string();
    assert_eq!("abc BETWEEN 1 AND 10", &text);
}

#[test]
fn test_where_null() {
    let text = Where::new("abc").is_null().to_string();
    assert_eq!("abc IS NULL", &text);
}

#[test]
fn test_where_not_null() {
    let text = Where::new("abc").not_null().to_string();
    assert_eq!("abc IS NOT NULL", &text);
}

#[test]
fn test_where_lt() {
    let text = Where::new("abc").lower_then("1").to_string();
    assert_eq!("abc < 1", &text);
}

#[test]
fn test_where_le() {
    let text = Where::new("abc").lower_equal("1").to_string();
    assert_eq!("abc <= 1", &text);
}

#[test]
fn test_where_gt() {
    let text = Where::new("abc").greater_then("1").to_string();
    assert_eq!("abc > 1", &text);
}

#[test]
fn test_where_ge() {
    let text = Where::new("abc").greater_equal("1").to_string();
    assert_eq!("abc >= 1", &text);
}
