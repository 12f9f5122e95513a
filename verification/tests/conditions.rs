use sql_builder::error::SqlBuilderError;
use sql_builder::name::{name, quote_identifier, QuoteType, SqlName};
use sql_builder::text::ToText;
use sql_builder::where_builder::{and, brackets, or, Where};

#[test]
fn combinators_on_one_and_on_no_condition() {
    assert_eq!(and(&["a"]), "(a)");
    assert_eq!(or(&["a"]), "a");
    assert_eq!(and::<&str>(&[]), "()");
    assert_eq!(or::<&str>(&[]), "");
    assert_eq!(brackets::<&str>(&[]), "()");
    assert_eq!(brackets(&[1, 2, 3]), "(1, 2, 3)");
    assert_eq!(and(&[Where::new("a"), Where::new("b")]), "(a) AND (b)");
}

#[test]
fn a_condition_starts_empty_or_with_text() {
    assert_eq!(Where::empty().to_string(), "");
    assert_eq!(Where::empty().build(), Ok(String::new()));
    assert_eq!(Where::new("a").build(), Ok("a".to_string()));
    assert_eq!(Where::new("").build(), Err(SqlBuilderError::NoWhereField));
    assert_eq!(Where::new("").to_string(), "");
}

#[test]
fn steps_on_an_empty_text_are_defects() {
    assert_eq!(
        Where::empty().in_brackets().build(),
        Err(SqlBuilderError::NoWhereField)
    );
    assert_eq!(
        Where::empty().not().build(),
        Err(SqlBuilderError::NoWhereField)
    );
    assert_eq!(
        Where::empty().and("a").build(),
        Err(SqlBuilderError::NoWhereField)
    );
    assert_eq!(
        Where::empty().or("a").build(),
        Err(SqlBuilderError::NoWhereField)
    );
    assert_eq!(Where::empty().and("a").to_string(), "");
}

#[test]
fn an_empty_operand_is_a_defect_with_the_text_so_far() {
    let missing = |text: &str| Err(SqlBuilderError::NoWhereValue(text.to_string()));
    assert_eq!(Where::new("abc").eq("").build(), missing("abc"));
    assert_eq!(Where::new("abc").ne("").build(), missing("abc"));
    assert_eq!(Where::new("abc").lower_then("").build(), missing("abc"));
    assert_eq!(Where::new("abc").lower_equal("").build(), missing("abc"));
    assert_eq!(Where::new("abc").greater_then("").build(), missing("abc"));
    assert_eq!(Where::new("abc").greater_equal("").build(), missing("abc"));
    assert_eq!(Where::new("abc").is_in(Vec::<i32>::new()).build(), missing("abc"));
    assert_eq!(Where::new("abc").between("", "1").build(), missing("abc"));
    assert_eq!(Where::new("abc").between("1", "").build(), missing("abc"));
    assert_eq!(Where::new("abc").and("").build(), missing("abc"));
    assert_eq!(Where::new("abc").or("").build(), missing("abc"));
    assert_eq!(
        Where::new("abc").eq("1").and("").build(),
        missing("abc = 1")
    );
}

#[test]
fn a_defect_changes_no_text() {
    assert_eq!(Where::new("abc").eq("").to_string(), "abc");
    assert_eq!(Where::new("abc").between("1", "").to_string(), "abc");
    assert_eq!(Where::new("abc").is_in(Vec::<&str>::new()).to_string(), "abc");
    assert_eq!(Where::new("abc").and("").to_string(), "abc");
}

#[test]
fn the_first_defect_of_a_condition_is_kept() {
    assert_eq!(
        Where::new("").eq("").build(),
        Err(SqlBuilderError::NoWhereField)
    );
    assert_eq!(
        Where::new("a").eq("").between("", "").in_brackets().build(),
        Err(SqlBuilderError::NoWhereValue("a".to_string()))
    );
    assert_eq!(
        Where::new("a").eq("").eq("1").build(),
        Err(SqlBuilderError::NoWhereValue("a".to_string()))
    );
    assert_eq!(Where::new("a").eq("").eq("1").to_string(), "a = 1");
}

#[test]
fn conjunctions_are_bracketed_once() {
    assert_eq!(
        Where::new("a").and("b").and("c").to_string(),
        "(a) AND (b) AND (c)"
    );
    assert_eq!(
        Where::new("a").or("b").and("c").or("d").to_string(),
        "(a OR b) AND (c) OR d"
    );
    assert_eq!(
        Where::new("a").and("b").in_brackets().not().to_string(),
        "NOT ((a) AND (b))"
    );
}

#[test]
fn comparisons_are_appended() {
    assert_eq!(
        Where::new("a").is_in(vec!["1"]).to_string(),
        "a in (1)"
    );
    assert_eq!(
        Where::new("a").eq("1").or("b").is_null().to_string(),
        "a = 1 OR b IS NULL"
    );
    assert_eq!(
        Where::new("a")
            .greater_equal("1")
            .and('a')
            .lower_then("9")
            .build(),
        Ok("(a >= 1) AND (a) < 9".to_string())
    );
}

#[test]
fn names_without_quoting_fall_back_to_backticks() {
    assert_eq!(SqlName::new("safe_name").to_string(), "safe_name");
    assert_eq!(SqlName::new("spaced name").to_string(), "`spaced name`");
    assert_eq!(SqlName::new("Upper").to_string(), "`Upper`");
    assert_eq!(SqlName::new("a-b").to_string(), "`a-b`");
    assert_eq!(SqlName::new("a.b").to_string(), "`a.b`");
    assert_eq!(SqlName::new("abc_123").to_string(), "abc_123");
    assert_eq!(SqlName::new("é").to_string(), "`é`");
    assert_eq!(SqlName::new("").to_string(), "");
    assert_eq!(SqlName::new("a`b").to_string(), "`a``b`");
}

#[test]
fn one_unsafe_part_quotes_every_part() {
    assert_eq!(
        SqlName::new("public").add("BOOKS").to_string(),
        "`public`.`BOOKS`"
    );
    assert_eq!(name("public").add("books").to_string(), "public.books");
    assert_eq!(
        name("a").add("b").add("c d").alias("x").to_string(),
        "`a`.`b`.`c d` AS x"
    );
}

#[test]
fn the_alias_is_made_safe_by_itself() {
    assert_eq!(
        SqlName::new("t").alias("My Alias").dquoted().to_string(),
        "\"t\" AS `My Alias`"
    );
    assert_eq!(
        SqlName::new("t").alias("my_alias").brquoted().to_string(),
        "[t] AS my_alias"
    );
    assert_eq!(
        SqlName::new("T").alias("a").alias("b").to_string(),
        "`T` AS b"
    );
}

#[test]
fn each_part_is_quoted_by_itself() {
    assert_eq!(
        SqlName::new("it's").add("o'k").quoted().to_string(),
        "'it''s'.'o''k'"
    );
    assert_eq!(
        SqlName::new("a\"b").add("c").dquoted().to_string(),
        "\"a\"\"b\".\"c\""
    );
    assert_eq!(
        SqlName::new("a]b").add("c").brquoted().to_string(),
        "[a]b].[c]"
    );
    let mut name = SqlName::new("a");
    name.add("b").baquoted();
    assert_eq!(name.to_string(), "`a`.`b`");
    assert_eq!(name.safe().to_string(), "a.b");
}

#[test]
fn safe_characters() {
    assert!(SqlName::is_safe("abc_xyz_0189"));
    assert!(SqlName::is_safe(""));
    assert!(!SqlName::is_safe("A"));
    assert!(!SqlName::is_safe("a b"));
    assert!(!SqlName::is_safe("a`"));
    assert!(!SqlName::is_safe("{"));
    assert!(!SqlName::is_safe("/"));
    assert!(!SqlName::is_safe(":"));
    assert_eq!(QuoteType::default(), QuoteType::Plain);
}

#[test]
fn plain_text_of_values() {
    assert_eq!("abc".to_text(), "abc");
    assert_eq!(String::from("it's").to_text(), "it's");
    assert_eq!('x'.to_text(), "x");
    assert_eq!(true.to_text(), "true");
    assert_eq!(false.to_text(), "false");
    assert_eq!(10u8.to_text(), "10");
    assert_eq!((-10i64).to_text(), "-10");
    assert_eq!(u64::MAX.to_text(), u64::MAX.to_string());
    assert_eq!((&&7usize).to_text(), "7");
    assert_eq!(SqlName::new("A").alias("b").to_text(), "`A` AS b");
    assert_eq!(Where::new("a").eq(true).to_text(), "a = true");
}

#[test]
fn an_identifier_from_its_parts() {
    assert_eq!(
        quote_identifier(&["safe_name"], None, QuoteType::Plain),
        "safe_name"
    );
    assert_eq!(
        quote_identifier(&["spaced name"], None, QuoteType::Plain),
        "`spaced name`"
    );
    assert_eq!(
        quote_identifier(&["public", "books"], Some("b"), QuoteType::Double),
        "\"public\".\"books\" AS b"
    );
    assert_eq!(
        quote_identifier(&["a", "B"], Some("the b"), QuoteType::Plain),
        "`a`.`B` AS `the b`"
    );
    assert_eq!(
        quote_identifier::<&str>(&[], Some("x"), QuoteType::Single),
        " AS x"
    );
}

#[test]
fn copies_and_defaults() {
    assert_eq!(Where::default().to_string(), "");
    assert_eq!(Where::default().build(), Ok(String::new()));
    let mut first = Where::new("a");
    first.eq(1);
    let mut second = first.clone();
    second.and("b");
    assert_eq!(first.build(), Ok("a = 1".to_string()));
    assert_eq!(second.build(), Ok("(a = 1) AND (b)".to_string()));
    let mut name = SqlName::new("a");
    let mut copy = name.clone();
    copy.add("B");
    assert_eq!(name.safe().to_string(), "a");
    assert_eq!(copy.to_string(), "`a`.`B`");
    assert_eq!(sql_builder::quote("x"), "'x'");
}
