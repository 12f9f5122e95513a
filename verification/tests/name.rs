use sql_builder::name::SqlName;

#[test]
fn test_simple_name() {
    let name = SqlName::new("safe_name").safe().to_string();
    assert_eq!(&name, "safe_name");

    let name = SqlName::new("safe_name").alias("sn").safe().to_string();
    assert_eq!(&name, "safe_name AS sn");

    let name = sql_builder::name::name("safe_name").safe().to_string();
    assert_eq!(&name, "safe_name");

    let name = sql_builder::name::name("safe_name")
        .alias("sn")
        .safe()
        .to_string();
    assert_eq!(&name, "safe_name AS sn");
}

#[test]
fn test_spaced_name() {
    let name = SqlName::new("spaced name").safe().to_string();
    assert_eq!(&name, "`spaced name`");

    let name = SqlName::new("spaced name").alias("s n").safe().to_string();
    assert_eq!(&name, "`spaced name` AS `s n`");

    let name = sql_builder::name::name("spaced name").safe().to_string();
    assert_eq!(&name, "`spaced name`");

    let name = sql_builder::name::name("spaced name")
        .alias("s n")
        .safe()
        .to_string();
    assert_eq!(&name, "`spaced name` AS `s n`");
}

#[test]
fn test_quoted_name() {
    let name = SqlName::new("some 'awesome' name").quoted().to_string();
    assert_eq!(&name, "'some ''awesome'' name'");

    let name = SqlName::new("some 'awesome' name")
        .alias("awesome name")
        .quoted()
        .to_string();
    assert_eq!(&name, "'some ''awesome'' name' AS `awesome name`");

    let name = SqlName::new("some 'awesome' name")
        .add("sub")
        .alias("awesome name")
        .quoted()
        .to_string();
    assert_eq!(&name, "'some ''awesome'' name'.'sub' AS `awesome name`");

    let name = sql_builder::name::name("some 'awesome' name")
        .quoted()
        .to_string();
    assert_eq!(&name, "'some ''awesome'' name'");

    let name = sql_builder::name::name("some 'awesome' name")
        .alias("awesome name")
        .quoted()
        .to_string();
    assert_eq!(&name, "'some ''awesome'' name' AS `awesome name`");

    let name = sql_builder::name::name("some 'awesome' name")
        .add("sub")
        .alias("awesome name")
        .quoted()
        .to_string();
    assert_eq!(&name, "'some ''awesome'' name'.'sub' AS `awesome name`");
}

#[test]
fn test_baquoted_name() {
    let name = SqlName::new("safe_name").baquoted().to_string();
    assert_eq!(&name, "`safe_name`");

    let name = SqlName::new("safe_name").alias("sn").baquoted().to_string();
    assert_eq!(&name, "`safe_name` AS sn");

    let name = SqlName::new("safe_name")
        .add("sub")
        .alias("sn")
        .baquoted()
        .to_string();
    assert_eq!(&name, "`safe_name`.`sub` AS sn");

    let name = sql_builder::name::name("safe_name").baquoted().to_string();
    assert_eq!(&name, "`safe_name`");

    let name = sql_builder::name::name("safe_name")
        .alias("sn")
        .baquoted()
        .to_string();
    assert_eq!(&name, "`safe_name` AS sn");

    let name = sql_builder::name::name("safe_name")
        .add("sub")
        .alias("sn")
        .baquoted()
        .to_string();
    assert_eq!(&name, "`safe_name`.`sub` AS sn");
}

#[test]
fn test_brquoted_name() {
    let name = SqlName::new("safe_name").brquoted().to_string();
    assert_eq!(&name, "[safe_name]");

    let name = SqlName::new("safe_name").alias("sn").brquoted().to_string();
    assert_eq!(&name, "[safe_name] AS sn");

    let name = SqlName::new("safe_name")
        .add("sub")
        .alias("sn")
        .brquoted()
        .to_string();
    assert_eq!(&name, "[safe_name].[sub] AS sn");

    let name = sql_builder::name::name("safe_name").brquoted().to_string();
    assert_eq!(&name, "[safe_name]");

    let name = sql_builder::name::name("safe_name")
        .alias("sn")
        .brquoted()
        .to_string();
    assert_eq!(&name, "[safe_name] AS sn");

    let name = sql_builder::name::name("safe_name")
        .add("sub")
        .alias("sn")
        .brquoted()
        .to_string();
    assert_eq!(&name, "[safe_name].[sub] AS sn");
}

#[test]
fn test_dquoted_name() {
    let name = SqlName::new("safe_name").dquoted().to_string();
    assert_eq!(&name, "\"safe_name\"");

    let name = SqlName::new("safe_name").alias("sn").dquoted().to_string();
    assert_eq!(&name, "\"safe_name\" AS sn");

    let name = SqlName::new("safe_name")
        .add("sub")
        .alias("sn")
        .dquoted()
        .to_string();
    assert_eq!(&name, "\"safe_name\".\"sub\" AS sn");

    let name = sql_builder::name::name("safe_name").dquoted().to_string();
    assert_eq!(&name, "\"safe_name\"");

    let name = sql_builder::name::name("safe_name")
        .alias("sn")
        .dquoted()
        .to_string();
    assert_eq!(&name, "\"safe_name\" AS sn");

    let name = sql_builder::name::name("safe_name")
        .add("sub")
        .alias("sn")
        .dquoted()
        .to_string();
    assert_eq!(&name, "\"safe_name\".\"sub\" AS sn");
}
