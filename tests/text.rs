use trsh::{
    parse_i64, same_text, strip_quotes, BinaryTest, CmdArg, ExecError, Expl, TrshError, VarTable,
};

#[test]
fn integers_in_decimal() {
    assert_eq!(parse_i64("42"), Some(42));
    assert_eq!(parse_i64("+7"), Some(7));
    assert_eq!(parse_i64("-0"), Some(0));
    assert_eq!(parse_i64("-9223372036854775808"), Some(i64::MIN));
    assert_eq!(parse_i64("9223372036854775807"), Some(i64::MAX));
    assert_eq!(parse_i64("9223372036854775808"), None);
    assert_eq!(parse_i64("-9223372036854775809"), None);
    assert_eq!(parse_i64("99999999999999999999999"), None);
    assert_eq!(parse_i64(""), None);
    assert_eq!(parse_i64("-"), None);
    assert_eq!(parse_i64("1a"), None);
    assert_eq!(parse_i64(" 1"), None);
}

#[test]
fn binary_comparisons() {
    assert_eq!(BinaryTest::from_op("-eq"), Some(BinaryTest::Eq));
    assert_eq!(BinaryTest::from_op("="), Some(BinaryTest::Eq));
    assert_eq!(BinaryTest::from_op("!="), Some(BinaryTest::Neq));
    assert_eq!(BinaryTest::from_op("-lt"), Some(BinaryTest::Lt));
    assert_eq!(BinaryTest::from_op("-le"), Some(BinaryTest::LtEq));
    assert_eq!(BinaryTest::from_op("<"), None);
    assert_eq!(BinaryTest::Gt.compare("3", "2"), 0);
    assert_eq!(BinaryTest::Gt.compare("2", "3"), 1);
    assert_eq!(BinaryTest::Eq.compare("abc", "abc"), 2);
    assert_eq!(BinaryTest::Neq.compare("1", "2"), 0);
    assert_eq!(BinaryTest::LtEq.compare("-5", "-5"), 0);
    assert_eq!(BinaryTest::GtEq.compare("1", "x"), 2);
}

#[test]
fn quotes_and_equality() {
    assert_eq!(strip_quotes("\"a\""), "a");
    assert_eq!(strip_quotes("\"\"a b\""), "a b");
    assert_eq!(strip_quotes("plain"), "plain");
    assert_eq!(strip_quotes("\"\""), "");
    assert!(same_text("ab", "ab"));
    assert!(!same_text("ab", "abc"));
    assert_eq!(trsh::join_path_text("/a", "b"), "/a/b");
    assert_eq!(trsh::join_path_text("/a/", "b"), "/a/b");
    assert_eq!(trsh::join_path_text("/a", "/b"), "/b");
    assert_eq!(trsh::join_path_text("", "b"), "b");
    assert_eq!(trsh::split_at_colons("a::b"), vec!["a", "", "b"]);
    assert_eq!(trsh::split_at_colons(""), vec![""]);
}

#[test]
fn argument_texts() {
    assert_eq!(CmdArg::Assignment("K".to_string(), "v".to_string()).as_os_string(), "K=\"v\"");
    assert_eq!(CmdArg::Quoted("a b".to_string()).as_os_string(), "\"a b\"");
    assert_eq!(CmdArg::OpNeq.as_os_string(), "!=");
    assert_eq!(CmdArg::Arg("x".to_string()).as_str(), "x");
    assert_eq!(CmdArg::Assignment("K".to_string(), "v".to_string()).as_str(), "K");
    assert_eq!(CmdArg::OpEq.as_str(), "=");
}

#[test]
fn errors_explain_themselves() {
    let e = ExecError::new("cd", "too many arguments");
    match &e {
        ExecError::General(x) => assert_eq!(x.text(), "cd: too many arguments"),
        other => panic!("{other:?}"),
    }
    let t: TrshError = e.into();
    assert!(matches!(t, TrshError::Exec(ExecError::General(_))));
    let x = Expl { name: "a".to_string(), expl: "b".to_string() };
    assert_eq!(x.text(), "a: b");
    assert!(matches!(TrshError::gen_exec("n", "m"), TrshError::Exec(ExecError::General(_))));
}

#[test]
fn table_keeps_first_insertion_order() {
    let mut t = VarTable::new();
    t.insert("b".to_string(), "1".to_string());
    t.insert("a".to_string(), "2".to_string());
    t.insert("b".to_string(), "3".to_string());
    assert_eq!(t.len(), 2);
    assert_eq!(t.entry(0), (&"b".to_string(), &"3".to_string()));
    assert_eq!(t.get("a"), Some(&"2".to_string()));
    assert_eq!(t.remove("b"), Some("3".to_string()));
    assert_eq!(t.remove("b"), None);
    assert_eq!(t.len(), 1);
}

#[test]
fn trimming_matches_unicode_white_space() {
    for s in [
        "  ls  ",
        "\t\n grep\r\u{b}\u{c}",
        "\u{3000}\u{85}a b\u{a0}\u{2028}",
        "\u{200b}x\u{200b}",
        "",
        "   ",
        "\u{1680}\u{2000}\u{200a}\u{202f}\u{205f}y\u{2029}",
    ] {
        assert_eq!(trsh::trim_text(s), s.trim(), "{s:?}");
    }
    assert_eq!(trsh::trim_text("  a b  "), "a b");
}
