use ironveil::parse::parse_trimmed_u32;

#[test]
fn interface_index_outputs() {
    assert_eq!(parse_trimmed_u32("12\r\n"), Ok(12));
    assert_eq!(parse_trimmed_u32(""), Err("cannot parse integer from empty string".to_string()));
    assert_eq!(parse_trimmed_u32(" \t\n"), Err("cannot parse integer from empty string".to_string()));
    assert_eq!(parse_trimmed_u32(" +7 "), Ok(7));
    assert_eq!(parse_trimmed_u32("+"), Err("invalid digit found in string".to_string()));
    assert_eq!(parse_trimmed_u32("-1"), Err("invalid digit found in string".to_string()));
    assert_eq!(parse_trimmed_u32("4294967295"), Ok(u32::MAX));
    assert_eq!(parse_trimmed_u32("4294967296"), Err("number too large to fit in target type".to_string()));
    assert_eq!(parse_trimmed_u32("12a"), Err("invalid digit found in string".to_string()));
    assert_eq!(parse_trimmed_u32("\u{3000}5\u{2003}"), Ok(5));
}

#[test]
fn agrees_with_std_trim_and_parse() {
    let samples = [
        "0", "007", "12\r\n", "  42  ", "+", "-", "+-1", "-0", "1 2", "４", "99999999999x",
        "4294967295", "4294967296", "18446744073709551616", "\u{a0}3\u{85}", "x", "", "1e3",
        "\u{feff}1", "\u{200b}1",
    ];
    for s in samples {
        let expected = s.trim().parse::<u32>().map_err(|e| e.to_string());
        assert_eq!(parse_trimmed_u32(s), expected, "input {s:?}");
    }
}
