use careful_resume::text::{join, parse_u64, split_fields, write_u64};

fn chars(text: &str) -> Vec<char> {
    text.chars().collect()
}

#[test]
fn fields_split_at_every_comma() {
    for text in ["", ",", "a", "a,b", ",a,,b,", "rtt,5,cwnd,80000,time,17\n", "é,ü"] {
        let expected: Vec<Vec<char>> = text.split(',').map(chars).collect();
        assert_eq!(split_fields(text), expected);
    }
}

#[test]
fn fields_rejoin_to_the_text() {
    let text = ",a,,bc,";
    let parts: Vec<String> = split_fields(text)
        .into_iter()
        .map(|f| f.into_iter().collect())
        .collect();
    assert_eq!(join(&parts, ","), text);
}

#[test]
fn numbers_are_read_as_in_the_standard_library() {
    for text in [
        "",
        "0",
        "7",
        "+7",
        "+",
        "-",
        "++1",
        "-1",
        "-0",
        "007",
        " 7",
        "7 ",
        "7\n",
        "1_000",
        "0x10",
        "18446744073709551615",
        "18446744073709551616",
        "+18446744073709551615",
        "99999999999999999999",
        "00000000000000000000000000005",
        "99999999999999999999x",
        "٣",
        "1.5",
    ] {
        assert_eq!(parse_u64(&chars(text)), text.parse::<u64>().ok(), "{text:?}");
    }
    assert_eq!(parse_u64(&chars("18446744073709551615")), Some(u64::MAX));
    assert_eq!(parse_u64(&chars("18446744073709551616")), None);
}

#[test]
fn numbers_are_written_in_decimal() {
    for n in [0, 1, 9, 10, 11, 99, 100, 12_345, 1_000_000, u64::MAX] {
        assert_eq!(write_u64(n), n.to_string());
    }
}

#[test]
fn words_are_joined() {
    assert_eq!(join(&vec![], " "), "");
    assert_eq!(join(&vec!["a".to_string()], " "), "a");
    let words = vec!["a".to_string(), String::new(), "b".to_string()];
    assert_eq!(join(&words, " "), words.join(" "));
    assert_eq!(join(&words, ", "), "a, , b");
}
