use log_saver::text::{
    join_strings, parse_u32, parse_u64, parse_usize, remove_all, replace_char, split_char,
    trim_end_char,
};

fn strings(v: &[&str]) -> Vec<String> {
    v.iter().map(|s| s.to_string()).collect()
}

#[test]
fn split_cuts_at_every_separator() {
    assert_eq!(split_char("a.b.c", '.'), strings(&["a", "b", "c"]));
    assert_eq!(split_char("", '.'), strings(&[""]));
    assert_eq!(split_char("a.", '.'), strings(&["a", ""]));
    assert_eq!(split_char(".", '.'), strings(&["", ""]));
    assert_eq!(split_char("ключ.значение", '.'), strings(&["ключ", "значение"]));
}

#[test]
fn join_puts_separator_between_pieces() {
    assert_eq!(join_strings(&strings(&["a", "b", "c"]), "."), "a.b.c");
    assert_eq!(join_strings(&strings(&[]), ","), "");
    assert_eq!(join_strings(&strings(&["x"]), ","), "x");
}

#[test]
fn split_then_join_gives_text_back() {
    for s in ["", ".", "a..b", "$.message.pixels.name", "x."] {
        assert_eq!(join_strings(&split_char(s, '.'), "."), s);
    }
}

#[test]
fn parse_follows_std() {
    for s in ["0", "42", "+42", "", "+", "-1", "12a", " 1", "18446744073709551615", "18446744073709551616", "0042"] {
        assert_eq!(parse_u64(s), s.parse::<u64>().ok(), "{}", s);
        assert_eq!(parse_u32(s), s.parse::<u32>().ok(), "{}", s);
        assert_eq!(parse_usize(s), s.parse::<usize>().ok(), "{}", s);
    }
    assert_eq!(parse_u32("4294967296"), None);
    assert_eq!(parse_u32("4294967295"), Some(4294967295));
}

#[test]
fn remove_all_follows_std_replace() {
    for s in ["$.a.$.b", "$$..", "no pattern", "", "$.", "$.$.$"] {
        assert_eq!(remove_all(s, "$."), s.replace("$.", ""), "{}", s);
    }
}

#[test]
fn replace_and_trim() {
    assert_eq!(replace_char("{\"a\":\"b\"}", '"', '\''), "{'a':'b'}");
    assert_eq!(trim_end_char("a,b,,", ','), "a,b");
    assert_eq!(trim_end_char(",,,", ','), "");
    assert_eq!(trim_end_char("", ','), "");
}
