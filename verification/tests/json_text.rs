use memora::json::{Json, Member};
use memora::parse::json_parse;
use memora::render::json_render;
use memora::text::{i32_of_text, i32_to_text};
use memora::domain::NumberText;

fn member(key: &str, value: Json) -> Member {
    Member { key: String::from(key), value }
}

#[test]
fn render_atoms() {
    assert_eq!(json_render(&Json::Null), "null");
    assert_eq!(json_render(&Json::Bool(true)), "true");
    assert_eq!(json_render(&Json::Bool(false)), "false");
    assert_eq!(json_render(&Json::Num(String::from("-12.5e3"))), "-12.5e3");
    assert_eq!(json_render(&Json::Str(String::from("hi"))), "\"hi\"");
}

#[test]
fn render_escapes_quote_backslash_and_controls() {
    let s = Json::Str(String::from("a\"b\\c\nd\re\tf\u{1}g"));
    assert_eq!(json_render(&s), "\"a\\\"b\\\\c\\nd\\re\\tf\\u0001g\"");
}

#[test]
fn render_keeps_unicode_raw() {
    let s = Json::Str(String::from("caf\u{e9} \u{1F600}"));
    assert_eq!(json_render(&s), "\"caf\u{e9} \u{1F600}\"");
}

#[test]
fn render_nested_document() {
    let doc = Json::Obj(vec![
        member("a", Json::Num(String::from("1"))),
        member("b", Json::Arr(vec![Json::Bool(true), Json::Null, Json::Str(String::from("x"))])),
        member("c", Json::Obj(vec![])),
    ]);
    assert_eq!(json_render(&doc), "{\"a\":1,\"b\":[true,null,\"x\"],\"c\":{}}");
}

#[test]
fn parse_basic_document() {
    let doc = json_parse("{\"a\":1,\"b\":[true,null,\"x\"]}").expect("parses");
    match doc {
        Json::Obj(members) => {
            assert_eq!(members.len(), 2);
            assert_eq!(members[0].key, "a");
            assert!(matches!(&members[0].value, Json::Num(t) if t == "1"));
            assert_eq!(members[1].key, "b");
            match &members[1].value {
                Json::Arr(elems) => {
                    assert_eq!(elems.len(), 3);
                    assert!(matches!(elems[0], Json::Bool(true)));
                    assert!(matches!(elems[1], Json::Null));
                    assert!(matches!(&elems[2], Json::Str(s) if s == "x"));
                },
                other => panic!("expected array, got {:?}", other),
            }
        },
        other => panic!("expected object, got {:?}", other),
    }
}

#[test]
fn parse_tolerates_whitespace() {
    let doc = json_parse(" \t\r\n{ \"k\" : [ 1 , 2 ] } \n").expect("parses");
    assert_eq!(json_render(&doc), "{\"k\":[1,2]}");
}

#[test]
fn parse_reads_escapes() {
    let doc = json_parse("\"a\\n\\t\\\"\\\\\\/\\u0041\\u000a\"").expect("parses");
    assert!(matches!(doc, Json::Str(s) if s == "a\n\t\"\\/A\n"));
}

#[test]
fn parse_keeps_number_text_exactly() {
    let doc = json_parse("[0.10, -3e+2, 12.250]").expect("parses");
    match doc {
        Json::Arr(elems) => {
            assert!(matches!(&elems[0], Json::Num(t) if t == "0.10"));
            assert!(matches!(&elems[1], Json::Num(t) if t == "-3e+2"));
            assert!(matches!(&elems[2], Json::Num(t) if t == "12.250"));
        },
        other => panic!("expected array, got {:?}", other),
    }
}

#[test]
fn parse_rejects_malformed_documents() {
    assert!(json_parse("").is_none());
    assert!(json_parse("{").is_none());
    assert!(json_parse("{\"a\":1,}").is_none());
    assert!(json_parse("[1 2]").is_none());
    assert!(json_parse("01").is_none());
    assert!(json_parse("1.").is_none());
    assert!(json_parse("+1").is_none());
    assert!(json_parse("nul").is_none());
    assert!(json_parse("\"unterminated").is_none());
    assert!(json_parse("\"raw\u{1}control\"").is_none());
    assert!(json_parse("{\"a\":1} trailing").is_none());
    assert!(json_parse("{\"a\" 1}").is_none());
}

#[test]
fn parse_then_render_round_trips_text() {
    let texts = [
        "{\"a\":1,\"b\":[true,null,\"x\"],\"c\":{\"d\":\"e\"}}",
        "[\"\",\"q\\\"q\",0.5]",
        "null",
    ];
    for t in texts {
        let doc = json_parse(t).expect("parses");
        assert_eq!(json_render(&doc), *t);
    }
}

#[test]
fn number_text_accepts_whole_number_lexemes() {
    for good in ["0", "1", "-1", "0.5", "12.250", "-3e+2", "1E-10", "0.1"] {
        assert!(NumberText::new(String::from(good)).is_some(), "{}", good);
    }
    for bad in ["", "01", "1.", ".5", "+1", "--1", "1e", "1.e2", "one", " 1", "1 "] {
        assert!(NumberText::new(String::from(bad)).is_none(), "{}", bad);
    }
}

#[test]
fn integer_text_forms() {
    assert_eq!(i32_to_text(0), "0");
    assert_eq!(i32_to_text(-1), "-1");
    assert_eq!(i32_to_text(2147483647), "2147483647");
    assert_eq!(i32_to_text(-2147483648), "-2147483648");
    assert_eq!(i32_to_text(1024), "1024");
}

#[test]
fn integer_text_reads_back() {
    assert_eq!(i32_of_text("0"), Some(0));
    assert_eq!(i32_of_text("-0"), Some(0));
    assert_eq!(i32_of_text("2147483647"), Some(2147483647));
    assert_eq!(i32_of_text("-2147483648"), Some(-2147483648));
    assert_eq!(i32_of_text("2147483648"), None);
    assert_eq!(i32_of_text("-2147483649"), None);
    assert_eq!(i32_of_text("99999999999999999999"), None);
    assert_eq!(i32_of_text("12a"), None);
    assert_eq!(i32_of_text(""), None);
    assert_eq!(i32_of_text("-"), None);
    assert_eq!(i32_of_text("007"), Some(7));
}

#[test]
fn escaped_strings_round_trip_through_text() {
    let contents = ["", "plain", "a\"b\\c", "tabs\tand\nlines", "\u{1}\u{1f}\u{8}\u{c}", "caf\u{e9}"];
    for content in contents {
        let rendered = json_render(&Json::Str(String::from(content)));
        let back = json_parse(&rendered).expect("parses");
        assert!(matches!(back, Json::Str(s) if s == content));
    }
}
