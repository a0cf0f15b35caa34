use nmos_node::json::{put_item, put_member, Json, Member};

#[test]
fn scalars_as_text() {
    assert_eq!(Json::Null.to_string(), "null");
    assert_eq!(Json::Number(0).to_string(), "0");
    assert_eq!(Json::Number(404).to_string(), "404");
    assert_eq!(Json::Number(-1).to_string(), "-1");
    assert_eq!(Json::Number(i64::MAX).to_string(), "9223372036854775807");
    assert_eq!(Json::Number(i64::MIN).to_string(), "-9223372036854775808");
    assert_eq!(Json::text("abc").to_string(), "\"abc\"");
    assert_eq!(Json::text("").to_string(), "\"\"");
    assert_eq!(Json::text("a\"b\\c\n\u{1}é").to_string(), "\"a\\\"b\\\\c\\n\\u0001é\"");
    assert_eq!(Json::text_or_null(&None).to_string(), "null");
    assert_eq!(Json::text_or_null(&Some(String::from("x"))).to_string(), "\"x\"");
}

#[test]
fn arrays_and_objects_as_text() {
    assert_eq!(Json::array(Vec::new()).to_string(), "[]");
    assert_eq!(Json::object(Vec::new()).to_string(), "{}");
    assert_eq!(Json::empty_object().to_string(), "{}");
    assert_eq!(Json::texts(&vec![String::from("a"), String::from("b")]).to_string(), "[\"a\",\"b\"]");
    assert_eq!(Json::texts(&Vec::new()).to_string(), "[]");
    let mut items = Vec::new();
    put_item(&mut items, Json::Number(1));
    put_item(&mut items, Json::Null);
    put_item(&mut items, Json::array(vec![Json::Number(2)]));
    let mut members = Vec::new();
    put_member(&mut members, "k\"", Json::array(items));
    put_member(&mut members, "b", Json::empty_object());
    put_member(&mut members, "a", Json::text("v"));
    members.push(Member { key: String::from("a"), value: Json::Number(-5) });
    assert_eq!(
        Json::object(members).to_string(),
        "{\"k\\\"\":[1,null,[2]],\"b\":{},\"a\":\"v\",\"a\":-5}"
    );
}

#[test]
fn text_is_appended() {
    let mut out = String::from(">");
    Json::Number(7).write(&mut out);
    Json::array(vec![Json::Null, Json::Null]).write(&mut out);
    assert_eq!(out, ">7[null,null]");
}

#[test]
fn the_text_reads_back_with_serde_json() {
    let mut members = Vec::new();
    put_member(&mut members, "n", Json::Number(-12));
    put_member(&mut members, "t", Json::text("tab\t\u{7f}\u{2028}"));
    put_member(&mut members, "l", Json::texts(&vec![String::from("x")]));
    put_member(&mut members, "z", Json::Null);
    let text = Json::object(members).to_string();
    let value: serde_json::Value = serde_json::from_str(&text).unwrap();
    assert_eq!(value["n"], -12);
    assert_eq!(value["t"], "tab\t\u{7f}\u{2028}");
    assert_eq!(value["l"][0], "x");
    assert!(value["z"].is_null());
    assert_eq!(serde_json::to_string(&value).unwrap(), "{\"l\":[\"x\"],\"n\":-12,\"t\":\"tab\\t\u{7f}\u{2028}\",\"z\":null}");
}
