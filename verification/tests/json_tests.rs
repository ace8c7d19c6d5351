use fgp_vercel::json::Json;

fn text(s: &str) -> Json {
    Json::Str(s.to_string())
}

fn object(members: Vec<(&str, Json)>) -> Json {
    Json::Object(members.into_iter().map(|(k, v)| (k.to_string(), v)).collect())
}

#[test]
fn parse_reads_an_object() {
    let parsed = Json::parse("{\"limit\": 5, \"name\": \"web\"}").unwrap();
    assert_eq!(parsed.get("limit").and_then(|v| v.as_i64()), Some(5));
    assert_eq!(parsed.get("name").and_then(|v| v.as_str()), Some("web"));
    assert!(parsed.get("other").is_none());
}

#[test]
fn parse_refuses_what_is_not_json() {
    assert!(Json::parse("{\"limit\": ").is_none());
    assert!(Json::parse("").is_none());
    assert!(Json::parse("{} trailing").is_none());
    assert!(Json::parse("<html>").is_none());
}

#[test]
fn parse_reads_every_kind_of_value() {
    assert_eq!(Json::parse("null"), Some(Json::Null));
    assert_eq!(Json::parse("true"), Some(Json::Bool(true)));
    assert_eq!(Json::parse("false"), Some(Json::Bool(false)));
    assert_eq!(Json::parse("12"), Some(Json::Int(12)));
    assert_eq!(Json::parse("-12"), Some(Json::Int(-12)));
    assert_eq!(Json::parse("\"a\\nb\""), Some(text("a\nb")));
    assert_eq!(Json::parse("[]"), Some(Json::Array(vec![])));
    assert_eq!(Json::parse("{}"), Some(Json::Object(vec![])));
    assert_eq!(
        Json::parse("[1, \"two\", [3]]"),
        Some(Json::Array(vec![Json::Int(1), text("two"), Json::Array(vec![Json::Int(3)])]))
    );
}

#[test]
fn parse_keeps_other_numbers_as_literals() {
    assert_eq!(Json::parse("1.5"), Some(Json::Number("1.5".to_string())));
    assert_eq!(Json::parse("18446744073709551615"), Some(Json::Number("18446744073709551615".to_string())));
    assert_eq!(Json::parse("9223372036854775807"), Some(Json::Int(i64::MAX)));
    assert_eq!(Json::parse("-9223372036854775808"), Some(Json::Int(i64::MIN)));
    assert_eq!(Json::parse("9223372036854775808"), Some(Json::Number("9223372036854775808".to_string())));
}

#[test]
fn parse_reads_nested_objects() {
    let parsed = Json::parse("{\"user\": {\"id\": \"u1\", \"tags\": [\"a\", \"b\"]}}").unwrap();
    let user = parsed.get("user").unwrap();
    assert_eq!(user.get("id").and_then(|v| v.as_str()), Some("u1"));
    let tags = user.get("tags").and_then(|v| v.as_array()).unwrap();
    assert_eq!(tags.len(), 2);
    assert_eq!(tags[1].as_str(), Some("b"));
}

#[test]
fn get_finds_the_first_member_of_a_name() {
    let value = object(vec![("a", Json::Int(1)), ("b", Json::Int(2)), ("a", Json::Int(3))]);
    assert_eq!(value.get("a"), Some(&Json::Int(1)));
    assert_eq!(value.get("b"), Some(&Json::Int(2)));
    assert_eq!(value.get("c"), None);
    assert_eq!(value.get(""), None);
}

#[test]
fn get_finds_nothing_in_what_is_no_object() {
    assert_eq!(Json::Null.get("a"), None);
    assert_eq!(Json::Array(vec![text("a")]).get("a"), None);
    assert_eq!(text("a").get("a"), None);
}

#[test]
fn accessors_give_only_their_own_kind() {
    assert_eq!(Json::Int(7).as_i64(), Some(7));
    assert_eq!(text("7").as_i64(), None);
    assert_eq!(Json::Number("7.0".to_string()).as_i64(), None);
    assert_eq!(Json::Bool(true).as_i64(), None);
    assert_eq!(text("x").as_str(), Some("x"));
    assert_eq!(Json::Int(1).as_str(), None);
    assert_eq!(Json::Null.as_str(), None);
    assert_eq!(Json::Array(vec![Json::Null]).as_array(), Some(&vec![Json::Null]));
    assert_eq!(Json::Object(vec![]).as_array(), None);
    assert!(Json::Object(vec![]).is_object());
    assert!(!Json::Array(vec![]).is_object());
}

#[test]
fn clone_copies_every_level() {
    let value = object(vec![
        ("n", Json::Int(-3)),
        ("f", Json::Number("2.5".to_string())),
        ("list", Json::Array(vec![Json::Null, Json::Bool(false), object(vec![("deep", text("x"))])])),
    ]);
    let copy = value.clone();
    assert_eq!(copy, value);
    assert_eq!(copy.get("list").and_then(|l| l.as_array()).map(|l| l.len()), Some(3));
}

#[test]
fn required_text_wants_a_string() {
    let value = object(vec![("id", text("prj_1")), ("n", Json::Int(1)), ("z", Json::Null)]);
    assert_eq!(value.required_text("id"), Some("prj_1".to_string()));
    assert_eq!(value.required_text("n"), None);
    assert_eq!(value.required_text("z"), None);
    assert_eq!(value.required_text("missing"), None);
}

#[test]
fn optional_text_takes_missing_and_null_for_none() {
    let value = object(vec![("id", text("prj_1")), ("n", Json::Int(1)), ("z", Json::Null)]);
    assert_eq!(value.optional_text("id"), Some(Some("prj_1".to_string())));
    assert_eq!(value.optional_text("z"), Some(None));
    assert_eq!(value.optional_text("missing"), Some(None));
    assert_eq!(value.optional_text("n"), None);
}

#[test]
fn defaulted_text_is_empty_where_missing() {
    let value = object(vec![("id", text("prj_1")), ("z", Json::Null)]);
    assert_eq!(value.defaulted_text("id"), Some("prj_1".to_string()));
    assert_eq!(value.defaulted_text("missing"), Some(String::new()));
    assert_eq!(value.defaulted_text("z"), None);
}

#[test]
fn optional_int_wants_an_integer() {
    let value = object(vec![
        ("n", Json::Int(1700000000000)),
        ("f", Json::Number("1.5".to_string())),
        ("s", text("1")),
        ("z", Json::Null),
    ]);
    assert_eq!(value.optional_int("n"), Some(Some(1700000000000)));
    assert_eq!(value.optional_int("z"), Some(None));
    assert_eq!(value.optional_int("missing"), Some(None));
    assert_eq!(value.optional_int("f"), None);
    assert_eq!(value.optional_int("s"), None);
}

#[test]
fn optional_value_takes_any_shape() {
    let value = object(vec![("meta", object(vec![("k", Json::Int(1))])), ("z", Json::Null)]);
    assert_eq!(value.optional_value("meta"), Some(object(vec![("k", Json::Int(1))])));
    assert_eq!(value.optional_value("z"), None);
    assert_eq!(value.optional_value("missing"), None);
}

#[test]
fn aliased_text_prefers_the_first_name() {
    let both = object(vec![("id", text("second")), ("uid", text("first"))]);
    assert_eq!(both.aliased_text("uid", "id"), Some("first".to_string()));
    let only_second = object(vec![("id", text("second"))]);
    assert_eq!(only_second.aliased_text("uid", "id"), Some("second".to_string()));
    let first_wrong = object(vec![("uid", Json::Int(1)), ("id", text("second"))]);
    assert_eq!(first_wrong.aliased_text("uid", "id"), None);
    assert_eq!(Json::Object(vec![]).aliased_text("uid", "id"), None);
}

#[test]
fn or_null_writes_null_for_none() {
    assert_eq!(Json::text_or_null(&None), Json::Null);
    assert_eq!(Json::text_or_null(&Some("a".to_string())), text("a"));
    assert_eq!(Json::int_or_null(&None), Json::Null);
    assert_eq!(Json::int_or_null(&Some(-4)), Json::Int(-4));
    assert_eq!(Json::value_or_null(&None), Json::Null);
    assert_eq!(Json::value_or_null(&Some(Json::Bool(true))), Json::Bool(true));
}
