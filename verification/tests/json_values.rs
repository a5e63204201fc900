use sidero::json::new_entries;
use sidero::json::new_items;
use sidero::json::push_entry;
use sidero::json::push_item;
use sidero::json::Json;

fn text(s: &str) -> Json {
    Json::String(s.to_string())
}

fn object(entries: Vec<(&str, Json)>) -> Json {
    Json::Object(entries.into_iter().map(|(k, v)| (k.to_string(), v)).collect())
}

#[test]
fn get_returns_the_last_entry_with_the_key() {
    let j = object(vec![("a", Json::Bool(false)), ("b", Json::Null), ("a", Json::Bool(true))]);
    assert_eq!(j.get("a"), Some(&Json::Bool(true)));
    assert_eq!(j.get("b"), Some(&Json::Null));
    assert_eq!(j.get("c"), None);
}

#[test]
fn get_on_a_value_that_is_no_object_finds_nothing() {
    assert_eq!(Json::Null.get("a"), None);
    assert_eq!(text("a").get("a"), None);
    assert_eq!(Json::Array(vec![text("a")]).get("a"), None);
}

#[test]
fn accessors_tell_the_variants_apart() {
    assert_eq!(text("x").as_str(), Some("x"));
    assert_eq!(Json::Integer(3).as_str(), None);
    assert_eq!(Json::Integer(-3).as_i64(), Some(-3));
    assert_eq!(text("3").as_i64(), None);
    assert!(Json::Null.is_null());
    assert!(!Json::Bool(false).is_null());
    assert_eq!(Json::Array(vec![Json::Null]).as_array(), Some(&vec![Json::Null]));
    assert_eq!(Json::Null.as_array(), None);
    assert_eq!(object(vec![("k", Json::Null)]).as_object(), Some(&vec![("k".to_string(), Json::Null)]));
    assert_eq!(Json::Array(vec![]).as_object(), None);
}

#[test]
fn as_strings_wants_every_item_to_be_a_string() {
    assert_eq!(
        Json::Array(vec![text("a"), text("b")]).as_strings(),
        Some(vec!["a".to_string(), "b".to_string()])
    );
    assert_eq!(Json::Array(vec![]).as_strings(), Some(vec![]));
    assert_eq!(Json::Array(vec![text("a"), Json::Integer(1)]).as_strings(), None);
    assert_eq!(text("a").as_strings(), None);
    assert_eq!(Json::Null.as_strings(), None);
}

#[test]
fn clone_copies_every_part() {
    let number = serde_json::Number::from_f64(1.5).unwrap();
    let j = object(vec![
        ("n", Json::Number(number)),
        ("i", Json::Integer(i64::MIN)),
        ("list", Json::Array(vec![text("a"), Json::Null, Json::Bool(true)])),
        ("inner", object(vec![("k", text("v"))])),
    ]);
    let copy = j.clone();
    assert_eq!(copy, j);
    assert_eq!(copy.get("n"), Some(&Json::Number(serde_json::Number::from_f64(1.5).unwrap())));
    assert_ne!(copy.get("n"), Some(&Json::Number(serde_json::Number::from_f64(2.5).unwrap())));
}

#[test]
fn builders_append_in_order() {
    let mut entries = new_entries();
    assert!(entries.is_empty());
    push_entry(&mut entries, "a", Json::Integer(1));
    push_entry(&mut entries, "b", Json::Integer(2));
    assert_eq!(Json::object(entries), object(vec![("a", Json::Integer(1)), ("b", Json::Integer(2))]));
    let mut items = new_items();
    assert!(items.is_empty());
    push_item(&mut items, Json::Integer(1));
    push_item(&mut items, Json::string("x"));
    assert_eq!(Json::array(items), Json::Array(vec![Json::Integer(1), text("x")]));
}
