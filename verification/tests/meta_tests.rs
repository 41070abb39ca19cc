use cardgen::meta::{extract_icon_url, extract_post_info, CardError, Field, Meta};

fn field(name: &str, value: Meta) -> Field {
    Field { name: name.to_string(), value }
}

fn s(text: &str) -> Meta {
    Meta::Str(text.to_string())
}

fn post_tree(fields: Vec<Field>) -> Meta {
    Meta::List(vec![field_obj(vec![field(
        "data",
        field_obj(vec![field(
            "children",
            Meta::List(vec![field_obj(vec![field("data", Meta::Object(fields))])]),
        )]),
    )])])
}

fn field_obj(fields: Vec<Field>) -> Meta {
    Meta::Object(fields)
}

#[test]
fn complete_metadata_extracts_all_fields() {
    let m = post_tree(vec![
        field("title", s("Hello World")),
        field("subreddit", s("test")),
        field("subreddit_name_prefixed", s("r/test")),
        field("ups", Meta::Number),
    ]);
    let p = extract_post_info(&m).unwrap();
    assert_eq!(p.title, "Hello World".to_string());
    assert_eq!(p.subreddit, "test".to_string());
    assert_eq!(p.subreddit_name_prefixed, "r/test".to_string());
}

#[test]
fn missing_title_fails_before_drawing() {
    let m = post_tree(vec![
        field("subreddit", s("test")),
        field("subreddit_name_prefixed", s("r/test")),
    ]);
    assert_eq!(extract_post_info(&m).unwrap_err(), CardError::MissingField);
}

#[test]
fn missing_community_label_fails_before_drawing() {
    let m = post_tree(vec![field("title", s("Hello World")), field("subreddit", s("test"))]);
    assert_eq!(extract_post_info(&m).unwrap_err(), CardError::MissingField);
}

#[test]
fn wrongly_shaped_field_fails_like_a_missing_one() {
    let m = post_tree(vec![
        field("title", Meta::Number),
        field("subreddit", s("test")),
        field("subreddit_name_prefixed", s("r/test")),
    ]);
    assert_eq!(extract_post_info(&m).unwrap_err(), CardError::MissingField);
}

#[test]
fn malformed_response_root_fails() {
    assert_eq!(extract_post_info(&Meta::Null).unwrap_err(), CardError::MissingField);
    assert_eq!(extract_post_info(&s("nope")).unwrap_err(), CardError::MissingField);
    assert_eq!(
        extract_post_info(&Meta::List(vec![])).unwrap_err(),
        CardError::MissingField
    );
}

#[test]
fn icon_url_is_read_when_configured() {
    let m = field_obj(vec![field(
        "data",
        field_obj(vec![field("icon_img", s("https://example.test/icon.png"))]),
    )]);
    assert_eq!(
        extract_icon_url(&m).unwrap(),
        Some("https://example.test/icon.png".to_string())
    );
}

#[test]
fn absent_or_empty_icon_url_means_no_custom_icon() {
    let none = field_obj(vec![field("data", field_obj(vec![]))]);
    assert_eq!(extract_icon_url(&none).unwrap(), None);
    let empty = field_obj(vec![field("data", field_obj(vec![field("icon_img", s(""))]))]);
    assert_eq!(extract_icon_url(&empty).unwrap(), None);
}

#[test]
fn wrongly_shaped_icon_url_is_a_missing_field() {
    let bad = field_obj(vec![field("data", field_obj(vec![field("icon_img", Meta::Number)]))]);
    assert_eq!(extract_icon_url(&bad).unwrap_err(), CardError::MissingField);
}

#[test]
fn lookup_takes_the_first_matching_field() {
    let m = field_obj(vec![field("k", s("first")), field("k", s("second"))]);
    let v = m.get_field(&"k".to_string()).unwrap();
    match v {
        Meta::Str(text) => assert_eq!(*text, "first".to_string()),
        _ => panic!("expected a string"),
    }
}
