use jsonb_envelope::naming::{module_name, module_name_from};

#[test]
fn module_name_is_snake_case_and_suffix() {
    assert_eq!(module_name("Bar"), Some(String::from("bar_diesel_jsonb")));
    assert_eq!(module_name("FooBar"), Some(String::from("foo_bar_diesel_jsonb")));
    assert_eq!(
        module_name("XMLHttpRequest"),
        Some(String::from("xml_http_request_diesel_jsonb"))
    );
    assert_eq!(module_name("Point3D"), Some(String::from("point3_d_diesel_jsonb")));
}

#[test]
fn module_name_keeps_snake_case_names() {
    assert_eq!(module_name("already_snake"), Some(String::from("already_snake_diesel_jsonb")));
    assert_eq!(module_name("x"), Some(String::from("x_diesel_jsonb")));
}

#[test]
fn module_name_of_no_name_is_none() {
    assert_eq!(module_name(""), None);
}

#[test]
fn module_name_of_a_name_without_words() {
    assert_eq!(module_name("_"), Some(String::from("_diesel_jsonb")));
}

#[test]
fn module_name_from_appends_the_suffix() {
    assert_eq!(module_name_from("bar"), "bar_diesel_jsonb");
    assert_eq!(module_name_from(""), "_diesel_jsonb");
    assert_eq!(module_name_from("Bar"), "Bar_diesel_jsonb");
}
