use catdex::catalog::{cats_response, cats_table_name, CATS_SCAN_LIMIT};
use catdex::chat::{periodic_broadcast, ChatMessage, BROADCAST_INTERVAL_MS};
use catdex::errors::UserError;
use catdex::greeting::{hello, my_handler, CustomEvent, HandlerError};
use catdex::models::{form_field, image_path_or_default, index_page, Cat, NewCat, CAT_LIST_LIMIT};
use catdex::scaffold::{
    already_exists_message, commit_message, project_folder, project_path, usage, EXPECTED_ARG_COUNT,
};
use catdex::text::{decimal_i32, decimal_u128};

fn pairs(items: &[(&str, &str)]) -> Vec<(String, String)> {
    items.iter().map(|(k, v)| (k.to_string(), v.to_string())).collect()
}

#[test]
fn hello_handles() {
    let event: serde_json::Value = serde_json::from_str("{\"answer\": 42}").unwrap();
    assert_eq!(hello(event.clone()).expect("expected Ok(_) value"), event);
}

#[test]
fn greeting_by_first_name() {
    let out = my_handler(CustomEvent { first_name: "Ada".to_string() }).unwrap();
    assert_eq!(out.message, "Hello, Ada!");
}

#[test]
fn greeting_refuses_empty_first_name() {
    let r = my_handler(CustomEvent { first_name: String::new() });
    assert!(matches!(r, Err(HandlerError::EmptyFirstName)));
    assert_eq!(HandlerError::EmptyFirstName.message(), "Empty first name");
}

#[test]
fn user_error_messages_and_statuses() {
    assert_eq!(UserError::ValidationError.message(), "Invalid input parameter");
    assert_eq!(UserError::InternalError.message(), "Internal server error");
    assert_eq!(UserError::NotFoundError.message(), "Not found");
    assert_eq!(UserError::ValidationError.status_code(), 400);
    assert_eq!(UserError::InternalError.status_code(), 500);
    assert_eq!(UserError::NotFoundError.status_code(), 404);
}

#[test]
fn user_error_response_is_json_message() {
    let r = UserError::NotFoundError.error_response();
    assert_eq!(r.status, 404);
    assert_eq!(r.body, "{\"msg\":\"Not found\"}");
    let r = UserError::ValidationError.error_response();
    assert_eq!(r.status, 400);
    assert_eq!(r.body, "{\"msg\":\"Invalid input parameter\"}");
}

#[test]
fn chat_announcement_and_relay() {
    let m = ChatMessage { name: "Tom".to_string(), message: "meow \"hi\"".to_string() };
    assert_eq!(m.announcement(1725029869000), "Tom said: meow \"hi\" at 1725029869000");
    assert_eq!(
        m.relay_text(1725029869000),
        "{\"message\":\"meow \\\"hi\\\"\",\"name\":\"Tom\",\"received_at\":\"1725029869000\"}"
    );
    assert_eq!(periodic_broadcast(), "Meow!");
    assert_eq!(BROADCAST_INTERVAL_MS, 1_000);
}

#[test]
fn decimal_rendering() {
    assert_eq!(decimal_u128(0), "0");
    assert_eq!(decimal_u128(9), "9");
    assert_eq!(decimal_u128(10), "10");
    assert_eq!(decimal_u128(u128::MAX), u128::MAX.to_string());
    assert_eq!(decimal_i32(-157), "-157");
    assert_eq!(decimal_i32(i32::MIN), i32::MIN.to_string());
    assert_eq!(decimal_i32(48), "48");
}

#[test]
fn form_field_takes_last_value() {
    let texts = pairs(&[("name", "Tom"), ("color", "grey"), ("name", "Felix")]);
    assert_eq!(form_field(&texts, "name"), Some("Felix".to_string()));
    assert_eq!(form_field(&texts, "color"), Some("grey".to_string()));
    assert_eq!(form_field(&texts, "age"), None);
    let cat = NewCat::from_form(&texts, "./static/image/felix.jpg".to_string());
    assert_eq!(cat.name, "Felix");
    assert_eq!(cat.image_path, "./static/image/felix.jpg");
}

#[test]
fn image_path_defaults_to_empty() {
    assert_eq!(image_path_or_default(None), "");
    assert_eq!(image_path_or_default(Some("a.png".to_string())), "a.png");
}

#[test]
fn index_page_names_project() {
    let cats = vec![Cat { id: 1, name: "Tom".to_string(), image_path: "tom.png".to_string() }];
    let page = index_page(cats);
    assert_eq!(page.project_name, "Catdex");
    assert_eq!(page.cats.len(), 1);
    assert_eq!(page.cats[0].id, 1);
    assert_eq!(CAT_LIST_LIMIT, 100);
}

#[test]
fn cats_listing_reply() {
    let items = vec![
        vec![("name".to_string(), Some("Tom".to_string())), ("color".to_string(), Some("grey".to_string()))],
        vec![("name".to_string(), Some("Felix".to_string()))],
    ];
    let r = cats_response(Ok(Some(items)));
    assert_eq!(r.status, 200);
    assert!(r.is_json);
    assert_eq!(r.body, "[{\"color\":\"grey\",\"name\":\"Tom\"},{\"name\":\"Felix\"}]");
    let r = cats_response(Ok(Some(vec![])));
    assert_eq!(r.body, "[]");
    assert_eq!(cats_table_name(), "oliver_catdex");
    assert_eq!(CATS_SCAN_LIMIT, 100);
}

#[test]
fn cats_missing_or_failed_reply() {
    let r = cats_response(Ok(None));
    assert_eq!(r.status, 404);
    assert_eq!(r.body, "No cat yet");
    assert!(!r.is_json);
    let r = cats_response(Err("HttpDispatch(timeout)".to_string()));
    assert_eq!(r.status, 500);
    assert_eq!(r.body, "HttpDispatch(timeout)");
}

#[test]
fn project_folder_is_zero_padded() {
    assert_eq!(project_folder(2, 7, "intro"), "page-007-intro");
    assert_eq!(project_folder(0, 157, "serverless"), "page-157-serverless");
    let folder = project_folder(1, 48, "cats");
    assert_eq!(folder, "page-048-cats");
    assert_eq!(project_path(&folder), "../projects/page-048-cats");
    assert_eq!(commit_message(&folder), "cargo new page-048-cats");
    assert_eq!(already_exists_message("../projects/x"), "../projects/x already exists");
    assert_eq!(usage(), "\nusage: ./setup-coding <lastPage> <projectName> <projectPage>");
    assert_eq!(EXPECTED_ARG_COUNT, 4);
}
