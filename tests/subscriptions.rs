use subscriptions::form::{decode_form, Field, FormData, FormError};
use subscriptions::response::{Response, STATUS_OK};
use subscriptions::subscriptions::{handle_submission, subscribe};

fn pair(k: &str, v: &str) -> (String, String) {
    (k.to_string(), v.to_string())
}

#[test]
fn complete_form_is_acknowledged() {
    let r = handle_submission(b"email=test%40example.com&name=Test%20User").unwrap();
    assert_eq!(r.status(), 200);
    assert!(r.body().is_empty());
    assert!(r.is_success());
}

#[test]
fn reply_does_not_depend_on_values() {
    let a = handle_submission(b"email=a@example.com&name=Ann").unwrap();
    let b = handle_submission(b"email=ZZZ&name=").unwrap();
    assert_eq!(a, b);
    assert_eq!(a, Response { status: 200, body: Vec::new() });
}

#[test]
fn missing_name_is_refused() {
    let r = handle_submission(b"email=a@example.com");
    assert_eq!(r, Err(FormError::MissingField(Field::Name)));
}

#[test]
fn missing_email_is_refused() {
    let r = handle_submission(b"name=OnlyName");
    assert_eq!(r, Err(FormError::MissingField(Field::Email)));
}

#[test]
fn empty_body_lacks_email_first() {
    assert_eq!(handle_submission(b""), Err(FormError::MissingField(Field::Email)));
}

#[test]
fn repeated_submission_same_reply() {
    let body: &[u8] = b"email=test@example.com&name=Test%20User";
    let first = handle_submission(body);
    let again = handle_submission(body);
    assert_eq!(first, again);
    let bad: &[u8] = b"name=OnlyName";
    assert_eq!(handle_submission(bad), handle_submission(bad));
}

#[test]
fn scenario_test_user() {
    let r = handle_submission(b"email=test@example.com&name=Test%20User").unwrap();
    assert_eq!(r.status, 200);
    assert_eq!(r.body, Vec::<u8>::new());
}

#[test]
fn scenario_only_name() {
    let r = handle_submission(b"name=OnlyName");
    assert!(r.is_err());
}

#[test]
fn decode_percent_and_plus() {
    let f = decode_form(b"email=test%40example.com&name=Test+User%21").unwrap();
    assert_eq!(f.email(), "test@example.com");
    assert_eq!(f.name(), "Test User!");
}

#[test]
fn decode_ignores_other_keys_and_order() {
    let f = decode_form(b"name=Ann&extra=1&email=a%40b.c").unwrap();
    assert_eq!(f, FormData::new("a@b.c".to_string(), "Ann".to_string()));
}

#[test]
fn duplicate_email_is_refused() {
    assert_eq!(
        decode_form(b"email=a&email=b&name=c"),
        Err(FormError::DuplicateField(Field::Email))
    );
}

#[test]
fn duplicate_name_is_refused() {
    assert_eq!(
        decode_form(b"name=a&email=b&name=c"),
        Err(FormError::DuplicateField(Field::Name))
    );
}

#[test]
fn duplicate_reported_before_missing() {
    assert_eq!(decode_form(b"name=a&name=c"), Err(FormError::DuplicateField(Field::Name)));
}

#[test]
fn from_pairs_takes_values() {
    let ps = vec![pair("email", "e@x.org"), pair("name", "Eve")];
    let f = FormData::from_pairs(&ps).unwrap();
    assert_eq!(f.email, "e@x.org");
    assert_eq!(f.name, "Eve");
}

#[test]
fn from_pairs_empty_values() {
    let ps = vec![pair("name", ""), pair("email", "")];
    assert_eq!(
        FormData::from_pairs(&ps),
        Ok(FormData::new(String::new(), String::new()))
    );
}

#[test]
fn from_pairs_missing_and_duplicate() {
    assert_eq!(FormData::from_pairs(&vec![]), Err(FormError::MissingField(Field::Email)));
    assert_eq!(
        FormData::from_pairs(&vec![pair("email", "x")]),
        Err(FormError::MissingField(Field::Name))
    );
    assert_eq!(
        FormData::from_pairs(&vec![pair("email", "x"), pair("email", "y")]),
        Err(FormError::DuplicateField(Field::Email))
    );
}

#[test]
fn keys_are_case_sensitive() {
    assert_eq!(
        decode_form(b"Email=a&name=b"),
        Err(FormError::MissingField(Field::Email))
    );
}

#[test]
fn field_keys() {
    assert_eq!(Field::Email.key(), "email");
    assert_eq!(Field::Name.key(), "name");
}

#[test]
fn subscribe_gives_empty_ok() {
    let r = subscribe(FormData::new("x".to_string(), "y".to_string()));
    assert_eq!(r.status(), STATUS_OK);
    assert!(r.body().is_empty());
}

#[test]
fn response_empty_and_success() {
    let r = Response::empty(404);
    assert_eq!(r.status(), 404);
    assert!(!r.is_success());
    assert!(r.body().is_empty());
    assert!(Response::empty(204).is_success());
    assert!(!Response::empty(300).is_success());
}
