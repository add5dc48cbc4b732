use hooksaurus_admin::forms::{FromForm, ToForm};
use hooksaurus_admin::ids::{AddressId, Etag, OrganizationId, Timestamp};
use hooksaurus_admin::records::{Address, AddressFromForm};
use hooksaurus_admin::shaper::{render_mode, shape, PageChrome, RenderMode};
use hooksaurus_admin::text::same_text;

fn names_of(markup: &str) -> Vec<String> {
    markup
        .split(" name=\"")
        .skip(1)
        .map(|rest| rest.split('"').next().unwrap().to_string())
        .collect()
}

#[test]
fn empty_and_filled_forms_have_same_inputs() {
    let a = Address {
        address_id: AddressId(7),
        street_address1: "1 Main".to_string(),
        street_address2: Some("Apt 2".to_string()),
        street_address3: None,
        city: "Town".to_string(),
        state_province_county: "CA".to_string(),
        postal_code: None,
        country_code: Some("US".to_string()),
        latitude: Some("1.5".to_string()),
        longitude: Some("2".to_string()),
        created_at: Timestamp { unix_nanos: 5 },
        updated_at: Timestamp { unix_nanos: 6 },
        etag: Etag(9),
    };
    let empty = names_of(&Address::to_empty_form());
    let filled = names_of(&a.to_form());
    assert_eq!(empty, filled);
    assert_eq!(empty.len(), 9);
    assert_eq!(empty[4], "state_province_county");
    let submitted = AddressFromForm {
        street_address1: "x".to_string(),
        street_address2: None,
        street_address3: None,
        city: "y".to_string(),
        state_province_county: "z".to_string(),
        postal_code: None,
        country_code: None,
        latitude: None,
        longitude: None,
    };
    assert_eq!(names_of(&submitted.to_form()), empty);
    assert_eq!(names_of(&AddressFromForm::to_empty_form()), empty);
}

#[test]
fn exact_empty_field_markup() {
    let form = Address::to_empty_form();
    assert!(form.starts_with(
        "<div class=\"uk-margin\"><input class=\"uk-input\" type=\"text\" name=\"street_address1\" placeholder=\"Street address Line 1\" required></div>"
    ));
    assert!(form.ends_with(
        "<div class=\"uk-margin\"><input class=\"uk-input\" type=\"number\" name=\"longitude\" placeholder=\"Longitude\"></div>"
    ));
}

#[test]
fn organization_id_text() {
    assert_eq!(OrganizationId(0xa1a2a3a4b1b2c1c2d1d2d3d4d5d6d7d8).to_text(), "a1a2a3a4-b1b2-c1c2-d1d2-d3d4d5d6d7d8");
}

#[test]
fn fragment_is_inside_full_page() {
    let chrome = PageChrome { head: "<html><body>".to_string(), tail: "</body></html>".to_string() };
    let fragment = "<ul><li>x</li></ul>".to_string();
    let partial = shape(render_mode(true), fragment.clone(), &chrome);
    let full = shape(render_mode(false), fragment.clone(), &chrome);
    assert_eq!(partial, fragment);
    assert_eq!(full, "<html><body><ul><li>x</li></ul></body></html>");
    assert!(full.contains(&partial));
    assert_eq!(render_mode(true), RenderMode::Fragment);
}

#[test]
fn same_text_compares_characters() {
    assert!(same_text("abc", "abc"));
    assert!(!same_text("abc", "abd"));
    assert!(!same_text("abc", "ab"));
    assert!(same_text("", ""));
}
