use bike_shopping_backend::dto::auth::{LoginDto, RegisterDto};
use bike_shopping_backend::dto::product::{CreateProductDto, UpdateProductDto};
use bike_shopping_backend::dto::user::UpdateUserDto;
use bike_shopping_backend::dto::validation::{
    check_category, check_discount, check_email, check_password, check_product_text,
    check_user_name, in_order, note, validation_error, FieldError, MAX_NAME_CHARS,
    MIN_NAME_CHARS, MIN_PASSWORD_CHARS,
};

fn pairs(errors: &Vec<FieldError>) -> Vec<(String, String)> {
    errors.iter().map(|e| (e.field.clone(), e.message.clone())).collect()
}

fn pair(field: &str, message: &str) -> (String, String) {
    (field.to_string(), message.to_string())
}

fn register(email: &str, password: &str, name: &str) -> RegisterDto {
    RegisterDto { email: email.to_string(), password: password.to_string(), name: name.to_string() }
}

fn product(name: &str, description: &str, discount: u8, category: u8) -> CreateProductDto {
    CreateProductDto {
        name: name.to_string(),
        price: 100,
        description: description.to_string(),
        images: vec![],
        discount,
        category,
    }
}

#[test]
fn test_limits() {
    assert_eq!(MIN_PASSWORD_CHARS, 8);
    assert_eq!(MIN_NAME_CHARS, 2);
    assert_eq!(MAX_NAME_CHARS, 50);
}

#[test]
fn test_note() {
    let mut errors = Vec::new();
    note(&mut errors, false, "a", "b");
    assert!(errors.is_empty());
    note(&mut errors, true, "a", "b");
    note(&mut errors, true, "c", "d");
    note(&mut errors, false, "e", "f");
    assert_eq!(pairs(&errors), vec![pair("a", "b"), pair("c", "d")]);
}

#[test]
fn test_check_email() {
    let mut errors = Vec::new();
    check_email(&mut errors, "john@example.com");
    check_email(&mut errors, "weirder-email@here.and.there.com");
    check_email(&mut errors, "email@[127.0.0.1]");
    assert!(errors.is_empty());

    check_email(&mut errors, "");
    check_email(&mut errors, "john");
    check_email(&mut errors, "john@");
    check_email(&mut errors, "@example.com");
    check_email(&mut errors, "john@example..com");
    check_email(&mut errors, "john doe@example.com");
    assert_eq!(errors.len(), 6);
    assert_eq!(errors[0].field, "email");
    assert_eq!(errors[0].message, "Invalid email format");
}

#[test]
fn test_check_password_counts_characters() {
    let mut errors = Vec::new();
    check_password(&mut errors, "12345678");
    check_password(&mut errors, "\u{1F512}\u{1F512}\u{1F512}\u{1F512}\u{1F512}\u{1F512}\u{1F512}\u{1F512}");
    assert!(errors.is_empty());

    check_password(&mut errors, "1234567");
    check_password(&mut errors, "");
    check_password(&mut errors, "\u{1F512}\u{1F512}\u{1F512}");
    assert_eq!(
        pairs(&errors),
        vec![pair("password", "Password must be at least 8 characters"); 3]
    );
}

#[test]
fn test_check_user_name() {
    let mut errors = Vec::new();
    check_user_name(&mut errors, "Jo");
    check_user_name(&mut errors, &"a".repeat(50));
    check_user_name(&mut errors, &"\u{00e9}".repeat(50));
    assert!(errors.is_empty());

    check_user_name(&mut errors, "J");
    check_user_name(&mut errors, "");
    check_user_name(&mut errors, &"a".repeat(51));
    assert_eq!(
        pairs(&errors),
        vec![pair("name", "Name must be between 2 and 50 characters"); 3]
    );
}

#[test]
fn test_check_product_fields() {
    let mut errors = Vec::new();
    check_product_text(&mut errors, "name", "ab");
    check_discount(&mut errors, 0);
    check_discount(&mut errors, 100);
    check_category(&mut errors, 0);
    check_category(&mut errors, 1);
    assert!(errors.is_empty());

    check_product_text(&mut errors, "description", "a");
    check_discount(&mut errors, 101);
    check_category(&mut errors, 2);
    assert_eq!(
        pairs(&errors),
        vec![
            pair("description", "The number of letters must be at least 2."),
            pair("discount", "The discount must be between 0 and 100."),
            pair("category", "The category must be between 0 and 1."),
        ]
    );
}

#[test]
fn test_register_dto_in_order() {
    assert!(register("john@example.com", "SecurePass123!", "John Doe").validate().is_empty());
}

#[test]
fn test_register_dto_breaks_rules_in_field_order() {
    let errors = register("john", "short", "J").validate();
    assert_eq!(
        pairs(&errors),
        vec![
            pair("email", "Invalid email format"),
            pair("password", "Password must be at least 8 characters"),
            pair("name", "Name must be between 2 and 50 characters"),
        ]
    );

    let errors = register("john@example.com", "", "John Doe").validate();
    assert_eq!(
        pairs(&errors),
        vec![pair("password", "Password must be at least 8 characters")]
    );
}

#[test]
fn test_login_dto() {
    let good = LoginDto { email: "john@example.com".to_string(), password: "SecurePass!".to_string() };
    assert!(good.validate().is_empty());

    let bad = LoginDto { email: "john@".to_string(), password: "1234567".to_string() };
    assert_eq!(
        pairs(&bad.validate()),
        vec![
            pair("email", "Invalid email format"),
            pair("password", "Password must be at least 8 characters"),
        ]
    );
}

#[test]
fn test_update_user_dto_checks_what_is_there() {
    let nothing = UpdateUserDto { name: None, email: None, password: None };
    assert!(nothing.validate().is_empty());

    let good = UpdateUserDto {
        name: Some("Maksym".to_string()),
        email: Some("m@example.com".to_string()),
        password: Some("12345678".to_string()),
    };
    assert!(good.validate().is_empty());

    let bad = UpdateUserDto { name: Some("".to_string()), email: None, password: Some("x".to_string()) };
    assert_eq!(
        pairs(&bad.validate()),
        vec![
            pair("name", "Name must be between 2 and 50 characters"),
            pair("password", "Password must be at least 8 characters"),
        ]
    );

    let bad = UpdateUserDto { name: None, email: Some("nobody".to_string()), password: None };
    assert_eq!(pairs(&bad.validate()), vec![pair("email", "Invalid email format")]);
}

#[test]
fn test_create_product_dto() {
    assert!(product("Helmet", "A helmet", 100, 1).validate().is_empty());

    let errors = product("H", "", 200, 9).validate();
    assert_eq!(
        pairs(&errors),
        vec![
            pair("name", "The number of letters must be at least 2."),
            pair("description", "The number of letters must be at least 2."),
            pair("discount", "The discount must be between 0 and 100."),
            pair("category", "The category must be between 0 and 1."),
        ]
    );
}

#[test]
fn test_update_product_dto_checks_what_is_there() {
    let nothing = UpdateProductDto {
        _id: "x".to_string(),
        name: None,
        price: None,
        description: None,
        images: None,
        discount: None,
        category: None,
    };
    assert!(nothing.validate().is_empty());

    let bad = UpdateProductDto {
        name: Some("B".to_string()),
        discount: Some(101),
        category: Some(1),
        ..nothing.clone()
    };
    assert_eq!(
        pairs(&bad.validate()),
        vec![
            pair("name", "The number of letters must be at least 2."),
            pair("discount", "The discount must be between 0 and 100."),
        ]
    );

    let bad = UpdateProductDto {
        description: Some("d".to_string()),
        category: Some(2),
        ..nothing
    };
    assert_eq!(
        pairs(&bad.validate()),
        vec![
            pair("description", "The number of letters must be at least 2."),
            pair("category", "The category must be between 0 and 1."),
        ]
    );
}

#[test]
fn test_validation_error_answer() {
    let errors = register("john", "short", "John Doe").validate();
    let answer = validation_error(&errors);

    assert_eq!(answer.status, 400);
    assert_eq!(answer.body.error, "validation_error");
    assert_eq!(answer.body.message, "Validation failed");
    assert_eq!(
        answer.body.details.unwrap(),
        "email: Invalid email format; password: Password must be at least 8 characters"
    );
}

#[test]
fn test_validation_error_answer_for_one_and_for_none() {
    let one = vec![FieldError { field: "f".to_string(), message: "m".to_string() }];
    assert_eq!(validation_error(&one).body.details.unwrap(), "f: m");

    let three = vec![
        FieldError { field: "a".to_string(), message: "1".to_string() },
        FieldError { field: "b".to_string(), message: "2".to_string() },
        FieldError { field: "c".to_string(), message: "3".to_string() },
    ];
    assert_eq!(validation_error(&three).body.details.unwrap(), "a: 1; b: 2; c: 3");

    assert_eq!(validation_error(&Vec::new()).body.details.unwrap(), "");
}

#[test]
fn test_in_order() {
    assert!(in_order(&Vec::new()).is_ok());
    assert!(in_order(&register("john@example.com", "SecurePass123!", "John Doe").validate()).is_ok());

    let answer = in_order(&register("john@example.com", "", "John Doe").validate()).unwrap_err();
    assert_eq!(answer.status, 400);
    assert_eq!(answer.body.error, "validation_error");
    assert_eq!(answer.body.message, "Validation failed");
    assert_eq!(
        answer.body.details.unwrap(),
        "password: Password must be at least 8 characters"
    );
}
