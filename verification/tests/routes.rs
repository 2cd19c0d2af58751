use blog_web::models::users::User;
use blog_web::routes::auth::{login, login_page};
use blog_web::routes::posts::{create_failure_message, invalid_form_message, show_flags};
use blog_web::routes::users::{password_update_check, signup_check, signup_page};

#[test]
fn login_page_only_for_anonymous_users() {
    assert_eq!(login_page(false), Ok(()));
    assert_eq!(login_page(true), Err("You are already logged in"));
}

#[test]
fn login_needs_an_account_and_its_password() {
    let mut u = User { id: 11, first_name: None, last_name: None, email: "a@b.c".to_string(), encrypted_password: None, password_salt: None };
    u.set_password("pw".to_string());
    assert_eq!(login(Some(&u), "pw".to_string()), Ok((11, "You are signed in")));
    assert_eq!(login(Some(&u), "px".to_string()), Err("Invlaid user name or password"));
    assert_eq!(login(None, "pw".to_string()), Err("Invlaid user name or password"));
}

#[test]
fn signup_checks_email_then_password() {
    assert_eq!(signup_page(true), Err("Please logout before signing up"));
    assert_eq!(signup_page(false), Ok(()));
    assert_eq!(signup_check(true, "a", "a"), Ok(()));
    assert_eq!(signup_check(false, "a", "a"), Err("Invalid email"));
    assert_eq!(signup_check(false, "a", "b"), Err("Invalid email"));
    assert_eq!(signup_check(true, "a", "b"), Err("Password must match"));
}

#[test]
fn password_update_needs_matching_passwords() {
    assert_eq!(password_update_check("x", "x"), Ok(()));
    assert_eq!(password_update_check("x", "y"), Err("Password must match"));
}

#[test]
fn only_the_author_may_edit() {
    assert_eq!(show_flags(None, Some(1)), (false, false));
    assert_eq!(show_flags(Some(1), Some(1)), (true, true));
    assert_eq!(show_flags(Some(1), Some(2)), (true, false));
    assert_eq!(show_flags(Some(1), None), (true, false));
}

#[test]
fn post_creation_failure_messages() {
    assert_eq!(create_failure_message("db down"), "Failed to create post: db down");
    let errors = vec!["title missing".to_string(), "content missing".to_string()];
    assert_eq!(
        invalid_form_message(&errors),
        "Failed to create post: title missing content missing"
    );
    assert_eq!(invalid_form_message(&Vec::new()), "Failed to create post: ");
}
