use mas_handlers::form::{FieldError, FormError, FormState, RegisterFormField};
use mas_handlers::register::{
    account_steps, get, next_step, post, process_form, render, validate, AccountStep, Answers,
    Checks, GetReply, PostEntry, PostStep, RegisterForm, SiteConfig, Violation,
};

fn site() -> SiteConfig {
    SiteConfig {
        password_registration_enabled: true,
        tos_uri: Some("https://example.com/tos".to_owned()),
    }
}

fn form(username: &str, email: &str, password: &str, password_confirm: &str) -> RegisterForm {
    RegisterForm {
        username: username.to_owned(),
        email: email.to_owned(),
        password: password.to_owned(),
        password_confirm: password_confirm.to_owned(),
        accept_terms: "on".to_owned(),
    }
}

fn violation(field: Option<&str>, msg: &str) -> Violation {
    Violation { msg: msg.to_owned(), field: field.map(str::to_owned) }
}

/// A service to register with.
struct World {
    users: Vec<&'static str>,
    reserved: Vec<&'static str>,
    within_rate_limit: bool,
}

impl World {
    fn new() -> World {
        World { users: vec![], reserved: vec![], within_rate_limit: true }
    }

    /// Answers each question until the form is decided, and says which ones
    /// were asked.
    fn submit(&self, form: &RegisterForm) -> (PostStep, Vec<&'static str>) {
        let mut answers = Answers::new();
        let mut asked = Vec::new();
        loop {
            match process_form(&site(), form, &answers) {
                PostStep::VerifyCaptcha => {
                    asked.push("captcha");
                    answers.passed_captcha = Some(true);
                }
                PostStep::CheckUserExists => {
                    asked.push("user");
                    answers.user_exists = Some(self.users.contains(&form.username.as_str()));
                }
                PostStep::CheckLocalpartAvailable => {
                    asked.push("homeserver");
                    answers.localpart_available =
                        Some(!self.reserved.contains(&form.username.as_str()));
                }
                PostStep::CheckPasswordComplexity => {
                    asked.push("password");
                    answers.password_complex_enough = Some(form.password.len() > 10);
                }
                PostStep::EvaluatePolicy => {
                    asked.push("policy");
                    let mut violations = Vec::new();
                    if form.username.len() < 2 {
                        violations.push(violation(Some("username"), "username too short"));
                    }
                    answers.violations = Some(violations);
                }
                PostStep::CheckRateLimit => {
                    asked.push("rate limit");
                    answers.within_rate_limit = Some(self.within_rate_limit);
                }
                step => return (step, asked),
            }
        }
    }

    fn errors(&self, form: &RegisterForm) -> FormState {
        match self.submit(form).0 {
            PostStep::ShowForm(state) => state,
            step => panic!("{step:?}"),
        }
    }
}

fn on_field(state: &FormState, field: RegisterFormField) -> Vec<String> {
    state.errors_on_field(field).iter().map(|error| format!("{error:?}")).collect()
}

fn names(errors: &[FieldError]) -> Vec<String> {
    errors.iter().map(|error| format!("{error:?}")).collect()
}

#[test]
fn test_password_disabled() {
    let site = SiteConfig { password_registration_enabled: false, tos_uri: None };
    let reply = get(false, &site);
    assert_eq!(reply, GetReply::RedirectToLogin);
    assert_eq!(reply.status_code(), 303);
    let entry = post(&site);
    assert_eq!(entry, PostEntry::MethodNotAllowed);
    assert_eq!(entry.status_code(), Some(405));
}

#[test]
fn test_register() {
    let reply = get(false, &site());
    assert_eq!(reply, GetReply::ShowForm);
    assert_eq!(reply.status_code(), 200);
    assert_eq!(post(&site()), PostEntry::ReadForm);
    let form = form(
        "john",
        "john@example.com",
        "correcthorsebatterystaple",
        "correcthorsebatterystaple",
    );
    let (step, asked) = World::new().submit(&form);
    assert!(matches!(step, PostStep::CreateAccount));
    assert_eq!(step.status_code(), Some(303));
    assert_eq!(asked, ["captcha", "user", "homeserver", "password", "policy", "rate limit"]);
    let steps = account_steps(&site(), form, "en".to_owned());
    assert!(matches!(&steps[0], AccountStep::AddUser { username } if username == "john"));
    assert!(matches!(
        &steps[4],
        AccountStep::AddEmail { email } if email == "john@example.com"
    ));
    assert!(matches!(steps[5], AccountStep::AddSession));
    assert!(matches!(steps[6], AccountStep::AuthenticateSession));
    assert!(matches!(steps[11], AccountStep::SetSessionCookie));
}

#[test]
fn test_register_password_mismatch() {
    let form = form("john", "john@example.com", "hunter2", "mismatch");
    let (step, _) = World::new().submit(&form);
    assert_eq!(step.status_code(), Some(200));
    let state = World::new().errors(&form);
    assert_eq!(
        on_field(&state, RegisterFormField::PasswordConfirm),
        names(&[FieldError::PasswordMismatch])
    );
    assert_eq!(on_field(&state, RegisterFormField::Password)[0], "Unspecified");
}

#[test]
fn test_register_username_too_short() {
    let form = form("a", "john@example.com", "hunter2", "hunter2");
    let (step, _) = World::new().submit(&form);
    assert_eq!(step.status_code(), Some(200));
    let state = World::new().errors(&form);
    assert_eq!(
        on_field(&state, RegisterFormField::Username),
        names(&[FieldError::Policy { message: "username too short".to_owned() }])
    );
}

#[test]
fn test_register_user_exists() {
    let world = World { users: vec!["john"], ..World::new() };
    let form = form("john", "john@example.com", "hunter2", "hunter2");
    let (step, asked) = world.submit(&form);
    assert_eq!(step.status_code(), Some(200));
    assert_eq!(asked, ["captcha", "user", "password", "policy"]);
    assert_eq!(
        on_field(&world.errors(&form), RegisterFormField::Username),
        names(&[FieldError::Exists])
    );
}

#[test]
fn test_register_user_reserved() {
    let world = World { reserved: vec!["john"], ..World::new() };
    let form = form("john", "john@example.com", "hunter2", "hunter2");
    let (step, asked) = world.submit(&form);
    assert_eq!(step.status_code(), Some(200));
    assert_eq!(asked, ["captcha", "user", "homeserver", "password", "policy"]);
    assert_eq!(
        on_field(&world.errors(&form), RegisterFormField::Username),
        names(&[FieldError::Exists])
    );
}

#[test]
fn signed_in_visitors_are_sent_on() {
    let closed = SiteConfig { password_registration_enabled: false, tos_uri: None };
    for site in [site(), closed] {
        let reply = get(true, &site);
        assert_eq!(reply, GetReply::GoNext);
        assert_eq!(reply.status_code(), 303);
        assert!(reply.sends_cookies());
    }
    assert!(GetReply::ShowForm.sends_cookies());
    assert!(!GetReply::RedirectToLogin.sends_cookies());
}

#[test]
fn empty_form_misses_everything() {
    let mut empty = form("", "", "", "");
    empty.accept_terms = String::new();
    let world = World::new();
    let (_, asked) = world.submit(&empty);
    assert_eq!(asked, ["captcha", "password", "policy"]);
    let state = world.errors(&empty);
    assert_eq!(
        on_field(&state, RegisterFormField::Username),
        names(&[
            FieldError::Required,
            FieldError::Policy { message: "username too short".to_owned() },
        ])
    );
    assert_eq!(on_field(&state, RegisterFormField::Email), names(&[FieldError::Required]));
    assert_eq!(
        on_field(&state, RegisterFormField::Password),
        names(&[
            FieldError::Required,
            FieldError::Policy { message: "Password is too weak".to_owned() },
        ])
    );
    assert_eq!(on_field(&state, RegisterFormField::PasswordConfirm), names(&[FieldError::Required]));
    assert_eq!(on_field(&state, RegisterFormField::AcceptTerms), names(&[FieldError::Required]));
    assert!(state.errors_on_form().is_empty());
}

#[test]
fn email_must_be_an_address() {
    let password = "correcthorsebatterystaple";
    for email in ["john", "john@", "@example.com", "john @example.com"] {
        let state = World::new().errors(&form("john", email, password, password));
        assert_eq!(on_field(&state, RegisterFormField::Email), names(&[FieldError::Invalid]));
    }
    let named = form("john", "not an address", password, password);
    let answers = Answers {
        passed_captcha: Some(true),
        user_exists: Some(false),
        localpart_available: Some(true),
        password_complex_enough: Some(true),
        violations: Some(vec![]),
        within_rate_limit: Some(true),
    };
    assert!(matches!(next_step(&site(), &named, true, &answers), PostStep::CreateAccount));
    assert!(matches!(next_step(&site(), &named, false, &answers), PostStep::ShowForm(_)));
}

#[test]
fn terms_matter_where_there_are_any() {
    let password = "correcthorsebatterystaple";
    let mut form = form("john", "john@example.com", password, password);
    form.accept_terms = "off".to_owned();
    let checks = Checks {
        passed_captcha: true,
        user_exists: false,
        localpart_available: true,
        password_complex_enough: true,
    };
    let state = validate(&site(), &form, true, &checks, &vec![]);
    assert!(!state.is_valid());
    assert_eq!(on_field(&state, RegisterFormField::AcceptTerms), names(&[FieldError::Required]));
    let free = SiteConfig { password_registration_enabled: true, tos_uri: None };
    assert!(validate(&free, &form, true, &checks, &vec![]).is_valid());
}

#[test]
fn violations_are_shown_where_they_belong() {
    let password = "correcthorsebatterystaple";
    let form = form("john", "john@example.com", password, password);
    let checks = Checks {
        passed_captcha: false,
        user_exists: false,
        localpart_available: true,
        password_complex_enough: true,
    };
    let violations = vec![
        violation(Some("email"), "e"),
        violation(Some("username"), "u"),
        violation(Some("password"), "p"),
        violation(Some("other"), "o"),
        violation(None, "n"),
        violation(Some("email"), "f"),
    ];
    let state = validate(&site(), &form, true, &checks, &violations);
    let policy = |message: &str| FieldError::Policy { message: message.to_owned() };
    assert_eq!(on_field(&state, RegisterFormField::Email), names(&[policy("e"), policy("f")]));
    assert_eq!(on_field(&state, RegisterFormField::Username), names(&[policy("u")]));
    assert_eq!(on_field(&state, RegisterFormField::Password), names(&[policy("p")]));
    let on_form: Vec<String> =
        state.errors_on_form().iter().map(|error| format!("{error:?}")).collect();
    let expected: Vec<String> = [
        FormError::Captcha,
        FormError::Policy { message: "o".to_owned() },
        FormError::Policy { message: "n".to_owned() },
    ]
    .iter()
    .map(|error| format!("{error:?}"))
    .collect();
    assert_eq!(on_form, expected);
}

#[test]
fn rate_limit_is_spent_on_good_forms_only() {
    let limited = World { within_rate_limit: false, ..World::new() };
    let password = "correcthorsebatterystaple";
    let good = form("john", "john@example.com", password, password);
    let state = limited.errors(&good);
    assert!(matches!(state.errors_on_form()[..], [FormError::RateLimitExceeded]));
    let bad = form("john", "john", password, password);
    assert!(!limited.submit(&bad).1.contains(&"rate limit"));
    assert!(limited.errors(&bad).errors_on_form().is_empty());
}

#[test]
fn unfinished_submissions_have_no_status() {
    let answers = Answers::new();
    let step = process_form(&site(), &form("a", "b", "c", "d"), &answers);
    assert!(matches!(step, PostStep::VerifyCaptcha));
    assert_eq!(step.status_code(), None);
    assert_eq!(PostEntry::ReadForm.status_code(), None);
}

#[test]
fn account_is_saved_after_all_that_belongs_to_it() {
    let steps = account_steps(
        &site(),
        form("john", "john@example.com", "secret", "secret"),
        "fr".to_owned(),
    );
    assert_eq!(steps.len(), 13);
    assert!(matches!(
        &steps[1],
        AccountStep::AcceptTerms { tos_uri } if tos_uri == "https://example.com/tos"
    ));
    assert!(matches!(&steps[2], AccountStep::HashPassword { password } if password == "secret"));
    assert!(matches!(
        &steps[7],
        AccountStep::ScheduleVerifyEmail { language } if language == "fr"
    ));
    assert!(matches!(steps[9], AccountStep::Save));
    assert!(matches!(steps[11], AccountStep::SetSessionCookie));
    assert!(matches!(steps[12], AccountStep::RedirectToVerifyEmail));
    let free = SiteConfig { password_registration_enabled: true, tos_uri: None };
    let steps = account_steps(&free, form("j", "e", "p", "p"), "en".to_owned());
    assert_eq!(steps.len(), 12);
    assert!(!steps.iter().any(|step| matches!(step, AccountStep::AcceptTerms { .. })));
}

#[test]
fn page_is_rendered_from_its_parts() {
    let mut state = FormState::new();
    state.add_error_on_form(FormError::Captcha);
    let context = render(state, Some(1u8), None::<u8>, "token".to_owned(), "en".to_owned());
    assert_eq!((context.next, context.captcha), (Some(1), None));
    assert_eq!((context.csrf_token.as_str(), context.language.as_str()), ("token", "en"));
    assert!(!context.form.is_valid());
}
