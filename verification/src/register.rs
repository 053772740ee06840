//! Registration of a new account with a username, an e-mail address and a
//! password.
use std::str::FromStr;

use vstd::prelude::*;

use crate::form::{
    FieldError, FieldErrorView, FormError, FormErrorView, FormErrors, FormState, RegisterFormField,
};
use crate::text::optional_text;

verus! {

/// The settings of the site that registration depends on.
#[derive(Debug)]
pub struct SiteConfig {
    /// Whether accounts can be registered with a password.
    pub password_registration_enabled: bool,
    /// Where the terms of service are, if the site has any.
    pub tos_uri: Option<String>,
}

/// What the user typed into the registration form.
#[derive(Debug)]
pub struct RegisterForm {
    pub username: String,
    pub email: String,
    pub password: String,
    pub password_confirm: String,
    pub accept_terms: String,
}

/// An objection of the registration policy, to one field or to the request.
#[derive(Debug)]
pub struct Violation {
    pub msg: String,
    pub field: Option<String>,
}

/// The value of a [`Violation`].
pub ghost struct ViolationView {
    pub msg: Seq<char>,
    pub field: Option<Seq<char>>,
}

impl View for Violation {
    type V = ViolationView;

    open spec fn view(&self) -> ViolationView {
        ViolationView { msg: self.msg@, field: optional_text(self.field) }
    }
}

/// The values of a list of violations.
pub open spec fn violation_views(violations: Seq<Violation>) -> Seq<ViolationView> {
    violations.map_values(|v: Violation| v@)
}

/// The field that a violation is shown on; a violation that names none of
/// these fields is shown on the form as a whole.
pub open spec fn violation_target(field: Option<Seq<char>>) -> Option<RegisterFormField> {
    if field == Some("email"@) {
        Some(RegisterFormField::Email)
    } else if field == Some("username"@) {
        Some(RegisterFormField::Username)
    } else if field == Some("password"@) {
        Some(RegisterFormField::Password)
    } else {
        None
    }
}

/// The messages of the violations that are shown on `target`, in order.
pub open spec fn messages_for(
    violations: Seq<ViolationView>,
    target: Option<RegisterFormField>,
) -> Seq<Seq<char>>
    decreases violations.len(),
{
    if violations.len() == 0 {
        seq![]
    } else {
        let earlier = messages_for(violations.drop_last(), target);
        if violation_target(violations.last().field) == target {
            earlier.push(violations.last().msg)
        } else {
            earlier
        }
    }
}

/// The errors that the policy puts on one field.
pub open spec fn policy_errors(
    violations: Seq<ViolationView>,
    field: RegisterFormField,
) -> Seq<FieldErrorView> {
    messages_for(violations, Some(field)).map_values(|m: Seq<char>| FieldErrorView::Policy(m))
}

/// The errors that the policy puts on the form as a whole.
pub open spec fn policy_form_errors(violations: Seq<ViolationView>) -> Seq<FormErrorView> {
    messages_for(violations, None).map_values(|m: Seq<char>| FormErrorView::Policy(m))
}

/// What was found out about a submitted form by asking elsewhere.
#[derive(Clone, Copy, Debug)]
pub struct Checks {
    /// The captcha was solved.
    pub passed_captcha: bool,
    /// The username belongs to an account.
    pub user_exists: bool,
    /// The homeserver would accept the username.
    pub localpart_available: bool,
    /// The password is strong enough.
    pub password_complex_enough: bool,
}

/// An error, or none.
pub open spec fn when<E>(condition: bool, error: E) -> Seq<E> {
    if condition {
        seq![error]
    } else {
        seq![]
    }
}

/// The errors of a form, given whether its e-mail address is one, what else
/// was found out about it, and what the policy objects to.
///
/// A username is wrong when it is missing or taken, by an account or on the
/// homeserver. An address is wrong when it is missing or malformed. Both
/// passwords must be there, be equal and be strong, and the terms must be
/// accepted where there are any. The policy's objections follow.
pub open spec fn form_errors(
    site: SiteConfig,
    form: RegisterForm,
    email_is_address: bool,
    checks: Checks,
    violations: Seq<ViolationView>,
) -> FormErrors {
    let mismatch = form.password@ != form.password_confirm@;
    let taken = checks.user_exists || !checks.localpart_available;
    FormErrors {
        username: when(form.username@.len() == 0, FieldErrorView::Required) + when(
            form.username@.len() != 0 && taken,
            FieldErrorView::Exists,
        ) + policy_errors(violations, RegisterFormField::Username),
        email: when(form.email@.len() == 0, FieldErrorView::Required) + when(
            form.email@.len() != 0 && !email_is_address,
            FieldErrorView::Invalid,
        ) + policy_errors(violations, RegisterFormField::Email),
        password: when(form.password@.len() == 0, FieldErrorView::Required) + when(
            mismatch,
            FieldErrorView::Unspecified,
        ) + when(
            !checks.password_complex_enough,
            FieldErrorView::Policy("Password is too weak"@),
        ) + policy_errors(violations, RegisterFormField::Password),
        password_confirm: when(form.password_confirm@.len() == 0, FieldErrorView::Required) + when(
            mismatch,
            FieldErrorView::PasswordMismatch,
        ),
        accept_terms: when(
            site.tos_uri is Some && form.accept_terms@ != "on"@,
            FieldErrorView::Required,
        ),
        form: when(!checks.passed_captcha, FormErrorView::Captcha) + policy_form_errors(violations),
    }
}

/// The field that a violation is shown on.
fn target_of(field: &Option<String>) -> (target: Option<RegisterFormField>)
    ensures
        target == violation_target(optional_text(*field)),
{
    match field {
        Some(name) => {
            if *name == "email".to_owned() {
                Some(RegisterFormField::Email)
            } else if *name == "username".to_owned() {
                Some(RegisterFormField::Username)
            } else if *name == "password".to_owned() {
                Some(RegisterFormField::Password)
            } else {
                None
            }
        },
        None => None,
    }
}

/// Errors followed by those that the policy adds.
spec fn with_policy(errors: FormErrors, violations: Seq<ViolationView>) -> FormErrors {
    FormErrors {
        username: errors.username + policy_errors(violations, RegisterFormField::Username),
        email: errors.email + policy_errors(violations, RegisterFormField::Email),
        password: errors.password + policy_errors(violations, RegisterFormField::Password),
        password_confirm: errors.password_confirm,
        accept_terms: errors.accept_terms,
        form: errors.form + policy_form_errors(violations),
    }
}

/// One more violation adds its message in one place.
proof fn with_policy_push(errors: FormErrors, violations: Seq<ViolationView>, last: ViolationView)
    ensures
        with_policy(errors, violations.push(last)) == match violation_target(last.field) {
            Some(field) => with_policy(errors, violations).and_on(
                field,
                FieldErrorView::Policy(last.msg),
            ),
            None => with_policy(errors, violations).and_on_form(FormErrorView::Policy(last.msg)),
        },
{
    let more = violations.push(last);
    assert(more.drop_last() =~= violations);
    let target = violation_target(last.field);
    let after = with_policy(errors, more);
    let expected = match target {
        Some(field) => with_policy(errors, violations).and_on(
            field,
            FieldErrorView::Policy(last.msg),
        ),
        None => with_policy(errors, violations).and_on_form(FormErrorView::Policy(last.msg)),
    };
    assert(after =~= expected);
}

/// Shows each violation of the policy where it belongs.
fn add_violations(state: &mut FormState, violations: &Vec<Violation>)
    ensures
        final(state)@ == with_policy(old(state)@, violation_views(violations@)),
{
    let ghost before = state@;
    let ghost views = violation_views(violations@);
    let mut i: usize = 0;
    assert(with_policy(before, views.take(0)) =~= before);
    while i < violations.len()
        invariant
            i <= violations.len(),
            views == violation_views(violations@),
            state@ == with_policy(before, views.take(i as int)),
        decreases violations.len() - i,
    {
        let violation = &violations[i];
        proof {
            assert(views.take(i + 1) =~= views.take(i as int).push(violation@));
            with_policy_push(before, views.take(i as int), violation@);
        }
        let message = violation.msg.clone();
        match target_of(&violation.field) {
            Some(field) => state.add_error_on_field(field, FieldError::Policy { message }),
            None => state.add_error_on_form(FormError::Policy { message }),
        }
        i = i + 1;
    }
    assert(views.take(i as int) =~= views);
}

/// Notes an error on a field when there is one.
fn note(state: &mut FormState, wrong: bool, field: RegisterFormField, error: FieldError)
    ensures
        final(state)@ == if wrong {
            old(state)@.and_on(field, error@)
        } else {
            old(state)@
        },
{
    if wrong {
        state.add_error_on_field(field, error);
    }
}

/// Finds all that is wrong with a submitted form.
pub fn validate(
    site: &SiteConfig,
    form: &RegisterForm,
    email_is_address: bool,
    checks: &Checks,
    violations: &Vec<Violation>,
) -> (state: FormState)
    ensures
        state@ == form_errors(
            *site,
            *form,
            email_is_address,
            *checks,
            violation_views(violations@),
        ),
{
    let mut state = FormState::new();
    if !checks.passed_captcha {
        state.add_error_on_form(FormError::Captcha);
    }
    let no_username = form.username.as_str().is_empty();
    let taken = checks.user_exists || !checks.localpart_available;
    note(&mut state, no_username, RegisterFormField::Username, FieldError::Required);
    note(&mut state, !no_username && taken, RegisterFormField::Username, FieldError::Exists);

    let no_email = form.email.as_str().is_empty();
    note(&mut state, no_email, RegisterFormField::Email, FieldError::Required);
    note(
        &mut state,
        !no_email && !email_is_address,
        RegisterFormField::Email,
        FieldError::Invalid,
    );

    let no_password = form.password.as_str().is_empty();
    note(&mut state, no_password, RegisterFormField::Password, FieldError::Required);
    let no_confirmation = form.password_confirm.as_str().is_empty();
    note(&mut state, no_confirmation, RegisterFormField::PasswordConfirm, FieldError::Required);
    let mismatch = form.password != form.password_confirm;
    note(&mut state, mismatch, RegisterFormField::Password, FieldError::Unspecified);
    note(&mut state, mismatch, RegisterFormField::PasswordConfirm, FieldError::PasswordMismatch);
    let message = "Password is too weak".to_owned();
    note(
        &mut state,
        !checks.password_complex_enough,
        RegisterFormField::Password,
        FieldError::Policy { message },
    );

    let terms_missing = site.tos_uri.is_some() && form.accept_terms != "on".to_owned();
    note(&mut state, terms_missing, RegisterFormField::AcceptTerms, FieldError::Required);

    let ghost own = state@;
    add_violations(&mut state, violations);
    proof {
        assert(own.username =~= when(no_username, FieldErrorView::Required) + when(
            !no_username && taken,
            FieldErrorView::Exists,
        ));
        assert(own.email =~= when(no_email, FieldErrorView::Required) + when(
            !no_email && !email_is_address,
            FieldErrorView::Invalid,
        ));
        assert(own.password =~= when(no_password, FieldErrorView::Required) + when(
            mismatch,
            FieldErrorView::Unspecified,
        ) + when(
            !checks.password_complex_enough,
            FieldErrorView::Policy("Password is too weak"@),
        ));
        assert(own.password_confirm =~= when(no_confirmation, FieldErrorView::Required) + when(
            mismatch,
            FieldErrorView::PasswordMismatch,
        ));
        assert(own.accept_terms =~= when(terms_missing, FieldErrorView::Required));
        assert(own.form =~= when(!checks.passed_captcha, FormErrorView::Captcha));
    }
    state
}

/// Whether a text is an e-mail address by the rules of `lettre::Address`.
pub uninterp spec fn is_email_address(text: Seq<char>) -> bool;

/// Calls `lettre::Address::from_str`. Which texts it accepts is left to that
/// crate; the verdict depends on the text alone.
#[verifier::external_body]
fn parses_as_address(text: &str) -> (accepted: bool)
    ensures
        accepted == is_email_address(text@),
{
    lettre::Address::from_str(text).is_ok()
}

/// The answers collected so far on a submitted form.
#[derive(Debug)]
pub struct Answers {
    /// Whether the captcha was solved.
    pub passed_captcha: Option<bool>,
    /// Whether the username belongs to an account.
    pub user_exists: Option<bool>,
    /// Whether the homeserver would accept the username.
    pub localpart_available: Option<bool>,
    /// Whether the password is strong enough.
    pub password_complex_enough: Option<bool>,
    /// What the registration policy objects to.
    pub violations: Option<Vec<Violation>>,
    /// Whether the requester may still register an account.
    pub within_rate_limit: Option<bool>,
}

impl Answers {
    /// No answers yet.
    pub fn new() -> (answers: Answers)
        ensures
            answers.passed_captcha is None,
            answers.user_exists is None,
            answers.localpart_available is None,
            answers.password_complex_enough is None,
            answers.violations is None,
            answers.within_rate_limit is None,
    {
        Answers {
            passed_captcha: None,
            user_exists: None,
            localpart_available: None,
            password_complex_enough: None,
            violations: None,
            within_rate_limit: None,
        }
    }

    /// What the answers say about the form. A question that was not asked
    /// counts as answered in the form's favour.
    pub open spec fn checks(self) -> Checks {
        Checks {
            passed_captcha: self.passed_captcha != Some(false),
            user_exists: self.user_exists == Some(true),
            localpart_available: self.localpart_available != Some(false),
            password_complex_enough: self.password_complex_enough != Some(false),
        }
    }

    /// What the policy objects to, once it was asked.
    pub open spec fn objections(self) -> Seq<ViolationView> {
        match self.violations {
            Some(violations) => violation_views(violations@),
            None => seq![],
        }
    }
}

/// What to do next about a submitted form.
#[derive(Debug)]
pub enum PostStep {
    /// Ask the captcha service about the form's captcha.
    VerifyCaptcha,
    /// Look for an account with the form's username.
    CheckUserExists,
    /// Ask the homeserver whether the form's username is free.
    CheckLocalpartAvailable,
    /// Measure the form's password.
    CheckPasswordComplexity,
    /// Ask the policy about the form's username and e-mail address.
    EvaluatePolicy,
    /// Count this registration against the requester's limit.
    CheckRateLimit,
    /// Show the form again, with these errors.
    ShowForm(FormState),
    /// Create the account.
    CreateAccount,
}

/// The value of a [`PostStep`].
pub ghost enum PostStepView {
    VerifyCaptcha,
    CheckUserExists,
    CheckLocalpartAvailable,
    CheckPasswordComplexity,
    EvaluatePolicy,
    CheckRateLimit,
    ShowForm(FormErrors),
    CreateAccount,
}

impl View for PostStep {
    type V = PostStepView;

    open spec fn view(&self) -> PostStepView {
        match self {
            PostStep::VerifyCaptcha => PostStepView::VerifyCaptcha,
            PostStep::CheckUserExists => PostStepView::CheckUserExists,
            PostStep::CheckLocalpartAvailable => PostStepView::CheckLocalpartAvailable,
            PostStep::CheckPasswordComplexity => PostStepView::CheckPasswordComplexity,
            PostStep::EvaluatePolicy => PostStepView::EvaluatePolicy,
            PostStep::CheckRateLimit => PostStepView::CheckRateLimit,
            PostStep::ShowForm(state) => PostStepView::ShowForm(state@),
            PostStep::CreateAccount => PostStepView::CreateAccount,
        }
    }
}

/// The next step on a form: the first question that is still open, in the
/// order captcha, account, homeserver, password, policy; then the verdict.
///
/// A missing username is not looked up, and one that an account has is not
/// asked about on the homeserver. The rate limit is spent only on a form that
/// is otherwise in order.
pub open spec fn post_step(
    site: SiteConfig,
    form: RegisterForm,
    email_is_address: bool,
    answers: Answers,
) -> PostStepView {
    let has_username = form.username@.len() != 0;
    let errors = form_errors(
        site,
        form,
        email_is_address,
        answers.checks(),
        answers.objections(),
    );
    if answers.passed_captcha is None {
        PostStepView::VerifyCaptcha
    } else if has_username && answers.user_exists is None {
        PostStepView::CheckUserExists
    } else if has_username && answers.user_exists == Some(false)
        && answers.localpart_available is None {
        PostStepView::CheckLocalpartAvailable
    } else if answers.password_complex_enough is None {
        PostStepView::CheckPasswordComplexity
    } else if answers.violations is None {
        PostStepView::EvaluatePolicy
    } else if !errors.is_empty() {
        PostStepView::ShowForm(errors)
    } else {
        match answers.within_rate_limit {
            None => PostStepView::CheckRateLimit,
            Some(true) => PostStepView::CreateAccount,
            Some(false) => PostStepView::ShowForm(
                errors.and_on_form(FormErrorView::RateLimitExceeded),
            ),
        }
    }
}

/// The next step on a submitted form, given whether its e-mail address is
/// one.
pub fn next_step(
    site: &SiteConfig,
    form: &RegisterForm,
    email_is_address: bool,
    answers: &Answers,
) -> (step: PostStep)
    ensures
        step@ == post_step(*site, *form, email_is_address, *answers),
{
    let has_username = !form.username.as_str().is_empty();
    let passed_captcha = match answers.passed_captcha {
        None => return PostStep::VerifyCaptcha,
        Some(passed) => passed,
    };
    let mut user_exists = false;
    let mut localpart_available = true;
    if has_username && answers.user_exists.is_none() {
        return PostStep::CheckUserExists;
    }
    if let Some(exists) = answers.user_exists {
        user_exists = exists;
    }
    if has_username && !user_exists && answers.localpart_available.is_none() {
        return PostStep::CheckLocalpartAvailable;
    }
    if let Some(available) = answers.localpart_available {
        localpart_available = available;
    }
    let password_complex_enough = match answers.password_complex_enough {
        None => return PostStep::CheckPasswordComplexity,
        Some(enough) => enough,
    };
    let violations = match &answers.violations {
        None => return PostStep::EvaluatePolicy,
        Some(violations) => violations,
    };
    let checks = Checks {
        passed_captcha,
        user_exists,
        localpart_available,
        password_complex_enough,
    };
    assert(checks == answers.checks());
    let mut state = validate(site, form, email_is_address, &checks, violations);
    if !state.is_valid() {
        return PostStep::ShowForm(state);
    }
    match answers.within_rate_limit {
        None => PostStep::CheckRateLimit,
        Some(true) => PostStep::CreateAccount,
        Some(false) => {
            state.add_error_on_form(FormError::RateLimitExceeded);
            PostStep::ShowForm(state)
        },
    }
}

/// The next step on a submitted form.
pub fn process_form(site: &SiteConfig, form: &RegisterForm, answers: &Answers) -> (step: PostStep)
    ensures
        step@ == post_step(*site, *form, is_email_address(form.email@), *answers),
{
    let email_is_address = parses_as_address(form.email.as_str());
    next_step(site, form, email_is_address, answers)
}

/// How the registration page answers a visit.
#[derive(Clone, Copy, Debug, PartialEq, Eq, Structural)]
pub enum GetReply {
    /// The visitor is signed in: redirect to where they were going.
    GoNext,
    /// Accounts cannot be registered with a password: redirect to the login
    /// page.
    RedirectToLogin,
    /// Show an empty form.
    ShowForm,
}

/// How the registration page answers a visit.
pub open spec fn reply_to_visit(signed_in: bool, site: SiteConfig) -> GetReply {
    match (signed_in, site.password_registration_enabled) {
        (true, _) => GetReply::GoNext,
        (false, false) => GetReply::RedirectToLogin,
        (false, true) => GetReply::ShowForm,
    }
}

/// How the registration page answers a visit.
pub fn get(signed_in: bool, site: &SiteConfig) -> (reply: GetReply)
    ensures
        reply == if signed_in {
            GetReply::GoNext
        } else if !site.password_registration_enabled {
            GetReply::RedirectToLogin
        } else {
            GetReply::ShowForm
        },
        reply == reply_to_visit(signed_in, *site),
{
    if signed_in {
        GetReply::GoNext
    } else if !site.password_registration_enabled {
        GetReply::RedirectToLogin
    } else {
        GetReply::ShowForm
    }
}

impl GetReply {
    /// The HTTP status of the reply: 303 for a redirect, 200 for the page.
    pub fn status_code(&self) -> (status: u16)
        ensures
            status == if *self is ShowForm {
                200u16
            } else {
                303u16
            },
    {
        match self {
            GetReply::GoNext => 303,
            GetReply::RedirectToLogin => 303,
            GetReply::ShowForm => 200,
        }
    }

    /// Whether the reply carries the visitor's cookies. The redirect to the
    /// login page does not.
    pub fn sends_cookies(&self) -> (sends: bool)
        ensures
            sends == !(*self is RedirectToLogin),
    {
        match self {
            GetReply::GoNext => true,
            GetReply::RedirectToLogin => false,
            GetReply::ShowForm => true,
        }
    }
}

/// How a submission of the registration form is met, before the form is read.
#[derive(Clone, Copy, Debug, PartialEq, Eq, Structural)]
pub enum PostEntry {
    /// Accounts cannot be registered with a password.
    MethodNotAllowed,
    /// Check the form's CSRF token and go on with the form.
    ReadForm,
}

/// How a submission of the registration form is met.
pub open spec fn reply_to_submission(site: SiteConfig) -> PostEntry {
    if !site.password_registration_enabled {
        PostEntry::MethodNotAllowed
    } else {
        PostEntry::ReadForm
    }
}

/// How a submission of the registration form is met.
pub fn post(site: &SiteConfig) -> (entry: PostEntry)
    ensures
        entry == if site.password_registration_enabled {
            PostEntry::ReadForm
        } else {
            PostEntry::MethodNotAllowed
        },
        entry == reply_to_submission(*site),
{
    if site.password_registration_enabled {
        PostEntry::ReadForm
    } else {
        PostEntry::MethodNotAllowed
    }
}

impl PostEntry {
    /// The HTTP status of a refusal, 405; none where the form is read.
    pub fn status_code(&self) -> (status: Option<u16>)
        ensures
            status == if *self is MethodNotAllowed {
                Some(405u16)
            } else {
                None
            },
    {
        match self {
            PostEntry::MethodNotAllowed => Some(405),
            PostEntry::ReadForm => None,
        }
    }
}

impl PostStep {
    /// The HTTP status that a submission ends with: 200 where the form is
    /// shown again, 303 for the redirect after the account was created; none
    /// while there are questions left.
    pub fn status_code(&self) -> (status: Option<u16>)
        ensures
            status == match self@ {
                PostStepView::ShowForm(_) => Some(200u16),
                PostStepView::CreateAccount => Some(303u16),
                _ => None,
            },
    {
        match self {
            PostStep::ShowForm(_) => Some(200),
            PostStep::CreateAccount => Some(303),
            _ => None,
        }
    }
}

/// One step in the creation of an account.
#[derive(Debug)]
pub enum AccountStep {
    /// Store the user.
    AddUser { username: String },
    /// Store that the user accepted the terms.
    AcceptTerms { tos_uri: String },
    /// Hash the password.
    HashPassword { password: String },
    /// Store the hash.
    AddPassword,
    /// Store the e-mail address.
    AddEmail { email: String },
    /// Store a browser session of the user.
    AddSession,
    /// Store that the password authenticated the session.
    AuthenticateSession,
    /// Schedule the message that verifies the address.
    ScheduleVerifyEmail { language: String },
    /// Schedule the creation of the user on the homeserver.
    ScheduleProvisionUser,
    /// Commit what was stored and scheduled.
    Save,
    /// Record the activity of the session.
    RecordActivity,
    /// Put the session into the cookies.
    SetSessionCookie,
    /// Redirect to the page that verifies the address, and on from there to
    /// where the user was going.
    RedirectToVerifyEmail,
}

/// The value of an [`AccountStep`].
pub ghost enum AccountStepView {
    AddUser(Seq<char>),
    AcceptTerms(Seq<char>),
    HashPassword(Seq<char>),
    AddPassword,
    AddEmail(Seq<char>),
    AddSession,
    AuthenticateSession,
    ScheduleVerifyEmail(Seq<char>),
    ScheduleProvisionUser,
    Save,
    RecordActivity,
    SetSessionCookie,
    RedirectToVerifyEmail,
}

impl View for AccountStep {
    type V = AccountStepView;

    open spec fn view(&self) -> AccountStepView {
        match self {
            AccountStep::AddUser { username } => AccountStepView::AddUser(username@),
            AccountStep::AcceptTerms { tos_uri } => AccountStepView::AcceptTerms(tos_uri@),
            AccountStep::HashPassword { password } => AccountStepView::HashPassword(password@),
            AccountStep::AddPassword => AccountStepView::AddPassword,
            AccountStep::AddEmail { email } => AccountStepView::AddEmail(email@),
            AccountStep::AddSession => AccountStepView::AddSession,
            AccountStep::AuthenticateSession => AccountStepView::AuthenticateSession,
            AccountStep::ScheduleVerifyEmail { language } => AccountStepView::ScheduleVerifyEmail(
                language@,
            ),
            AccountStep::ScheduleProvisionUser => AccountStepView::ScheduleProvisionUser,
            AccountStep::Save => AccountStepView::Save,
            AccountStep::RecordActivity => AccountStepView::RecordActivity,
            AccountStep::SetSessionCookie => AccountStepView::SetSessionCookie,
            AccountStep::RedirectToVerifyEmail => AccountStepView::RedirectToVerifyEmail,
        }
    }
}

/// The values of a list of steps.
pub open spec fn account_step_views(steps: Seq<AccountStep>) -> Seq<AccountStepView> {
    steps.map_values(|s: AccountStep| s@)
}

/// The steps that create an account, in order. Terms are accepted where the
/// site has any.
pub open spec fn account_plan(
    site: SiteConfig,
    form: RegisterForm,
    language: Seq<char>,
) -> Seq<AccountStepView> {
    seq![AccountStepView::AddUser(form.username@)] + (match site.tos_uri {
        Some(uri) => seq![AccountStepView::AcceptTerms(uri@)],
        None => seq![],
    }) + seq![
        AccountStepView::HashPassword(form.password@),
        AccountStepView::AddPassword,
        AccountStepView::AddEmail(form.email@),
        AccountStepView::AddSession,
        AccountStepView::AuthenticateSession,
        AccountStepView::ScheduleVerifyEmail(language),
        AccountStepView::ScheduleProvisionUser,
        AccountStepView::Save,
        AccountStepView::RecordActivity,
        AccountStepView::SetSessionCookie,
        AccountStepView::RedirectToVerifyEmail,
    ]
}

/// The steps that create the account that an accepted form asks for.
pub fn account_steps(site: &SiteConfig, form: RegisterForm, language: String) -> (steps: Vec<
    AccountStep,
>)
    ensures
        account_step_views(steps@) == account_plan(*site, form, language@),
{
    let mut steps: Vec<AccountStep> = Vec::new();
    steps.push(AccountStep::AddUser { username: form.username });
    if let Some(uri) = &site.tos_uri {
        steps.push(AccountStep::AcceptTerms { tos_uri: uri.clone() });
    }
    steps.push(AccountStep::HashPassword { password: form.password });
    steps.push(AccountStep::AddPassword);
    steps.push(AccountStep::AddEmail { email: form.email });
    steps.push(AccountStep::AddSession);
    steps.push(AccountStep::AuthenticateSession);
    steps.push(AccountStep::ScheduleVerifyEmail { language });
    steps.push(AccountStep::ScheduleProvisionUser);
    steps.push(AccountStep::Save);
    steps.push(AccountStep::RecordActivity);
    steps.push(AccountStep::SetSessionCookie);
    steps.push(AccountStep::RedirectToVerifyEmail);
    assert(account_step_views(steps@) =~= account_plan(*site, form, language@));
    steps
}

/// What the registration page is rendered from.
#[derive(Debug)]
pub struct RegisterContext<Next, Captcha> {
    /// The errors to show.
    pub form: FormState,
    /// Where the user goes after registering, if that was asked for.
    pub next: Option<Next>,
    /// The captcha to show, if the site has one.
    pub captcha: Option<Captcha>,
    /// The token that the form sends back.
    pub csrf_token: String,
    /// The language of the page.
    pub language: String,
}

/// Gathers what the registration page is rendered from.
pub fn render<Next, Captcha>(
    form: FormState,
    next: Option<Next>,
    captcha: Option<Captcha>,
    csrf_token: String,
    language: String,
) -> (context: RegisterContext<Next, Captcha>)
    ensures
        context == (RegisterContext { form, next, captcha, csrf_token, language }),
{
    RegisterContext { form, next, captcha, csrf_token, language }
}

/// A form is free of errors exactly when none of its lists holds one.
proof fn empty_lists(errors: FormErrors)
    ensures
        errors.is_empty() <==> {
            &&& errors.username.len() == 0
            &&& errors.email.len() == 0
            &&& errors.password.len() == 0
            &&& errors.password_confirm.len() == 0
            &&& errors.accept_terms.len() == 0
            &&& errors.form.len() == 0
        },
{
    assert(errors.on(RegisterFormField::Username) == errors.username);
    assert(errors.on(RegisterFormField::Email) == errors.email);
    assert(errors.on(RegisterFormField::Password) == errors.password);
    assert(errors.on(RegisterFormField::PasswordConfirm) == errors.password_confirm);
    assert(errors.on(RegisterFormField::AcceptTerms) == errors.accept_terms);
}

/// No objection of the policy is lost, and none is shown twice: the messages
/// on the three fields and on the form are as many as the violations, and the
/// message of each violation is among those of its place.
pub proof fn every_violation_is_shown(violations: Seq<ViolationView>)
    ensures
        messages_for(violations, Some(RegisterFormField::Username)).len() + messages_for(
            violations,
            Some(RegisterFormField::Email),
        ).len() + messages_for(violations, Some(RegisterFormField::Password)).len() + messages_for(
            violations,
            None,
        ).len() == violations.len(),
        forall|i: int|
            0 <= i < violations.len() ==> messages_for(
                violations,
                violation_target(#[trigger] violations[i].field),
            ).contains(violations[i].msg),
    decreases violations.len(),
{
    if violations.len() > 0 {
        let earlier = violations.drop_last();
        every_violation_is_shown(earlier);
        assert forall|i: int| 0 <= i < violations.len() implies messages_for(
            violations,
            violation_target(#[trigger] violations[i].field),
        ).contains(violations[i].msg) by {
            let target = violation_target(violations[i].field);
            let messages = messages_for(violations, target);
            if i == violations.len() - 1 {
                assert(messages[messages.len() - 1] == violations[i].msg);
            } else {
                let before = messages_for(earlier, target);
                assert(earlier[i] == violations[i]);
                let _ = earlier[i].field;
                assert(before.contains(violations[i].msg));
                let k = choose|k: int| 0 <= k < before.len() && before[k] == violations[i].msg;
                assert(messages[k] == violations[i].msg);
            }
        }
    }
}

/// A form has no errors exactly when everything in it is in order: a solved
/// captcha, a username that is neither missing nor taken, an e-mail address,
/// two equal passwords that are strong enough, accepted terms where there are
/// any, and no objection of the policy.
pub proof fn form_without_errors_is_in_order(
    site: SiteConfig,
    form: RegisterForm,
    email_is_address: bool,
    checks: Checks,
    violations: Seq<ViolationView>,
)
    ensures
        form_errors(site, form, email_is_address, checks, violations).is_empty() <==> {
            &&& checks.passed_captcha
            &&& form.username@.len() != 0
            &&& !checks.user_exists
            &&& checks.localpart_available
            &&& form.email@.len() != 0
            &&& email_is_address
            &&& form.password@.len() != 0
            &&& form.password@ == form.password_confirm@
            &&& checks.password_complex_enough
            &&& (site.tos_uri is Some ==> form.accept_terms@ == "on"@)
            &&& violations.len() == 0
        },
{
    let errors = form_errors(site, form, email_is_address, checks, violations);
    empty_lists(errors);
    every_violation_is_shown(violations);
    assert(policy_errors(violations, RegisterFormField::Username).len() == messages_for(
        violations,
        Some(RegisterFormField::Username),
    ).len());
    assert(policy_errors(violations, RegisterFormField::Email).len() == messages_for(
        violations,
        Some(RegisterFormField::Email),
    ).len());
    assert(policy_errors(violations, RegisterFormField::Password).len() == messages_for(
        violations,
        Some(RegisterFormField::Password),
    ).len());
    assert(policy_form_errors(violations).len() == messages_for(violations, None).len());
    assert(errors.password_confirm.len() == 0 <==> form.password_confirm@.len() != 0
        && form.password@ == form.password_confirm@);
    assert(errors.accept_terms.len() == 0 <==> (site.tos_uri is Some ==> form.accept_terms@
        == "on"@));
}

/// An account is created exactly for a form in which everything is in order
/// and for a requester within the rate limit. Nothing that has to be asked is
/// taken for granted: each condition rests on an answer that was given.
pub proof fn account_is_created_only_for_a_form_in_order(
    site: SiteConfig,
    form: RegisterForm,
    email_is_address: bool,
    answers: Answers,
)
    ensures
        post_step(site, form, email_is_address, answers) == PostStepView::CreateAccount <==> {
            &&& answers.passed_captcha == Some(true)
            &&& form.username@.len() != 0
            &&& answers.user_exists == Some(false)
            &&& answers.localpart_available == Some(true)
            &&& form.email@.len() != 0
            &&& email_is_address
            &&& form.password@.len() != 0
            &&& form.password@ == form.password_confirm@
            &&& answers.password_complex_enough == Some(true)
            &&& (site.tos_uri is Some ==> form.accept_terms@ == "on"@)
            &&& answers.violations is Some
            &&& answers.violations->0@.len() == 0
            &&& answers.within_rate_limit == Some(true)
        },
{
    form_without_errors_is_in_order(
        site,
        form,
        email_is_address,
        answers.checks(),
        answers.objections(),
    );
    if post_step(site, form, email_is_address, answers) == PostStepView::CreateAccount {
        assert(answers.passed_captcha == Some(true));
        assert(answers.user_exists == Some(false));
        assert(answers.localpart_available == Some(true));
        assert(answers.password_complex_enough == Some(true));
        assert(answers.within_rate_limit == Some(true));
        assert(answers.violations->0@.len() == answers.objections().len());
    }
}

/// A form that is shown again says what is wrong with it.
pub proof fn shown_form_has_errors(
    site: SiteConfig,
    form: RegisterForm,
    email_is_address: bool,
    answers: Answers,
)
    ensures
        post_step(site, form, email_is_address, answers) matches PostStepView::ShowForm(errors)
            ==> !errors.is_empty(),
{
    let step = post_step(site, form, email_is_address, answers);
    if let PostStepView::ShowForm(errors) = step {
        empty_lists(errors);
    }
}

/// No question is asked again once it was answered, so that a form is decided
/// after six answers at most.
pub proof fn questions_are_asked_once(
    site: SiteConfig,
    form: RegisterForm,
    email_is_address: bool,
    answers: Answers,
)
    ensures
        ({
            let step = post_step(site, form, email_is_address, answers);
            &&& step == PostStepView::VerifyCaptcha ==> answers.passed_captcha is None
            &&& step == PostStepView::CheckUserExists ==> answers.user_exists is None
            &&& step == PostStepView::CheckLocalpartAvailable
                ==> answers.localpart_available is None
            &&& step == PostStepView::CheckPasswordComplexity
                ==> answers.password_complex_enough is None
            &&& step == PostStepView::EvaluatePolicy ==> answers.violations is None
            &&& step == PostStepView::CheckRateLimit ==> answers.within_rate_limit is None
        }),
{
}

/// The rate limit is spent only on a form in which nothing else is wrong.
pub proof fn rate_limit_is_for_valid_forms(
    site: SiteConfig,
    form: RegisterForm,
    email_is_address: bool,
    answers: Answers,
)
    ensures
        post_step(site, form, email_is_address, answers) == PostStepView::CheckRateLimit
            ==> form_errors(
            site,
            form,
            email_is_address,
            answers.checks(),
            answers.objections(),
        ).is_empty(),
{
}

/// Whether a step stores or schedules something.
pub open spec fn stores(step: AccountStepView) -> bool {
    match step {
        AccountStepView::AddUser(_) => true,
        AccountStepView::AcceptTerms(_) => true,
        AccountStepView::AddPassword => true,
        AccountStepView::AddEmail(_) => true,
        AccountStepView::AddSession => true,
        AccountStepView::AuthenticateSession => true,
        AccountStepView::ScheduleVerifyEmail(_) => true,
        AccountStepView::ScheduleProvisionUser => true,
        _ => false,
    }
}

/// An account is committed once, after all that belongs to it was stored, and
/// before the session cookie is set and the user is sent on; the user comes
/// first, and the terms are part of it exactly where the site has any.
pub proof fn account_is_saved_once_and_whole(
    site: SiteConfig,
    form: RegisterForm,
    language: Seq<char>,
)
    ensures
        ({
            let plan = account_plan(site, form, language);
            let save = plan.len() - 4;
            &&& plan[0] == AccountStepView::AddUser(form.username@)
            &&& plan.last() == AccountStepView::RedirectToVerifyEmail
            &&& plan[plan.len() - 2] == AccountStepView::SetSessionCookie
            &&& forall|i: int|
                0 <= i < plan.len() ==> (#[trigger] plan[i] == AccountStepView::Save <==> i == save)
            &&& forall|i: int| 0 <= i < plan.len() && stores(#[trigger] plan[i]) ==> i < save
            &&& forall|uri: Seq<char>|
                #[trigger] plan.contains(AccountStepView::AcceptTerms(uri)) <==> optional_text(
                    site.tos_uri,
                ) == Some(uri)
        }),
{
    let plan = account_plan(site, form, language);
    assert forall|uri: Seq<char>| #[trigger]
        plan.contains(AccountStepView::AcceptTerms(uri)) <==> optional_text(site.tos_uri) == Some(
        uri,
    ) by {
        if optional_text(site.tos_uri) == Some(uri) {
            assert(plan[1] == AccountStepView::AcceptTerms(uri));
        }
    }
}

/// Whether a step can fail.
pub open spec fn can_fail(step: AccountStepView) -> bool {
    match step {
        AccountStepView::RecordActivity => false,
        AccountStepView::SetSessionCookie => false,
        AccountStepView::RedirectToVerifyEmail => false,
        _ => true,
    }
}

/// When a step fails, nothing was committed before it, no session cookie was set
/// and no redirect was given.
pub proof fn failed_registration_saves_nothing(
    site: SiteConfig,
    form: RegisterForm,
    language: Seq<char>,
    failed: int,
)
    requires
        0 <= failed < account_plan(site, form, language).len(),
        can_fail(account_plan(site, form, language)[failed]),
    ensures
        ({
            let done = account_plan(site, form, language).take(failed);
            &&& !done.contains(AccountStepView::Save)
            &&& !done.contains(AccountStepView::SetSessionCookie)
            &&& !done.contains(AccountStepView::RedirectToVerifyEmail)
        }),
{
}

/// The steps that store, schedule and commit what belongs to a submitted form.
pub open spec fn steps_of(
    site: SiteConfig,
    form: RegisterForm,
    language: Seq<char>,
    step: PostStepView,
) -> Seq<AccountStepView> {
    match step {
        PostStepView::CreateAccount => account_plan(site, form, language),
        _ => seq![],
    }
}

/// Whether all questions about a form were answered, but for the rate limit.
pub open spec fn is_answered(form: RegisterForm, answers: Answers) -> bool {
    &&& answers.passed_captcha is Some
    &&& form.username@.len() != 0 ==> answers.user_exists is Some
    &&& form.username@.len() != 0 && answers.user_exists == Some(false)
        ==> answers.localpart_available is Some
    &&& answers.password_complex_enough is Some
    &&& answers.violations is Some
}

/// For a form with errors no step is taken that stores or commits anything, at
/// whatever point its handling is; once its questions are answered, it is shown
/// again with just these errors. The same goes for a requester beyond the rate
/// limit.
pub proof fn form_with_errors_stores_nothing(
    site: SiteConfig,
    form: RegisterForm,
    email_is_address: bool,
    answers: Answers,
    language: Seq<char>,
)
    ensures
        ({
            let errors = form_errors(
                site,
                form,
                email_is_address,
                answers.checks(),
                answers.objections(),
            );
            let step = post_step(site, form, email_is_address, answers);
            &&& !errors.is_empty() || answers.within_rate_limit != Some(true) ==> steps_of(
                site,
                form,
                language,
                step,
            ).len() == 0
            &&& !errors.is_empty() && is_answered(form, answers) ==> step
                == PostStepView::ShowForm(errors)
        }),
{
}

/// The form is shown to visitors who are not signed in, and read when it comes back,
/// exactly where accounts can be registered with a password; visitors who are
/// signed in go on. Nothing else matters.
pub proof fn form_is_read_where_it_is_shown(signed_in: bool, site: SiteConfig, other: SiteConfig)
    ensures
        reply_to_visit(true, site) == GetReply::GoNext,
        reply_to_visit(false, site) == GetReply::ShowForm <==> site.password_registration_enabled,
        reply_to_visit(false, site) == GetReply::RedirectToLogin
            <==> !site.password_registration_enabled,
        reply_to_submission(site) == PostEntry::ReadForm <==> reply_to_visit(false, site)
            == GetReply::ShowForm,
        site.password_registration_enabled == other.password_registration_enabled
            ==> reply_to_visit(signed_in, site) == reply_to_visit(signed_in, other),
{
}

/// Objections are shown in the order in which they were made: those of two lists
/// in a row are those of the one and then those of the other, wherever they are
/// shown.
pub proof fn objections_keep_their_order(
    first: Seq<ViolationView>,
    second: Seq<ViolationView>,
    target: Option<RegisterFormField>,
)
    ensures
        messages_for(first + second, target) == messages_for(first, target) + messages_for(
            second,
            target,
        ),
    decreases second.len(),
{
    if second.len() == 0 {
        assert(first + second =~= first);
        assert(messages_for(first, target) + messages_for(second, target) =~= messages_for(
            first,
            target,
        ));
    } else {
        objections_keep_their_order(first, second.drop_last(), target);
        assert((first + second).drop_last() =~= first + second.drop_last());
        assert(messages_for(first + second, target) =~= messages_for(first, target) + messages_for(
            second,
            target,
        ));
    }
}

/// One more objection of the policy adds its message at the end of one list: that
/// of the field that it names, if it is the username, the e-mail address or the
/// password, and that of the form otherwise.
pub proof fn objection_is_shown_where_it_belongs(
    site: SiteConfig,
    form: RegisterForm,
    email_is_address: bool,
    checks: Checks,
    violations: Seq<ViolationView>,
    last: ViolationView,
)
    ensures
        ({
            let before = form_errors(site, form, email_is_address, checks, violations);
            let after = form_errors(site, form, email_is_address, checks, violations.push(last));
            let on_username = last.field == Some("username"@);
            let on_email = last.field == Some("email"@);
            let on_password = last.field == Some("password"@);
            let message = FieldErrorView::Policy(last.msg);
            &&& after.username == if on_username {
                before.username.push(message)
            } else {
                before.username
            }
            &&& after.email == if on_email {
                before.email.push(message)
            } else {
                before.email
            }
            &&& after.password == if on_password {
                before.password.push(message)
            } else {
                before.password
            }
            &&& after.password_confirm == before.password_confirm
            &&& after.accept_terms == before.accept_terms
            &&& after.form == if on_username || on_email || on_password {
                before.form
            } else {
                before.form.push(FormErrorView::Policy(last.msg))
            }
        }),
{
    reveal_strlit("username");
    reveal_strlit("email");
    reveal_strlit("password");
    assert("username"@[0] == 'u' && "email"@[0] == 'e' && "password"@[0] == 'p');
    let own = form_errors(site, form, email_is_address, checks, seq![]);
    let before = form_errors(site, form, email_is_address, checks, violations);
    let after = form_errors(site, form, email_is_address, checks, violations.push(last));
    assert(with_policy(own, violations) =~= before);
    assert(with_policy(own, violations.push(last)) =~= after);
    with_policy_push(own, violations, last);
}

/// Without objections of the policy, each list has just the errors that the form
/// and the answers about it give, in the order in which they are looked for.
pub proof fn own_errors_are_those_of_the_form(
    site: SiteConfig,
    form: RegisterForm,
    email_is_address: bool,
    checks: Checks,
)
    ensures
        ({
            let errors = form_errors(site, form, email_is_address, checks, seq![]);
            let taken = checks.user_exists || !checks.localpart_available;
            let weak = FieldErrorView::Policy("Password is too weak"@);
            &&& form.username@.len() == 0 ==> errors.username == seq![FieldErrorView::Required]
            &&& form.username@.len() > 0 && taken ==> errors.username == seq![
                FieldErrorView::Exists,
            ]
            &&& form.username@.len() > 0 && !taken ==> errors.username.len() == 0
            &&& form.email@.len() == 0 ==> errors.email == seq![FieldErrorView::Required]
            &&& form.email@.len() > 0 && !email_is_address ==> errors.email == seq![
                FieldErrorView::Invalid,
            ]
            &&& form.email@.len() > 0 && email_is_address ==> errors.email.len() == 0
            &&& form.password@.len() == 0 <==> errors.password.contains(FieldErrorView::Required)
            &&& form.password@ != form.password_confirm@ <==> errors.password.contains(
                FieldErrorView::Unspecified,
            )
            &&& !checks.password_complex_enough <==> errors.password.contains(weak)
            &&& forall|i: int|
                0 <= i < errors.password.len() ==> (#[trigger] errors.password[i]
                    == FieldErrorView::Required || errors.password[i] == FieldErrorView::Unspecified
                    || errors.password[i] == weak)
            &&& errors.password.no_duplicates()
            &&& errors.password.contains(FieldErrorView::Required) ==> errors.password[0]
                == FieldErrorView::Required
            &&& errors.password.contains(weak) ==> errors.password.last() == weak
            &&& form.password_confirm@.len() == 0 <==> errors.password_confirm.contains(
                FieldErrorView::Required,
            )
            &&& form.password@ != form.password_confirm@ <==> errors.password_confirm.contains(
                FieldErrorView::PasswordMismatch,
            )
            &&& forall|i: int|
                0 <= i < errors.password_confirm.len() ==> (#[trigger] errors.password_confirm[i]
                    == FieldErrorView::Required || errors.password_confirm[i]
                    == FieldErrorView::PasswordMismatch)
            &&& errors.password_confirm.no_duplicates()
            &&& errors.password_confirm.contains(FieldErrorView::Required)
                ==> errors.password_confirm[0] == FieldErrorView::Required
            &&& errors.accept_terms == if site.tos_uri is Some && form.accept_terms@ != "on"@ {
                seq![FieldErrorView::Required]
            } else {
                seq![]
            }
            &&& errors.form == if checks.passed_captcha {
                seq![]
            } else {
                seq![FormErrorView::Captcha]
            }
        }),
{
    let errors = form_errors(site, form, email_is_address, checks, seq![]);
    let none: Seq<ViolationView> = seq![];
    let weak = FieldErrorView::Policy("Password is too weak"@);
    let mismatch = form.password@ != form.password_confirm@;
    let missing = when(form.password@.len() == 0, FieldErrorView::Required);
    let unequal = when(mismatch, FieldErrorView::Unspecified);
    let feeble = when(!checks.password_complex_enough, weak);
    assert(policy_errors(none, RegisterFormField::Username) =~= seq![]);
    assert(policy_errors(none, RegisterFormField::Email) =~= seq![]);
    assert(policy_errors(none, RegisterFormField::Password) =~= seq![]);
    assert(policy_form_errors(none) =~= seq![]);
    assert(errors.password =~= missing + unequal + feeble);
    if form.password@.len() == 0 {
        assert(errors.password[0] == FieldErrorView::Required);
    }
    if mismatch {
        assert(errors.password[missing.len() as int] == FieldErrorView::Unspecified);
    }
    if !checks.password_complex_enough {
        assert(errors.password[(missing + unequal).len() as int] == weak);
    }
    let unconfirmed = when(form.password_confirm@.len() == 0, FieldErrorView::Required);
    if form.password_confirm@.len() == 0 {
        assert(errors.password_confirm[0] == FieldErrorView::Required);
    }
    if mismatch {
        assert(errors.password_confirm[unconfirmed.len() as int]
            == FieldErrorView::PasswordMismatch);
    }
}

/// Each question is asked when it is its turn, and only then: the captcha first,
/// then the account and the homeserver where there is a username, then the
/// password and the policy, and the rate limit once all else is in order.
pub proof fn questions_have_their_turn(
    site: SiteConfig,
    form: RegisterForm,
    email_is_address: bool,
    answers: Answers,
)
    ensures
        ({
            let step = post_step(site, form, email_is_address, answers);
            let named = form.username@.len() > 0;
            let captcha = answers.passed_captcha is Some;
            let account = captcha && (named ==> answers.user_exists is Some);
            let homeserver = account && (named && answers.user_exists == Some(false)
                ==> answers.localpart_available is Some);
            let password = homeserver && answers.password_complex_enough is Some;
            let policy = password && answers.violations is Some;
            &&& step is VerifyCaptcha <==> answers.passed_captcha is None
            &&& step is CheckUserExists <==> captcha && named && answers.user_exists is None
            &&& step is CheckLocalpartAvailable <==> account && named && answers.user_exists
                == Some(false) && answers.localpart_available is None
            &&& step is CheckPasswordComplexity <==> homeserver
                && answers.password_complex_enough is None
            &&& step is EvaluatePolicy <==> password && answers.violations is None
            &&& step is ShowForm || step is CheckRateLimit || step is CreateAccount <==> policy
        }),
{
}

/// Whether everything in a form and in what is known about it is in order.
pub open spec fn is_in_order(
    site: SiteConfig,
    form: RegisterForm,
    email_is_address: bool,
    answers: Answers,
) -> bool {
    &&& form.username@.len() > 0
    &&& form.email@.len() > 0
    &&& email_is_address
    &&& form.password@.len() > 0
    &&& form.password@ == form.password_confirm@
    &&& site.tos_uri is Some ==> form.accept_terms@ == "on"@
    &&& answers.passed_captcha != Some(false)
    &&& answers.user_exists != Some(true)
    &&& answers.localpart_available != Some(false)
    &&& answers.password_complex_enough != Some(false)
    &&& answers.violations matches Some(violations) ==> violations@.len() == 0
}

/// The limiter is asked for a form in order whose other questions are answered,
/// and for no other, whatever the site; its verdict decides. A form is shown with
/// an exceeded rate limit only where the limiter refused.
pub proof fn limiter_decides_on_a_form_in_order(
    site: SiteConfig,
    form: RegisterForm,
    email_is_address: bool,
    answers: Answers,
)
    ensures
        ({
            let step = post_step(site, form, email_is_address, answers);
            let ready = is_in_order(site, form, email_is_address, answers)
                && answers.passed_captcha is Some && answers.user_exists is Some
                && answers.localpart_available is Some && answers.password_complex_enough is Some
                && answers.violations is Some;
            &&& step is CheckRateLimit <==> ready && answers.within_rate_limit is None
            &&& step is CreateAccount <==> ready && answers.within_rate_limit == Some(true)
            &&& (ready && answers.within_rate_limit == Some(false)) ==> {
                &&& step matches PostStepView::ShowForm(errors)
                &&& errors.form == seq![FormErrorView::RateLimitExceeded]
                &&& forall|field: RegisterFormField| (#[trigger] errors.on(field)).len() == 0
            }
            &&& step matches PostStepView::ShowForm(errors) ==> (errors.form.contains(
                FormErrorView::RateLimitExceeded,
            ) ==> ready && answers.within_rate_limit == Some(false))
        }),
{
    form_without_errors_is_in_order(
        site,
        form,
        email_is_address,
        answers.checks(),
        answers.objections(),
    );
    let errors = form_errors(
        site,
        form,
        email_is_address,
        answers.checks(),
        answers.objections(),
    );
    empty_lists(errors);
    assert(!errors.form.contains(FormErrorView::RateLimitExceeded));
    if answers.violations is Some {
        assert(answers.violations->0@.len() == answers.objections().len());
    }
    let shown = errors.and_on_form(FormErrorView::RateLimitExceeded);
    if errors.is_empty() {
        assert(shown.form =~= seq![FormErrorView::RateLimitExceeded]);
        assert forall|field: RegisterFormField| (#[trigger] shown.on(field)).len() == 0 by {
            assert(errors.on(field).len() == 0);
        }
    }
    questions_have_their_turn(site, form, email_is_address, answers);
    let step = post_step(site, form, email_is_address, answers);
    let ready = is_in_order(site, form, email_is_address, answers) && answers.passed_captcha is Some
        && answers.user_exists is Some && answers.localpart_available is Some
        && answers.password_complex_enough is Some && answers.violations is Some;
    assert(ready ==> errors.is_empty());
    if step is ShowForm || step is CheckRateLimit || step is CreateAccount {
        if errors.is_empty() {
            assert(answers.user_exists == Some(false));
            assert(ready);
            match answers.within_rate_limit {
                None => {
                    assert(step == PostStepView::CheckRateLimit);
                },
                Some(within) => {
                    if within {
                        assert(step == PostStepView::CreateAccount);
                    } else {
                        assert(step == PostStepView::ShowForm(shown));
                    }
                },
            }
        } else {
            assert(step == PostStepView::ShowForm(errors));
        }
    }
}

/// A form in order is never shown again while all answers are in its favour: the
/// next step is a question that is still open, or, once all are answered, the
/// account is created. So an account is reached after six answers at most.
pub proof fn form_in_order_reaches_an_account(
    site: SiteConfig,
    form: RegisterForm,
    email_is_address: bool,
    answers: Answers,
)
    requires
        is_in_order(site, form, email_is_address, answers),
        answers.within_rate_limit != Some(false),
    ensures
        ({
            let step = post_step(site, form, email_is_address, answers);
            &&& !(step is ShowForm)
            &&& step is VerifyCaptcha && answers.passed_captcha is None || step is CheckUserExists
                && answers.user_exists is None || step is CheckLocalpartAvailable
                && answers.localpart_available is None || step is CheckPasswordComplexity
                && answers.password_complex_enough is None || step is EvaluatePolicy
                && answers.violations is None || step is CheckRateLimit
                && answers.within_rate_limit is None || step is CreateAccount
                && answers.passed_captcha is Some && answers.user_exists is Some
                && answers.localpart_available is Some && answers.password_complex_enough is Some
                && answers.violations is Some && answers.within_rate_limit is Some
        }),
{
    limiter_decides_on_a_form_in_order(site, form, email_is_address, answers);
    questions_have_their_turn(site, form, email_is_address, answers);
    form_without_errors_is_in_order(
        site,
        form,
        email_is_address,
        answers.checks(),
        answers.objections(),
    );
}

/// A form that is shown again says what the answers say: the captcha, the username
/// and the password are reported exactly where their answers were against the
/// form, and the lists of a form whose policy objects to nothing hold nothing else.
pub proof fn shown_form_says_what_the_answers_say(
    site: SiteConfig,
    form: RegisterForm,
    email_is_address: bool,
    answers: Answers,
)
    ensures
        post_step(site, form, email_is_address, answers) matches PostStepView::ShowForm(errors)
            ==> {
            let taken = answers.user_exists == Some(true) || answers.localpart_available == Some(
                false,
            );
            let violations = answers.violations->0@;
            &&& answers.violations is Some
            &&& errors.form.contains(FormErrorView::Captcha) <==> answers.passed_captcha == Some(
                false,
            )
            &&& errors.username.contains(FieldErrorView::Required) <==> form.username@.len() == 0
            &&& errors.username.contains(FieldErrorView::Exists) <==> form.username@.len() > 0
                && taken
            &&& errors.email.contains(FieldErrorView::Required) <==> form.email@.len() == 0
            &&& errors.email.contains(FieldErrorView::Invalid) <==> form.email@.len() > 0
                && !email_is_address
            &&& errors.password.contains(FieldErrorView::Required) <==> form.password@.len() == 0
            &&& errors.password.contains(FieldErrorView::Unspecified) <==> form.password@
                != form.password_confirm@
            &&& answers.password_complex_enough == Some(false) ==> errors.password.contains(
                FieldErrorView::Policy("Password is too weak"@),
            )
            &&& errors.accept_terms.contains(FieldErrorView::Required) <==> site.tos_uri is Some
                && form.accept_terms@ != "on"@
            &&& forall|i: int|
                0 <= i < violations.len() ==> {
                    let message = (#[trigger] violations[i]).msg@;
                    let field = optional_text(violations[i].field);
                    if field == Some("username"@) {
                        errors.username.contains(FieldErrorView::Policy(message))
                    } else if field == Some("email"@) {
                        errors.email.contains(FieldErrorView::Policy(message))
                    } else if field == Some("password"@) {
                        errors.password.contains(FieldErrorView::Policy(message))
                    } else {
                        errors.form.contains(FormErrorView::Policy(message))
                    }
                }
        },
{
    if let PostStepView::ShowForm(shown) = post_step(site, form, email_is_address, answers) {
        let checks = answers.checks();
        let views = answers.objections();
        let own = form_errors(site, form, email_is_address, checks, seq![]);
        let errors = form_errors(site, form, email_is_address, checks, views);
        let violations = answers.violations->0@;
        questions_have_their_turn(site, form, email_is_address, answers);
        own_errors_are_those_of_the_form(site, form, email_is_address, checks);
        errors_with_objections(site, form, email_is_address, checks, views);
        assert(shown.username == errors.username && shown.email == errors.email && shown.password
            == errors.password && shown.accept_terms == errors.accept_terms);
        list_with_messages(own.username, messages_for(views, Some(RegisterFormField::Username)));
        list_with_messages(own.email, messages_for(views, Some(RegisterFormField::Email)));
        list_with_messages(own.password, messages_for(views, Some(RegisterFormField::Password)));
        form_list_with_messages(own.form, messages_for(views, None));
        if own.username.len() > 0 {
            assert(own.username.contains(own.username[0]));
        }
        if own.email.len() > 0 {
            assert(own.email.contains(own.email[0]));
        }
        if own.accept_terms.len() > 0 {
            assert(own.accept_terms.contains(own.accept_terms[0]));
        }
        if own.form.len() > 0 {
            assert(own.form.contains(own.form[0]));
        }
        assert forall|error: FormErrorView| error != FormErrorView::RateLimitExceeded implies (
        #[trigger] shown.form.contains(error) <==> errors.form.contains(error)) by {
            if errors.form.contains(error) {
                let k = choose|k: int| 0 <= k < errors.form.len() && errors.form[k] == error;
                assert(shown.form[k] == error);
            }
            if shown.form.contains(error) {
                let k = choose|k: int| 0 <= k < shown.form.len() && shown.form[k] == error;
                assert(errors.form[k] == error);
            }
        }
        every_violation_is_shown(views);
        reveal_strlit("username");
        reveal_strlit("email");
        reveal_strlit("password");
        assert("username"@[0] == 'u' && "email"@[0] == 'e' && "password"@[0] == 'p');
        assert forall|i: int| 0 <= i < violations.len() implies messages_for(
            views,
            violation_target(optional_text((#[trigger] violations[i]).field)),
        ).contains(violations[i].msg@) by {
            assert(views[i] == violations[i]@);
            assert(views[i].field == optional_text(violations[i].field));
        }
    }
}

/// A list that goes on with messages of the policy has the errors that it had, and
/// no others that are not such messages.
proof fn list_with_messages(own: Seq<FieldErrorView>, messages: Seq<Seq<char>>)
    ensures
        ({
            let all = own + messages.map_values(|m: Seq<char>| FieldErrorView::Policy(m));
            &&& forall|error: FieldErrorView|
                !(error is Policy) ==> (#[trigger] all.contains(error) <==> own.contains(error))
            &&& forall|error: FieldErrorView| #[trigger]
                own.contains(error) ==> all.contains(error)
            &&& forall|m: Seq<char>| #[trigger]
                messages.contains(m) ==> all.contains(FieldErrorView::Policy(m))
        }),
{
    let added = messages.map_values(|m: Seq<char>| FieldErrorView::Policy(m));
    let all = own + added;
    assert forall|error: FieldErrorView| #[trigger] own.contains(error) implies all.contains(
        error,
    ) by {
        let k = choose|k: int| 0 <= k < own.len() && own[k] == error;
        assert(all[k] == error);
    }
    assert forall|error: FieldErrorView|
        !(error is Policy) && #[trigger] all.contains(error) implies own.contains(error) by {
        let k = choose|k: int| 0 <= k < all.len() && all[k] == error;
        if k >= own.len() {
            assert(added[k - own.len()] is Policy);
        } else {
            assert(own[k] == error);
        }
    }
    assert forall|m: Seq<char>| #[trigger] messages.contains(m) implies all.contains(
        FieldErrorView::Policy(m),
    ) by {
        let k = choose|k: int| 0 <= k < messages.len() && messages[k] == m;
        assert(all[own.len() + k] == FieldErrorView::Policy(m));
    }
}

/// The same of the list of the form as a whole.
proof fn form_list_with_messages(own: Seq<FormErrorView>, messages: Seq<Seq<char>>)
    ensures
        ({
            let all = own + messages.map_values(|m: Seq<char>| FormErrorView::Policy(m));
            &&& forall|error: FormErrorView|
                !(error is Policy) ==> (#[trigger] all.contains(error) <==> own.contains(error))
            &&& forall|m: Seq<char>| #[trigger]
                messages.contains(m) ==> all.contains(FormErrorView::Policy(m))
        }),
{
    let added = messages.map_values(|m: Seq<char>| FormErrorView::Policy(m));
    let all = own + added;
    assert forall|error: FormErrorView| !(error is Policy) implies (#[trigger] all.contains(error)
        <==> own.contains(error)) by {
        if own.contains(error) {
            let k = choose|k: int| 0 <= k < own.len() && own[k] == error;
            assert(all[k] == error);
        }
        if all.contains(error) {
            let k = choose|k: int| 0 <= k < all.len() && all[k] == error;
            if k >= own.len() {
                assert(added[k - own.len()] is Policy);
            } else {
                assert(own[k] == error);
            }
        }
    }
    assert forall|m: Seq<char>| #[trigger] messages.contains(m) implies all.contains(
        FormErrorView::Policy(m),
    ) by {
        let k = choose|k: int| 0 <= k < messages.len() && messages[k] == m;
        assert(all[own.len() + k] == FormErrorView::Policy(m));
    }
}

/// The lists of a form hold what the form and the answers give, with the messages
/// of the policy after that.
proof fn errors_with_objections(
    site: SiteConfig,
    form: RegisterForm,
    email_is_address: bool,
    checks: Checks,
    violations: Seq<ViolationView>,
)
    ensures
        ({
            let own = form_errors(site, form, email_is_address, checks, seq![]);
            let errors = form_errors(site, form, email_is_address, checks, violations);
            &&& errors.username == own.username + policy_errors(
                violations,
                RegisterFormField::Username,
            )
            &&& errors.email == own.email + policy_errors(violations, RegisterFormField::Email)
            &&& errors.password == own.password + policy_errors(
                violations,
                RegisterFormField::Password,
            )
            &&& errors.accept_terms == own.accept_terms
            &&& errors.form == own.form + policy_form_errors(violations)
        }),
{
    let own = form_errors(site, form, email_is_address, checks, seq![]);
    let errors = form_errors(site, form, email_is_address, checks, violations);
    assert(errors =~= with_policy(own, violations));
}

/// A form with errors is shown with just these: those of the form itself, of the
/// answers that were given and of the objections that were made, each once.
pub proof fn shown_form_has_its_own_errors(
    site: SiteConfig,
    form: RegisterForm,
    email_is_address: bool,
    answers: Answers,
)
    ensures
        ({
            let step = post_step(site, form, email_is_address, answers);
            let checks = Checks {
                passed_captcha: answers.passed_captcha != Some(false),
                user_exists: answers.user_exists == Some(true),
                localpart_available: answers.localpart_available != Some(false),
                password_complex_enough: answers.password_complex_enough != Some(false),
            };
            let errors = form_errors(
                site,
                form,
                email_is_address,
                checks,
                violation_views(answers.violations->0@),
            );
            step matches PostStepView::ShowForm(shown) ==> {
                ||| shown == errors && !errors.is_empty()
                ||| shown == errors.and_on_form(FormErrorView::RateLimitExceeded)
                    && errors.is_empty() && answers.within_rate_limit == Some(false)
            }
        }),
{
    questions_have_their_turn(site, form, email_is_address, answers);
}

/// Whether a step stands at one place of a plan and nowhere else.
pub open spec fn stands_only_at(
    plan: Seq<AccountStepView>,
    step: AccountStepView,
    place: int,
) -> bool {
    &&& 0 <= place < plan.len()
    &&& forall|i: int| 0 <= i < plan.len() ==> (#[trigger] plan[i] == step <==> i == place)
}

/// An account is whole: the user, the terms where there are any, the password, the
/// e-mail address, the session and the two jobs are there, in this order, each once
/// and before the commit, with what the form says. The password is hashed before the
/// hash is stored, and the session and the stored hash come before the one is
/// authenticated with the other. What follows the commit is there once, too, and
/// there is nothing else.
pub proof fn account_has_all_its_parts(
    site: SiteConfig,
    form: RegisterForm,
    language: Seq<char>,
) -> (places: Seq<int>)
    ensures
        ({
            let plan = account_plan(site, form, language);
            let terms: int = if site.tos_uri is Some {
                1
            } else {
                0
            };
            let (user, hash, password, email, session, authenticated, verify, provision, save) = (
                places[0],
                places[1],
                places[2],
                places[3],
                places[4],
                places[5],
                places[6],
                places[7],
                places[8],
            );
            &&& places.len() == 12
            &&& forall|i: int, j: int|
                0 <= i < j < 12 ==> #[trigger] places[i] < #[trigger] places[j]
            &&& plan.len() == 12 + terms
            &&& stands_only_at(plan, AccountStepView::AddUser(form.username@), user)
            &&& stands_only_at(plan, AccountStepView::HashPassword(form.password@), hash)
            &&& stands_only_at(plan, AccountStepView::AddPassword, password)
            &&& stands_only_at(plan, AccountStepView::AddEmail(form.email@), email)
            &&& stands_only_at(plan, AccountStepView::AddSession, session)
            &&& stands_only_at(plan, AccountStepView::AuthenticateSession, authenticated)
            &&& stands_only_at(plan, AccountStepView::ScheduleVerifyEmail(language), verify)
            &&& stands_only_at(plan, AccountStepView::ScheduleProvisionUser, provision)
            &&& stands_only_at(plan, AccountStepView::Save, save)
            &&& stands_only_at(plan, AccountStepView::RecordActivity, places[9])
            &&& stands_only_at(plan, AccountStepView::SetSessionCookie, places[10])
            &&& stands_only_at(plan, AccountStepView::RedirectToVerifyEmail, places[11])
            &&& site.tos_uri matches Some(uri) ==> exists|accepted: int|
                #[trigger] stands_only_at(plan, AccountStepView::AcceptTerms(uri@), accepted)
                    && user < accepted < hash
            &&& user < hash < password < authenticated < save
            &&& user < email < verify < save
            &&& user < session < authenticated
            &&& user < provision < save
            &&& save < places[9] < places[11]
            &&& save < places[10] < places[11]
        }),
{
    let plan = account_plan(site, form, language);
    let terms: int = if site.tos_uri is Some {
        1
    } else {
        0
    };
    if let Some(uri) = site.tos_uri {
        assert(plan[1] == AccountStepView::AcceptTerms(uri@));
        assert(stands_only_at(plan, AccountStepView::AcceptTerms(uri@), 1));
    }
    assert(plan[0] == AccountStepView::AddUser(form.username@));
    assert(plan[1 + terms] == AccountStepView::HashPassword(form.password@));
    assert(plan[2 + terms] == AccountStepView::AddPassword);
    assert(plan[3 + terms] == AccountStepView::AddEmail(form.email@));
    assert(plan[4 + terms] == AccountStepView::AddSession);
    assert(plan[5 + terms] == AccountStepView::AuthenticateSession);
    assert(plan[6 + terms] == AccountStepView::ScheduleVerifyEmail(language));
    assert(plan[7 + terms] == AccountStepView::ScheduleProvisionUser);
    assert(plan[8 + terms] == AccountStepView::Save);
    assert(plan[9 + terms] == AccountStepView::RecordActivity);
    assert(plan[10 + terms] == AccountStepView::SetSessionCookie);
    assert(plan[11 + terms] == AccountStepView::RedirectToVerifyEmail);
    seq![
        0,
        1 + terms,
        2 + terms,
        3 + terms,
        4 + terms,
        5 + terms,
        6 + terms,
        7 + terms,
        8 + terms,
        9 + terms,
        10 + terms,
        11 + terms,
    ]
}

/// An account depends on the form's username, address and password alone: two
/// forms with the same have the same account, and forms that differ in one of
/// them, or pages in two languages, do not.
pub proof fn account_is_that_of_the_form(
    site: SiteConfig,
    form: RegisterForm,
    other: RegisterForm,
    language: Seq<char>,
    other_language: Seq<char>,
)
    ensures
        account_plan(site, form, language) == account_plan(site, other, other_language)
            <==> form.username@ == other.username@ && form.email@ == other.email@ && form.password@
            == other.password@ && language == other_language,
{
    let plan = account_plan(site, form, language);
    let other_plan = account_plan(site, other, other_language);
    let terms: int = if site.tos_uri is Some {
        1
    } else {
        0
    };
    assert(plan[0] == AccountStepView::AddUser(form.username@));
    assert(plan[1 + terms] == AccountStepView::HashPassword(form.password@));
    assert(plan[3 + terms] == AccountStepView::AddEmail(form.email@));
    assert(plan[6 + terms] == AccountStepView::ScheduleVerifyEmail(language));
    assert(other_plan[0] == AccountStepView::AddUser(other.username@));
    assert(other_plan[1 + terms] == AccountStepView::HashPassword(other.password@));
    assert(other_plan[3 + terms] == AccountStepView::AddEmail(other.email@));
    assert(other_plan[6 + terms] == AccountStepView::ScheduleVerifyEmail(other_language));
}

/// The values of steps are those of the steps, one for one and in order, each of
/// its own kind and with its own text.
pub proof fn steps_are_kept(steps: Seq<AccountStep>, step: AccountStep)
    ensures
        account_step_views(steps).len() == steps.len(),
        forall|i: int|
            0 <= i < steps.len() ==> account_step_views(steps)[i] == (#[trigger] steps[i])@,
        step matches AccountStep::AddUser { username } ==> step@ == AccountStepView::AddUser(
            username@,
        ),
        step matches AccountStep::AcceptTerms { tos_uri } ==> step@ == AccountStepView::AcceptTerms(
            tos_uri@,
        ),
        step matches AccountStep::HashPassword { password } ==> step@
            == AccountStepView::HashPassword(password@),
        step matches AccountStep::AddEmail { email } ==> step@ == AccountStepView::AddEmail(email@),
        step matches AccountStep::ScheduleVerifyEmail { language } ==> step@
            == AccountStepView::ScheduleVerifyEmail(language@),
        step is AddPassword <==> step@ is AddPassword,
        step is AddSession <==> step@ is AddSession,
        step is AuthenticateSession <==> step@ is AuthenticateSession,
        step is ScheduleProvisionUser <==> step@ is ScheduleProvisionUser,
        step is Save <==> step@ is Save,
        step is RecordActivity <==> step@ is RecordActivity,
        step is SetSessionCookie <==> step@ is SetSessionCookie,
        step is RedirectToVerifyEmail <==> step@ is RedirectToVerifyEmail,
{
}

/// The values of what is to be done next, and of objections, are of their own kind
/// and with their own contents.
pub proof fn next_steps_are_kept(step: PostStep, violations: Seq<Violation>)
    ensures
        step is VerifyCaptcha <==> step@ is VerifyCaptcha,
        step is CheckUserExists <==> step@ is CheckUserExists,
        step is CheckLocalpartAvailable <==> step@ is CheckLocalpartAvailable,
        step is CheckPasswordComplexity <==> step@ is CheckPasswordComplexity,
        step is EvaluatePolicy <==> step@ is EvaluatePolicy,
        step is CheckRateLimit <==> step@ is CheckRateLimit,
        step is CreateAccount <==> step@ is CreateAccount,
        step matches PostStep::ShowForm(state) ==> step@ == PostStepView::ShowForm(state@),
        violation_views(violations).len() == violations.len(),
        forall|i: int|
            0 <= i < violations.len() ==> violation_views(violations)[i] == (ViolationView {
                msg: (#[trigger] violations[i]).msg@,
                field: optional_text(violations[i].field),
            }),
{
}

} // verus!
