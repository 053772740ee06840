//! What the registration page tells the user about a submitted form.
use vstd::prelude::*;

verus! {

/// A field of the registration form.
#[derive(Clone, Copy, Debug, PartialEq, Eq, Structural)]
pub enum RegisterFormField {
    Username,
    Email,
    Password,
    PasswordConfirm,
    AcceptTerms,
}

/// What is wrong with one field.
#[derive(Debug)]
pub enum FieldError {
    /// The field must be filled in.
    Required,
    /// The field is wrong, for a reason that is shown on another field.
    Unspecified,
    /// The value is not of the right form.
    Invalid,
    /// The two passwords differ.
    PasswordMismatch,
    /// The value is already taken.
    Exists,
    /// A policy refuses the value.
    Policy { message: String },
}

/// What is wrong with the form as a whole.
#[derive(Debug)]
pub enum FormError {
    /// The captcha was not solved.
    Captcha,
    /// Too many registrations came from this requester.
    RateLimitExceeded,
    /// A policy refuses the request.
    Policy { message: String },
}

/// The value of a [`FieldError`].
pub ghost enum FieldErrorView {
    Required,
    Unspecified,
    Invalid,
    PasswordMismatch,
    Exists,
    Policy(Seq<char>),
}

/// The value of a [`FormError`].
pub ghost enum FormErrorView {
    Captcha,
    RateLimitExceeded,
    Policy(Seq<char>),
}

impl View for FieldError {
    type V = FieldErrorView;

    open spec fn view(&self) -> FieldErrorView {
        match self {
            FieldError::Required => FieldErrorView::Required,
            FieldError::Unspecified => FieldErrorView::Unspecified,
            FieldError::Invalid => FieldErrorView::Invalid,
            FieldError::PasswordMismatch => FieldErrorView::PasswordMismatch,
            FieldError::Exists => FieldErrorView::Exists,
            FieldError::Policy { message } => FieldErrorView::Policy(message@),
        }
    }
}

impl View for FormError {
    type V = FormErrorView;

    open spec fn view(&self) -> FormErrorView {
        match self {
            FormError::Captcha => FormErrorView::Captcha,
            FormError::RateLimitExceeded => FormErrorView::RateLimitExceeded,
            FormError::Policy { message } => FormErrorView::Policy(message@),
        }
    }
}

/// The errors of a form: those of each field and those of the form as a
/// whole, each list in the order in which the errors were found.
#[verifier::ext_equal]
pub ghost struct FormErrors {
    pub username: Seq<FieldErrorView>,
    pub email: Seq<FieldErrorView>,
    pub password: Seq<FieldErrorView>,
    pub password_confirm: Seq<FieldErrorView>,
    pub accept_terms: Seq<FieldErrorView>,
    pub form: Seq<FormErrorView>,
}

impl FormErrors {
    /// No errors.
    pub open spec fn none() -> FormErrors {
        FormErrors {
            username: seq![],
            email: seq![],
            password: seq![],
            password_confirm: seq![],
            accept_terms: seq![],
            form: seq![],
        }
    }

    /// The errors of one field.
    pub open spec fn on(self, field: RegisterFormField) -> Seq<FieldErrorView> {
        match field {
            RegisterFormField::Username => self.username,
            RegisterFormField::Email => self.email,
            RegisterFormField::Password => self.password,
            RegisterFormField::PasswordConfirm => self.password_confirm,
            RegisterFormField::AcceptTerms => self.accept_terms,
        }
    }

    /// The same errors, and one more on a field.
    pub open spec fn and_on(self, field: RegisterFormField, error: FieldErrorView) -> FormErrors {
        match field {
            RegisterFormField::Username => FormErrors {
                username: self.username.push(error),
                ..self
            },
            RegisterFormField::Email => FormErrors { email: self.email.push(error), ..self },
            RegisterFormField::Password => FormErrors {
                password: self.password.push(error),
                ..self
            },
            RegisterFormField::PasswordConfirm => FormErrors {
                password_confirm: self.password_confirm.push(error),
                ..self
            },
            RegisterFormField::AcceptTerms => FormErrors {
                accept_terms: self.accept_terms.push(error),
                ..self
            },
        }
    }

    /// The same errors, and one more on the form as a whole.
    pub open spec fn and_on_form(self, error: FormErrorView) -> FormErrors {
        FormErrors { form: self.form.push(error), ..self }
    }

    /// Whether there is nothing wrong.
    pub open spec fn is_empty(self) -> bool {
        &&& forall|field: RegisterFormField| #[trigger] self.on(field).len() == 0
        &&& self.form.len() == 0
    }
}

/// The errors found in a submitted form.
#[derive(Debug)]
pub struct FormState {
    username: Vec<FieldError>,
    email: Vec<FieldError>,
    password: Vec<FieldError>,
    password_confirm: Vec<FieldError>,
    accept_terms: Vec<FieldError>,
    form: Vec<FormError>,
}

/// The values of a list of field errors.
pub open spec fn field_error_views(errors: Seq<FieldError>) -> Seq<FieldErrorView> {
    errors.map_values(|e: FieldError| e@)
}

/// The values of a list of form errors.
pub open spec fn form_error_views(errors: Seq<FormError>) -> Seq<FormErrorView> {
    errors.map_values(|e: FormError| e@)
}

impl View for FormState {
    type V = FormErrors;

    closed spec fn view(&self) -> FormErrors {
        FormErrors {
            username: field_error_views(self.username@),
            email: field_error_views(self.email@),
            password: field_error_views(self.password@),
            password_confirm: field_error_views(self.password_confirm@),
            accept_terms: field_error_views(self.accept_terms@),
            form: form_error_views(self.form@),
        }
    }
}

/// Adds an error at the end of a field's list.
fn push_field_error(errors: &mut Vec<FieldError>, error: FieldError)
    ensures
        field_error_views(final(errors)@) == field_error_views(old(errors)@).push(error@),
{
    errors.push(error);
    assert(field_error_views(errors@) =~= field_error_views(old(errors)@).push(error@));
}

impl FormState {
    /// A form without errors.
    pub fn new() -> (state: FormState)
        ensures
            state@ == FormErrors::none(),
    {
        FormState {
            username: Vec::new(),
            email: Vec::new(),
            password: Vec::new(),
            password_confirm: Vec::new(),
            accept_terms: Vec::new(),
            form: Vec::new(),
        }
    }

    /// Adds an error on a field.
    pub fn add_error_on_field(&mut self, field: RegisterFormField, error: FieldError)
        ensures
            final(self)@ == old(self)@.and_on(field, error@),
    {
        match field {
            RegisterFormField::Username => push_field_error(&mut self.username, error),
            RegisterFormField::Email => push_field_error(&mut self.email, error),
            RegisterFormField::Password => push_field_error(&mut self.password, error),
            RegisterFormField::PasswordConfirm => push_field_error(
                &mut self.password_confirm,
                error,
            ),
            RegisterFormField::AcceptTerms => push_field_error(&mut self.accept_terms, error),
        }
    }

    /// Adds an error on the form as a whole.
    pub fn add_error_on_form(&mut self, error: FormError)
        ensures
            final(self)@ == old(self)@.and_on_form(error@),
    {
        self.form.push(error);
        assert(form_error_views(self.form@) =~= form_error_views(old(self).form@).push(error@));
    }

    /// Whether no error was found.
    pub fn is_valid(&self) -> (valid: bool)
        ensures
            valid == self@.is_empty(),
    {
        let valid = self.username.len() == 0 && self.email.len() == 0 && self.password.len() == 0
            && self.password_confirm.len() == 0 && self.accept_terms.len() == 0 && self.form.len()
            == 0;
        proof {
            let errors = self@;
            assert(errors.on(RegisterFormField::Username).len() == self.username@.len());
            assert(errors.on(RegisterFormField::Email).len() == self.email@.len());
            assert(errors.on(RegisterFormField::Password).len() == self.password@.len());
            assert(errors.on(RegisterFormField::PasswordConfirm).len()
                == self.password_confirm@.len());
            assert(errors.on(RegisterFormField::AcceptTerms).len() == self.accept_terms@.len());
        }
        valid
    }

    /// The errors of one field, in the order in which they were found.
    pub fn errors_on_field(&self, field: RegisterFormField) -> (errors: &Vec<FieldError>)
        ensures
            field_error_views(errors@) == self@.on(field),
    {
        match field {
            RegisterFormField::Username => &self.username,
            RegisterFormField::Email => &self.email,
            RegisterFormField::Password => &self.password,
            RegisterFormField::PasswordConfirm => &self.password_confirm,
            RegisterFormField::AcceptTerms => &self.accept_terms,
        }
    }

    /// The errors of the form as a whole, in the order in which they were
    /// found.
    pub fn errors_on_form(&self) -> (errors: &Vec<FormError>)
        ensures
            form_error_views(errors@) == self@.form,
    {
        &self.form
    }
}

/// An error is added at the end of the list of its field, and nothing else
/// changes; one on the form as a whole changes no field.
pub proof fn error_is_added_in_its_place(
    errors: FormErrors,
    field: RegisterFormField,
    other: RegisterFormField,
    error: FieldErrorView,
    on_form: FormErrorView,
)
    ensures
        errors.and_on(field, error).on(field) == errors.on(field).push(error),
        field != other ==> errors.and_on(field, error).on(other) == errors.on(other),
        errors.and_on(field, error).form == errors.form,
        errors.and_on_form(on_form).on(field) == errors.on(field),
        errors.and_on_form(on_form).form == errors.form.push(on_form),
{
}

/// A form without errors has none on any field and none as a whole, and one to
/// which an error was added has some.
pub proof fn form_with_an_error_is_not_valid(
    errors: FormErrors,
    field: RegisterFormField,
    error: FieldErrorView,
    on_form: FormErrorView,
)
    ensures
        FormErrors::none().is_empty(),
        !errors.and_on(field, error).is_empty(),
        !errors.and_on_form(on_form).is_empty(),
        errors.is_empty() ==> errors.username.len() == 0 && errors.email.len() == 0
            && errors.password.len() == 0 && errors.password_confirm.len() == 0
            && errors.accept_terms.len() == 0 && errors.form.len() == 0,
        errors.username.len() == 0 && errors.email.len() == 0 && errors.password.len() == 0
            && errors.password_confirm.len() == 0 && errors.accept_terms.len() == 0
            && errors.form.len() == 0 ==> errors.is_empty(),
{
    assert(errors.and_on(field, error).on(field).len() > 0);
    assert(errors.on(RegisterFormField::Username) == errors.username);
    assert(errors.on(RegisterFormField::Email) == errors.email);
    assert(errors.on(RegisterFormField::Password) == errors.password);
    assert(errors.on(RegisterFormField::PasswordConfirm) == errors.password_confirm);
    assert(errors.on(RegisterFormField::AcceptTerms) == errors.accept_terms);
}

/// The values of errors are those of the errors, one for one and in order.
pub proof fn errors_are_kept(fields: Seq<FieldError>, forms: Seq<FormError>)
    ensures
        field_error_views(fields).len() == fields.len(),
        forall|i: int|
            0 <= i < fields.len() ==> field_error_views(fields)[i] == (#[trigger] fields[i])@,
        form_error_views(forms).len() == forms.len(),
        forall|i: int| 0 <= i < forms.len() ==> form_error_views(forms)[i] == (#[trigger] forms[i])@,
{
}

/// Each kind of error has its own value, with the message of the policy.
pub proof fn kinds_of_errors_are_told_apart(field: FieldError, form: FormError)
    ensures
        field is Required <==> field@ is Required,
        field is Unspecified <==> field@ is Unspecified,
        field is Invalid <==> field@ is Invalid,
        field is PasswordMismatch <==> field@ is PasswordMismatch,
        field is Exists <==> field@ is Exists,
        field matches FieldError::Policy { message } ==> field@ == FieldErrorView::Policy(message@),
        form is Captcha <==> form@ is Captcha,
        form is RateLimitExceeded <==> form@ is RateLimitExceeded,
        form matches FormError::Policy { message } ==> form@ == FormErrorView::Policy(message@),
{
}

} // verus!
