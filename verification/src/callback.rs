//! The return of a user from an upstream OAuth 2.0 provider.
use vstd::prelude::*;

use crate::id::Ulid;
use crate::template::{
    extract, field_is_rendered, is_safe_template, outcome, rendered, sub_template_is_safe, Claims,
};
use crate::text::{optional_str, optional_text};
use crate::tokens::{field_template, is_name};

verus! {

/// The parameters with which the provider sends the user back.
#[derive(Debug)]
pub struct QueryParams {
    pub state: String,
    pub code_or_error: CodeOrError,
}

/// What the provider says about the request.
#[derive(Debug)]
pub enum CodeOrError {
    /// It was granted; the code can be exchanged for tokens.
    Code { code: String },
    /// It failed.
    Error { error: String, error_description: Option<String>, error_uri: Option<String> },
}

/// Why the user could not be brought back.
#[derive(Debug)]
pub enum RouteError {
    SessionNotFound,
    ProviderNotFound,
    ProviderMismatch,
    AlreadyCompleted,
    StateMismatch,
    MissingIDToken,
    /// The template of the subject could not be rendered.
    ExtractSubject(minijinja::Error),
    EmptySubject,
    /// The provider reported an error.
    ClientError { error: String, error_description: Option<String> },
    MissingCookie,
    /// Something else failed, for a reason that is not the user's.
    Internal(String),
}

impl RouteError {
    /// What the user is told.
    pub open spec fn text(self) -> Seq<char> {
        match self {
            RouteError::SessionNotFound => "Session not found"@,
            RouteError::ProviderNotFound => "Provider not found"@,
            RouteError::ProviderMismatch => "Provider mismatch"@,
            RouteError::AlreadyCompleted => "Session already completed"@,
            RouteError::StateMismatch => "State parameter mismatch"@,
            RouteError::MissingIDToken => "Missing ID token"@,
            RouteError::ExtractSubject(_) => "Could not extract subject from ID token"@,
            RouteError::EmptySubject => "Subject is empty"@,
            RouteError::ClientError { error, error_description } => "Error from the provider: "@
                + error@,
            RouteError::MissingCookie => "Missing session cookie"@,
            RouteError::Internal(reason) => reason@,
        }
    }

    /// What the user is told.
    pub fn message(&self) -> (message: String)
        ensures
            message@ == self.text(),
    {
        match self {
            RouteError::SessionNotFound => "Session not found".to_owned(),
            RouteError::ProviderNotFound => "Provider not found".to_owned(),
            RouteError::ProviderMismatch => "Provider mismatch".to_owned(),
            RouteError::AlreadyCompleted => "Session already completed".to_owned(),
            RouteError::StateMismatch => "State parameter mismatch".to_owned(),
            RouteError::MissingIDToken => "Missing ID token".to_owned(),
            RouteError::ExtractSubject(_) => "Could not extract subject from ID token".to_owned(),
            RouteError::EmptySubject => "Subject is empty".to_owned(),
            RouteError::ClientError { error, error_description: _ } => {
                let mut message = "Error from the provider: ".to_owned();
                message.append(error.as_str());
                message
            },
            RouteError::MissingCookie => "Missing session cookie".to_owned(),
            RouteError::Internal(reason) => reason.clone(),
        }
    }

    /// The HTTP status of the reply: 404 for an unknown provider or session,
    /// 500 where the service failed, 400 otherwise.
    pub fn status_code(&self) -> (status: u16)
        ensures
            status == match self {
                RouteError::ProviderNotFound => 404u16,
                RouteError::SessionNotFound => 404u16,
                RouteError::Internal(_) => 500u16,
                _ => 400u16,
            },
    {
        match self {
            RouteError::ProviderNotFound => 404,
            RouteError::SessionNotFound => 404,
            RouteError::Internal(_) => 500,
            _ => 400,
        }
    }
}

/// An upstream provider.
#[derive(Debug)]
pub struct UpstreamOAuthProvider {
    pub id: Ulid,
    /// Whether users may sign in through the provider.
    pub enabled: bool,
    pub issuer: String,
    /// How the provider knows the service.
    pub client_id: String,
    /// The template that makes the subject out of the claims of an ID token,
    /// if it is not the usual one.
    pub subject_template: Option<String>,
}

/// A visit of a user to an upstream provider.
#[derive(Debug)]
pub struct UpstreamOAuthSession {
    pub id: Ulid,
    pub provider_id: Ulid,
    pub state_str: String,
    pub nonce: String,
    pub code_challenge_verifier: Option<String>,
    /// Whether the user has not come back yet.
    pub pending: bool,
}

/// A link between a subject of a provider and, possibly, a user.
#[derive(Clone, Copy, Debug)]
pub struct UpstreamOAuthLink {
    pub id: Ulid,
}

/// The template of the subject: the provider's own, or else the one that takes
/// the `sub` claim.
pub open spec fn subject_template(provider: UpstreamOAuthProvider) -> Seq<char> {
    match provider.subject_template {
        Some(template) => template@,
        None => "{{ user.sub }}"@,
    }
}

/// The subject that a provider's template makes out of claims, which it knows
/// as `user`.
pub open spec fn rendered_subject(provider: UpstreamOAuthProvider, claims: Seq<char>) -> Result<
    Seq<char>,
    minijinja::Error,
> {
    outcome(subject_template(provider), "user"@, claims)
}

/// What comes of what a template made.
pub open spec fn accepted(text: Result<String, minijinja::Error>) -> Result<String, RouteError> {
    if text is Err {
        Err(RouteError::ExtractSubject(text->Err_0))
    } else if text->Ok_0@.len() == 0 {
        Err(RouteError::EmptySubject)
    } else {
        Ok(text->Ok_0)
    }
}

/// The subject that a template made, unless it made none or an empty one.
pub fn accept_subject(text: Result<String, minijinja::Error>) -> (r: Result<String, RouteError>)
    ensures
        match text {
            Err(error) => r == Err::<String, _>(RouteError::ExtractSubject(error)),
            Ok(subject) => if subject@.len() == 0 {
                r == Err::<String, _>(RouteError::EmptySubject)
            } else {
                r == Ok::<_, RouteError>(subject)
            },
        },
        r == accepted(text),
{
    match text {
        Err(error) => Err(RouteError::ExtractSubject(error)),
        Ok(subject) => {
            if subject.as_str().is_empty() {
                return Err(RouteError::EmptySubject);
            }
            Ok(subject)
        },
    }
}

/// A user came back; does the provider exist?
#[derive(Debug)]
pub struct LookupProvider {
    pub provider_id: Ulid,
    pub params: QueryParams,
}

/// The provider exists; which of its sessions do the cookies of the user
/// hold for the state that came back?
#[derive(Debug)]
pub struct FindSession {
    pub provider_id: Ulid,
    pub provider: UpstreamOAuthProvider,
    pub params: QueryParams,
}

/// The cookies hold a session; does it exist?
#[derive(Debug)]
pub struct LookupSession {
    pub provider: UpstreamOAuthProvider,
    pub params: QueryParams,
    pub session_id: Ulid,
}

/// The session is the right one; its code is to be exchanged for tokens.
#[derive(Debug)]
pub struct ExchangeCode {
    pub provider: UpstreamOAuthProvider,
    pub session: UpstreamOAuthSession,
    pub code: String,
}

/// How an ID token has to be signed.
#[derive(Clone, Copy, Debug, PartialEq, Eq, Structural)]
pub enum SigningAlgorithm {
    Rs256,
}

/// What is sent to the provider in exchange for tokens, and what the ID token
/// is held against.
#[derive(Clone, Copy, Debug)]
pub struct TokenRequest<'a> {
    pub code: &'a str,
    pub state: &'a str,
    pub nonce: &'a str,
    pub code_challenge_verifier: Option<&'a str>,
    /// The provider to whose callback the user was sent.
    pub callback_of: Ulid,
    pub issuer: &'a str,
    pub client_id: &'a str,
    pub signing_algorithm: SigningAlgorithm,
}

/// What the provider gave in exchange for the code.
#[derive(Debug)]
pub struct Tokens {
    /// The claims of the verified ID token, if there is one.
    pub claims: Option<Claims>,
    /// The ID token as it came, if it did.
    pub id_token: Option<String>,
}

/// The subject is known; is there already a link for it?
#[derive(Debug)]
pub struct FindLink {
    pub provider: UpstreamOAuthProvider,
    pub session: UpstreamOAuthSession,
    pub subject: String,
    pub id_token: Option<String>,
}

/// There is no link yet; it is to be stored.
#[derive(Debug)]
pub struct AddLink {
    pub provider: UpstreamOAuthProvider,
    pub session: UpstreamOAuthSession,
    pub subject: String,
    pub id_token: Option<String>,
}

/// The session is to be completed with the link.
#[derive(Debug)]
pub struct CompleteSession {
    pub session: UpstreamOAuthSession,
    pub link: UpstreamOAuthLink,
    pub id_token: Option<String>,
}

/// What to do about the link.
#[derive(Debug)]
pub enum LinkStep {
    Add(AddLink),
    Complete(CompleteSession),
}

/// One of the last steps.
#[derive(Clone, Copy, Debug, PartialEq, Eq, Structural)]
pub enum FinishStep {
    /// Put the link into the cookies, beside the session.
    AddLinkToCookie { session_id: Ulid, link_id: Ulid },
    /// Save the cookies.
    SaveCookie,
    /// Commit what was stored.
    Save,
    /// Redirect the user to the link.
    RedirectToLink { link_id: Ulid },
}

/// A user came back from a provider.
pub fn get(provider_id: Ulid, params: QueryParams) -> (step: LookupProvider)
    ensures
        step == (LookupProvider { provider_id, params }),
{
    LookupProvider { provider_id, params }
}

impl LookupProvider {
    /// What comes of the provider that was found.
    pub open spec fn after(self, provider: Option<UpstreamOAuthProvider>) -> Result<
        FindSession,
        RouteError,
    > {
        if provider is Some && provider->0.enabled {
            Ok(
                FindSession {
                    provider_id: self.provider_id,
                    provider: provider->0,
                    params: self.params,
                },
            )
        } else {
            Err(RouteError::ProviderNotFound)
        }
    }

    /// Goes on with the provider that was found. It has to be enabled.
    pub fn provider(self, provider: Option<UpstreamOAuthProvider>) -> (r: Result<
        FindSession,
        RouteError,
    >)
        ensures
            r == self.after(provider),
    {
        match provider {
            Some(provider) => {
                if !provider.enabled {
                    return Err(RouteError::ProviderNotFound);
                }
                Ok(FindSession { provider_id: self.provider_id, provider, params: self.params })
            },
            None => Err(RouteError::ProviderNotFound),
        }
    }
}

impl FindSession {
    /// What comes of the session that the cookies hold.
    pub open spec fn after(self, session_id: Option<Ulid>) -> Result<LookupSession, RouteError> {
        match session_id {
            Some(session_id) => Ok(
                LookupSession { provider: self.provider, params: self.params, session_id },
            ),
            None => Err(RouteError::MissingCookie),
        }
    }

    /// Goes on with the session that the cookies hold.
    pub fn session_id(self, session_id: Option<Ulid>) -> (r: Result<LookupSession, RouteError>)
        ensures
            r == self.after(session_id),
    {
        match session_id {
            Some(session_id) => Ok(
                LookupSession { provider: self.provider, params: self.params, session_id },
            ),
            None => Err(RouteError::MissingCookie),
        }
    }
}

/// Why a session cannot go on with the parameters that came back, if that is
/// so. What the provider says counts only once the session is the right one.
pub open spec fn session_problem(
    provider: UpstreamOAuthProvider,
    session: UpstreamOAuthSession,
    params: QueryParams,
) -> Option<RouteError> {
    if provider.id != session.provider_id {
        Some(RouteError::ProviderMismatch)
    } else if params.state@ != session.state_str@ {
        Some(RouteError::StateMismatch)
    } else if !session.pending {
        Some(RouteError::AlreadyCompleted)
    } else {
        match params.code_or_error {
            CodeOrError::Error { error, error_description, error_uri } => Some(
                RouteError::ClientError { error, error_description },
            ),
            CodeOrError::Code { code } => None,
        }
    }
}

impl LookupSession {
    /// What comes of the session that was found.
    pub open spec fn after(self, session: Option<UpstreamOAuthSession>) -> Result<
        ExchangeCode,
        RouteError,
    > {
        match session {
            None => Err(RouteError::SessionNotFound),
            Some(session) => match session_problem(self.provider, session, self.params) {
                Some(problem) => Err(problem),
                None => Ok(
                    ExchangeCode {
                        provider: self.provider,
                        session,
                        code: self.params.code_or_error->code,
                    },
                ),
            },
        }
    }

    /// Goes on with the session that was found.
    pub fn session(self, session: Option<UpstreamOAuthSession>) -> (r: Result<
        ExchangeCode,
        RouteError,
    >)
        ensures
            r == self.after(session),
    {
        let session = match session {
            Some(session) => session,
            None => return Err(RouteError::SessionNotFound),
        };
        if self.provider.id != session.provider_id {
            return Err(RouteError::ProviderMismatch);
        }
        if !(self.params.state == session.state_str) {
            return Err(RouteError::StateMismatch);
        }
        if !session.pending {
            return Err(RouteError::AlreadyCompleted);
        }
        match self.params.code_or_error {
            CodeOrError::Error { error, error_description, error_uri: _ } => Err(
                RouteError::ClientError { error, error_description },
            ),
            CodeOrError::Code { code } => Ok(
                ExchangeCode { provider: self.provider, session, code },
            ),
        }
    }
}

impl ExchangeCode {
    /// What is sent to the provider in exchange for tokens.
    pub fn request(&self) -> (request: TokenRequest)
        ensures
            request.code@ == self.code@,
            request.state@ == self.session.state_str@,
            request.nonce@ == self.session.nonce@,
            optional_str(request.code_challenge_verifier) == optional_text(
                self.session.code_challenge_verifier,
            ),
            request.callback_of == self.provider.id,
            request.issuer@ == self.provider.issuer@,
            request.client_id@ == self.provider.client_id@,
            request.signing_algorithm is Rs256,
    {
        TokenRequest {
            code: self.code.as_str(),
            state: self.session.state_str.as_str(),
            nonce: self.session.nonce.as_str(),
            code_challenge_verifier: match &self.session.code_challenge_verifier {
                Some(verifier) => Some(verifier.as_str()),
                None => None,
            },
            callback_of: self.provider.id,
            issuer: self.provider.issuer.as_str(),
            client_id: self.provider.client_id.as_str(),
            signing_algorithm: SigningAlgorithm::Rs256,
        }
    }

    /// Goes on with the tokens that the provider gave.
    pub fn tokens(self, tokens: Tokens) -> (r: Result<FindLink, RouteError>)
        ensures
            match tokens.claims {
                None => r == Err::<FindLink, _>(RouteError::MissingIDToken),
                Some(claims) => match rendered_subject(self.provider, claims.json()) {
                    Err(error) => r == Err::<FindLink, _>(RouteError::ExtractSubject(error)),
                    Ok(subject) => if subject.len() == 0 {
                        r == Err::<FindLink, _>(RouteError::EmptySubject)
                    } else {
                        &&& r matches Ok(step)
                        &&& step.provider == self.provider
                        &&& step.session == self.session
                        &&& step.subject@ == subject
                        &&& step.id_token == tokens.id_token
                    },
                },
            },
    {
        let claims = match tokens.claims {
            Some(claims) => claims,
            None => return Err(RouteError::MissingIDToken),
        };
        let template = match &self.provider.subject_template {
            Some(template) => template.as_str(),
            None => "{{ user.sub }}",
        };
        match accept_subject(extract(template, "user", &claims)) {
            Ok(subject) => Ok(
                FindLink {
                    provider: self.provider,
                    session: self.session,
                    subject,
                    id_token: tokens.id_token,
                },
            ),
            Err(error) => Err(error),
        }
    }
}

impl FindLink {
    /// What comes of the link that was found.
    pub open spec fn after(self, link: Option<UpstreamOAuthLink>) -> LinkStep {
        match link {
            Some(link) => LinkStep::Complete(
                CompleteSession { session: self.session, link, id_token: self.id_token },
            ),
            None => LinkStep::Add(
                AddLink {
                    provider: self.provider,
                    session: self.session,
                    subject: self.subject,
                    id_token: self.id_token,
                },
            ),
        }
    }

    /// Goes on with the link that was found. A subject has one link.
    pub fn link(self, link: Option<UpstreamOAuthLink>) -> (step: LinkStep)
        ensures
            step == self.after(link),
    {
        match link {
            Some(link) => LinkStep::Complete(
                CompleteSession { session: self.session, link, id_token: self.id_token },
            ),
            None => LinkStep::Add(
                AddLink {
                    provider: self.provider,
                    session: self.session,
                    subject: self.subject,
                    id_token: self.id_token,
                },
            ),
        }
    }
}

impl AddLink {
    /// What comes of the link that was stored.
    pub open spec fn after(self, link: UpstreamOAuthLink) -> CompleteSession {
        CompleteSession { session: self.session, link, id_token: self.id_token }
    }

    /// Goes on with the link that was stored.
    pub fn added(self, link: UpstreamOAuthLink) -> (step: CompleteSession)
        ensures
            step == self.after(link),
            step == (CompleteSession { session: self.session, link, id_token: self.id_token }),
    {
        CompleteSession { session: self.session, link, id_token: self.id_token }
    }
}

/// The last steps, in order.
pub open spec fn finish_plan(session_id: Ulid, link_id: Ulid) -> Seq<FinishStep> {
    seq![
        FinishStep::AddLinkToCookie { session_id, link_id },
        FinishStep::SaveCookie,
        FinishStep::Save,
        FinishStep::RedirectToLink { link_id },
    ]
}

/// What is left to do, in this order, once a session was completed with a
/// link.
pub fn finish(session: &UpstreamOAuthSession, link: &UpstreamOAuthLink) -> (steps: Vec<FinishStep>)
    ensures
        steps@ == finish_plan(session.id, link.id),
{
    let mut steps: Vec<FinishStep> = Vec::new();
    steps.push(FinishStep::AddLinkToCookie { session_id: session.id, link_id: link.id });
    steps.push(FinishStep::SaveCookie);
    steps.push(FinishStep::Save);
    steps.push(FinishStep::RedirectToLink { link_id: link.id });
    steps
}

impl LookupProvider {
    /// What comes of a visit up to the exchange of the code: the first error,
    /// or the exchange.
    pub open spec fn run(
        self,
        provider: Option<UpstreamOAuthProvider>,
        session_id: Option<Ulid>,
        session: Option<UpstreamOAuthSession>,
    ) -> Result<ExchangeCode, RouteError> {
        match self.after(provider) {
            Err(error) => Err(error),
            Ok(find) => match find.after(session_id) {
                Err(error) => Err(error),
                Ok(lookup) => lookup.after(session),
            },
        }
    }
}

/// A code is exchanged exactly when the provider is enabled, the cookies hold a
/// session, and that session is of this provider and of the state that came
/// back, and pending; the code is the one that came back.
pub proof fn code_is_exchanged_for_its_pending_session(
    start: LookupProvider,
    provider: Option<UpstreamOAuthProvider>,
    session_id: Option<Ulid>,
    session: Option<UpstreamOAuthSession>,
)
    ensures
        start.run(provider, session_id, session) is Ok <==> {
            &&& provider is Some
            &&& provider->0.enabled
            &&& session_id is Some
            &&& session is Some
            &&& session->0.provider_id == provider->0.id
            &&& session->0.state_str@ == start.params.state@
            &&& session->0.pending
            &&& start.params.code_or_error is Code
        },
        start.run(provider, session_id, session) matches Ok(step) ==> {
            &&& step.provider == provider->0
            &&& step.session == session->0
            &&& start.params.code_or_error == (CodeOrError::Code { code: step.code })
        },
{
}

/// Each refusal before the exchange has one reason.
pub proof fn refusals_have_one_reason(
    start: LookupProvider,
    provider: Option<UpstreamOAuthProvider>,
    session_id: Option<Ulid>,
    session: Option<UpstreamOAuthSession>,
)
    ensures
        ({
            let result = start.run(provider, session_id, session);
            let enabled = provider is Some && provider->0.enabled;
            let found = enabled && session_id is Some && session is Some;
            let own = found && session->0.provider_id == provider->0.id;
            let same_state = own && session->0.state_str@ == start.params.state@;
            &&& result == Err::<ExchangeCode, _>(RouteError::ProviderNotFound) <==> !enabled
            &&& result == Err::<ExchangeCode, _>(RouteError::MissingCookie) <==> enabled
                && session_id is None
            &&& result == Err::<ExchangeCode, _>(RouteError::SessionNotFound) <==> enabled
                && session_id is Some && session is None
            &&& result == Err::<ExchangeCode, _>(RouteError::ProviderMismatch) <==> found && !own
            &&& result == Err::<ExchangeCode, _>(RouteError::StateMismatch) <==> own && !same_state
            &&& result == Err::<ExchangeCode, _>(RouteError::AlreadyCompleted) <==> same_state
                && !session->0.pending
            &&& (result matches Err(error) && error is ClientError) <==> same_state
                && session->0.pending && start.params.code_or_error is Error
        }),
{
}

/// A session that was completed is never used again. A user who comes back
/// with it, to its provider and with its state, is told so.
pub proof fn session_is_used_once(
    start: LookupProvider,
    provider: Option<UpstreamOAuthProvider>,
    session_id: Option<Ulid>,
    session: Option<UpstreamOAuthSession>,
)
    requires
        session is Some,
        !session->0.pending,
    ensures
        start.run(provider, session_id, session) is Err,
        provider is Some && provider->0.enabled && session_id is Some && session->0.provider_id
            == provider->0.id && session->0.state_str@ == start.params.state@ ==> start.run(
            provider,
            session_id,
            session,
        ) == Err::<ExchangeCode, _>(RouteError::AlreadyCompleted),
{
}

/// The usual template can always be rendered.
pub proof fn usual_template_is_safe(provider: UpstreamOAuthProvider)
    requires
        provider.subject_template is None,
    ensures
        is_safe_template(subject_template(provider)),
{
    sub_template_is_safe();
}

/// The subject of a user is what the engine makes of the claims: with the
/// provider's own template where there is one, whichever field it shows, and
/// otherwise with the one that shows the `sub` claim. Nothing but the template and
/// the claims matters.
pub proof fn subject_is_what_the_template_makes(
    provider: UpstreamOAuthProvider,
    other: UpstreamOAuthProvider,
    name: Seq<char>,
    claims: Seq<char>,
)
    ensures
        provider.subject_template is None ==> rendered_subject(provider, claims) == rendered(
            "{{ user.sub }}"@,
            "user"@,
            claims,
        ),
        provider.subject_template matches Some(template) && is_safe_template(template@)
            ==> rendered_subject(provider, claims) == rendered(
            provider.subject_template->0@,
            "user"@,
            claims,
        ),
        provider.subject_template matches Some(template) && is_name(name) && name.len() <= 64_000
            && template@ == field_template(name) ==> rendered_subject(provider, claims) == rendered(
            field_template(name),
            "user"@,
            claims,
        ),
        optional_text(provider.subject_template) == optional_text(other.subject_template)
            ==> rendered_subject(provider, claims) == rendered_subject(other, claims),
{
    if provider.subject_template is None {
        usual_template_is_safe(provider);
    }
    if is_name(name) && name.len() <= 64_000 {
        field_is_rendered(name, claims);
    }
}

/// The provider that is asked for is looked up in the cookies, with the
/// parameters that came back.
pub proof fn provider_is_kept(start: LookupProvider, provider: UpstreamOAuthProvider)
    requires
        provider.enabled,
    ensures
        start.after(Some(provider)) matches Ok(find) && find.provider_id == start.provider_id
            && find.provider == provider && find.params == start.params,
{
}

/// The session that the cookies hold is the one that is looked up: two users who
/// come back to one provider with different sessions in their cookies have
/// different sessions looked up.
pub proof fn session_of_the_cookies_is_looked_up(step: FindSession, id: Ulid, other: Ulid)
    ensures
        step.after(Some(id)) matches Ok(lookup) && lookup.session_id == id && lookup.provider
            == step.provider && lookup.params == step.params,
        id != other ==> step.after(Some(id)) != step.after(Some(other)),
        step.after(None) == Err::<LookupSession, _>(RouteError::MissingCookie),
{
}

/// What the provider reported is passed on as it is, once the session is the
/// right one.
pub proof fn error_of_the_provider_is_passed_on(
    start: LookupProvider,
    provider: UpstreamOAuthProvider,
    session_id: Ulid,
    session: UpstreamOAuthSession,
)
    requires
        provider.enabled,
        session.provider_id == provider.id,
        session.state_str@ == start.params.state@,
        session.pending,
        start.params.code_or_error is Error,
    ensures
        start.run(Some(provider), Some(session_id), Some(session)) matches Err(
            RouteError::ClientError { error, error_description },
        ) && error == start.params.code_or_error->error && error_description
            == start.params.code_or_error->error_description,
{
}

/// A link that was found is used, and nothing is added. Where there is none, one
/// is added for the same subject of the same provider. Either way the session and
/// the ID token are those of the visit.
pub proof fn subject_has_one_link(step: FindLink, link: UpstreamOAuthLink)
    ensures
        step.after(Some(link)) matches LinkStep::Complete(complete) && complete.link == link
            && complete.session == step.session && complete.id_token == step.id_token,
        step.after(None) matches LinkStep::Add(add) && add.provider == step.provider && add.subject
            == step.subject && add.session == step.session && add.id_token == step.id_token,
{
}

/// A session is completed with the link of its subject, whether that was found or
/// had to be added: the outcome is the same.
pub proof fn added_link_is_used_like_a_found_one(step: FindLink, link: UpstreamOAuthLink)
    ensures
        step.after(None) matches LinkStep::Add(add) && step.after(Some(link)) == LinkStep::Complete(
            add.after(link),
        ),
        step.after(None) matches LinkStep::Add(add) && add.after(link).link == link && add.after(
            link,
        ).session == step.session && add.after(link).id_token == step.id_token,
{
}

/// A subject is accepted as it was made, unless it is empty; where none was made,
/// the reason is passed on.
pub proof fn subject_is_accepted_as_it_is(text: Result<String, minijinja::Error>)
    ensures
        accepted(text) is Ok <==> text is Ok && text->Ok_0@.len() > 0,
        accepted(text) matches Ok(subject) ==> text == Ok::<_, minijinja::Error>(subject),
        text matches Err(error) ==> accepted(text) == Err::<String, _>(
            RouteError::ExtractSubject(error),
        ),
        accepted(text) == Err::<String, _>(RouteError::EmptySubject) <==> text is Ok
            && text->Ok_0@.len() == 0,
{
}

/// In the end the link is put beside the session in the cookies, these are saved,
/// all is committed, and the user is sent to the link: each once and in this
/// order, and nothing else.
pub proof fn user_is_sent_to_the_link(session_id: Ulid, link_id: Ulid)
    ensures
        ({
            let plan = finish_plan(session_id, link_id);
            exists|cookie: int, saved: int, committed: int|
                {
                    &&& 0 <= cookie < saved < committed < plan.len() - 1
                    &&& plan.len() == 4
                    &&& #[trigger] plan[cookie] == (FinishStep::AddLinkToCookie {
                        session_id,
                        link_id,
                    })
                    &&& #[trigger] plan[saved] == FinishStep::SaveCookie
                    &&& #[trigger] plan[committed] == FinishStep::Save
                    &&& plan.last() == (FinishStep::RedirectToLink { link_id })
                }
        }),
{
    let plan = finish_plan(session_id, link_id);
    assert(plan[0] == (FinishStep::AddLinkToCookie { session_id, link_id }));
    assert(plan[1] == FinishStep::SaveCookie);
    assert(plan[2] == FinishStep::Save);
}

/// What a user is told names the reason.
pub proof fn refusal_is_told(error: RouteError)
    ensures
        error is SessionNotFound ==> error.text() == "Session not found"@,
        error is ProviderNotFound ==> error.text() == "Provider not found"@,
        error is ProviderMismatch ==> error.text() == "Provider mismatch"@,
        error is AlreadyCompleted ==> error.text() == "Session already completed"@,
        error is StateMismatch ==> error.text() == "State parameter mismatch"@,
        error is MissingIDToken ==> error.text() == "Missing ID token"@,
        error is ExtractSubject ==> error.text() == "Could not extract subject from ID token"@,
        error is EmptySubject ==> error.text() == "Subject is empty"@,
        error is MissingCookie ==> error.text() == "Missing session cookie"@,
        error matches RouteError::ClientError { error: code, error_description } ==> error.text()
            == "Error from the provider: "@ + code@,
        error matches RouteError::Internal(reason) ==> error.text() == reason@,
{
}

/// What the service does for a user who came back.
pub ghost enum Action {
    LookupProvider(Ulid),
    FindSession(Ulid, Seq<char>),
    LookupSession(Ulid),
    ExchangeCode(Seq<char>),
    FindLink(Ulid, Seq<char>),
    AddLink(Ulid, Seq<char>),
    CompleteSession(Ulid),
    Finish(FinishStep),
}

/// Whether an action can fail.
pub open spec fn can_fail(action: Action) -> bool {
    match action {
        Action::FindSession(_, _) => false,
        Action::Finish(FinishStep::SaveCookie) => false,
        Action::Finish(FinishStep::RedirectToLink { .. }) => false,
        _ => true,
    }
}

/// The actions from the link on.
pub open spec fn link_actions(
    step: FindLink,
    link: Option<UpstreamOAuthLink>,
    completed_id: Ulid,
    link_id: Ulid,
) -> Seq<Action> {
    (match step.after(link) {
        LinkStep::Add(add) => seq![Action::AddLink(add.provider.id, add.subject@)],
        LinkStep::Complete(_) => seq![],
    }) + seq![Action::CompleteSession(step.session.id)] + finish_plan(
        completed_id,
        link_id,
    ).map_values(|last: FinishStep| Action::Finish(last))
}

/// The actions for a visit, as long as none of them fails: up to the first
/// refusal, or to the end. What the exchange of the code leads to is given.
pub open spec fn visit_actions(
    start: LookupProvider,
    provider: Option<UpstreamOAuthProvider>,
    session_id: Option<Ulid>,
    session: Option<UpstreamOAuthSession>,
    subject: Result<FindLink, RouteError>,
    link: Option<UpstreamOAuthLink>,
    completed_id: Ulid,
    link_id: Ulid,
) -> Seq<Action> {
    seq![Action::LookupProvider(start.provider_id)] + match start.after(provider) {
        Err(_) => seq![],
        Ok(find) => seq![Action::FindSession(find.provider_id, find.params.state@)] + match find.after(
            session_id,
        ) {
            Err(_) => seq![],
            Ok(lookup) => seq![Action::LookupSession(lookup.session_id)] + match lookup.after(
                session,
            ) {
                Err(_) => seq![],
                Ok(exchange) => seq![Action::ExchangeCode(exchange.code@)] + match subject {
                    Err(_) => seq![],
                    Ok(step) => seq![Action::FindLink(step.provider.id, step.subject@)]
                        + link_actions(step, link, completed_id, link_id),
                },
            },
        },
    }
}

/// A visit in which all is in order looks up the provider that was asked for, the
/// session of the cookies for the state that came back, and exchanges the code
/// that came back; then it looks for the link of the subject, adds it where there
/// is none, and completes the session.
pub proof fn visit_goes_through(
    start: LookupProvider,
    provider: UpstreamOAuthProvider,
    session_id: Ulid,
    session: UpstreamOAuthSession,
    step: FindLink,
    link: Option<UpstreamOAuthLink>,
    completed_id: Ulid,
    link_id: Ulid,
)
    requires
        provider.enabled,
    ensures
        ({
            let actions = visit_actions(
                start,
                Some(provider),
                Some(session_id),
                Some(session),
                Ok(step),
                link,
                completed_id,
                link_id,
            );
            &&& actions.len() >= 3
            &&& actions[0] == Action::LookupProvider(start.provider_id)
            &&& actions[1] == Action::FindSession(start.provider_id, start.params.state@)
            &&& actions[2] == Action::LookupSession(session_id)
            &&& session.provider_id == provider.id && session.state_str@ == start.params.state@
                && session.pending && start.params.code_or_error is Code ==> {
                let added: int = if link is None {
                    1
                } else {
                    0
                };
                &&& actions.len() == 10 + added
                &&& actions[3] == Action::ExchangeCode(start.params.code_or_error->code@)
                &&& actions[4] == Action::FindLink(step.provider.id, step.subject@)
                &&& link is None ==> actions[5] == Action::AddLink(
                    step.provider.id,
                    step.subject@,
                )
                &&& actions[5 + added] == Action::CompleteSession(step.session.id)
                &&& actions.last() == Action::Finish(FinishStep::RedirectToLink { link_id })
            }
        }),
{
    let last = finish_plan(completed_id, link_id);
    assert(last.len() == 4);
    assert(last[3] == (FinishStep::RedirectToLink { link_id }));
}

/// When an action fails, nothing was committed before it, and no redirect was
/// given.
pub proof fn failed_visit_saves_nothing(
    start: LookupProvider,
    provider: Option<UpstreamOAuthProvider>,
    session_id: Option<Ulid>,
    session: Option<UpstreamOAuthSession>,
    subject: Result<FindLink, RouteError>,
    link: Option<UpstreamOAuthLink>,
    completed_id: Ulid,
    link_id: Ulid,
    failed: int,
)
    requires
        ({
            let actions = visit_actions(
                start,
                provider,
                session_id,
                session,
                subject,
                link,
                completed_id,
                link_id,
            );
            0 <= failed < actions.len() && can_fail(actions[failed])
        }),
    ensures
        ({
            let done = visit_actions(
                start,
                provider,
                session_id,
                session,
                subject,
                link,
                completed_id,
                link_id,
            ).take(failed);
            &&& !done.contains(Action::Finish(FinishStep::Save))
            &&& !done.contains(Action::Finish(FinishStep::RedirectToLink { link_id }))
        }),
{
}

/// A visit that is refused stores, commits and redirects nothing: it ends before
/// a link is added or a session is completed.
pub proof fn refused_visit_stores_nothing(
    start: LookupProvider,
    provider: Option<UpstreamOAuthProvider>,
    session_id: Option<Ulid>,
    session: Option<UpstreamOAuthSession>,
    subject: Result<FindLink, RouteError>,
    link: Option<UpstreamOAuthLink>,
    completed_id: Ulid,
    link_id: Ulid,
)
    requires
        start.run(provider, session_id, session) is Err || subject is Err,
    ensures
        ({
            let actions = visit_actions(
                start,
                provider,
                session_id,
                session,
                subject,
                link,
                completed_id,
                link_id,
            );
            forall|i: int| #![trigger actions[i]]
                0 <= i < actions.len() ==> !(actions[i] is AddLink || actions[i] is CompleteSession
                    || actions[i] is Finish)
        }),
{
}

} // verus!
