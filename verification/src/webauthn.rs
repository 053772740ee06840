//! Registration of passkeys, and signing in with them.
use vstd::prelude::*;
use webauthn_rp::response::auth::error::AuthCeremonyErr;
use webauthn_rp::response::register::error::RegCeremonyErr;

use crate::display_name::{has_mappable_spaces, spaces_are_mappable};
use crate::id::{big_endian, Ulid};
use crate::model::{
    BrowserSession, NewChallenge, NewPasskey, User, UserPasskey, UserPasskeyChallenge,
};
use crate::relying_party::{
    are_descriptors, are_states_of_a_credential, ascii_lowercase, authentication_ceremony,
    authentication_response, authentication_state_is_readable, authentication_verdict,
    check_display_name, check_username, credential_id_bytes, credential_id_json, descriptor_views,
    dynamic_state_is_readable, is_acceptable_display_name, is_acceptable_username,
    is_ascii_domain, is_authentication_state, is_credential_id, is_dynamic_state,
    is_registration_state, is_static_state, is_transports, is_without_repetition,
    parse_credential_id, parse_transports, registration_ceremony, registration_response, registration_state_is_readable,
    registration_verdict, states_fit, static_state_is_readable, transports_bits, transports_json,
    used_credential_id, used_user_handle, write_credential_id, write_transports, AllowedOrigin,
    AuthenticationResponse, CredentialDescriptor, Port, RegisteredCredential,
    RegisteredCredentialView, RegistrationResponse, RelyingParty, Scheme, StoredCredential,
};
use crate::time::{time_between_is_the_difference, Timestamp};

verus! {

/// What went wrong in a ceremony, for the user to know.
#[derive(Debug)]
pub enum WebauthnError {
    /// The response to a registration ceremony is not a valid one.
    RegistrationCeremonyError(RegCeremonyErr),
    /// The response to an authentication ceremony is not a valid one.
    AuthenticationCeremonyError(AuthCeremonyErr),
    /// The challenge is unknown, completed, expired or of another session.
    InvalidChallenge,
    /// The credential is already registered.
    Exists,
    /// The response does not say which user it is from.
    UserHandleMissing,
    /// There is no such user.
    UserNotFound,
    /// There is no such passkey.
    PasskeyNotFound,
    /// The passkey is another user's.
    UserMismatch,
}

/// What went wrong for a reason that is not the user's.
#[derive(Clone, Copy, Debug, PartialEq, Eq, Structural)]
pub enum InternalError {
    /// The public address of the service is not a URL.
    InvalidPublicBase,
    /// The public address of the service has no host.
    NoHost,
    /// The host of the service is not a domain.
    InvalidDomain,
    /// The username cannot be given to an authenticator.
    InvalidUsername,
    /// The display name cannot be given to an authenticator.
    InvalidDisplayName,
    /// A stored passkey cannot be given to an authenticator.
    InvalidDescriptor,
    /// The ceremony could not be started.
    CeremonyNotStarted,
    /// The state of the ceremony cannot be read.
    InvalidState,
    /// The response cannot be read.
    InvalidResponse,
    /// The user handle in the response is not an identifier.
    InvalidUserHandle,
    /// The stored identifier of the credential cannot be read.
    InvalidCredentialId,
    /// The stored unchanging state of the credential cannot be read.
    InvalidStaticState,
    /// The stored changing state of the credential has the wrong length.
    InvalidDynamicStateLength,
    /// The stored changing state of the credential cannot be read.
    InvalidDynamicState,
    /// The two stored states of the credential contradict each other.
    InvalidCredential,
}

/// Why a ceremony could not go on.
#[derive(Debug)]
pub enum Failure {
    Webauthn(WebauthnError),
    Internal(InternalError),
}

/// The passkey ceremonies of the service.
#[derive(Clone, Debug)]
pub struct Webauthn {
    relying_party: RelyingParty,
}

#[verifier::external_type_specification]
#[verifier::external_body]
pub struct ExUrlParseError(url::ParseError);

/// The host of a URL, where the text is a URL and where it has a host.
pub uninterp spec fn url_host(text: Seq<char>) -> Option<Option<Seq<char>>>;

/// Calls `url::Url::parse` and `host_str`. What they make of the text depends
/// on the text alone.
#[verifier::external_body]
fn host_of_url(text: &str) -> (r: Result<Option<String>, url::ParseError>)
    ensures
        match r {
            Ok(Some(host)) => url_host(text@) == Some(Some(host@)),
            Ok(None) => url_host(text@) == Some(None::<Seq<char>>),
            Err(_) => url_host(text@) is None,
        },
{
    Ok(url::Url::parse(text)?.host_str().map(str::to_owned))
}

/// The problem with a host as the domain of the service, if there is one.
pub open spec fn host_problem(host: Option<Seq<char>>) -> Option<InternalError> {
    match host {
        None => Some(InternalError::NoHost),
        Some(host) => if is_ascii_domain(host) {
            None
        } else {
            Some(InternalError::InvalidDomain)
        },
    }
}

impl Webauthn {
    /// The domain of the service.
    pub closed spec fn domain(self) -> Seq<char> {
        self.relying_party.text()
    }

    /// The ceremonies of a service with a public address.
    pub fn new(public_base: &str) -> (r: Result<Webauthn, InternalError>)
        ensures
            match url_host(public_base@) {
                None => r == Err::<Webauthn, _>(InternalError::InvalidPublicBase),
                Some(host) => match host_problem(host) {
                    Some(problem) => r == Err::<Webauthn, _>(problem),
                    None => r is Ok && r->Ok_0.domain() == host->0.map_values(
                        |c: char| ascii_lowercase(c),
                    ),
                },
            },
    {
        match host_of_url(public_base) {
            Ok(host) => Webauthn::for_host(host),
            Err(_) => Err(InternalError::InvalidPublicBase),
        }
    }

    /// The ceremonies of a service on a host, if there is one and it is a
    /// domain.
    pub fn for_host(host: Option<String>) -> (r: Result<Webauthn, InternalError>)
        ensures
            ({
                let text = match host {
                    Some(host) => Some(host@),
                    None => None,
                };
                match host_problem(text) {
                    Some(problem) => r == Err::<Webauthn, _>(problem),
                    None => r is Ok && r->Ok_0.domain() == text->0.map_values(
                        |c: char| ascii_lowercase(c),
                    ),
                }
            }),
    {
        match host {
            None => Err(InternalError::NoHost),
            Some(host) => match RelyingParty::new(host) {
                Ok(relying_party) => Ok(Webauthn { relying_party }),
                Err(_) => Err(InternalError::InvalidDomain),
            },
        }
    }

    /// Where the browser may have been when it took part in a ceremony: on
    /// the domain of the service over HTTPS and without a port, or anywhere
    /// on the local host when the service is there.
    pub fn get_allowed_origin(&self) -> (origin: AllowedOrigin)
        ensures
            origin.host@ == self.domain(),
            origin.scheme == allowed_scheme(self.domain()),
            origin.port == allowed_port(self.domain()),
    {
        let host = self.relying_party.domain();
        if host.to_owned() == "localhost".to_owned() {
            AllowedOrigin { scheme: Scheme::Any, host, port: Port::Any }
        } else {
            AllowedOrigin { scheme: Scheme::Https, host, port: Port::Absent }
        }
    }
}

/// The scheme that is demanded of the browser.
pub open spec fn allowed_scheme(domain: Seq<char>) -> Scheme {
    if domain == "localhost"@ {
        Scheme::Any
    } else {
        Scheme::Https
    }
}

/// The port that is demanded of the browser.
pub open spec fn allowed_port(domain: Seq<char>) -> Port {
    if domain == "localhost"@ {
        Port::Any
    } else {
        Port::Absent
    }
}

/// One hour, in nanoseconds.
pub open spec fn challenge_lifetime() -> int {
    3_600_000_000_000
}

/// The identifier of a session, if there is one.
pub open spec fn session_id(session: Option<&BrowserSession>) -> Option<Ulid> {
    match session {
        Some(session) => Some(session.id),
        None => None,
    }
}

/// Whether a challenge can be answered now: from the session that it was made
/// in, or from outside of any session if it was made there, once, and within
/// an hour.
pub open spec fn is_open_challenge(
    challenge: UserPasskeyChallenge,
    session: Option<Ulid>,
    now: Timestamp,
) -> bool {
    &&& challenge.user_session_id == session
    &&& challenge.completed_at is None
    &&& now.nanoseconds_since(challenge.created_at) <= challenge_lifetime()
}

impl Webauthn {
    /// Checks a challenge that was looked up for a response.
    pub fn lookup_challenge(
        &self,
        challenge: Option<UserPasskeyChallenge>,
        now: Timestamp,
        browser_session: Option<&BrowserSession>,
    ) -> (r: Result<UserPasskeyChallenge, WebauthnError>)
        ensures
            r is Ok <==> challenge is Some && is_open_challenge(
                challenge->0,
                session_id(browser_session),
                now,
            ),
            r matches Ok(found) ==> challenge == Some(found),
            r matches Err(error) ==> error is InvalidChallenge,
    {
        let challenge = match challenge {
            Some(challenge) => challenge,
            None => return Err(WebauthnError::InvalidChallenge),
        };
        let session: Option<Ulid> = match browser_session {
            Some(session) => Some(session.id),
            None => None,
        };
        let same_session = match (challenge.user_session_id, session) {
            (Some(made_in), Some(asked_from)) => made_in == asked_from,
            (None, None) => true,
            _ => false,
        };
        if !same_session {
            return Err(WebauthnError::InvalidChallenge);
        }
        if challenge.completed_at.is_some() {
            return Err(WebauthnError::InvalidChallenge);
        }
        if now.is_later_by_more_than_hours(&challenge.created_at, 1) {
            return Err(WebauthnError::InvalidChallenge);
        }
        Ok(challenge)
    }
}

/// What an authenticator is told when it is asked to register a passkey.
#[derive(Debug)]
pub struct RegistrationRequest {
    pub user_id: [u8; 16],
    pub username: String,
    pub display_name: String,
    /// The passkeys that the user already has.
    pub exclude: Vec<CredentialDescriptor>,
}

/// The name to show for a user: their display name, or else their username.
pub open spec fn shown_name(username: Seq<char>, displayname: Option<String>) -> Seq<char> {
    match displayname {
        Some(name) => name@,
        None => username,
    }
}

/// Whether an authenticator can be told about a stored passkey.
pub open spec fn has_descriptor(passkey: UserPasskey) -> bool {
    &&& credential_id_bytes(passkey.credential_id@) is Some
    &&& transports_bits(passkey.transports@) is Some
}

/// What an authenticator is told about a stored passkey.
pub open spec fn descriptor_of(passkey: UserPasskey) -> (Seq<u8>, u8) {
    (credential_id_bytes(passkey.credential_id@)->0, transports_bits(passkey.transports@)->0)
}

/// What an authenticator is told about stored passkeys.
pub open spec fn descriptors_of(passkeys: Seq<UserPasskey>) -> Seq<(Seq<u8>, u8)> {
    passkeys.map_values(|passkey: UserPasskey| descriptor_of(passkey))
}

/// No two stored passkeys are of one credential.
pub open spec fn are_of_different_credentials(passkeys: Seq<UserPasskey>) -> bool {
    forall|i: int, j: int|
        0 <= i < j < passkeys.len() ==> credential_id_bytes(
            (#[trigger] passkeys[i]).credential_id@,
        ) != credential_id_bytes((#[trigger] passkeys[j]).credential_id@)
}

/// The reason why a passkey cannot be registered for a user, if there is one.
pub open spec fn request_problem(
    user: User,
    displayname: Option<String>,
    passkeys: Seq<UserPasskey>,
) -> Option<InternalError> {
    if !is_acceptable_username(user.username@) {
        Some(InternalError::InvalidUsername)
    } else if !has_mappable_spaces(shown_name(user.username@, displayname)) {
        Some(InternalError::InvalidDisplayName)
    } else if !is_acceptable_display_name(shown_name(user.username@, displayname)) {
        Some(InternalError::InvalidDisplayName)
    } else if exists|i: int| 0 <= i < passkeys.len() && !has_descriptor(#[trigger] passkeys[i]) {
        Some(InternalError::InvalidDescriptor)
    } else {
        None
    }
}

/// What an authenticator is told about the passkeys that a user has.
fn descriptors(passkeys: &Vec<UserPasskey>) -> (r: Option<Vec<CredentialDescriptor>>)
    ensures
        r is Some <==> forall|i: int|
            0 <= i < passkeys@.len() ==> has_descriptor(#[trigger] passkeys@[i]),
        r matches Some(list) ==> {
            &&& are_descriptors(list@)
            &&& descriptor_views(list@) == descriptors_of(passkeys@)
        },
{
    let mut list: Vec<CredentialDescriptor> = Vec::new();
    let mut i: usize = 0;
    while i < passkeys.len()
        invariant
            i <= passkeys.len(),
            list.len() == i,
            are_descriptors(list@),
            forall|k: int| 0 <= k < i ==> has_descriptor(#[trigger] passkeys@[k]),
            forall|k: int|
                0 <= k < i ==> ((#[trigger] list@[k]).id@, list@[k].transports) == descriptor_of(
                    passkeys@[k],
                ),
        decreases passkeys.len() - i,
    {
        let passkey = &passkeys[i];
        let id = match parse_credential_id(passkey.credential_id.as_str()) {
            Ok(id) => id,
            Err(_) => {
                assert(!has_descriptor(passkeys@[i as int]));
                return None;
            },
        };
        let transports: u8 = match parse_transports(passkey.transports.as_str()) {
            Ok(transports) => transports,
            Err(_) => {
                assert(!has_descriptor(passkeys@[i as int]));
                return None;
            },
        };
        list.push(CredentialDescriptor { id, transports });
        i = i + 1;
    }
    assert(descriptor_views(list@) =~= descriptors_of(passkeys@));
    Some(list)
}

/// What an authenticator is told when it is asked to register a passkey for a
/// user who has the given display name and passkeys.
pub fn registration_request(
    user: &User,
    displayname: Option<String>,
    passkeys: &Vec<UserPasskey>,
) -> (r: Result<RegistrationRequest, InternalError>)
    ensures
        match request_problem(*user, displayname, passkeys@) {
            Some(problem) => r == Err::<RegistrationRequest, _>(problem),
            None => r is Ok,
        },
        r matches Ok(request) ==> {
            &&& big_endian(request.user_id@) == user.id.0
            &&& request.username@ == user.username@
            &&& request.display_name@ == shown_name(user.username@, displayname)
            &&& has_mappable_spaces(request.display_name@)
            &&& are_descriptors(request.exclude@)
            &&& descriptor_views(request.exclude@) == descriptors_of(passkeys@)
        },
{
    let display_name = match displayname {
        Some(name) => name,
        None => user.username.clone(),
    };
    if check_username(user.username.as_str()).is_err() {
        return Err(InternalError::InvalidUsername);
    }
    if !spaces_are_mappable(display_name.as_str()) {
        return Err(InternalError::InvalidDisplayName);
    }
    if check_display_name(display_name.as_str()).is_err() {
        return Err(InternalError::InvalidDisplayName);
    }
    match descriptors(passkeys) {
        Some(exclude) => Ok(
            RegistrationRequest {
                user_id: user.id.to_bytes(),
                username: user.username.clone(),
                display_name,
                exclude,
            },
        ),
        None => Err(InternalError::InvalidDescriptor),
    }
}

/// A ceremony that was started.
#[derive(Debug)]
pub struct Started {
    /// The options for the browser, in JSON.
    pub options: String,
    /// The challenge to store until the response comes.
    pub challenge: NewChallenge,
}

/// The state and the options of a ceremony, if it was started.
pub open spec fn started_view(r: Result<Started, InternalError>) -> Option<(Seq<u8>, Seq<char>)> {
    match r {
        Ok(started) => Some((started.challenge.state@, started.options@)),
        Err(_) => None,
    }
}

impl Webauthn {
    /// Starts the registration of a passkey, in a browser session of a user
    /// who has the given display name and passkeys.
    pub fn start_passkey_registration(
        &self,
        user: &User,
        displayname: Option<String>,
        passkeys: &Vec<UserPasskey>,
        browser_session: &BrowserSession,
    ) -> (r: Result<Started, InternalError>)
        ensures
            match request_problem(*user, displayname, passkeys@) {
                Some(problem) => r == Err::<Started, _>(problem),
                None => {
                    &&& r is Ok || r == Err::<Started, _>(InternalError::CeremonyNotStarted)
                    &&& exists|
                        user_id: Seq<u8>,
                        exclude: Seq<(Seq<u8>, u8)>,
                        challenge: u128,
                        now: int,
                    |
                        {
                            &&& user_id.len() == 16
                            &&& big_endian(user_id) == user.id.0
                            &&& is_without_repetition(exclude, descriptors_of(passkeys@))
                            &&& are_of_different_credentials(passkeys@) ==> exclude
                                == descriptors_of(passkeys@)
                            &&& #[trigger] registration_ceremony(
                                self.domain(),
                                user_id,
                                user.username@,
                                shown_name(user.username@, displayname),
                                exclude,
                                challenge,
                                now,
                            ) == started_view(r)
                        }
                },
            },
            r matches Ok(started) ==> {
                &&& started.challenge.user_session_id == Some(browser_session.id)
                &&& is_registration_state(started.challenge.state@)
            },
    {
        let request = match registration_request(user, displayname, passkeys) {
            Ok(request) => request,
            Err(problem) => return Err(problem),
        };
        proof {
            if are_of_different_credentials(passkeys@) {
                let views = descriptor_views(request.exclude@);
                assert(views.len() == passkeys@.len());
                assert forall|i: int, j: int| 0 <= i < j < request.exclude@.len() implies (
                #[trigger] request.exclude@[i]).id@ != (#[trigger] request.exclude@[j]).id@ by {
                    assert(views[i] == descriptor_of(passkeys@[i]));
                    assert(views[j] == descriptor_of(passkeys@[j]));
                    assert(has_descriptor(passkeys@[i]) && has_descriptor(passkeys@[j]));
                }
            }
        }
        match self.relying_party.begin_registration(
            request.user_id,
            request.username.as_str(),
            request.display_name.as_str(),
            &request.exclude,
        ) {
            Ok(ceremony) => {
                assert(self.domain() == self.relying_party.text());
                let user_session_id = Some(browser_session.id);
                let challenge = NewChallenge { user_session_id, state: ceremony.state };
                Ok(Started { options: ceremony.options, challenge })
            },
            Err(_) => Err(InternalError::CeremonyNotStarted),
        }
    }

    /// Starts an authentication with a passkey, outside of any browser
    /// session.
    pub fn start_passkey_authentication(&self) -> (r: Result<Started, InternalError>)
        ensures
            r is Ok || r == Err::<Started, _>(InternalError::CeremonyNotStarted),
            exists|challenge: u128, now: int|
                #[trigger] authentication_ceremony(self.domain(), challenge, now) == started_view(
                    r,
                ),
            r matches Ok(started) ==> {
                &&& started.challenge.user_session_id is None
                &&& is_authentication_state(started.challenge.state@)
            },
    {
        match self.relying_party.begin_authentication() {
            Ok(ceremony) => {
                assert(self.domain() == self.relying_party.text());
                let challenge = NewChallenge { user_session_id: None, state: ceremony.state };
                Ok(Started { options: ceremony.options, challenge })
            },
            Err(_) => Err(InternalError::CeremonyNotStarted),
        }
    }
}

/// Whether a passkey that is yet to be stored is that of a credential, under
/// a name, for a user.
pub open spec fn is_passkey_of(
    passkey: NewPasskey,
    credential: RegisteredCredentialView,
    user_id: Ulid,
    name: Seq<char>,
) -> bool {
    &&& passkey.user_id == user_id
    &&& passkey.name@ == name
    &&& passkey.credential_id@ == credential_id_json(credential.id)
    &&& passkey.transports@ == transports_json(credential.transports)
    &&& passkey.static_state@ == credential.static_state
    &&& passkey.dynamic_state@ == credential.dynamic_state
    &&& passkey.metadata@ == credential.metadata
}

/// The problem with the credential that is stored in these parts, if there is
/// one.
pub open spec fn credential_problem(
    credential_id: Seq<char>,
    static_state: Seq<u8>,
    dynamic_state: Seq<u8>,
) -> Option<InternalError> {
    if credential_id_bytes(credential_id) is None {
        Some(InternalError::InvalidCredentialId)
    } else if !is_static_state(static_state) {
        Some(InternalError::InvalidStaticState)
    } else if dynamic_state.len() != 7 {
        Some(InternalError::InvalidDynamicStateLength)
    } else if !is_dynamic_state(dynamic_state) {
        Some(InternalError::InvalidDynamicState)
    } else if !are_states_of_a_credential(static_state, dynamic_state) {
        Some(InternalError::InvalidCredential)
    } else {
        None
    }
}

/// The problem with a stored passkey, if there is one.
pub open spec fn passkey_problem(passkey: UserPasskey) -> Option<InternalError> {
    credential_problem(
        passkey.credential_id@,
        passkey.static_state@,
        passkey.dynamic_state@,
    )
}

/// What to store of a credential that a user registered under a name.
pub fn new_passkey(user: &User, name: String, credential: RegisteredCredential) -> (passkey:
    NewPasskey)
    requires
        is_credential_id(credential.id@),
        is_transports(credential.transports),
    ensures
        is_passkey_of(passkey, credential@, user.id, name@),
        credential_id_bytes(passkey.credential_id@) == Some(credential.id@),
        transports_bits(passkey.transports@) == Some(credential.transports),
{
    NewPasskey {
        user_id: user.id,
        name,
        credential_id: write_credential_id(credential.id),
        transports: write_transports(credential.transports),
        static_state: credential.static_state,
        dynamic_state: credential.dynamic_state,
        metadata: credential.metadata,
    }
}

/// A credential was registered; is there already a passkey with its
/// identifier?
#[derive(Debug)]
pub struct FindPasskey {
    pub passkey: NewPasskey,
    pub challenge: UserPasskeyChallenge,
}

/// The passkey is to be stored, and the challenge completed after that.
#[derive(Debug)]
pub struct AddPasskey {
    pub passkey: NewPasskey,
    pub challenge: UserPasskeyChallenge,
}

impl FindPasskey {
    /// What comes of the passkey that was found.
    pub open spec fn after(self, existing: Option<UserPasskey>) -> Result<
        AddPasskey,
        WebauthnError,
    > {
        if existing is Some {
            Err(WebauthnError::Exists)
        } else {
            Ok(AddPasskey { passkey: self.passkey, challenge: self.challenge })
        }
    }

    /// Goes on with the passkey that was found. Credential identifiers are
    /// unique across all users.
    pub fn found(self, existing: Option<UserPasskey>) -> (r: Result<AddPasskey, WebauthnError>)
        ensures
            match existing {
                Some(_) => r matches Err(error) && error is Exists,
                None => r == Ok::<_, WebauthnError>(
                    (AddPasskey { passkey: self.passkey, challenge: self.challenge }),
                ),
            },
            r == self.after(existing),
    {
        match existing {
            Some(_) => Err(WebauthnError::Exists),
            None => Ok(AddPasskey { passkey: self.passkey, challenge: self.challenge }),
        }
    }
}

impl Webauthn {
    /// Verifies the response to a registration challenge of a user, who calls
    /// the new passkey by a name. The client data is read in the relaxed way.
    pub fn finish_passkey_registration(
        &self,
        user: &User,
        challenge: UserPasskeyChallenge,
        response: String,
        name: String,
    ) -> (r: Result<FindPasskey, Failure>)
        ensures
            !is_registration_state(challenge.state@) ==> r == Err::<FindPasskey, _>(
                Failure::Internal(InternalError::InvalidState),
            ),
            is_registration_state(challenge.state@) && registration_response(response@) is None
                ==> r == Err::<FindPasskey, _>(Failure::Internal(InternalError::InvalidResponse)),
            is_registration_state(challenge.state@) && registration_response(response@) is Some
                ==> exists|user_id: Seq<u8>, now: int|
                {
                    &&& user_id.len() == 16
                    &&& big_endian(user_id) == user.id.0
                    &&& match #[trigger] registration_verdict(
                        self.domain(),
                        allowed_scheme(self.domain()),
                        self.domain(),
                        allowed_port(self.domain()),
                        true,
                        challenge.state@,
                        user_id,
                        response@,
                        now,
                    ) {
                        Ok(credential) => {
                            &&& r matches Ok(step)
                            &&& is_passkey_of(step.passkey, credential, user.id, name@)
                            &&& credential_id_bytes(step.passkey.credential_id@) == Some(
                                credential.id,
                            )
                            &&& transports_bits(step.passkey.transports@) == Some(
                                credential.transports,
                            )
                            &&& step.challenge == challenge
                        },
                        Err(error) => r == Err::<FindPasskey, _>(
                            Failure::Webauthn(WebauthnError::RegistrationCeremonyError(error)),
                        ),
                    }
                },
            r matches Ok(step) ==> credential_problem(
                step.passkey.credential_id@,
                step.passkey.static_state@,
                step.passkey.dynamic_state@,
            ) is None,
    {
        if !registration_state_is_readable(&challenge.state) {
            return Err(Failure::Internal(InternalError::InvalidState));
        }
        let response = match RegistrationResponse::parse(response) {
            Ok(response) => response,
            Err(_) => return Err(Failure::Internal(InternalError::InvalidResponse)),
        };
        let user_id = user.id.to_bytes();
        let verdict = self.relying_party.verify_registration(
            self.get_allowed_origin(),
            true,
            &challenge.state,
            user_id,
            &response,
        );
        assert(self.domain() == self.relying_party.text());
        assert(user_id@.len() == 16);
        match verdict {
            Ok(credential) => Ok(
                FindPasskey { passkey: new_passkey(user, name, credential), challenge },
            ),
            Err(error) => Err(Failure::Webauthn(WebauthnError::RegistrationCeremonyError(error))),
        }
    }
}

/// Sixteen bytes as an array.
fn sixteen_bytes(bytes: &Vec<u8>) -> (array: [u8; 16])
    requires
        bytes@.len() == 16,
    ensures
        array@ == bytes@,
{
    let b = bytes;
    let array = [
        b[0], b[1], b[2], b[3], b[4], b[5], b[6], b[7], b[8], b[9], b[10], b[11], b[12], b[13],
        b[14], b[15],
    ];
    assert(array@ =~= bytes@);
    array
}

/// Seven bytes as an array.
fn seven_bytes(bytes: &Vec<u8>) -> (array: [u8; 7])
    requires
        bytes@.len() == 7,
    ensures
        array@ == bytes@,
{
    let b = bytes;
    let array = [b[0], b[1], b[2], b[3], b[4], b[5], b[6]];
    assert(array@ =~= bytes@);
    array
}

/// Why no user can be looked up by a user handle, if that is so.
pub open spec fn handle_problem(handle: Option<Seq<u8>>) -> Option<Failure> {
    match handle {
        None => Some(Failure::Webauthn(WebauthnError::UserHandleMissing)),
        Some(bytes) => if bytes.len() != 16 {
            Some(Failure::Internal(InternalError::InvalidUserHandle))
        } else {
            None
        },
    }
}

/// The identifier of the user that a user handle stands for.
pub fn user_of_handle(handle: Option<Vec<u8>>) -> (r: Result<Ulid, Failure>)
    ensures
        ({
            let bytes = match handle {
                Some(bytes) => Some(bytes@),
                None => None,
            };
            match handle_problem(bytes) {
                Some(problem) => r == Err::<Ulid, _>(problem),
                None => r matches Ok(id) && id.0 == big_endian(bytes->0),
            }
        }),
{
    match handle {
        None => Err(Failure::Webauthn(WebauthnError::UserHandleMissing)),
        Some(bytes) => {
            if bytes.len() != 16 {
                return Err(Failure::Internal(InternalError::InvalidUserHandle));
            }
            Ok(Ulid::from_bytes(sixteen_bytes(&bytes)))
        },
    }
}

/// A response names a user and a credential; who is the user?
#[derive(Debug)]
pub struct LookupUser {
    pub response: AuthenticationResponse,
    pub user_id: Ulid,
    /// The identifier of the credential, a JSON string in base64url.
    pub credential_id: String,
}

/// The user is known; which of their passkeys is it?
#[derive(Debug)]
pub struct FindCredential {
    pub response: AuthenticationResponse,
    pub user: User,
    /// The identifier of the credential, a JSON string in base64url.
    pub credential_id: String,
}

/// A response, and the user and the passkey that it names.
#[derive(Debug)]
pub struct Discovered {
    pub response: AuthenticationResponse,
    pub user: User,
    pub passkey: UserPasskey,
}

impl LookupUser {
    /// What comes of the user that was found.
    pub open spec fn after(self, user: Option<User>) -> Result<FindCredential, WebauthnError> {
        if user is None {
            Err(WebauthnError::UserNotFound)
        } else {
            Ok(
                FindCredential {
                    response: self.response,
                    user: user->0,
                    credential_id: self.credential_id,
                },
            )
        }
    }

    /// Goes on with the user that was found.
    pub fn user(self, user: Option<User>) -> (r: Result<FindCredential, WebauthnError>)
        ensures
            match user {
                Some(user) => r == Ok::<_, WebauthnError>(
                    (FindCredential {
                        response: self.response,
                        user,
                        credential_id: self.credential_id,
                    }),
                ),
                None => r matches Err(error) && error is UserNotFound,
            },
            r == self.after(user),
    {
        match user {
            Some(user) => Ok(
                FindCredential { response: self.response, user, credential_id: self.credential_id },
            ),
            None => Err(WebauthnError::UserNotFound),
        }
    }
}

impl FindCredential {
    /// What comes of the passkey that was found.
    pub open spec fn after(self, passkey: Option<UserPasskey>) -> Result<
        Discovered,
        WebauthnError,
    > {
        if passkey is None {
            Err(WebauthnError::PasskeyNotFound)
        } else if passkey->0.user_id != self.user.id {
            Err(WebauthnError::UserMismatch)
        } else {
            Ok(Discovered { response: self.response, user: self.user, passkey: passkey->0 })
        }
    }

    /// Goes on with the passkey that was found. It has to be the user's.
    pub fn passkey(self, passkey: Option<UserPasskey>) -> (r: Result<Discovered, WebauthnError>)
        ensures
            match passkey {
                None => r matches Err(error) && error is PasskeyNotFound,
                Some(passkey) => if passkey.user_id != self.user.id {
                    r matches Err(error) && error is UserMismatch
                } else {
                    r == Ok::<_, WebauthnError>(
                        (Discovered { response: self.response, user: self.user, passkey }),
                    )
                },
            },
            r == self.after(passkey),
    {
        match passkey {
            None => Err(WebauthnError::PasskeyNotFound),
            Some(passkey) => {
                if passkey.user_id != self.user.id {
                    return Err(WebauthnError::UserMismatch);
                }
                Ok(Discovered { response: self.response, user: self.user, passkey })
            },
        }
    }
}

impl Webauthn {
    /// Reads the response to an authentication challenge, and says which user
    /// and which credential it names.
    pub fn discover_credential(&self, response: String) -> (r: Result<LookupUser, Failure>)
        ensures
            match authentication_response(response@) {
                None => r == Err::<LookupUser, _>(
                    Failure::Internal(InternalError::InvalidResponse),
                ),
                Some(_) => match handle_problem(used_user_handle(response@)) {
                    Some(problem) => r == Err::<LookupUser, _>(problem),
                    None => {
                        &&& r matches Ok(step)
                        &&& step.response.json() == response@
                        &&& step.user_id.0 == big_endian(used_user_handle(response@)->0)
                        &&& step.credential_id@ == credential_id_json(
                            used_credential_id(response@),
                        )
                    },
                },
            },
    {
        let response = match AuthenticationResponse::parse(response) {
            Ok(response) => response,
            Err(_) => return Err(Failure::Internal(InternalError::InvalidResponse)),
        };
        let credential_id = write_credential_id(response.credential_id());
        match user_of_handle(response.user_handle()) {
            Ok(user_id) => Ok(LookupUser { response, user_id, credential_id }),
            Err(problem) => Err(problem),
        }
    }
}

/// A stored passkey in the form in which an authentication is checked against
/// it.
fn stored_credential(passkey: &UserPasskey) -> (r: Result<StoredCredential, InternalError>)
    ensures
        match passkey_problem(*passkey) {
            Some(problem) => r == Err::<StoredCredential, _>(problem),
            None => r is Ok,
        },
        r matches Ok(stored) ==> {
            &&& stored.id@ == passkey.credential_id@
            &&& big_endian(stored.user_id@) == passkey.user_id.0
            &&& stored.static_state@ == passkey.static_state@
            &&& stored.dynamic_state@ == passkey.dynamic_state@
        },
{
    let id = passkey.credential_id.as_str();
    if parse_credential_id(id).is_err() {
        return Err(InternalError::InvalidCredentialId);
    }
    if !static_state_is_readable(&passkey.static_state) {
        return Err(InternalError::InvalidStaticState);
    }
    if passkey.dynamic_state.len() != 7 {
        return Err(InternalError::InvalidDynamicStateLength);
    }
    let dynamic_state = seven_bytes(&passkey.dynamic_state);
    if !dynamic_state_is_readable(dynamic_state) {
        return Err(InternalError::InvalidDynamicState);
    }
    let user_id = passkey.user_id.to_bytes();
    let static_state = &passkey.static_state;
    let stored = StoredCredential { id, user_id, static_state, dynamic_state };
    if states_fit(&stored) {
        Ok(stored)
    } else {
        Err(InternalError::InvalidCredential)
    }
}

/// A passkey was used; its changed state is to be stored.
#[derive(Debug)]
pub struct UpdatePasskey {
    pub passkey: UserPasskey,
    /// The changed state.
    pub dynamic_state: Vec<u8>,
    pub challenge: UserPasskeyChallenge,
}

/// What is left to do once the changed state of a passkey is stored.
#[derive(Debug)]
pub enum AfterUpdate {
    /// The challenge is to be completed, and then all is done.
    CompleteChallenge(UserPasskeyChallenge),
    /// All is done.
    Done,
}

/// What is left to do about a challenge.
pub open spec fn completion_of(challenge: UserPasskeyChallenge) -> AfterUpdate {
    if challenge.completed_at is Some {
        AfterUpdate::Done
    } else {
        AfterUpdate::CompleteChallenge(challenge)
    }
}

/// What is left to do once the changed state of a passkey is stored: a
/// challenge is completed once.
pub fn after_update(challenge: UserPasskeyChallenge) -> (next: AfterUpdate)
    ensures
        next == if challenge.completed_at is None {
            AfterUpdate::CompleteChallenge(challenge)
        } else {
            AfterUpdate::Done
        },
        next == completion_of(challenge),
{
    if challenge.completed_at.is_none() {
        AfterUpdate::CompleteChallenge(challenge)
    } else {
        AfterUpdate::Done
    }
}

impl Webauthn {
    /// Verifies the response to an authentication challenge, for the passkey
    /// that it names. The client data is read in the relaxed way.
    pub fn finish_passkey_authentication(
        &self,
        challenge: UserPasskeyChallenge,
        response: AuthenticationResponse,
        passkey: UserPasskey,
    ) -> (r: Result<UpdatePasskey, Failure>)
        ensures
            !is_authentication_state(challenge.state@) ==> r == Err::<UpdatePasskey, _>(
                Failure::Internal(InternalError::InvalidState),
            ),
            is_authentication_state(challenge.state@) ==> match passkey_problem(passkey) {
                Some(problem) => r == Err::<UpdatePasskey, _>(Failure::Internal(problem)),
                None => exists|user_id: Seq<u8>, now: int|
                    {
                        &&& user_id.len() == 16
                        &&& big_endian(user_id) == passkey.user_id.0
                        &&& match #[trigger] authentication_verdict(
                            self.domain(),
                            allowed_scheme(self.domain()),
                            self.domain(),
                            allowed_port(self.domain()),
                            true,
                            challenge.state@,
                            response.json(),
                            passkey.credential_id@,
                            user_id,
                            passkey.static_state@,
                            passkey.dynamic_state@,
                            now,
                        ) {
                            Ok(dynamic_state) => {
                                &&& r matches Ok(step)
                                &&& step.passkey == passkey
                                &&& step.dynamic_state@ == dynamic_state
                                &&& step.challenge == challenge
                            },
                            Err(error) => r == Err::<UpdatePasskey, _>(
                                Failure::Webauthn(
                                    WebauthnError::AuthenticationCeremonyError(error),
                                ),
                            ),
                        }
                    },
            },
            r matches Ok(step) ==> credential_problem(
                step.passkey.credential_id@,
                step.passkey.static_state@,
                step.dynamic_state@,
            ) is None,
    {
        if !authentication_state_is_readable(&challenge.state) {
            return Err(Failure::Internal(InternalError::InvalidState));
        }
        let verdict = match stored_credential(&passkey) {
            Ok(stored) => {
                assert(stored.user_id@.len() == 16);
                self.relying_party.verify_authentication(
                    self.get_allowed_origin(),
                    true,
                    &challenge.state,
                    &response,
                    &stored,
                )
            },
            Err(problem) => return Err(Failure::Internal(problem)),
        };
        assert(self.domain() == self.relying_party.text());
        match verdict {
            Ok(dynamic_state) => Ok(UpdatePasskey { passkey, dynamic_state, challenge }),
            Err(error) => Err(Failure::Webauthn(WebauthnError::AuthenticationCeremonyError(error))),
        }
    }
}

impl WebauthnError {
    /// What the user is told, unless it is what a ceremony reports.
    pub open spec fn text(self) -> Option<Seq<char>> {
        match self {
            WebauthnError::RegistrationCeremonyError(_) => None,
            WebauthnError::AuthenticationCeremonyError(_) => None,
            WebauthnError::InvalidChallenge => Some(
                "The challenge doesn't exist, expired or doesn't belong for this session"@,
            ),
            WebauthnError::Exists => Some("Credential already exists"@),
            WebauthnError::UserHandleMissing => Some(
                "Authenticator did not include the userHandle in the response"@,
            ),
            WebauthnError::UserNotFound => Some(
                "Failed to find a user based on the userHandle"@,
            ),
            WebauthnError::PasskeyNotFound => Some(
                "Failed to find a passkey based on the credential_id"@,
            ),
            WebauthnError::UserMismatch => Some("The passkey belongs to a different user"@),
        }
    }

    /// What the user is told, unless it is what a ceremony reports.
    pub fn message(&self) -> (message: Option<&'static str>)
        ensures
            match message {
                Some(message) => self.text() == Some(message@),
                None => self.text() is None,
            },
    {
        match self {
            WebauthnError::RegistrationCeremonyError(_) => None,
            WebauthnError::AuthenticationCeremonyError(_) => None,
            WebauthnError::InvalidChallenge => Some(
                "The challenge doesn't exist, expired or doesn't belong for this session",
            ),
            WebauthnError::Exists => Some("Credential already exists"),
            WebauthnError::UserHandleMissing => Some(
                "Authenticator did not include the userHandle in the response",
            ),
            WebauthnError::UserNotFound => Some("Failed to find a user based on the userHandle"),
            WebauthnError::PasskeyNotFound => Some(
                "Failed to find a passkey based on the credential_id",
            ),
            WebauthnError::UserMismatch => Some("The passkey belongs to a different user"),
        }
    }
}

impl InternalError {
    /// What is logged.
    pub open spec fn text(self) -> Seq<char> {
        match self {
            InternalError::InvalidPublicBase => "Public base is not a URL"@,
            InternalError::NoHost => "Public base doesn't have a host"@,
            InternalError::InvalidDomain => "Public base's host is not a domain"@,
            InternalError::InvalidUsername => "Username cannot be given to an authenticator"@,
            InternalError::InvalidDisplayName => "Display name cannot be given to an authenticator"@,
            InternalError::InvalidDescriptor => "Failed to parse a stored passkey"@,
            InternalError::CeremonyNotStarted => "Failed to start the ceremony"@,
            InternalError::InvalidState => "Failed to parse challenge state"@,
            InternalError::InvalidResponse => "Failed to parse response"@,
            InternalError::InvalidUserHandle => "Failed to parse user handle"@,
            InternalError::InvalidCredentialId => "Failed to parse credential ID"@,
            InternalError::InvalidStaticState => "Failed to parse static state"@,
            InternalError::InvalidDynamicStateLength => "Failed to parse dynamic state"@,
            InternalError::InvalidDynamicState => "Failed to decode dynamic state"@,
            InternalError::InvalidCredential => "Static and dynamic state contradict each other"@,
        }
    }

    /// What is logged.
    pub fn message(&self) -> (message: String)
        ensures
            message@ == self.text(),
    {
        let text: &'static str = match self {
            InternalError::InvalidPublicBase => "Public base is not a URL",
            InternalError::NoHost => "Public base doesn't have a host",
            InternalError::InvalidDomain => "Public base's host is not a domain",
            InternalError::InvalidUsername => "Username cannot be given to an authenticator",
            InternalError::InvalidDisplayName => "Display name cannot be given to an authenticator",
            InternalError::InvalidDescriptor => "Failed to parse a stored passkey",
            InternalError::CeremonyNotStarted => "Failed to start the ceremony",
            InternalError::InvalidState => "Failed to parse challenge state",
            InternalError::InvalidResponse => "Failed to parse response",
            InternalError::InvalidUserHandle => "Failed to parse user handle",
            InternalError::InvalidCredentialId => "Failed to parse credential ID",
            InternalError::InvalidStaticState => "Failed to parse static state",
            InternalError::InvalidDynamicStateLength => "Failed to parse dynamic state",
            InternalError::InvalidDynamicState => "Failed to decode dynamic state",
            InternalError::InvalidCredential => "Static and dynamic state contradict each other",
        };
        text.to_owned()
    }
}

/// A response leads to a user and a passkey exactly when both were found and the
/// passkey is the user's own; they are the ones that were found, for the response
/// that came and the credential that it names. Otherwise the first of these that
/// is wrong is told.
pub proof fn only_own_passkeys_are_used(
    step: LookupUser,
    user: Option<User>,
    passkey: Option<UserPasskey>,
)
    ensures
        ({
            let result = match step.after(user) {
                Ok(find) => find.after(passkey),
                Err(error) => Err(error),
            };
            let known = user is Some && passkey is Some;
            &&& result is Ok <==> known && passkey->0.user_id == user->0.id
            &&& result matches Ok(found) ==> found.user == user->0 && found.passkey == passkey->0
                && found.response == step.response
            &&& result == Err::<Discovered, _>(WebauthnError::UserNotFound) <==> user is None
            &&& result == Err::<Discovered, _>(WebauthnError::PasskeyNotFound) <==> user is Some
                && passkey is None
            &&& result == Err::<Discovered, _>(WebauthnError::UserMismatch) <==> known
                && passkey->0.user_id != user->0.id
            &&& step.after(user) matches Ok(find) ==> find.credential_id == step.credential_id
        }),
{
}

/// A credential is registered once: a passkey is added exactly when none was found
/// under its identifier, and it is the one that was to be added, for its challenge.
pub proof fn credential_is_registered_once(step: FindPasskey, existing: Option<UserPasskey>)
    ensures
        step.after(existing) is Ok <==> existing is None,
        step.after(existing) is Err ==> step.after(existing) == Err::<AddPasskey, _>(
            WebauthnError::Exists,
        ),
        step.after(existing) matches Ok(add) ==> add.passkey == step.passkey && add.challenge
            == step.challenge,
{
}

/// A challenge that was not completed is, and one that was is left alone.
pub proof fn challenge_is_completed_once(challenge: UserPasskeyChallenge)
    ensures
        completion_of(challenge) is Done <==> challenge.completed_at is Some,
        completion_of(challenge) matches AfterUpdate::CompleteChallenge(left) ==> left == challenge,
{
}

/// The name that is shown for a user is the display name where there is one, and
/// otherwise the username.
pub proof fn shown_name_is_the_display_name(username: Seq<char>, displayname: String)
    ensures
        shown_name(username, Some(displayname)) == displayname@,
        shown_name(username, None) == username,
{
}

/// A passkey can be registered exactly when an authenticator accepts the names of
/// the user and all the passkeys that they have can be read, however many there
/// are. Otherwise the first of these that is wrong is named.
pub proof fn passkey_can_be_added_however_many_there_are(
    user: User,
    displayname: Option<String>,
    passkeys: Seq<UserPasskey>,
)
    ensures
        ({
            let problem = request_problem(user, displayname, passkeys);
            let name = match displayname {
                Some(name) => name@,
                None => user.username@,
            };
            let named = is_acceptable_display_name(name) && has_mappable_spaces(name);
            let readable = forall|i: int|
                0 <= i < passkeys.len() ==> credential_id_bytes(
                    (#[trigger] passkeys[i]).credential_id@,
                ) is Some && transports_bits(passkeys[i].transports@) is Some;
            &&& problem is None <==> is_acceptable_username(user.username@) && named && readable
            &&& problem == Some(InternalError::InvalidUsername) <==> !is_acceptable_username(
                user.username@,
            )
            &&& problem == Some(InternalError::InvalidDisplayName) <==> is_acceptable_username(
                user.username@,
            ) && !named
            &&& problem == Some(InternalError::InvalidDescriptor) <==> is_acceptable_username(
                user.username@,
            ) && named && !readable
        }),
{
    let readable = forall|i: int|
        0 <= i < passkeys.len() ==> credential_id_bytes(
            (#[trigger] passkeys[i]).credential_id@,
        ) is Some && transports_bits(passkeys[i].transports@) is Some;
    if readable {
        assert forall|i: int| 0 <= i < passkeys.len() implies has_descriptor(
            #[trigger] passkeys[i],
        ) by {}
    } else {
        let i = choose|i: int|
            0 <= i < passkeys.len() && !(credential_id_bytes(
                (#[trigger] passkeys[i]).credential_id@,
            ) is Some && transports_bits(passkeys[i].transports@) is Some);
        assert(!has_descriptor(passkeys[i]));
    }
}

/// One more passkey that can be read does not stand in the way of another one.
pub proof fn readable_passkey_is_no_obstacle(
    user: User,
    displayname: Option<String>,
    passkeys: Seq<UserPasskey>,
    passkey: UserPasskey,
)
    requires
        credential_id_bytes(passkey.credential_id@) is Some,
        transports_bits(passkey.transports@) is Some,
    ensures
        request_problem(user, displayname, passkeys.push(passkey)) == request_problem(
            user,
            displayname,
            passkeys,
        ),
{
    let more = passkeys.push(passkey);
    assert forall|i: int| 0 <= i < passkeys.len() implies #[trigger] more[i] == passkeys[i] by {}
    assert(more.last() == passkey);
    if exists|i: int| 0 <= i < passkeys.len() && !has_descriptor(#[trigger] passkeys[i]) {
        let i = choose|i: int| 0 <= i < passkeys.len() && !has_descriptor(#[trigger] passkeys[i]);
        assert(!has_descriptor(more[i]));
    }
}

/// Every passkey that a user has is told to the authenticator, in order, with the
/// identifier and the transports that are stored.
pub proof fn every_passkey_is_excluded(passkeys: Seq<UserPasskey>)
    requires
        forall|i: int|
            0 <= i < passkeys.len() ==> credential_id_bytes(
                (#[trigger] passkeys[i]).credential_id@,
            ) is Some && transports_bits(passkeys[i].transports@) is Some,
    ensures
        descriptors_of(passkeys).len() == passkeys.len(),
        forall|i: int|
            0 <= i < passkeys.len() ==> {
                &&& credential_id_bytes((#[trigger] passkeys[i]).credential_id@) == Some(
                    descriptors_of(passkeys)[i].0,
                )
                &&& transports_bits(passkeys[i].transports@) == Some(descriptors_of(passkeys)[i].1)
            },
{
}

/// The values of descriptors are those of their fields, one for one.
pub proof fn descriptors_are_kept(descriptors: Seq<CredentialDescriptor>)
    ensures
        descriptor_views(descriptors).len() == descriptors.len(),
        forall|i: int|
            0 <= i < descriptors.len() ==> descriptor_views(descriptors)[i] == (
                (#[trigger] descriptors[i]).id@,
                descriptors[i].transports,
            ),
{
}

/// A ceremony that was started has the state and the options that it was started
/// with, and none otherwise.
pub proof fn started_ceremony_is_kept(started: Started, error: InternalError)
    ensures
        started_view(Ok(started)) == Some((started.challenge.state@, started.options@)),
        started_view(Err(error)) == None::<(Seq<u8>, Seq<char>)>,
{
}

/// Passkeys are of different credentials exactly when no two of them have the same
/// identifier.
pub proof fn credentials_differ_in_their_identifiers(passkeys: Seq<UserPasskey>)
    ensures
        are_of_different_credentials(passkeys) <==> forall|i: int, j: int|
            0 <= i < passkeys.len() && 0 <= j < passkeys.len() && credential_id_bytes(
                (#[trigger] passkeys[i]).credential_id@,
            ) == credential_id_bytes((#[trigger] passkeys[j]).credential_id@) ==> i == j,
{
    if forall|i: int, j: int|
        0 <= i < passkeys.len() && 0 <= j < passkeys.len() && credential_id_bytes(
            (#[trigger] passkeys[i]).credential_id@,
        ) == credential_id_bytes((#[trigger] passkeys[j]).credential_id@) ==> i == j {
        assert(are_of_different_credentials(passkeys));
    }
}

/// A service can offer passkeys exactly when its address has a host that is a
/// domain.
pub proof fn service_needs_a_domain(host: Option<Seq<char>>)
    ensures
        host_problem(host) is None <==> host is Some && is_ascii_domain(host->0),
        host_problem(host) == Some(InternalError::NoHost) <==> host is None,
        host_problem(host) == Some(InternalError::InvalidDomain) <==> host is Some
            && !is_ascii_domain(host->0),
{
}

/// A browser has to come over HTTPS and without a port, unless the service is on
/// the local host.
pub proof fn origin_is_secure(domain: Seq<char>)
    ensures
        domain != "localhost"@ ==> allowed_scheme(domain) == Scheme::Https && allowed_port(domain)
            == Port::Absent,
        domain == "localhost"@ ==> allowed_scheme(domain) == Scheme::Any && allowed_port(domain)
            == Port::Any,
{
}

/// The session of a browser is known by its identifier.
pub proof fn session_is_known_by_its_identifier(session: &BrowserSession, other: &BrowserSession)
    ensures
        session_id(Some(session)) == session_id(Some(other)) <==> session.id == other.id,
        session_id(Some(session)) == Some(session.id),
        session_id(None) is None,
{
}

/// A challenge can be answered from its own session, or from outside of any if it
/// was made there, as long as it is not completed and an hour has not passed.
/// Away from leap seconds the hour is counted in nanoseconds.
pub proof fn challenge_can_be_answered_within_the_hour(
    challenge: UserPasskeyChallenge,
    session: Option<Ulid>,
    now: Timestamp,
)
    ensures
        is_open_challenge(challenge, session, now) <==> challenge.user_session_id == session
            && challenge.completed_at is None && now.nanoseconds_since(challenge.created_at)
            <= 3_600_000_000_000,
        !now.is_leap() && !challenge.created_at.is_leap() ==> (is_open_challenge(
            challenge,
            session,
            now,
        ) <==> challenge.user_session_id == session && challenge.completed_at is None
            && now.nanoseconds() - challenge.created_at.nanoseconds() <= 3_600_000_000_000),
{
    if !now.is_leap() && !challenge.created_at.is_leap() {
        time_between_is_the_difference(challenge.created_at, now);
    }
}

/// A passkey is that of a credential when all its parts are: the user, the name,
/// the identifier, the transports, the two states and the rest.
pub proof fn passkey_has_all_parts_of_its_credential(
    passkey: NewPasskey,
    credential: RegisteredCredentialView,
    user_id: Ulid,
    name: Seq<char>,
)
    ensures
        is_passkey_of(passkey, credential, user_id, name) <==> passkey.user_id == user_id
            && passkey.name@ == name && passkey.credential_id@ == credential_id_json(credential.id)
            && passkey.transports@ == transports_json(credential.transports)
            && passkey.static_state@ == credential.static_state && passkey.dynamic_state@
            == credential.dynamic_state && passkey.metadata@ == credential.metadata,
{
}

/// A stored passkey can be used exactly when its parts can be read and fit
/// together; otherwise the first part that is wrong is named.
pub proof fn passkey_is_usable_when_it_can_be_read(passkey: UserPasskey)
    ensures
        ({
            let problem = passkey_problem(passkey);
            let identified = credential_id_bytes(passkey.credential_id@) is Some;
            let fixed = is_static_state(passkey.static_state@);
            let long = passkey.dynamic_state@.len() == 7;
            let moving = is_dynamic_state(passkey.dynamic_state@);
            let fit = are_states_of_a_credential(passkey.static_state@, passkey.dynamic_state@);
            &&& problem is None <==> identified && fixed && long && moving && fit
            &&& problem == Some(InternalError::InvalidCredentialId) <==> !identified
            &&& problem == Some(InternalError::InvalidStaticState) <==> identified && !fixed
            &&& problem == Some(InternalError::InvalidDynamicStateLength) <==> identified && fixed
                && !long
            &&& problem == Some(InternalError::InvalidDynamicState) <==> identified && fixed && long
                && !moving
            &&& problem == Some(InternalError::InvalidCredential) <==> identified && fixed && long
                && moving && !fit
        }),
{
}

/// A credential is judged by its three parts alone, stored or not.
pub proof fn credential_is_judged_by_its_parts(passkey: UserPasskey, new: NewPasskey)
    requires
        passkey.credential_id@ == new.credential_id@,
        passkey.static_state@ == new.static_state@,
        passkey.dynamic_state@ == new.dynamic_state@,
    ensures
        passkey_problem(passkey) == credential_problem(
            new.credential_id@,
            new.static_state@,
            new.dynamic_state@,
        ),
{
}

/// A user handle names a user exactly when it is there and has sixteen bytes.
pub proof fn handle_needs_sixteen_bytes(handle: Option<Seq<u8>>)
    ensures
        handle_problem(handle) is None <==> handle is Some && handle->0.len() == 16,
        handle_problem(handle) == Some(Failure::Webauthn(WebauthnError::UserHandleMissing))
            <==> handle is None,
        handle_problem(handle) == Some(Failure::Internal(InternalError::InvalidUserHandle))
            <==> handle is Some && handle->0.len() != 16,
{
}

/// What a user is told names the reason; what a ceremony reports is told as it
/// is.
pub proof fn failure_is_told(error: WebauthnError)
    ensures
        error.text() is None <==> error is RegistrationCeremonyError
            || error is AuthenticationCeremonyError,
        error is InvalidChallenge ==> error.text() == Some(
            "The challenge doesn't exist, expired or doesn't belong for this session"@,
        ),
        error is Exists ==> error.text() == Some("Credential already exists"@),
        error is UserHandleMissing ==> error.text() == Some(
            "Authenticator did not include the userHandle in the response"@,
        ),
        error is UserNotFound ==> error.text() == Some(
            "Failed to find a user based on the userHandle"@,
        ),
        error is PasskeyNotFound ==> error.text() == Some(
            "Failed to find a passkey based on the credential_id"@,
        ),
        error is UserMismatch ==> error.text() == Some("The passkey belongs to a different user"@),
{
}

/// What is logged tells one reason from the other.
pub proof fn internal_errors_are_told_apart(error: InternalError)
    ensures
        error is InvalidPublicBase ==> error.text() == "Public base is not a URL"@,
        error is NoHost ==> error.text() == "Public base doesn't have a host"@,
        error is InvalidDomain ==> error.text() == "Public base's host is not a domain"@,
        error is InvalidUsername ==> error.text()
            == "Username cannot be given to an authenticator"@,
        error is InvalidDisplayName ==> error.text()
            == "Display name cannot be given to an authenticator"@,
        error is InvalidDescriptor ==> error.text() == "Failed to parse a stored passkey"@,
        error is CeremonyNotStarted ==> error.text() == "Failed to start the ceremony"@,
        error is InvalidState ==> error.text() == "Failed to parse challenge state"@,
        error is InvalidResponse ==> error.text() == "Failed to parse response"@,
        error is InvalidUserHandle ==> error.text() == "Failed to parse user handle"@,
        error is InvalidCredentialId ==> error.text() == "Failed to parse credential ID"@,
        error is InvalidStaticState ==> error.text() == "Failed to parse static state"@,
        error is InvalidDynamicStateLength ==> error.text() == "Failed to parse dynamic state"@,
        error is InvalidDynamicState ==> error.text() == "Failed to decode dynamic state"@,
        error is InvalidCredential ==> error.text()
            == "Static and dynamic state contradict each other"@,
{
}

/// A challenge is that of a ceremony, stored at its creation and not completed
/// since.
pub open spec fn is_stored_from(challenge: UserPasskeyChallenge, new: NewChallenge) -> bool {
    &&& challenge.user_session_id == new.user_session_id
    &&& challenge.state@ == new.state@
    &&& challenge.completed_at is None
}

/// A challenge can be answered in the session in which its ceremony was
/// started, for an hour.
pub proof fn challenge_is_open_for_an_hour(
    new: NewChallenge,
    challenge: UserPasskeyChallenge,
    session: Option<Ulid>,
    now: Timestamp,
)
    requires
        is_stored_from(challenge, new),
    ensures
        is_open_challenge(challenge, session, now) <==> {
            &&& session == new.user_session_id
            &&& now.nanoseconds_since(challenge.created_at) <= challenge_lifetime()
        },
{
}

/// A challenge that was completed can never be answered again.
pub proof fn completed_challenge_stays_closed(
    challenge: UserPasskeyChallenge,
    session: Option<Ulid>,
    now: Timestamp,
)
    requires
        challenge.completed_at is Some,
    ensures
        !is_open_challenge(challenge, session, now),
{
}

/// A challenge that can be answered at some time could be answered at any time
/// before: once it has expired, it stays expired. Around a leap second, after
/// which the count of nanoseconds steps back, this does not hold.
pub proof fn expired_challenge_stays_closed(
    challenge: UserPasskeyChallenge,
    session: Option<Ulid>,
    now: Timestamp,
    later: Timestamp,
)
    requires
        !challenge.created_at.is_leap(),
        !now.is_leap(),
        !later.is_leap(),
        now.nanoseconds() <= later.nanoseconds(),
        is_open_challenge(challenge, session, later),
    ensures
        is_open_challenge(challenge, session, now),
{
    time_between_is_the_difference(challenge.created_at, now);
    time_between_is_the_difference(challenge.created_at, later);
}

/// A challenge can be answered in one session only.
pub proof fn challenge_is_of_one_session(
    challenge: UserPasskeyChallenge,
    session: Option<Ulid>,
    other: Option<Ulid>,
    now: Timestamp,
    later: Timestamp,
)
    requires
        is_open_challenge(challenge, session, now),
        is_open_challenge(challenge, other, later),
    ensures
        session == other,
{
}

/// A stored passkey has the credential of a new one.
pub open spec fn holds_credential_of(passkey: UserPasskey, new: NewPasskey) -> bool {
    &&& passkey.credential_id@ == new.credential_id@
    &&& passkey.transports@ == new.transports@
    &&& passkey.static_state@ == new.static_state@
    &&& passkey.dynamic_state@ == new.dynamic_state@
}

/// A passkey that was registered and stored can be used for authentication,
/// and can be told to an authenticator that is asked to register another one.
pub proof fn registered_passkey_is_usable(new: NewPasskey, passkey: UserPasskey)
    requires
        credential_problem(new.credential_id@, new.static_state@, new.dynamic_state@) is None,
        transports_bits(new.transports@) is Some,
        holds_credential_of(passkey, new),
    ensures
        passkey_problem(passkey) is None,
        has_descriptor(passkey),
{
}

/// A passkey stays usable when its changed state is stored after an
/// authentication.
pub proof fn used_passkey_stays_usable(step: UpdatePasskey, passkey: UserPasskey)
    requires
        credential_problem(
            step.passkey.credential_id@,
            step.passkey.static_state@,
            step.dynamic_state@,
        ) is None,
        passkey.credential_id@ == step.passkey.credential_id@,
        passkey.transports@ == step.passkey.transports@,
        passkey.static_state@ == step.passkey.static_state@,
        passkey.dynamic_state@ == step.dynamic_state@,
    ensures
        passkey_problem(passkey) is None,
        has_descriptor(step.passkey) ==> has_descriptor(passkey),
{
}

/// Passkeys of one credential are stored under one identifier, whoever
/// registered them and whatever they are called. It is the identifier that an
/// authentication with the credential asks for.
pub proof fn credential_is_stored_under_one_identifier(
    first: NewPasskey,
    credential: RegisteredCredentialView,
    user_id: Ulid,
    name: Seq<char>,
    second: NewPasskey,
    other: RegisteredCredentialView,
    other_user_id: Ulid,
    other_name: Seq<char>,
    response: Seq<char>,
)
    requires
        is_passkey_of(first, credential, user_id, name),
        is_passkey_of(second, other, other_user_id, other_name),
        credential.id == other.id,
        used_credential_id(response) == credential.id,
    ensures
        first.credential_id@ == second.credential_id@,
        first.credential_id@ == credential_id_json(used_credential_id(response)),
{
}

/// Passkeys of two credentials are stored under two identifiers.
pub proof fn credentials_are_stored_apart(
    first: NewPasskey,
    id: Seq<u8>,
    second: NewPasskey,
    other_id: Seq<u8>,
)
    requires
        credential_id_bytes(first.credential_id@) == Some(id),
        credential_id_bytes(second.credential_id@) == Some(other_id),
        id != other_id,
    ensures
        first.credential_id@ != second.credential_id@,
{
}

/// A user is found again by the handle that their authenticator was given at
/// registration.
pub proof fn handle_names_one_user(id: Ulid, other: Ulid, handle: Seq<u8>)
    requires
        handle.len() == 16,
        big_endian(handle) == id.0,
        big_endian(handle) == other.0,
    ensures
        handle_problem(Some(handle)) is None,
        id == other,
{
}

} // verus!
