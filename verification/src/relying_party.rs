//! The WebAuthn relying party: the ceremonies that register and use passkeys,
//! as the `webauthn_rp` crate performs them.
use std::sync::Arc;

use vstd::prelude::*;
use webauthn_rp::bin::{Decode, Encode};
use webauthn_rp::request::auth::AuthenticationVerificationOptions;
use webauthn_rp::request::error::AsciiDomainErr;
use webauthn_rp::request::register::error::{NicknameErr, UsernameErr};
use webauthn_rp::request::register::{
    Nickname, PublicKeyCredentialUserEntity, RegistrationVerificationOptions, UserHandle, Username,
};
use webauthn_rp::request::{AsciiDomain, DomainOrigin, PublicKeyCredentialDescriptor, RpId};
use webauthn_rp::response::auth::error::AuthCeremonyErr;
use webauthn_rp::response::auth::ser_relaxed::AuthenticationRelaxed;
use webauthn_rp::response::register::error::RegCeremonyErr;
use webauthn_rp::response::register::ser_relaxed::RegistrationRelaxed;
use webauthn_rp::response::register::{DynamicState, StaticState};
use webauthn_rp::response::{AuthTransports, CredentialId};
use webauthn_rp::{
    AggErr, AuthenticatedCredential, Authentication, AuthenticationServerState,
    PublicKeyCredentialCreationOptions, PublicKeyCredentialRequestOptions, Registration,
    RegistrationServerState,
};

use crate::display_name::has_mappable_spaces;

verus! {

#[verifier::external_type_specification]
#[verifier::external_body]
pub struct ExRpId(RpId);

#[verifier::external_type_specification]
#[verifier::external_body]
pub struct ExDomainOrigin<'a, 'b>(DomainOrigin<'a, 'b>);

#[verifier::external_type_specification]
#[verifier::external_body]
pub struct ExRegistration(Registration);

#[verifier::external_type_specification]
#[verifier::external_body]
pub struct ExAuthentication(Authentication);

#[verifier::external_type_specification]
#[verifier::external_body]
pub struct ExAsciiDomainErr(AsciiDomainErr);

#[verifier::external_type_specification]
#[verifier::external_body]
pub struct ExUsernameErr(UsernameErr);

#[verifier::external_type_specification]
#[verifier::external_body]
pub struct ExNicknameErr(NicknameErr);

#[verifier::external_type_specification]
#[verifier::external_body]
pub struct ExAggErr(AggErr);

#[verifier::external_type_specification]
#[verifier::external_body]
pub struct ExRegCeremonyErr(RegCeremonyErr);

#[verifier::external_type_specification]
#[verifier::external_body]
pub struct ExAuthCeremonyErr(AuthCeremonyErr);

#[verifier::external_type_specification]
#[verifier::external_body]
pub struct ExSerdeJsonError(serde_json::Error);

/// A text that can serve as the domain of a relying party: ASCII labels of 1
/// to 63 characters with a dot between them and possibly one at the end, at
/// most 253 characters without that last dot.
pub open spec fn is_ascii_domain(text: Seq<char>) -> bool {
    &&& text.len() > 0
    &&& text.len() <= if text.last() == '.' {
        254int
    } else {
        253int
    }
    &&& forall|i: int| 0 <= i < text.len() ==> (#[trigger] text[i] as u32) < 128
    &&& text[0] != '.'
    &&& forall|i: int, j: int|
        0 <= i < text.len() && j == i + 1 && j < text.len() && #[trigger] text[i] == '.'
            ==> #[trigger] text[j] != '.'
    &&& forall|i: int|
        #![trigger text.subrange(i, i + 64)]
        0 <= i && i + 64 <= text.len() ==> text.subrange(i, i + 64).contains('.')
}

/// The small letter of an ASCII capital letter; any other character as it is.
pub open spec fn ascii_lowercase(c: char) -> char {
    if 'A' <= c && c <= 'Z' {
        (c as u32 + 32) as char
    } else {
        c
    }
}

/// The relying party identifier that a domain stands for.
pub uninterp spec fn rp_id_of(domain: Seq<char>) -> RpId;

/// Calls `webauthn_rp::request::AsciiDomain::try_from`. It accepts the texts
/// that [`is_ascii_domain`] describes and turns capital letters into small
/// ones; the identifier depends on the resulting domain alone.
#[verifier::external_body]
fn rp_id(host: String) -> (r: Result<(String, RpId), AsciiDomainErr>)
    ensures
        r is Ok <==> is_ascii_domain(host@),
        r matches Ok((domain, id)) ==> {
            &&& domain@ == host@.map_values(|c: char| ascii_lowercase(c))
            &&& id == rp_id_of(domain@)
        },
{
    let domain = AsciiDomain::try_from(host)?;
    Ok((domain.as_ref().to_owned(), RpId::Domain(domain)))
}

/// The service as a relying party: its domain, and the identifier that goes
/// with it.
#[derive(Debug)]
pub struct RelyingParty {
    domain: String,
    id: Arc<RpId>,
}

impl RelyingParty {
    /// The identifier is that of the domain.
    #[verifier::type_invariant]
    closed spec fn is_consistent(self) -> bool {
        *self.id == rp_id_of(self.domain@)
    }

    /// The domain.
    pub closed spec fn text(self) -> Seq<char> {
        self.domain@
    }

    /// The relying party of a host, if the host is an ASCII domain.
    pub fn new(host: String) -> (r: Result<RelyingParty, AsciiDomainErr>)
        ensures
            r is Ok <==> is_ascii_domain(host@),
            r matches Ok(party) ==> party.text() == host@.map_values(
                |c: char| ascii_lowercase(c),
            ),
    {
        match rp_id(host) {
            Ok((domain, id)) => Ok(RelyingParty { domain, id: Arc::new(id) }),
            Err(e) => Err(e),
        }
    }

    /// The domain.
    pub fn domain(&self) -> (domain: &str)
        ensures
            domain@ == self.text(),
    {
        self.domain.as_str()
    }
}

impl Clone for RelyingParty {
    fn clone(&self) -> (copy: RelyingParty)
        ensures
            copy.text() == self.text(),
    {
        proof {
            use_type_invariant(self);
        }
        RelyingParty { domain: self.domain.clone(), id: self.id.clone() }
    }
}

/// A scheme, or the absence of a demand for one.
#[derive(Clone, Copy, Debug, PartialEq, Eq, Structural)]
pub enum Scheme {
    /// Any scheme, or none.
    Any,
    /// HTTPS.
    Https,
}

/// A port, or the absence of a demand for one.
#[derive(Clone, Copy, Debug, PartialEq, Eq, Structural)]
pub enum Port {
    /// Any port, or none.
    Any,
    /// No port.
    Absent,
}

/// Where the browser may have been when it took part in a ceremony.
#[derive(Clone, Copy, Debug)]
pub struct AllowedOrigin<'a> {
    pub scheme: Scheme,
    pub host: &'a str,
    pub port: Port,
}

/// The origin that `webauthn_rp` compares with.
pub uninterp spec fn domain_origin_of(
    scheme: Scheme,
    host: Seq<char>,
    port: Port,
) -> DomainOrigin<'static, 'static>;

/// Makes a `webauthn_rp::request::DomainOrigin` of the three parts of an
/// origin.
#[verifier::external_body]
fn domain_origin<'a>(origin: &AllowedOrigin<'a>) -> (outside: DomainOrigin<'a, 'a>)
    ensures
        outside == domain_origin_of(origin.scheme, origin.host@, origin.port),
{
    DomainOrigin {
        scheme: match origin.scheme {
            Scheme::Any => webauthn_rp::request::Scheme::Any,
            Scheme::Https => webauthn_rp::request::Scheme::Https,
        },
        host: origin.host,
        port: match origin.port {
            Port::Any => webauthn_rp::request::Port::Any,
            Port::Absent => webauthn_rp::request::Port::None,
        },
    }
}

/// An allowed origin, and the form in which `webauthn_rp` compares with it.
struct PreparedOrigin<'a> {
    origin: AllowedOrigin<'a>,
    outside: DomainOrigin<'a, 'a>,
}

impl<'a> PreparedOrigin<'a> {
    /// The two are of one origin.
    #[verifier::type_invariant]
    spec fn is_consistent(self) -> bool {
        self.outside == domain_origin_of(self.origin.scheme, self.origin.host@, self.origin.port)
    }

    /// Prepares an origin.
    fn new(origin: AllowedOrigin<'a>) -> (prepared: PreparedOrigin<'a>)
        ensures
            prepared.origin == origin,
    {
        let outside = domain_origin(&origin);
        PreparedOrigin { origin, outside }
    }
}

/// Whether `webauthn_rp` takes a text as the name of a user.
pub uninterp spec fn is_acceptable_username(text: Seq<char>) -> bool;

/// Calls `webauthn_rp::request::register::Username::try_from`, which enforces
/// the PRECIS profile for usernames of RFC 8265. The verdict depends on the
/// text alone.
#[verifier::external_body]
pub(crate) fn check_username(text: &str) -> (r: Result<(), UsernameErr>)
    ensures
        r is Ok <==> is_acceptable_username(text@),
{
    Username::try_from(text).map(|_| ())
}

/// Whether `webauthn_rp` takes a text as the display name of a user.
pub uninterp spec fn is_acceptable_display_name(text: Seq<char>) -> bool;

/// Calls `webauthn_rp::request::register::Nickname::try_from`, which enforces
/// the PRECIS profile for nicknames of RFC 8266. The verdict depends on the
/// text alone.
///
/// The profile takes stray spaces out of the text and panics where it would
/// have to cut through a character to do so; [`has_mappable_spaces`] leaves
/// such texts out.
#[verifier::external_body]
pub(crate) fn check_display_name(text: &str) -> (r: Result<(), NicknameErr>)
    requires
        has_mappable_spaces(text@),
    ensures
        r is Ok <==> is_acceptable_display_name(text@),
{
    Nickname::try_from(text).map(|_| ())
}

/// A credential identifier has 16 to 1023 bytes.
pub open spec fn is_credential_id(bytes: Seq<u8>) -> bool {
    16 <= bytes.len() <= 1023
}

/// The identifier that a JSON string holds in base64url, if it holds one.
pub uninterp spec fn credential_id_bytes(json: Seq<char>) -> Option<Seq<u8>>;

/// The JSON string that holds an identifier in base64url.
pub uninterp spec fn credential_id_json(bytes: Seq<u8>) -> Seq<char>;

/// Calls `serde_json::from_str` for a `webauthn_rp::response::CredentialId`:
/// the identifier depends on the text alone and has a valid length.
#[verifier::external_body]
pub(crate) fn parse_credential_id(json: &str) -> (r: Result<Vec<u8>, serde_json::Error>)
    ensures
        r is Ok <==> credential_id_bytes(json@) is Some,
        r matches Ok(bytes) ==> credential_id_bytes(json@) == Some(bytes@),
        r matches Ok(bytes) ==> is_credential_id(bytes@),
{
    serde_json::from_str::<CredentialId<Vec<u8>>>(json).map(|id| id.as_ref().to_vec())
}

/// Calls `serde_json::to_string` for a `webauthn_rp::response::CredentialId`:
/// the text depends on the identifier alone, and reading it gives the
/// identifier back.
#[verifier::external_body]
pub(crate) fn write_credential_id(bytes: Vec<u8>) -> (json: String)
    requires
        is_credential_id(bytes@),
    ensures
        json@ == credential_id_json(bytes@),
        credential_id_bytes(json@) == Some(bytes@),
{
    serde_json::to_string(&CredentialId::decode(bytes).unwrap()).unwrap()
}

/// A set of transports is a set of six bits.
pub open spec fn is_transports(bits: u8) -> bool {
    bits < 64
}

/// The set of transports that a JSON array names, if it names nothing else.
pub uninterp spec fn transports_bits(json: Seq<char>) -> Option<u8>;

/// The JSON array that names a set of transports.
pub uninterp spec fn transports_json(bits: u8) -> Seq<char>;

/// Calls `serde_json::from_str` for `webauthn_rp::response::AuthTransports`:
/// the set depends on the text alone.
#[verifier::external_body]
pub(crate) fn parse_transports(json: &str) -> (r: Result<u8, serde_json::Error>)
    ensures
        r is Ok <==> transports_bits(json@) is Some,
        r matches Ok(bits) ==> transports_bits(json@) == Some(bits),
        r matches Ok(bits) ==> is_transports(bits),
{
    serde_json::from_str::<AuthTransports>(json).map(|set| set.encode().unwrap())
}

/// Calls `serde_json::to_string` for `webauthn_rp::response::AuthTransports`:
/// the text depends on the set alone, and reading it gives the set back.
#[verifier::external_body]
pub(crate) fn write_transports(bits: u8) -> (json: String)
    requires
        is_transports(bits),
    ensures
        json@ == transports_json(bits),
        transports_bits(json@) == Some(bits),
{
    serde_json::to_string(&AuthTransports::decode(bits).unwrap()).unwrap()
}

/// A credential that an authenticator should not register again.
#[derive(Debug)]
pub struct CredentialDescriptor {
    pub id: Vec<u8>,
    pub transports: u8,
}

/// The values of a list of descriptors.
pub open spec fn descriptor_views(descriptors: Seq<CredentialDescriptor>) -> Seq<(Seq<u8>, u8)> {
    descriptors.map_values(|d: CredentialDescriptor| (d.id@, d.transports))
}

/// Descriptors of credentials, each with a valid identifier and set of
/// transports.
pub open spec fn are_descriptors(descriptors: Seq<CredentialDescriptor>) -> bool {
    forall|i: int|
        0 <= i < descriptors.len() ==> is_credential_id((#[trigger] descriptors[i]).id@)
            && is_transports(descriptors[i].transports)
}

/// No two descriptors are of one credential.
pub open spec fn have_distinct_ids(descriptors: Seq<CredentialDescriptor>) -> bool {
    forall|i: int, j: int|
        0 <= i < j < descriptors.len() ==> (#[trigger] descriptors[i]).id@ != (
        #[trigger] descriptors[j]).id@
}

/// Descriptors that are left of a list when, of those with one identifier,
/// only one is kept.
pub open spec fn is_without_repetition(kept: Seq<(Seq<u8>, u8)>, all: Seq<(Seq<u8>, u8)>) -> bool {
    &&& forall|i: int, j: int|
        0 <= i < j < kept.len() ==> (#[trigger] kept[i]).0 != (#[trigger] kept[j]).0
    &&& forall|i: int| 0 <= i < kept.len() ==> all.contains(#[trigger] kept[i])
    &&& forall|i: int|
        0 <= i < all.len() ==> exists|j: int|
            0 <= j < kept.len() && (#[trigger] kept[j]).0 == (#[trigger] all[i]).0
}

/// Descriptors that stand for a list of them: all of the list, or what is left
/// of it without repetition.
pub open spec fn are_excluded(
    kept: Seq<(Seq<u8>, u8)>,
    descriptors: Seq<CredentialDescriptor>,
) -> bool {
    &&& is_without_repetition(kept, descriptor_views(descriptors))
    &&& have_distinct_ids(descriptors) ==> kept == descriptor_views(descriptors)
}

/// A ceremony that was started: what the service keeps, and what the browser
/// is given.
#[derive(Debug)]
pub struct Ceremony {
    /// The state that the service stores until the response comes.
    pub state: Vec<u8>,
    /// The options for the browser, in JSON.
    pub options: String,
}

/// The state and the options of a registration ceremony, for the challenge
/// that was drawn and the time at which it started, if it can start then.
pub uninterp spec fn registration_ceremony(
    domain: Seq<char>,
    user_id: Seq<u8>,
    username: Seq<char>,
    display_name: Seq<char>,
    exclude: Seq<(Seq<u8>, u8)>,
    challenge: u128,
    started: int,
) -> Option<(Seq<u8>, Seq<char>)>;

/// The state and the options of an authentication ceremony, for the challenge
/// that was drawn and the time at which it started, if it can start then.
pub uninterp spec fn authentication_ceremony(
    domain: Seq<char>,
    challenge: u128,
    started: int,
) -> Option<(Seq<u8>, Seq<char>)>;

/// Whether bytes are the state of a registration ceremony.
pub uninterp spec fn is_registration_state(bytes: Seq<u8>) -> bool;

/// Whether bytes are the state of an authentication ceremony.
pub uninterp spec fn is_authentication_state(bytes: Seq<u8>) -> bool;

/// Calls `webauthn_rp::RegistrationServerState::decode`. Whether it succeeds
/// depends on the bytes alone.
#[verifier::external_body]
pub(crate) fn registration_state_is_readable(bytes: &Vec<u8>) -> (readable: bool)
    ensures
        readable == is_registration_state(bytes@),
{
    RegistrationServerState::decode(bytes).is_ok()
}

/// Calls `webauthn_rp::AuthenticationServerState::decode`. Whether it succeeds
/// depends on the bytes alone.
#[verifier::external_body]
pub(crate) fn authentication_state_is_readable(bytes: &Vec<u8>) -> (readable: bool)
    ensures
        readable == is_authentication_state(bytes@),
{
    AuthenticationServerState::decode(bytes).is_ok()
}

/// The response of a browser to a registration ceremony, if a text is one.
pub uninterp spec fn registration_response(text: Seq<char>) -> Option<Registration>;

/// The response of a browser to an authentication ceremony, if a text is one.
pub uninterp spec fn authentication_response(text: Seq<char>) -> Option<Authentication>;

/// Calls `serde_json::from_str` for `RegistrationRelaxed` of `webauthn_rp`:
/// what it makes of the text depends on the text alone.
#[verifier::external_body]
fn parse_registration(text: &str) -> (r: Result<Registration, serde_json::Error>)
    ensures
        r is Ok <==> registration_response(text@) is Some,
        r matches Ok(parsed) ==> registration_response(text@) == Some(parsed),
{
    serde_json::from_str::<RegistrationRelaxed>(text).map(|relaxed| relaxed.0)
}

/// Calls `serde_json::from_str` for `AuthenticationRelaxed` of `webauthn_rp`:
/// what it makes of the text depends on the text alone.
#[verifier::external_body]
fn parse_authentication(text: &str) -> (r: Result<Authentication, serde_json::Error>)
    ensures
        r is Ok <==> authentication_response(text@) is Some,
        r matches Ok(parsed) ==> authentication_response(text@) == Some(parsed),
{
    serde_json::from_str::<AuthenticationRelaxed>(text).map(|relaxed| relaxed.0)
}

/// The response of a browser to a registration ceremony.
#[derive(Debug)]
pub struct RegistrationResponse {
    text: String,
    parsed: Registration,
}

impl RegistrationResponse {
    /// The parsed response is what the text says.
    #[verifier::type_invariant]
    closed spec fn is_consistent(self) -> bool {
        registration_response(self.text@) == Some(self.parsed)
    }

    /// The response as the browser sent it.
    pub closed spec fn json(self) -> Seq<char> {
        self.text@
    }

    /// Reads a response.
    pub fn parse(text: String) -> (r: Result<RegistrationResponse, serde_json::Error>)
        ensures
            r is Ok <==> registration_response(text@) is Some,
            r matches Ok(response) ==> response.json() == text@,
    {
        match parse_registration(text.as_str()) {
            Ok(parsed) => Ok(RegistrationResponse { text, parsed }),
            Err(e) => Err(e),
        }
    }
}

/// The response of a browser to an authentication ceremony.
#[derive(Debug)]
pub struct AuthenticationResponse {
    text: String,
    parsed: Authentication,
}

/// The identifier of the credential that an authentication response used.
pub uninterp spec fn used_credential_id(response: Seq<char>) -> Seq<u8>;

/// The user handle in an authentication response, if it holds one.
pub uninterp spec fn used_user_handle(response: Seq<char>) -> Option<Seq<u8>>;

impl AuthenticationResponse {
    /// The parsed response is what the text says.
    #[verifier::type_invariant]
    closed spec fn is_consistent(self) -> bool {
        authentication_response(self.text@) == Some(self.parsed)
    }

    /// The response as the browser sent it.
    pub closed spec fn json(self) -> Seq<char> {
        self.text@
    }

    /// Reads a response.
    pub fn parse(text: String) -> (r: Result<AuthenticationResponse, serde_json::Error>)
        ensures
            r is Ok <==> authentication_response(text@) is Some,
            r matches Ok(response) ==> response.json() == text@,
    {
        match parse_authentication(text.as_str()) {
            Ok(parsed) => Ok(AuthenticationResponse { text, parsed }),
            Err(e) => Err(e),
        }
    }

    /// Calls `webauthn_rp::Authentication::raw_id`, which is a field of the
    /// parsed response and has a valid length.
    #[verifier::external_body]
    pub(crate) fn credential_id(&self) -> (id: Vec<u8>)
        ensures
            id@ == used_credential_id(self.json()),
            is_credential_id(id@),
    {
        self.parsed.raw_id().as_ref().to_vec()
    }

    /// Calls `user_handle` of `webauthn_rp::response::auth::AuthenticatorAssertion`,
    /// which is a field of the parsed response.
    #[verifier::external_body]
    pub(crate) fn user_handle(&self) -> (handle: Option<Vec<u8>>)
        ensures
            handle is Some <==> used_user_handle(self.json()) is Some,
            handle matches Some(bytes) ==> used_user_handle(self.json()) == Some(bytes@),
    {
        self.parsed.response().user_handle().map(|handle| handle.into_inner().to_vec())
    }
}

/// Whether bytes are the unchanging state of a credential.
pub uninterp spec fn is_static_state(bytes: Seq<u8>) -> bool;

/// Seven bytes are the changing state of a credential if the first says whether
/// the user was verified, the second one of three states of its backup, and the
/// last one of three ways in which the authenticator is attached.
pub open spec fn is_dynamic_state(bytes: Seq<u8>) -> bool {
    &&& bytes.len() == 7
    &&& bytes[0] <= 1
    &&& bytes[1] <= 2
    &&& bytes[6] <= 2
}

/// Whether the two states can be those of one credential.
pub uninterp spec fn are_states_of_a_credential(
    static_state: Seq<u8>,
    dynamic_state: Seq<u8>,
) -> bool;

/// Calls `webauthn_rp::response::register::StaticState::decode`. Whether it
/// succeeds depends on the bytes alone.
#[verifier::external_body]
pub(crate) fn static_state_is_readable(bytes: &Vec<u8>) -> (readable: bool)
    ensures
        readable == is_static_state(bytes@),
{
    StaticState::decode(bytes).is_ok()
}

/// Calls `webauthn_rp::response::register::DynamicState::decode`, which takes
/// the bytes that [`is_dynamic_state`] describes.
#[verifier::external_body]
pub(crate) fn dynamic_state_is_readable(bytes: [u8; 7]) -> (readable: bool)
    ensures
        readable == is_dynamic_state(bytes@),
{
    DynamicState::decode(bytes).is_ok()
}

/// What an authenticator registered.
#[derive(Debug)]
pub struct RegisteredCredential {
    pub id: Vec<u8>,
    pub transports: u8,
    pub static_state: Vec<u8>,
    pub dynamic_state: Vec<u8>,
    pub metadata: Vec<u8>,
}

/// The value of a [`RegisteredCredential`].
pub ghost struct RegisteredCredentialView {
    pub id: Seq<u8>,
    pub transports: u8,
    pub static_state: Seq<u8>,
    pub dynamic_state: Seq<u8>,
    pub metadata: Seq<u8>,
}

impl View for RegisteredCredential {
    type V = RegisteredCredentialView;

    open spec fn view(&self) -> RegisteredCredentialView {
        RegisteredCredentialView {
            id: self.id@,
            transports: self.transports,
            static_state: self.static_state@,
            dynamic_state: self.dynamic_state@,
            metadata: self.metadata@,
        }
    }
}

impl RegisteredCredential {
    /// The parts of the credential can be read, and fit together.
    pub open spec fn is_valid(self) -> bool {
        &&& is_credential_id(self.id@)
        &&& is_transports(self.transports)
        &&& is_static_state(self.static_state@)
        &&& self.dynamic_state@.len() == 7
        &&& is_dynamic_state(self.dynamic_state@)
        &&& are_states_of_a_credential(self.static_state@, self.dynamic_state@)
    }
}

/// The bytes of a stored credential that an authentication is checked
/// against.
#[derive(Debug)]
pub struct StoredCredential<'a> {
    /// The identifier, in JSON.
    pub id: &'a str,
    pub user_id: [u8; 16],
    pub static_state: &'a Vec<u8>,
    pub dynamic_state: [u8; 7],
}

/// The credential that a registration ceremony ends with at a given time, or
/// what is wrong with the response.
pub uninterp spec fn registration_verdict(
    domain: Seq<char>,
    scheme: Scheme,
    host: Seq<char>,
    port: Port,
    client_data_json_relaxed: bool,
    state: Seq<u8>,
    user_id: Seq<u8>,
    response: Seq<char>,
    now: int,
) -> Result<RegisteredCredentialView, RegCeremonyErr>;

/// The changing state of the credential after an authentication ceremony that
/// ends at a given time, or what is wrong with the response.
pub uninterp spec fn authentication_verdict(
    domain: Seq<char>,
    scheme: Scheme,
    host: Seq<char>,
    port: Port,
    client_data_json_relaxed: bool,
    state: Seq<u8>,
    response: Seq<char>,
    credential_id: Seq<char>,
    user_id: Seq<u8>,
    static_state: Seq<u8>,
    dynamic_state: Seq<u8>,
    now: int,
) -> Result<Seq<u8>, AuthCeremonyErr>;

/// Calls `webauthn_rp::AuthenticatedCredential::new`, which checks the two
/// states of a credential against each other and nothing else.
#[verifier::external_body]
pub(crate) fn states_fit(credential: &StoredCredential) -> (fit: bool)
    requires
        credential_id_bytes(credential.id@) is Some,
        is_static_state(credential.static_state@),
        is_dynamic_state(credential.dynamic_state@),
    ensures
        fit == are_states_of_a_credential(credential.static_state@, credential.dynamic_state@),
{
    let id = serde_json::from_str::<CredentialId<_>>(credential.id).unwrap();
    let Ok(handle) = UserHandle::<[u8; 16]>::decode(credential.user_id);
    let fixed = StaticState::decode(credential.static_state).unwrap();
    let moving = DynamicState::decode(credential.dynamic_state).unwrap();
    AuthenticatedCredential::new((&id).into(), (&handle).into(), fixed, moving).is_ok()
}

impl RelyingParty {
    /// Calls `webauthn_rp::PublicKeyCredentialCreationOptions::passkey` and
    /// `start_ceremony`, encodes the server's state and writes the client's
    /// options in JSON.
    ///
    /// Both depend on a random challenge and the current time, and otherwise on
    /// the arguments alone, provided that no credential is excluded twice. One
    /// that is excluded twice counts once; which of its descriptors counts is
    /// left open. The state can be decoded again. Whether the ceremony can
    /// start rests on the machine's clock.
    #[verifier::external_body]
    pub(crate) fn begin_registration(
        &self,
        user_id: [u8; 16],
        username: &str,
        display_name: &str,
        exclude: &Vec<CredentialDescriptor>,
    ) -> (r: Result<Ceremony, AggErr>)
        requires
            is_acceptable_username(username@),
            has_mappable_spaces(display_name@),
            is_acceptable_display_name(display_name@),
            are_descriptors(exclude@),
        ensures
            r matches Ok(ceremony) ==> is_registration_state(ceremony.state@),
            r matches Ok(ceremony) ==> exists|
                kept: Seq<(Seq<u8>, u8)>,
                challenge: u128,
                started: int,
            |
                {
                    &&& are_excluded(kept, exclude@)
                    &&& #[trigger] registration_ceremony(
                        self.text(),
                        user_id@,
                        username@,
                        display_name@,
                        kept,
                        challenge,
                        started,
                    ) == Some((ceremony.state@, ceremony.options@))
                },
            r is Err ==> exists|
                kept: Seq<(Seq<u8>, u8)>,
                challenge: u128,
                started: int,
            |
                {
                    &&& are_excluded(kept, exclude@)
                    &&& #[trigger] registration_ceremony(
                        self.text(),
                        user_id@,
                        username@,
                        display_name@,
                        kept,
                        challenge,
                        started,
                    ) == None::<(Seq<u8>, Seq<char>)>
                },
    {
        let Ok(handle) = UserHandle::<[u8; 16]>::decode(user_id);
        let (name, display_name) = (username.try_into()?, Some(display_name.try_into()?));
        let user = PublicKeyCredentialUserEntity { name, id: (&handle).into(), display_name };
        let exclude = exclude.iter().map(|d| PublicKeyCredentialDescriptor {
            id: CredentialId::decode(d.id.clone()).unwrap(),
            transports: AuthTransports::decode(d.transports).unwrap(),
        });
        let options =
            PublicKeyCredentialCreationOptions::passkey(&self.id, user, exclude.collect());
        let (server, client) = options.start_ceremony()?;
        Ok(Ceremony { state: server.encode()?, options: serde_json::to_string(&client)? })
    }

    /// Calls `webauthn_rp::PublicKeyCredentialRequestOptions::passkey` and
    /// `start_ceremony`, encodes the server's state and writes the client's
    /// options in JSON.
    ///
    /// Both depend on a random challenge and the current time, and otherwise on
    /// the relying party alone. The state can be decoded again. Whether the
    /// ceremony can start rests on the machine's clock.
    #[verifier::external_body]
    pub(crate) fn begin_authentication(&self) -> (r: Result<Ceremony, AggErr>)
        ensures
            r matches Ok(ceremony) ==> is_authentication_state(ceremony.state@),
            exists|challenge: u128, started: int|
                #[trigger] authentication_ceremony(self.text(), challenge, started)
                    == match r {
                    Ok(ceremony) => Some((ceremony.state@, ceremony.options@)),
                    Err(_) => None,
                },
    {
        let options = PublicKeyCredentialRequestOptions::passkey(&self.id);
        let (server, client) = options.start_ceremony()?;
        Ok(Ceremony { state: server.encode()?, options: serde_json::to_string(&client)? })
    }

    /// Calls `webauthn_rp::RegistrationServerState::verify`, with the one
    /// allowed origin, a strict or relaxed reading of the client data and
    /// defaults otherwise, and encodes the parts of the credential.
    ///
    /// The outcome depends on the arguments and the current time. The parts of
    /// a credential can be read again, and fit together.
    #[verifier::external_body]
    fn verify_registration_from(
        &self,
        origin: &PreparedOrigin,
        client_data_json_relaxed: bool,
        state: &Vec<u8>,
        user_id: [u8; 16],
        response: &RegistrationResponse,
    ) -> (r: Result<RegisteredCredential, RegCeremonyErr>)
        requires
            is_registration_state(state@),
        ensures
            exists|now: int|
                registration_verdict(
                    self.text(),
                    origin.origin.scheme,
                    origin.origin.host@,
                    origin.origin.port,
                    client_data_json_relaxed,
                    state@,
                    user_id@,
                    response.json(),
                    now,
                ) == match r {
                    Ok(credential) => Ok(credential@),
                    Err(error) => Err(error),
                },
            r matches Ok(credential) ==> {
                &&& is_credential_id(credential.id@)
                &&& is_transports(credential.transports)
                &&& is_static_state(credential.static_state@)
                &&& credential.dynamic_state@.len() == 7
                &&& is_dynamic_state(credential.dynamic_state@)
                &&& are_states_of_a_credential(
                    credential.static_state@,
                    credential.dynamic_state@,
                )
            },
    {
        let Ok(handle) = UserHandle::<[u8; 16]>::decode(user_id);
        let options = RegistrationVerificationOptions::<_, DomainOrigin> {
            allowed_origins: &[origin.outside],
            client_data_json_relaxed,
            ..Default::default()
        };
        let c = RegistrationServerState::decode(state).unwrap()
            .verify(&self.id, (&handle).into(), &response.parsed, &options)?;
        Ok(RegisteredCredential {
            id: c.id().as_ref().to_vec(),
            transports: c.transports().encode().unwrap(),
            static_state: c.static_state().encode().unwrap(),
            dynamic_state: c.dynamic_state().encode().unwrap().to_vec(),
            metadata: c.metadata().encode().unwrap(),
        })
    }

    /// Calls `webauthn_rp::AuthenticationServerState::verify`, with the one
    /// allowed origin, a strict or relaxed reading of the client data and
    /// defaults otherwise, and encodes the changed state of the credential.
    ///
    /// The outcome depends on the arguments and the current time. The changed
    /// state can be read again, and fits the unchanging one.
    #[verifier::external_body]
    fn verify_authentication_from(
        &self,
        origin: &PreparedOrigin,
        client_data_json_relaxed: bool,
        state: &Vec<u8>,
        response: &AuthenticationResponse,
        stored: &StoredCredential,
    ) -> (r: Result<Vec<u8>, AuthCeremonyErr>)
        requires
            is_authentication_state(state@),
            credential_id_bytes(stored.id@) is Some,
            is_static_state(stored.static_state@),
            is_dynamic_state(stored.dynamic_state@),
            are_states_of_a_credential(stored.static_state@, stored.dynamic_state@),
        ensures
            exists|now: int|
                authentication_verdict(
                    self.text(),
                    origin.origin.scheme,
                    origin.origin.host@,
                    origin.origin.port,
                    client_data_json_relaxed,
                    state@,
                    response.json(),
                    stored.id@,
                    stored.user_id@,
                    stored.static_state@,
                    stored.dynamic_state@,
                    now,
                ) == match r {
                    Ok(dynamic_state) => Ok(dynamic_state@),
                    Err(error) => Err(error),
                },
            r matches Ok(dynamic_state) ==> {
                &&& dynamic_state@.len() == 7
                &&& is_dynamic_state(dynamic_state@)
                &&& are_states_of_a_credential(stored.static_state@, dynamic_state@)
            },
    {
        let id = serde_json::from_str::<CredentialId<_>>(stored.id).unwrap();
        let Ok(handle) = UserHandle::<[u8; 16]>::decode(stored.user_id);
        let fixed = StaticState::decode(stored.static_state).unwrap();
        let moving = DynamicState::decode(stored.dynamic_state).unwrap();
        let mut cred =
            AuthenticatedCredential::new((&id).into(), (&handle).into(), fixed, moving).unwrap();
        let options = AuthenticationVerificationOptions::<_, DomainOrigin> {
            allowed_origins: &[origin.outside],
            client_data_json_relaxed,
            ..Default::default()
        };
        AuthenticationServerState::decode(state).unwrap()
            .verify(&self.id, &response.parsed, &mut cred, &options)?;
        Ok(cred.dynamic_state().encode().unwrap().to_vec())
    }
}

impl RelyingParty {
    /// Verifies the response to a registration ceremony, with a strict or relaxed
    /// reading of the client data.
    pub(crate) fn verify_registration(
        &self,
        origin: AllowedOrigin,
        client_data_json_relaxed: bool,
        state: &Vec<u8>,
        user_id: [u8; 16],
        response: &RegistrationResponse,
    ) -> (r: Result<RegisteredCredential, RegCeremonyErr>)
        requires
            is_registration_state(state@),
        ensures
            exists|now: int|
                registration_verdict(
                    self.text(),
                    origin.scheme,
                    origin.host@,
                    origin.port,
                    client_data_json_relaxed,
                    state@,
                    user_id@,
                    response.json(),
                    now,
                ) == match r {
                    Ok(credential) => Ok(credential@),
                    Err(error) => Err(error),
                },
            r matches Ok(credential) ==> credential.is_valid(),
    {
        let origin = PreparedOrigin::new(origin);
        self.verify_registration_from(&origin, client_data_json_relaxed, state, user_id, response)
    }

    /// Verifies the response to an authentication ceremony, with a strict or
    /// relaxed reading of the client data.
    pub(crate) fn verify_authentication(
        &self,
        origin: AllowedOrigin,
        client_data_json_relaxed: bool,
        state: &Vec<u8>,
        response: &AuthenticationResponse,
        stored: &StoredCredential,
    ) -> (r: Result<Vec<u8>, AuthCeremonyErr>)
        requires
            is_authentication_state(state@),
            credential_id_bytes(stored.id@) is Some,
            is_static_state(stored.static_state@),
            is_dynamic_state(stored.dynamic_state@),
            are_states_of_a_credential(stored.static_state@, stored.dynamic_state@),
        ensures
            exists|now: int|
                authentication_verdict(
                    self.text(),
                    origin.scheme,
                    origin.host@,
                    origin.port,
                    client_data_json_relaxed,
                    state@,
                    response.json(),
                    stored.id@,
                    stored.user_id@,
                    stored.static_state@,
                    stored.dynamic_state@,
                    now,
                ) == match r {
                    Ok(dynamic_state) => Ok(dynamic_state@),
                    Err(error) => Err(error),
                },
            r matches Ok(dynamic_state) ==> {
                &&& dynamic_state@.len() == 7
                &&& is_dynamic_state(dynamic_state@)
                &&& are_states_of_a_credential(stored.static_state@, dynamic_state@)
            },
    {
        let origin = PreparedOrigin::new(origin);
        self.verify_authentication_from(&origin, client_data_json_relaxed, state, response, stored)
    }
}

/// The value of a credential is that of its parts.
pub proof fn credential_parts_are_kept(credential: RegisteredCredential)
    ensures
        credential@.id == credential.id@,
        credential@.transports == credential.transports,
        credential@.static_state == credential.static_state@,
        credential@.dynamic_state == credential.dynamic_state@,
        credential@.metadata == credential.metadata@,
{
}

} // verus!
