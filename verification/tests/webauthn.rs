use mas_handlers::display_name::spaces_are_mappable;
use mas_handlers::id::Ulid;
use mas_handlers::model::{BrowserSession, NewPasskey, User, UserPasskey, UserPasskeyChallenge};
use mas_handlers::relying_party::{Port, RegisteredCredential, RelyingParty, Scheme};
use mas_handlers::time::{Timestamp, MAX_SECONDS, MIN_SECONDS};
use mas_handlers::webauthn::{
    after_update, new_passkey, registration_request, user_of_handle, AfterUpdate, Discovered,
    Failure, FindPasskey, InternalError, Webauthn, WebauthnError,
};

/// An attestation of an Ed25519 credential for `example.com`.
const ATTESTATION: &str = "o2NmbXRkbm9uZWdhdHRTdG10oGhhdXRoRGF0YVhxo3mm9u6vuaVeN4wRgDTidR5oL6ufLTCrE9ISVYbOGUdFAAAAAAAAAAAAAAAAAAAAAAAAAAAAECAhIiMkJSYnKCkqKywtLi-kAQEDJyAGIVggebVWLo_mVPlAeLES6KmLp5AfhTrmlb7X4OORC60ElmQ";
const CREDENTIAL_ID: &str = "ICEiIyQlJicoKSorLC0uLw";

/// An assertion of that credential for the challenge of the bytes 0 to 15.
const CLIENT_DATA: &str = "eyJ0eXBlIjoid2ViYXV0aG4uZ2V0IiwiY2hhbGxlbmdlIjoiQUFFQ0F3UUZCZ2NJQ1FvTERBME9EdyIsIm9yaWdpbiI6Imh0dHBzOi8vZXhhbXBsZS5jb20iLCJjcm9zc09yaWdpbiI6ZmFsc2V9";
const AUTHENTICATOR_DATA: &str = "o3mm9u6vuaVeN4wRgDTidR5oL6ufLTCrE9ISVYbOGUcFAAAAAQ";
const SIGNATURE: &str = "JdpEldLfeyOSZXjVZmudRoeRAFaOM6owY8O19mIL_LVHwbuZpWcYipHziRQjzVZ8yV4_JIQ2gaKbxTrjyvV1AQ";
const USER_HANDLE: &str = "ASNFZ4mrze8BI0VniavN7w";

const USER_ID: Ulid = Ulid(0x0123_4567_89ab_cdef_0123_4567_89ab_cdef);

fn service() -> Webauthn {
    Webauthn::new("https://example.com/").unwrap()
}

fn user() -> User {
    User { id: USER_ID, username: "john".to_owned() }
}

fn at(seconds: i64) -> Timestamp {
    Timestamp::new(seconds, 0).unwrap()
}

fn challenge(state: Vec<u8>, session: Option<Ulid>) -> UserPasskeyChallenge {
    UserPasskeyChallenge {
        id: Ulid(7),
        user_session_id: session,
        state,
        created_at: at(1_000),
        completed_at: None,
    }
}

fn store(new: NewPasskey) -> UserPasskey {
    UserPasskey {
        id: Ulid(8),
        user_id: new.user_id,
        credential_id: new.credential_id,
        name: new.name,
        transports: new.transports,
        static_state: new.static_state,
        dynamic_state: new.dynamic_state,
        metadata: new.metadata,
        last_used_at: None,
        created_at: at(1_000),
    }
}

fn base64url(bytes: &[u8]) -> String {
    let alphabet = b"ABCDEFGHIJKLMNOPQRSTUVWXYZabcdefghijklmnopqrstuvwxyz0123456789-_";
    let mut text = String::new();
    for chunk in bytes.chunks(3) {
        let mut group: u32 = 0;
        for i in 0..3 {
            group = group * 256 + u32::from(*chunk.get(i).unwrap_or(&0));
        }
        for i in 0..=chunk.len() {
            text.push(alphabet[((group >> (18 - 6 * i)) & 63) as usize] as char);
        }
    }
    text
}

/// The value of a string field in a flat piece of JSON.
fn field<'a>(json: &'a str, name: &str) -> &'a str {
    let start = json.find(&format!("\"{name}\":\"")).unwrap() + name.len() + 4;
    &json[start..start + json[start..].find('"').unwrap()]
}

fn attestation_response(challenge: &str, origin: &str) -> String {
    let client_data = format!(
        "{{\"type\":\"webauthn.create\",\"challenge\":\"{challenge}\",\"origin\":\"{origin}\",\"crossOrigin\":false}}"
    );
    format!(
        "{{\"id\":\"{CREDENTIAL_ID}\",\"rawId\":\"{CREDENTIAL_ID}\",\"type\":\"public-key\",\
         \"response\":{{\"clientDataJSON\":\"{}\",\"attestationObject\":\"{ATTESTATION}\",\
         \"transports\":[\"internal\",\"usb\"]}},\"clientExtensionResults\":{{}}}}",
        base64url(client_data.as_bytes())
    )
}

fn assertion_response(signature: &str, user_handle: Option<&str>) -> String {
    let handle = match user_handle {
        Some(handle) => format!(",\"userHandle\":\"{handle}\""),
        None => String::new(),
    };
    format!(
        "{{\"id\":\"{CREDENTIAL_ID}\",\"rawId\":\"{CREDENTIAL_ID}\",\"type\":\"public-key\",\
         \"response\":{{\"clientDataJSON\":\"{CLIENT_DATA}\",\
         \"authenticatorData\":\"{AUTHENTICATOR_DATA}\",\"signature\":\"{signature}\"{handle}}},\
         \"clientExtensionResults\":{{}}}}"
    )
}

/// The state of an authentication ceremony with the challenge of the bytes 0
/// to 15, which ends far in the future.
fn authentication_state() -> Vec<u8> {
    let mut state: Vec<u8> = (0..16).collect();
    state.extend([0, 0, 0, 0]);
    state.extend(100_000_000_000u64.to_le_bytes());
    state.extend(0u32.to_le_bytes());
    state
}

fn register(webauthn: &Webauthn) -> FindPasskey {
    let session = BrowserSession { id: Ulid(5) };
    let started =
        webauthn.start_passkey_registration(&user(), None, &Vec::new(), &session).unwrap();
    let response = attestation_response(field(&started.options, "challenge"), "https://example.com");
    let stored = challenge(started.challenge.state, started.challenge.user_session_id);
    webauthn
        .finish_passkey_registration(&user(), stored, response, "My key".to_owned())
        .unwrap()
}

fn internal(failure: Failure) -> InternalError {
    match failure {
        Failure::Internal(error) => error,
        Failure::Webauthn(error) => panic!("{error:?}"),
    }
}

fn user_facing(failure: Failure) -> WebauthnError {
    match failure {
        Failure::Webauthn(error) => error,
        Failure::Internal(error) => panic!("{error:?}"),
    }
}

#[test]
fn service_has_the_host_of_its_public_address() {
    for (address, host) in [
        ("https://example.com/", "example.com"),
        ("https://Auth.Example.COM:8443/path?x#y", "auth.example.com"),
        ("http://localhost:8080", "localhost"),
        ("https://example.com./", "example.com."),
    ] {
        assert_eq!(Webauthn::new(address).unwrap().get_allowed_origin().host, host);
    }
}

#[test]
fn service_without_a_domain_is_refused() {
    assert_eq!(Webauthn::new("example.com").unwrap_err(), InternalError::InvalidPublicBase);
    assert_eq!(Webauthn::new("mailto:a@example.com").unwrap_err(), InternalError::NoHost);
    assert_eq!(Webauthn::new("https://[::1]:1234567/").unwrap_err(), InternalError::InvalidPublicBase);
    assert_eq!(Webauthn::for_host(None).unwrap_err(), InternalError::NoHost);
    assert_eq!(Webauthn::for_host(Some(String::new())).unwrap_err(), InternalError::InvalidDomain);
}

#[test]
fn domains_are_recognised() {
    let label = "a".repeat(63);
    let longest = format!("{label}.{label}.{label}.{}", "a".repeat(61));
    assert_eq!(longest.len(), 253);
    for domain in ["a", "example.com", "a.", "A.b", &label, &longest, &format!("{longest}.")] {
        assert_eq!(RelyingParty::new(domain.to_owned()).unwrap().domain(), domain.to_lowercase());
    }
    let long_label = "a".repeat(64);
    let too_long = format!("{label}.{label}.{label}.{}", "a".repeat(62));
    for text in ["", ".", ".a", "a..b", "a..", "\u{e9}", &long_label, &too_long] {
        assert!(RelyingParty::new(text.to_owned()).is_err(), "{text}");
    }
}

#[test]
fn origin_is_strict_away_from_the_local_host() {
    let webauthn = service();
    let origin = webauthn.get_allowed_origin();
    assert_eq!((origin.scheme, origin.host, origin.port), (Scheme::Https, "example.com", Port::Absent));
    let local = Webauthn::new("http://LOCALHOST/").unwrap();
    let origin = local.get_allowed_origin();
    assert_eq!((origin.scheme, origin.host, origin.port), (Scheme::Any, "localhost", Port::Any));
}

#[test]
fn timestamps_stay_in_the_calendar() {
    assert!(Timestamp::new(MIN_SECONDS, 0).is_some());
    assert!(Timestamp::new(MIN_SECONDS - 1, 0).is_none());
    assert!(Timestamp::new(MAX_SECONDS, 999_999_999).is_some());
    assert!(Timestamp::new(MAX_SECONDS + 1, 0).is_none());
    assert!(Timestamp::new(MAX_SECONDS, 1_000_000_000).is_none());
    assert!(Timestamp::new(0, 1_999_999_999).is_some());
    assert!(Timestamp::new(0, 2_000_000_000).is_none());
    let first = Timestamp::new(MIN_SECONDS, 0).unwrap();
    let last = Timestamp::new(MAX_SECONDS, 999_999_999).unwrap();
    assert!(last.is_later_by_more_than_hours(&first, 4_000_000_000));
    assert!(!first.is_later_by_more_than_hours(&last, 0));
}

#[test]
fn leap_seconds_count() {
    let at = |seconds: i64, nanos: u32| Timestamp::new(seconds, nanos).unwrap();
    let later = |now: Timestamp, earlier: Timestamp| now.is_later_by_more_than_hours(&earlier, 1);
    // The leap second of the earlier point lies before the later one.
    assert!(!later(at(3_659, 0), at(59, 1_000_000_000)));
    assert!(later(at(3_659, 1), at(59, 1_000_000_000)));
    // That of the later point counts at a later time of day.
    assert!(later(at(3_659, 1_000_000_000), at(59, 0)));
    assert!(later(at(3_659, 1_000_000_000), at(59, 1_000_000_000)));
    // It does not at an earlier time of day.
    assert!(!later(at(86_459, 1_000_000_000), at(82_859, 0)));
    assert!(later(at(86_459, 1_000_000_001), at(82_859, 0)));
}

#[test]
fn challenge_is_open_for_an_hour() {
    let webauthn = service();
    let open = |now: Timestamp| webauthn.lookup_challenge(Some(challenge(vec![], None)), now, None);
    assert!(open(at(1_000)).is_ok());
    assert!(open(at(4_600)).is_ok());
    assert!(open(at(0)).is_ok());
    assert!(matches!(
        open(Timestamp::new(4_600, 1).unwrap()),
        Err(WebauthnError::InvalidChallenge)
    ));
    assert!(open(at(4_601)).is_err());
    assert!(open(at(1_000_000)).is_err());
}

#[test]
fn challenge_is_answered_once() {
    let mut completed = challenge(vec![], None);
    completed.completed_at = Some(at(1_001));
    assert!(matches!(
        service().lookup_challenge(Some(completed), at(1_002), None),
        Err(WebauthnError::InvalidChallenge)
    ));
}

#[test]
fn challenge_belongs_to_its_session() {
    let webauthn = service();
    let session = BrowserSession { id: Ulid(5) };
    let other = BrowserSession { id: Ulid(6) };
    let own = || Some(challenge(vec![1], Some(Ulid(5))));
    let found = webauthn.lookup_challenge(own(), at(1_000), Some(&session)).unwrap();
    assert_eq!((found.id, found.state), (Ulid(7), vec![1]));
    assert!(webauthn.lookup_challenge(own(), at(1_000), Some(&other)).is_err());
    assert!(webauthn.lookup_challenge(own(), at(1_000), None).is_err());
    let free = Some(challenge(vec![], None));
    assert!(webauthn.lookup_challenge(free, at(1_000), Some(&session)).is_err());
    assert!(matches!(
        webauthn.lookup_challenge(None, at(1_000), Some(&session)),
        Err(WebauthnError::InvalidChallenge)
    ));
}

#[test]
fn registration_tells_the_authenticator_about_the_user() {
    let session = BrowserSession { id: Ulid(5) };
    let started = service()
        .start_passkey_registration(&user(), Some("John D.".to_owned()), &Vec::new(), &session)
        .unwrap();
    assert_eq!(started.challenge.user_session_id, Some(Ulid(5)));
    assert!(started.options.contains("\"name\":\"john\""));
    assert!(started.options.contains("\"displayName\":\"John D.\""));
    assert!(started.options.contains(&format!("\"id\":\"{USER_HANDLE}\"")));
    assert!(started.options.contains("example.com"));
}

#[test]
fn display_name_falls_back_to_the_username() {
    let request = registration_request(&user(), None, &Vec::new()).unwrap();
    assert_eq!(request.display_name, "john");
    assert_eq!(request.user_id, USER_ID.to_bytes());
    let request = registration_request(&user(), Some("J".to_owned()), &Vec::new()).unwrap();
    assert_eq!((request.username.as_str(), request.display_name.as_str()), ("john", "J"));
}

#[test]
fn display_names_may_hold_spaces() {
    let request = |name: &str| registration_request(&user(), Some(name.to_owned()), &Vec::new());
    for name in [
        "Jos\u{e9} Garc\u{ed}a",
        "\u{674e} \u{5c0f}\u{9f99}",
        " John  Doe ",
        "John\u{a0}Doe",
        "J\u{e9}  ",
        "\u{a8}",
        "a \u{a8}",
        "\u{e9}\u{a8}",
    ] {
        assert_eq!(request(name).unwrap().display_name, name);
    }
    for name in ["\u{e9} ", "\u{674e} ", "\u{e9}\u{e9}  x", "\u{e9}\u{a0}x", "\u{e9}\u{e9} \u{a8}"] {
        assert_eq!(request(name).unwrap_err(), InternalError::InvalidDisplayName);
        assert!(!spaces_are_mappable(name));
    }
    let session = BrowserSession { id: Ulid(5) };
    let name = Some("Jos\u{e9} Garc\u{ed}a".to_owned());
    let started = service().start_passkey_registration(&user(), name, &Vec::new(), &session);
    assert!(started.unwrap().options.contains("\"displayName\":\"Jos\u{e9} Garc\u{ed}a\""));
}

#[test]
fn short_display_names_are_answered() {
    let letters = [
        'a', ' ', '\u{e9}', '\u{301}', '\u{674e}', '\u{a0}', '\u{3000}', '\u{a8}', '\u{fb01}',
        '\u{fdfb}',
    ];
    let mut names = vec![String::new()];
    for _ in 0..4 {
        let longer = |name: &String| letters.map(|letter| format!("{name}{letter}"));
        let next = names.iter().flat_map(longer).collect::<Vec<_>>();
        for name in &next {
            let answer = registration_request(&user(), Some(name.clone()), &Vec::new());
            if !spaces_are_mappable(name) {
                assert!(answer.is_err() && !name.is_ascii());
            }
            if name.chars().all(|c| c.is_ascii_alphabetic() || c == '\u{e9}') {
                assert!(answer.is_ok());
            }
        }
        names = next;
    }
}

#[test]
fn registered_passkeys_are_excluded() {
    let webauthn = service();
    let passkeys = vec![store(register(&webauthn).passkey)];
    let request = registration_request(&user(), None, &passkeys).unwrap();
    assert_eq!(request.exclude.len(), 1);
    assert_eq!(request.exclude[0].id, (0x20..0x30).collect::<Vec<u8>>());
    let session = BrowserSession { id: Ulid(5) };
    let started =
        webauthn.start_passkey_registration(&user(), None, &passkeys, &session).unwrap();
    assert!(started.options.contains(CREDENTIAL_ID));
}

#[test]
fn registration_refuses_what_an_authenticator_cannot_be_told() {
    let nobody = User { id: USER_ID, username: String::new() };
    assert_eq!(
        registration_request(&nobody, None, &Vec::new()).unwrap_err(),
        InternalError::InvalidUsername
    );
    assert_eq!(
        registration_request(&user(), Some(String::new()), &Vec::new()).unwrap_err(),
        InternalError::InvalidDisplayName
    );
    for (id, transports) in [("nonsense", "[]"), ("\"AAAA\"", "[]"), ("\"ICEiIyQlJicoKSorLC0uLw\"", "[\"x\"]")] {
        let mut passkey = store(register(&service()).passkey);
        passkey.credential_id = id.to_owned();
        passkey.transports = transports.to_owned();
        assert_eq!(
            registration_request(&user(), None, &vec![passkey]).unwrap_err(),
            InternalError::InvalidDescriptor
        );
    }
    let session = BrowserSession { id: Ulid(5) };
    assert_eq!(
        service().start_passkey_registration(&nobody, None, &Vec::new(), &session).unwrap_err(),
        InternalError::InvalidUsername
    );
}

#[test]
fn registered_credential_becomes_a_passkey() {
    let step = register(&service());
    assert_eq!(step.challenge.id, Ulid(7));
    assert_eq!(step.passkey.user_id, USER_ID);
    assert_eq!(step.passkey.name, "My key");
    assert_eq!(step.passkey.credential_id, format!("\"{CREDENTIAL_ID}\""));
    assert_eq!(step.passkey.transports, "[\"internal\",\"usb\"]");
    assert_eq!(step.passkey.dynamic_state.len(), 7);
}

#[test]
fn credential_is_registered_once() {
    let webauthn = service();
    let first = register(&webauthn).found(None).unwrap();
    assert_eq!(first.challenge.id, Ulid(7));
    let stored = store(first.passkey);
    let second = register(&webauthn);
    assert_eq!(second.passkey.credential_id, stored.credential_id);
    assert!(matches!(second.found(Some(stored)), Err(WebauthnError::Exists)));
}

#[test]
fn registration_response_is_verified() {
    let webauthn = service();
    let finish = |state: Vec<u8>, response: String| {
        webauthn.finish_passkey_registration(&user(), challenge(state, None), response, String::new())
    };
    let start = || {
        let session = BrowserSession { id: Ulid(5) };
        webauthn.start_passkey_registration(&user(), None, &Vec::new(), &session).unwrap()
    };
    assert_eq!(
        internal(finish(vec![1, 2, 3], "{}".to_owned()).unwrap_err()),
        InternalError::InvalidState
    );
    let started = start();
    assert_eq!(
        internal(finish(started.challenge.state, "{}".to_owned()).unwrap_err()),
        InternalError::InvalidResponse
    );
    let started = start();
    let response =
        attestation_response(field(&started.options, "challenge"), "https://example.org");
    assert!(matches!(
        user_facing(finish(started.challenge.state, response).unwrap_err()),
        WebauthnError::RegistrationCeremonyError(_)
    ));
    let response = attestation_response("AAECAwQFBgcICQoLDA0ODw", "https://example.com");
    assert!(matches!(
        user_facing(finish(start().challenge.state, response).unwrap_err()),
        WebauthnError::RegistrationCeremonyError(_)
    ));
}

#[test]
fn new_passkey_holds_the_credential() {
    let credential = RegisteredCredential {
        id: vec![0; 16],
        transports: 0,
        static_state: vec![1],
        dynamic_state: vec![2],
        metadata: vec![3],
    };
    let passkey = new_passkey(&user(), "Key".to_owned(), credential);
    assert_eq!(passkey.credential_id, "\"AAAAAAAAAAAAAAAAAAAAAA\"");
    assert_eq!(passkey.transports, "[]");
    assert_eq!(
        (passkey.static_state, passkey.dynamic_state, passkey.metadata),
        (vec![1], vec![2], vec![3])
    );
}

#[test]
fn credentials_are_stored_apart() {
    let stored = |id: Vec<u8>| {
        let credential = RegisteredCredential {
            id,
            transports: 63,
            static_state: vec![],
            dynamic_state: vec![],
            metadata: vec![],
        };
        new_passkey(&user(), String::new(), credential).credential_id
    };
    assert_eq!(stored(vec![255; 16]), "\"_____________________w\"");
    assert_ne!(stored(vec![0; 16]), stored(vec![0; 17]));
    assert_eq!(stored(vec![1; 1023]), stored(vec![1; 1023]));
}

#[test]
fn authentication_starts_outside_of_any_session() {
    let started = service().start_passkey_authentication().unwrap();
    assert_eq!(started.challenge.user_session_id, None);
    assert_eq!(started.challenge.state.len(), 32);
    let text = field(&started.options, "challenge").to_owned();
    assert_eq!(text, base64url(&started.challenge.state[..16]));
    assert_ne!(
        started.challenge.state,
        service().start_passkey_authentication().unwrap().challenge.state
    );
}

#[test]
fn response_names_the_user_and_the_credential() {
    let step = service()
        .discover_credential(assertion_response(SIGNATURE, Some(USER_HANDLE)))
        .unwrap();
    assert_eq!(step.user_id, USER_ID);
    assert_eq!(step.credential_id, register(&service()).passkey.credential_id);
}

#[test]
fn response_without_a_proper_user_handle_is_refused() {
    let webauthn = service();
    assert_eq!(
        internal(webauthn.discover_credential("{}".to_owned()).unwrap_err()),
        InternalError::InvalidResponse
    );
    assert!(matches!(
        user_facing(webauthn.discover_credential(assertion_response(SIGNATURE, None)).unwrap_err()),
        WebauthnError::UserHandleMissing
    ));
    assert_eq!(
        internal(
            webauthn.discover_credential(assertion_response(SIGNATURE, Some("AAAA"))).unwrap_err()
        ),
        InternalError::InvalidUserHandle
    );
}

#[test]
fn user_handle_is_an_identifier() {
    assert_eq!(user_of_handle(Some(USER_ID.to_bytes().to_vec())).unwrap(), USER_ID);
    assert_eq!(user_of_handle(Some(vec![0; 15])).map_err(internal), Err(InternalError::InvalidUserHandle));
    assert_eq!(user_of_handle(Some(vec![0; 17])).map_err(internal), Err(InternalError::InvalidUserHandle));
    assert!(matches!(user_of_handle(None).map_err(user_facing), Err(WebauthnError::UserHandleMissing)));
    let bytes: [u8; 16] = std::array::from_fn(|i| if i == 15 { 2 } else { u8::from(i == 14) });
    assert_eq!(Ulid::from_bytes(bytes), Ulid(258));
    assert_eq!(Ulid(258).to_bytes(), bytes);
}

fn discover(user: Option<User>, passkey: Option<UserPasskey>) -> Result<Discovered, WebauthnError> {
    service()
        .discover_credential(assertion_response(SIGNATURE, Some(USER_HANDLE)))
        .unwrap()
        .user(user)?
        .passkey(passkey)
}

#[test]
fn discovered_passkey_is_the_users() {
    let passkey = || store(register(&service()).passkey);
    let found = discover(Some(user()), Some(passkey())).unwrap();
    assert_eq!((found.user.id, found.passkey.id), (USER_ID, Ulid(8)));
    assert!(matches!(discover(None, Some(passkey())), Err(WebauthnError::UserNotFound)));
    assert!(matches!(discover(Some(user()), None), Err(WebauthnError::PasskeyNotFound)));
    let mut foreign = passkey();
    foreign.user_id = Ulid(1);
    assert!(matches!(discover(Some(user()), Some(foreign)), Err(WebauthnError::UserMismatch)));
}

#[test]
fn passkey_authenticates_its_user() {
    let webauthn = service();
    let passkey = store(register(&webauthn).passkey);
    let before = passkey.dynamic_state.clone();
    let found = discover(Some(user()), Some(passkey)).unwrap();
    let step = webauthn
        .finish_passkey_authentication(
            challenge(authentication_state(), None),
            found.response,
            found.passkey,
        )
        .unwrap();
    assert_eq!((step.passkey.id, step.challenge.id), (Ulid(8), Ulid(7)));
    assert_eq!(step.dynamic_state.len(), 7);
    assert_ne!(step.dynamic_state, before);

    let mut used = step.passkey;
    used.dynamic_state = step.dynamic_state;
    let again = discover(Some(user()), Some(used)).unwrap();
    assert!(matches!(
        webauthn.finish_passkey_authentication(
            challenge(authentication_state(), None),
            again.response,
            again.passkey,
        ),
        Err(Failure::Webauthn(WebauthnError::AuthenticationCeremonyError(_)))
    ));
}

fn authenticate(
    webauthn: &Webauthn,
    state: Vec<u8>,
    change: impl FnOnce(&mut UserPasskey),
) -> Result<UserPasskey, Failure> {
    let mut passkey = store(register(&service()).passkey);
    change(&mut passkey);
    let response = webauthn
        .discover_credential(assertion_response(SIGNATURE, Some(USER_HANDLE)))?
        .response;
    webauthn
        .finish_passkey_authentication(challenge(state, None), response, passkey)
        .map(|step| step.passkey)
}

#[test]
fn authentication_response_is_verified() {
    let local = Webauthn::new("http://localhost/").unwrap();
    assert!(matches!(
        authenticate(&local, authentication_state(), |_| ()),
        Err(Failure::Webauthn(WebauthnError::AuthenticationCeremonyError(_)))
    ));
    let other = service().start_passkey_authentication().unwrap().challenge.state;
    assert!(matches!(
        authenticate(&service(), other, |_| ()),
        Err(Failure::Webauthn(WebauthnError::AuthenticationCeremonyError(_)))
    ));
    let mut expired = authentication_state();
    expired[20..28].copy_from_slice(&1u64.to_le_bytes());
    assert!(matches!(
        authenticate(&service(), expired, |_| ()),
        Err(Failure::Webauthn(WebauthnError::AuthenticationCeremonyError(_)))
    ));
    assert!(matches!(
        authenticate(&service(), authentication_state(), |p| p.user_id = Ulid(1)),
        Err(Failure::Webauthn(WebauthnError::AuthenticationCeremonyError(_)))
    ));
    assert!(authenticate(&service(), authentication_state(), |_| ()).is_ok());
}

#[test]
fn authentication_needs_a_readable_passkey() {
    let problem = |state: Vec<u8>, change: fn(&mut UserPasskey)| {
        internal(authenticate(&service(), state, change).unwrap_err())
    };
    assert_eq!(problem(vec![0], |_| ()), InternalError::InvalidState);
    let state = authentication_state;
    assert_eq!(
        problem(state(), |p| p.credential_id = "\"\"".to_owned()),
        InternalError::InvalidCredentialId
    );
    assert_eq!(
        problem(state(), |p| p.static_state = vec![9]),
        InternalError::InvalidStaticState
    );
    assert_eq!(
        problem(state(), |p| p.dynamic_state = vec![0; 6]),
        InternalError::InvalidDynamicStateLength
    );
    assert_eq!(
        problem(state(), |p| p.dynamic_state = vec![255; 7]),
        InternalError::InvalidDynamicState
    );
    assert_eq!(
        problem(state(), |p| {
            let policy = p.static_state.len() - 2;
            p.static_state[policy] = 3;
            p.dynamic_state[0] = 0;
        }),
        InternalError::InvalidCredential
    );
    assert_eq!(
        problem(state(), |p| {
            p.credential_id = String::new();
            p.static_state = Vec::new();
            p.dynamic_state = Vec::new();
        }),
        InternalError::InvalidCredentialId
    );
}

#[test]
fn challenge_is_completed_once() {
    assert!(matches!(
        after_update(challenge(vec![], None)),
        AfterUpdate::CompleteChallenge(completed) if completed.id == Ulid(7)
    ));
    let mut completed = challenge(vec![], None);
    completed.completed_at = Some(at(1_001));
    assert!(matches!(after_update(completed), AfterUpdate::Done));
}

#[test]
fn internal_errors_have_a_text() {
    let no_host = Webauthn::new("data:text/plain,hello").unwrap_err();
    assert_eq!(no_host, InternalError::NoHost);
    assert_eq!(no_host.message(), "Public base doesn't have a host");
    let short = authenticate(&service(), authentication_state(), |p| p.dynamic_state = vec![]);
    assert_eq!(internal(short.unwrap_err()).message(), "Failed to parse dynamic state");
    assert_eq!(InternalError::InvalidState.message(), "Failed to parse challenge state");
}

#[test]
fn users_are_told_what_went_wrong() {
    for (error, message) in [
        (
            WebauthnError::InvalidChallenge,
            "The challenge doesn't exist, expired or doesn't belong for this session",
        ),
        (WebauthnError::Exists, "Credential already exists"),
        (
            WebauthnError::UserHandleMissing,
            "Authenticator did not include the userHandle in the response",
        ),
        (WebauthnError::UserNotFound, "Failed to find a user based on the userHandle"),
        (WebauthnError::PasskeyNotFound, "Failed to find a passkey based on the credential_id"),
        (WebauthnError::UserMismatch, "The passkey belongs to a different user"),
    ] {
        assert_eq!(error.message(), Some(message));
    }
    let Err(Failure::Webauthn(error)) =
        authenticate(&Webauthn::new("http://localhost/").unwrap(), authentication_state(), |_| ())
    else {
        panic!()
    };
    assert_eq!(error.message(), None);
}
