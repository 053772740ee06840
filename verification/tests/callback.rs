use mas_handlers::callback::{
    accept_subject, finish, get, CodeOrError, ExchangeCode, FinishStep, LinkStep,
    QueryParams, RouteError, SigningAlgorithm, Tokens, UpstreamOAuthLink, UpstreamOAuthProvider,
    UpstreamOAuthSession,
};
use mas_handlers::id::Ulid;
use mas_handlers::template::{is_safe, Claims, MAX_ADDITIONS, MAX_TEMPLATE_LENGTH, MAX_TOKENS};

const PROVIDER: Ulid = Ulid(1);
const SESSION: Ulid = Ulid(2);
const LINK: Ulid = Ulid(3);

fn provider() -> UpstreamOAuthProvider {
    UpstreamOAuthProvider {
        id: PROVIDER,
        enabled: true,
        issuer: "https://idp.example.com/".to_owned(),
        client_id: "client".to_owned(),
        subject_template: None,
    }
}

fn session() -> UpstreamOAuthSession {
    UpstreamOAuthSession {
        id: SESSION,
        provider_id: PROVIDER,
        state_str: "state".to_owned(),
        nonce: "nonce".to_owned(),
        code_challenge_verifier: Some("verifier".to_owned()),
        pending: true,
    }
}

fn granted(state: &str) -> QueryParams {
    QueryParams {
        state: state.to_owned(),
        code_or_error: CodeOrError::Code { code: "code".to_owned() },
    }
}

fn denied(state: &str) -> QueryParams {
    QueryParams {
        state: state.to_owned(),
        code_or_error: CodeOrError::Error {
            error: "access_denied".to_owned(),
            error_description: Some("No.".to_owned()),
            error_uri: None,
        },
    }
}

fn come_back(
    params: QueryParams,
    provider: Option<UpstreamOAuthProvider>,
    session_id: Option<Ulid>,
    session: Option<UpstreamOAuthSession>,
) -> Result<ExchangeCode, RouteError> {
    get(PROVIDER, params).provider(provider)?.session_id(session_id)?.session(session)
}

fn exchange(template: Option<&str>) -> ExchangeCode {
    let mut provider = provider();
    provider.subject_template = template.map(str::to_owned);
    come_back(granted("state"), Some(provider), Some(SESSION), Some(session())).unwrap()
}

fn tokens(claims: &str) -> Tokens {
    Tokens {
        claims: Some(Claims::parse(claims.to_owned()).unwrap()),
        id_token: Some("raw".to_owned()),
    }
}

#[test]
fn code_is_exchanged_for_its_session() {
    let step = exchange(None);
    assert_eq!((step.provider.id, step.session.id), (PROVIDER, SESSION));
    let request = step.request();
    assert_eq!(request.code, "code");
    assert_eq!(request.state, "state");
    assert_eq!(request.nonce, "nonce");
    assert_eq!(request.code_challenge_verifier, Some("verifier"));
    assert_eq!(request.callback_of, PROVIDER);
    assert_eq!(request.issuer, "https://idp.example.com/");
    assert_eq!(request.client_id, "client");
    assert_eq!(request.signing_algorithm, SigningAlgorithm::Rs256);
}

#[test]
fn provider_must_exist_and_be_enabled() {
    let unknown = get(PROVIDER, granted("state")).provider(None);
    assert!(matches!(unknown, Err(RouteError::ProviderNotFound)));
    let disabled = UpstreamOAuthProvider { enabled: false, ..provider() };
    let refused = get(PROVIDER, granted("state")).provider(Some(disabled));
    assert!(matches!(refused, Err(RouteError::ProviderNotFound)));
    let found = get(PROVIDER, granted("state")).provider(Some(provider())).unwrap();
    assert_eq!((found.provider_id, found.params.state.as_str()), (PROVIDER, "state"));
}

#[test]
fn session_must_be_in_the_cookies_and_exist() {
    assert!(matches!(
        come_back(granted("state"), Some(provider()), None, Some(session())),
        Err(RouteError::MissingCookie)
    ));
    assert!(matches!(
        come_back(granted("state"), Some(provider()), Some(SESSION), None),
        Err(RouteError::SessionNotFound)
    ));
}

#[test]
fn session_must_be_the_right_one() {
    let with = |params: QueryParams, session: UpstreamOAuthSession| {
        come_back(params, Some(provider()), Some(SESSION), Some(session)).unwrap_err()
    };
    let foreign = || UpstreamOAuthSession { provider_id: Ulid(9), pending: false, ..session() };
    let used = || UpstreamOAuthSession { pending: false, ..session() };
    assert!(matches!(with(granted("other"), foreign()), RouteError::ProviderMismatch));
    assert!(matches!(with(denied("other"), used()), RouteError::StateMismatch));
    assert!(matches!(with(denied("state"), used()), RouteError::AlreadyCompleted));
    assert!(matches!(with(granted("state"), used()), RouteError::AlreadyCompleted));
}

#[test]
fn error_of_the_provider_is_reported() {
    let error =
        come_back(denied("state"), Some(provider()), Some(SESSION), Some(session())).unwrap_err();
    assert_eq!(error.message(), "Error from the provider: access_denied");
    assert_eq!(error.status_code(), 400);
    assert!(matches!(
        error,
        RouteError::ClientError { error, error_description: Some(description) }
            if error == "access_denied" && description == "No."
    ));
}

#[test]
fn subject_is_the_sub_claim() {
    let step = exchange(None).tokens(tokens("{\"sub\":\"alice\",\"name\":\"Alice\"}")).unwrap();
    assert_eq!(step.subject, "alice");
    assert_eq!(step.provider.id, PROVIDER);
    assert_eq!(step.session.id, SESSION);
    assert_eq!(step.id_token.as_deref(), Some("raw"));
}

#[test]
fn subject_is_made_by_the_providers_template() {
    let claims = "{\"sub\":\"alice\",\"tenant\":7,\"groups\":[\"a\",\"b\"]}";
    for (template, subject) in [
        ("{{ user.tenant }}/{{ user.sub | upper }}", "7/ALICE"),
        ("{% for group in user.groups %}{{ group }};{% endfor %}", "a;b;"),
        ("fixed", "fixed"),
    ] {
        assert_eq!(exchange(Some(template)).tokens(tokens(claims)).unwrap().subject, subject);
    }
}

#[test]
fn subject_must_not_be_empty() {
    for (template, claims) in [
        (None, "{}"),
        (None, "{\"sub\":\"\"}"),
        (Some("{{ user.missing }}"), "{\"sub\":\"alice\"}"),
        (Some(""), "{\"sub\":\"alice\"}"),
    ] {
        let result = exchange(template).tokens(tokens(claims));
        assert!(matches!(result, Err(RouteError::EmptySubject)));
    }
    assert_eq!(accept_subject(Ok("x".to_owned())).unwrap(), "x");
    assert!(matches!(accept_subject(Ok(String::new())), Err(RouteError::EmptySubject)));
}

#[test]
fn template_must_render() {
    for template in [
        "{{ user.sub",
        "{{ user.a.b.c }}",
        "{{ user.sub | no_such_filter }}",
        "{% macro m() %}{{ m() }}{% endmacro %}{{ m() }}",
        "{%- call m() %}{% endcall %}",
        "{% block a %}{{ self.a() }}{% endblock %}",
        "{% for x in [1] %}{{ loop([x]) }}{% endfor %}",
    ] {
        let error = exchange(Some(template)).tokens(tokens("{\"sub\":\"alice\"}")).unwrap_err();
        assert!(matches!(error, RouteError::ExtractSubject(_)));
        assert_eq!(error.message(), "Could not extract subject from ID token");
        assert_eq!(error.status_code(), 400);
    }
}

#[test]
fn unsafe_templates_are_refused() {
    let claims = "{\"sub\":\"\",\"list\":[3,1],\"name\":\"batch\"}";
    for template in [
        "{{ user.sub[::-1] }}",
        "{{ 'abc'[0:2:-1] }}",
        "{{ [1, 2][user.list[0] : 1 : -1] }}",
        "{% for x in [1] %}{{ loop . cycle ( ) }}{% endfor %}",
        "{% for x in range(9, -9223372036854775807, -1) %}{% endfor %}",
        "{% set r = range %}{{ r(9, -9223372036854775807, -1) }}",
        "{% set n = namespace() %}{% set n.a = n %}{{ n }}",
        "{% for x in [1] recursive %}{{ loop([x]) }}{% endfor %}",
        "{% for x in [1] if 1. recursive %}{{ loop([x]) }}{% endfor %}",
        "{% for x in [1] if 1.e5recursive %}{{ loop([x]) }}{% endfor %}",
        "{% for x in [1] if 1recursive %}{{ loop([x]) }}{% endfor %}",
        "{{ [1, 2] * 9223372036854775807 }}",
        "{{ 1 is divisibleby(0) }}",
        "{{ 1 is divisibleby 0 }}",
        "{{ 170141183460469231731687303715884105728 is divisibleby(340282366920938463463374607431768211455) }}",
        "{{ [1]|select('divisibleby', 0) }}",
        "{{ [1]|select('divisible' ~ 'by', 0) }}",
        "{{ [1]|reject('divisible' 'by', 0) }}",
        "{{ [user]|selectattr('list', 'divisible' ~ 'by', 0) }}",
        "{{ user.list|batch(9223372036854775807) }}",
        "{{ user.list|slice(user.list[0]) }}",
        "{{ user.sub|indent(width=9223372036854775807) }}",
        "{{ '%99999999999999999d'|format(1) }}",
        "{{ '%(\u{e9})s'|format(user) }}",
        "{{ user.sub|format(1) }}",
        "{{ user.list|chain(5, 6)|min }}",
        "{{ [user.list]|map('bat' ~ 'ch', 2) }}",
        "{{ [user.list]|map(user.name) }}",
        "{{ [user.list]|map('b\\x61tch', 2) }}",
        "{{ [user.list]|map(1 == 1 and 'batch', 2) }}",
        "{% raw %}{{ \"{% endraw %}{{ user.sub[::-1] }}{{ \"\" }}",
    ] {
        assert!(!is_safe(template), "{template}");
        let error = exchange(Some(template)).tokens(tokens(claims)).unwrap_err();
        assert!(matches!(error, RouteError::ExtractSubject(_)), "{template}");
        assert_eq!(error.message(), "Could not extract subject from ID token");
        assert_eq!(error.status_code(), 400);
    }
}

#[test]
fn safe_templates_are_rendered() {
    let claims = "{\"sub\":\"alice\",\"list\":[3,1,2],\"range\":\"r\",\"macro\":\"m\",\"n\":6,\
        \"block\":[{\"sort\":\"s\"}],\"people\":[{\"name\":\"a\",\"age\":1},{\"name\":\"b\",\"age\":2}]}";
    for (template, subject) in [
        ("{{ user.range }}", "r"),
        ("{{ user.macro }}{{ user['range'] }}", "mr"),
        ("{{ user.block.0.sort }}", "s"),
        ("a macro, a block [::] * range {# x[::-1] #} { % }", "a macro, a block [::] * range  { % }"),
        ("{{ 'macro block [::] * range' }}", "macro block [::] * range"),
        ("urn:id:{{ user.sub }}", "urn:id:alice"),
        ("{{ user['sub'] }}: {{ user.n }}::", "alice: 6::"),
        ("{{ user.sub[1:] ~ user.sub[:2] }}", "liceal"),
        ("{{ user.list[:1][0] ~ {'a': 1, 'b': 2}['b'] }}", "32"),
        ("{{ {'a': {'b': 1}}}}", "{\"a\": {\"b\": 1}}"),
        ("{{ '}}' }}{{ \"it's\" }}{{ 'a\\'b' }}", "}}it'sa'b"),
        ("{{ user.list|sort }}", "[1, 2, 3]"),
        ("{{ user.list|sort(reverse=true)|first }}", "3"),
        ("{{ user.people|sort(attribute='age', reverse=true)|map(attribute='name')|join }}", "ba"),
        ("{% set x = 1 %}{% for i in range(9) %}{% set x = [x] %}{% endfor %}{{ x }}", "1"),
        ("{{ user.list|map('string')|join('-') }}", "3-1-2"),
        ("{{ user.people|map(attribute='name')|join }}", "ab"),
        ("{{ user.list|select('odd')|list }}", "[3, 1]"),
        ("{{ user.people|selectattr('age', 'gt', 1)|map(attribute='name')|first }}", "b"),
        ("{{ user.list|batch(2)|list }}", "[[3, 1], [2]]"),
        ("{{ user.list|slice(2)|list }}", "[[3, 1], [2]]"),
        ("{{ 'a\nb'|indent }}", "a\n    b"),
        ("{{ 'a\nb'|indent(2) }}", "a\n  b"),
        ("{{ '%s@%s'|format(user.sub, user.n) }}", "alice@6"),
        ("{{ user.n is divisibleby(3) }}", "True"),
        ("{% for i in range(3) %}{{ i }}{% endfor %}", "012"),
        ("{% for i in range(1, 3) %}{{ loop.cycle('a', 'b') }}{% endfor %}", "ab"),
        ("{{ user.n + 1 }}", "7"),
    ] {
        assert!(is_safe(template), "{template}");
        let step = exchange(Some(template)).tokens(tokens(claims));
        assert_eq!(step.unwrap().subject, subject, "{template}");
    }
    let long = "\u{e9}".repeat(MAX_TEMPLATE_LENGTH);
    assert_eq!(exchange(Some(&long)).tokens(tokens(claims)).unwrap().subject, long);
    assert!(!is_safe(&"x".repeat(MAX_TEMPLATE_LENGTH + 1)));
    assert!(!is_safe(&format!("{{{{ 1{} }}}}", "+1".repeat(MAX_ADDITIONS + 1))));
}

#[test]
fn longest_templates_do_not_exhaust_the_stack() {
    let filled = |start: &str, part: &str, end: &str| {
        let template = |parts: usize| format!("{start}{}{end}", part.repeat(parts));
        let mut parts = 0;
        while is_safe(&template(parts + 1)) {
            parts += 1;
        }
        assert!(parts <= MAX_TOKENS);
        let claims = tokens("{\"sub\":\"alice\",\"a\":[]}");
        exchange(Some(&template(parts))).tokens(claims).is_ok()
    };
    assert!(filled("{{ ", "-", "1 }}"));
    assert!(filled("{{ ", "not ", "1 }}"));
    assert!(filled("{{ 1", "+1", " }}"));
    assert!(filled("{{ user.sub", "~1", " }}"));
    assert!(filled("{{ user.sub", "|e", " }}"));
    assert!(filled("{{ user.sub", "|d", " }}"));
    assert!(filled("{{ [user.a]", "|zip", " }}"));
    assert!(filled("{{ 1", " if 1 else 1", " }}"));
    assert!(!filled("{{ ", "(", " }}"));
    assert!(!filled("{{ ", "[", " }}"));
    assert!(!filled("{% set ", "(", " %}"));
    assert!(!filled("{{ user.sub", ".a", " }}"));
    assert!(!filled("{{ user.sub", "()", " }}"));
    assert!(filled("{%set x=1%}", "{%set x=[x]%}", "{{ x }}"));
    assert!(filled("{%set x=1%}", "{%set x=[x]%}", "{{ x|pprint }}"));
    assert!(filled("{%set x=1%}", "{%set x=[x]%}", "{{ debug() }}"));
    assert!(filled("{%set x=1%}", "{%set x={x:[[[[[[x]]]]]]}%}", "{{ [x, x]|sort == [x] < [x] }}"));
    assert!(filled("{%set x=[1]%}", "{%set x=x[:]%}", "{{ x|length }}{{ x }}"));
    assert!(filled("{%set x=1%}", "{%set x=[[[[[[[[[x]]]]]]]]]%}", "{{ x }}"));
    assert!(filled("{%if 0%}", "{%elif 0%}", "{%else%}x{%endif%}"));
    assert!(!filled("", "{%if 1%}", "{{ 1 }}"));
    assert!(!filled("", "{%for x in [1]%}", "{{ 1 }}"));
}

#[test]
fn id_token_is_needed() {
    let none = Tokens { claims: None, id_token: None };
    assert!(matches!(exchange(None).tokens(none), Err(RouteError::MissingIDToken)));
    assert!(Claims::parse("{\"sub\":".to_owned()).is_err());
}

#[test]
fn existing_link_is_used_again() {
    let step = exchange(None).tokens(tokens("{\"sub\":\"alice\"}")).unwrap();
    let LinkStep::Complete(complete) = step.link(Some(UpstreamOAuthLink { id: LINK })) else {
        panic!("a second link")
    };
    assert_eq!((complete.session.id, complete.link.id), (SESSION, LINK));
    assert_eq!(complete.id_token.as_deref(), Some("raw"));
}

#[test]
fn missing_link_is_added() {
    let step = exchange(None).tokens(tokens("{\"sub\":\"alice\"}")).unwrap();
    let LinkStep::Add(add) = step.link(None) else { panic!("no link") };
    assert_eq!((add.provider.id, add.subject.as_str()), (PROVIDER, "alice"));
    let complete = add.added(UpstreamOAuthLink { id: LINK });
    assert_eq!((complete.session.id, complete.link.id), (SESSION, LINK));
    assert_eq!(complete.id_token.as_deref(), Some("raw"));
}

#[test]
fn user_is_redirected_after_the_commit() {
    assert_eq!(
        finish(&session(), &UpstreamOAuthLink { id: LINK }),
        [
            FinishStep::AddLinkToCookie { session_id: SESSION, link_id: LINK },
            FinishStep::SaveCookie,
            FinishStep::Save,
            FinishStep::RedirectToLink { link_id: LINK },
        ]
    );
}

#[test]
fn errors_have_a_status_and_a_message() {
    for (error, status, message) in [
        (RouteError::SessionNotFound, 404, "Session not found"),
        (RouteError::ProviderNotFound, 404, "Provider not found"),
        (RouteError::ProviderMismatch, 400, "Provider mismatch"),
        (RouteError::AlreadyCompleted, 400, "Session already completed"),
        (RouteError::StateMismatch, 400, "State parameter mismatch"),
        (RouteError::MissingIDToken, 400, "Missing ID token"),
        (RouteError::EmptySubject, 400, "Subject is empty"),
        (RouteError::MissingCookie, 400, "Missing session cookie"),
        (RouteError::Internal("database is down".to_owned()), 500, "database is down"),
    ] {
        assert_eq!(error.status_code(), status);
        assert_eq!(error.message(), message);
    }
}
