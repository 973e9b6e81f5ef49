//! Which origins, methods and headers may use the embedded service from a
//! browser.

use vstd::prelude::*;
use vstd::string::*;
use crate::config::{texts, AWConfig, ConfigView};

verus! {

/// The ten decimal digits.
pub open spec fn digits() -> Seq<char> {
    seq!['0', '1', '2', '3', '4', '5', '6', '7', '8', '9']
}

/// `n` in decimal, without leading zeros.
pub open spec fn decimal(n: nat) -> Seq<char>
    decreases n,
{
    if n < 10 {
        seq![digits()[n as int]]
    } else {
        decimal(n / 10) + seq![digits()[(n % 10) as int]]
    }
}

/// The origin of a service on this host, under the name `host`.
pub open spec fn origin_on(host: Seq<char>, port: nat) -> Seq<char> {
    "http://"@ + host + ":"@ + decimal(port)
}

/// The origins that may use the service and are matched exactly: the
/// service's own, under both names of this host; those the configuration
/// adds; the two well-known ports; and in test mode the test port.
pub open spec fn exact_origins(config: ConfigView) -> Seq<Seq<char>> {
    seq![
        origin_on("127.0.0.1"@, config.port as nat),
        origin_on("localhost"@, config.port as nat),
    ] + config.cors + seq![
        "http://localhost:5600"@,
        "http://localhost:5601"@,
        "http://127.0.0.1:5600"@,
        "http://127.0.0.1:5601"@,
    ] + if config.testing {
        seq!["http://127.0.0.1:27180"@, "http://localhost:27180"@]
    } else {
        Seq::<Seq<char>>::empty()
    }
}

/// The origins that may use the service and are matched by a regular
/// expression: one browser extension by its name, every extension of the
/// browser that gives each copy a name of its own, and in test mode every
/// extension.
pub open spec fn regex_origins(testing: bool) -> Seq<Seq<char>> {
    seq!["chrome-extension://nglaklhklhcoonedhgnpgddginnjdadi"@, "moz-extension://.*"@] + if testing {
        seq!["chrome-extension://.*"@]
    } else {
        Seq::<Seq<char>>::empty()
    }
}

/// A method of a request.
#[derive(Clone, Copy, Debug, PartialEq, Eq, Structural)]
pub enum HttpMethod {
    Get,
    Post,
    Delete,
}

/// Which headers a request may carry.
pub enum HeaderRule {
    /// Any header.
    All,
    /// These headers and no others.
    Only(Vec<String>),
}

/// Who may use the service from a browser, and how.
pub struct CorsPolicy {
    /// Origins matched exactly.
    pub allowed_exact_origins: Vec<String>,
    /// Origins matched by a regular expression.
    pub allowed_regex_origins: Vec<String>,
    /// The methods a request may use.
    pub allowed_methods: Vec<HttpMethod>,
    /// The headers a request may carry.
    pub allowed_headers: HeaderRule,
    /// Whether a request may carry credentials.
    pub allow_credentials: bool,
}

/// One decimal digit, as text.
fn digit_text(d: u16) -> (text: &'static str)
    requires
        d < 10,
    ensures
        text@ == seq![digits()[d as int]],
{
    proof {
        reveal_strlit("0");
        reveal_strlit("1");
        reveal_strlit("2");
        reveal_strlit("3");
        reveal_strlit("4");
        reveal_strlit("5");
        reveal_strlit("6");
        reveal_strlit("7");
        reveal_strlit("8");
        reveal_strlit("9");
    }
    let text = if d == 0 {
        "0"
    } else if d == 1 {
        "1"
    } else if d == 2 {
        "2"
    } else if d == 3 {
        "3"
    } else if d == 4 {
        "4"
    } else if d == 5 {
        "5"
    } else if d == 6 {
        "6"
    } else if d == 7 {
        "7"
    } else if d == 8 {
        "8"
    } else {
        "9"
    };
    assert(text@ =~= seq![digits()[d as int]]);
    text
}

/// A port in decimal.
pub fn port_text(port: u16) -> (text: String)
    ensures
        text@ == decimal(port as nat),
    decreases port,
{
    if port < 10 {
        digit_text(port).to_owned()
    } else {
        let mut text = port_text(port / 10);
        text.append(digit_text(port % 10));
        text
    }
}

/// The origin of the service on `port` of this host, under the name `host`.
pub fn origin(host: &str, port: u16) -> (text: String)
    ensures
        text@ == origin_on(host@, port as nat),
{
    let mut text = "http://".to_owned();
    text.append(host);
    text.append(":");
    text.append(port_text(port).as_str());
    text
}

/// The origins that are matched exactly.
pub fn allowed_exact_origins(config: &AWConfig) -> (origins: Vec<String>)
    ensures
        texts(origins@) == exact_origins(config@),
{
    let mut origins: Vec<String> = Vec::new();
    origins.push(origin("127.0.0.1", config.port));
    origins.push(origin("localhost", config.port));
    let ghost own = texts(origins@);
    assert(own =~= seq![
        origin_on("127.0.0.1"@, config.port as nat),
        origin_on("localhost"@, config.port as nat),
    ]);
    let mut at: usize = 0;
    while at < config.cors.len()
        invariant
            at <= config.cors@.len(),
            texts(origins@) =~= own + texts(config.cors@).take(at as int),
        decreases config.cors@.len() - at,
    {
        let ghost before = origins@;
        let added = config.cors[at].clone();
        origins.push(added);
        proof {
            assert(texts(origins@) =~= texts(before).push(added@));
            assert(texts(config.cors@).take(at + 1) =~= texts(config.cors@).take(at as int).push(
                added@,
            ));
        }
        at = at + 1;
    }
    assert(texts(config.cors@).take(at as int) =~= texts(config.cors@));
    origins.push("http://localhost:5600".to_owned());
    origins.push("http://localhost:5601".to_owned());
    origins.push("http://127.0.0.1:5600".to_owned());
    origins.push("http://127.0.0.1:5601".to_owned());
    if config.testing {
        origins.push("http://127.0.0.1:27180".to_owned());
        origins.push("http://localhost:27180".to_owned());
    }
    assert(texts(origins@) =~= exact_origins(config@));
    origins
}

/// The origins that are matched by a regular expression.
pub fn allowed_regex_origins(testing: bool) -> (origins: Vec<String>)
    ensures
        texts(origins@) == regex_origins(testing),
{
    let mut origins: Vec<String> = Vec::new();
    origins.push("chrome-extension://nglaklhklhcoonedhgnpgddginnjdadi".to_owned());
    origins.push("moz-extension://.*".to_owned());
    if testing {
        origins.push("chrome-extension://.*".to_owned());
    }
    assert(texts(origins@) =~= regex_origins(testing));
    origins
}

/// Who may use a service with this configuration from a browser: the
/// origins above, with the methods that read, write and delete, with any
/// header, and without credentials.
pub fn cors_policy(config: &AWConfig) -> (policy: CorsPolicy)
    ensures
        texts(policy.allowed_exact_origins@) == exact_origins(config@),
        texts(policy.allowed_regex_origins@) == regex_origins(config.testing),
        policy.allowed_methods@ == seq![HttpMethod::Get, HttpMethod::Post, HttpMethod::Delete],
        policy.allowed_headers is All,
        !policy.allow_credentials,
{
    let mut methods: Vec<HttpMethod> = Vec::new();
    methods.push(HttpMethod::Get);
    methods.push(HttpMethod::Post);
    methods.push(HttpMethod::Delete);
    assert(methods@ =~= seq![HttpMethod::Get, HttpMethod::Post, HttpMethod::Delete]);
    CorsPolicy {
        allowed_exact_origins: allowed_exact_origins(config),
        allowed_regex_origins: allowed_regex_origins(config.testing),
        allowed_methods: methods,
        allowed_headers: HeaderRule::All,
        allow_credentials: false,
    }
}

#[verifier::external_type_specification]
#[verifier::external_body]
pub struct ExCors(rocket_cors::Cors);

#[verifier::external_type_specification]
#[verifier::external_body]
pub struct ExMethod(rocket_cors::Method);

/// `rocket_cors::Method::from`, on the method of `rocket::http` that
/// `method` names.
#[verifier::external_body]
fn method_of(method: &HttpMethod) -> rocket_cors::Method {
    match method {
        HttpMethod::Get => rocket_cors::Method::from(rocket::http::Method::Get),
        HttpMethod::Post => rocket_cors::Method::from(rocket::http::Method::Post),
        HttpMethod::Delete => rocket_cors::Method::from(rocket::http::Method::Delete),
    }
}

/// Whether `rocket_cors::CorsOptions::to_cors` makes rules of these
/// origins. It does where every exact origin is a URL whose origin has a
/// scheme, a host and a port, and every regular expression compiles; the
/// methods, the headers and the credentials of a policy do not enter into
/// it, nor does the order of the origins.
pub uninterp spec fn cors_accepts(exact: Seq<Seq<char>>, regex: Seq<Seq<char>>) -> bool;

/// `rocket_cors::CorsOptions::to_cors`, on the options that
/// `rocket_cors::AllowedOrigins::some` and `rocket_cors::AllowedHeaders`
/// make of the policy, field by field. Whether it
/// succeeds is decided by the origins alone, as `cors_accepts` names it.
/// The failure is given by its text, of which nothing is claimed: it names
/// the origins at fault in an order that is not fixed. Nothing is claimed
/// of the rules that come back either.
#[verifier::external_body]
fn to_cors(policy: &CorsPolicy) -> (made: Result<rocket_cors::Cors, String>)
    ensures
        made is Ok <==> cors_accepts(
            texts(policy.allowed_exact_origins@),
            texts(policy.allowed_regex_origins@),
        ),
{
    rocket_cors::CorsOptions {
        allowed_origins: rocket_cors::AllowedOrigins::some(
            &policy.allowed_exact_origins,
            &policy.allowed_regex_origins,
        ),
        allowed_methods: policy.allowed_methods.iter().map(method_of).collect(),
        allowed_headers: match &policy.allowed_headers {
            HeaderRule::All => rocket_cors::AllowedHeaders::all(),
            HeaderRule::Only(names) => rocket_cors::AllOrSome::Some(
                names.iter().map(|name| name.clone().into()).collect(),
            ),
        },
        allow_credentials: policy.allow_credentials,
        ..Default::default()
    }.to_cors().map_err(|error| error.to_string())
}

/// The rules of the service with this configuration, ready for the web
/// framework. They are made of the origins that `exact_origins` and
/// `regex_origins` list for the configuration, and exactly where the web
/// framework accepts those: an origin that the configuration adds and
/// that is no URL is refused, with the reason as text.
pub fn cors(config: &AWConfig) -> (rules: Result<rocket_cors::Cors, String>)
    ensures
        rules is Ok <==> cors_accepts(exact_origins(config@), regex_origins(config.testing)),
{
    let policy = cors_policy(config);
    to_cors(&policy)
}

} // verus!
