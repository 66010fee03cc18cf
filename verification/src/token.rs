use vstd::prelude::*;

use crate::error::{from_core, BindingError};
use crate::text::{decimal_text, digit_char, string_views, text_equals};

verus! {

/// The HMAC algorithms a token manager can be created with.
#[derive(Debug, Clone, Copy, PartialEq, Eq, Structural)]
pub enum JwtAlgorithm {
    HS256,
    HS384,
    HS512,
}

/// The name under which each algorithm is selected.
pub open spec fn algorithm_name(a: JwtAlgorithm) -> Seq<char> {
    match a {
        JwtAlgorithm::HS256 => seq!['H', 'S', '2', '5', '6'],
        JwtAlgorithm::HS384 => seq!['H', 'S', '3', '8', '4'],
        JwtAlgorithm::HS512 => seq!['H', 'S', '5', '1', '2'],
    }
}

/// The algorithm selected by `name`, if any.
pub open spec fn spec_algorithm_from_name(name: Seq<char>) -> Option<JwtAlgorithm> {
    if name == algorithm_name(JwtAlgorithm::HS256) {
        Some(JwtAlgorithm::HS256)
    } else if name == algorithm_name(JwtAlgorithm::HS384) {
        Some(JwtAlgorithm::HS384)
    } else if name == algorithm_name(JwtAlgorithm::HS512) {
        Some(JwtAlgorithm::HS512)
    } else {
        None
    }
}

/// Each algorithm is selected by its own name, and by no other algorithm's.
pub proof fn lemma_algorithm_names_select(a: JwtAlgorithm)
    ensures
        spec_algorithm_from_name(algorithm_name(a)) == Some(a),
{
    let n256 = algorithm_name(JwtAlgorithm::HS256);
    let n384 = algorithm_name(JwtAlgorithm::HS384);
    let n512 = algorithm_name(JwtAlgorithm::HS512);
    assert(n256[2] != n384[2]);
    assert(n256[2] != n512[2]);
    assert(n384[2] != n512[2]);
}

/// Only the three HMAC names select an algorithm, each the one it names;
/// every other name (an asymmetric algorithm such as `RS384` among them)
/// selects none.
pub proof fn lemma_only_hmac_names_select(name: Seq<char>)
    ensures
        spec_algorithm_from_name(name) matches Some(a) ==> name == algorithm_name(a),
        spec_algorithm_from_name(name) is Some <==> {
            ||| name == seq!['H', 'S', '2', '5', '6']
            ||| name == seq!['H', 'S', '3', '8', '4']
            ||| name == seq!['H', 'S', '5', '1', '2']
        },
        spec_algorithm_from_name(seq!['H', 'S', '2', '5', '6']) == Some(JwtAlgorithm::HS256),
        spec_algorithm_from_name(seq!['H', 'S', '3', '8', '4']) == Some(JwtAlgorithm::HS384),
        spec_algorithm_from_name(seq!['H', 'S', '5', '1', '2']) == Some(JwtAlgorithm::HS512),
{
    lemma_algorithm_names_select(JwtAlgorithm::HS256);
    lemma_algorithm_names_select(JwtAlgorithm::HS384);
    lemma_algorithm_names_select(JwtAlgorithm::HS512);
}

/// Selects the signing algorithm named `name`; any name other than
/// `HS256`, `HS384` and `HS512` is refused.
pub fn algorithm_from_str(name: &str) -> (r: Result<JwtAlgorithm, BindingError>)
    ensures
        match spec_algorithm_from_name(name@) {
            Some(a) => r == Ok::<JwtAlgorithm, BindingError>(a),
            None => r matches Err(BindingError::UnsupportedAlgorithm { name: n }) && n@ == name@,
        },
        r matches Ok(a) ==> name@ == algorithm_name(a),
        r is Ok <==> (name@ == "HS256"@ || name@ == "HS384"@ || name@ == "HS512"@),
{
    proof {
        reveal_strlit("HS256");
        reveal_strlit("HS384");
        reveal_strlit("HS512");
        assert("HS256"@ =~= algorithm_name(JwtAlgorithm::HS256));
        assert("HS384"@ =~= algorithm_name(JwtAlgorithm::HS384));
        assert("HS512"@ =~= algorithm_name(JwtAlgorithm::HS512));
    }
    if text_equals(name, "HS256") {
        Ok(JwtAlgorithm::HS256)
    } else if text_equals(name, "HS384") {
        Ok(JwtAlgorithm::HS384)
    } else if text_equals(name, "HS512") {
        Ok(JwtAlgorithm::HS512)
    } else {
        Err(BindingError::UnsupportedAlgorithm { name: String::from_str(name) })
    }
}

} // verus!

verus! {

/// `user_permission_core`'s JWT issuer and verifier.
#[verifier::external_type_specification]
#[verifier::external_body]
pub struct ExTokenManager(user_permission_core::TokenManager);

/// A JSON value of `serde_json`.
#[verifier::external_type_specification]
#[verifier::external_body]
pub struct ExJsonValue(serde_json::Value);

/// A JSON object of `serde_json`.
#[verifier::external_type_specification]
#[verifier::external_body]
#[verifier::reject_recursive_types(K)]
#[verifier::reject_recursive_types(V)]
pub struct ExJsonMap<K, V>(serde_json::Map<K, V>);

/// Lifetime of a token when the caller names none: one hour.
pub const DEFAULT_TOKEN_LIFETIME_SECS: u64 = 3600;

/// Longest lifetime handed to the token manager: it adds the lifetime to the
/// current UNIX time as a signed 64-bit number.
pub const MAX_TOKEN_LIFETIME_SECS: u64 = 0x3fff_ffff_ffff_ffff;

/// The lifetime, in whole seconds, that a token is issued for.
pub open spec fn spec_token_lifetime_secs(requested: Option<u64>) -> u64 {
    match requested {
        Some(secs) => secs,
        None => DEFAULT_TOKEN_LIFETIME_SECS,
    }
}

/// What `serde_json::from_str::<serde_json::Value>` makes of a text: `None`
/// when it refuses the text, `Some(None)` for a value other than an object,
/// and `Some(Some(members))` for an object, each key mapped to the compact
/// JSON text that `serde_json::to_string` writes for the value it read.
pub uninterp spec fn json_reading(text: Seq<char>) -> Option<Option<Map<Seq<char>, Seq<char>>>>;

/// The members of a `serde_json` object: each key mapped to the compact JSON
/// text (as `serde_json::to_string` writes it) of its value.
pub uninterp spec fn json_object_contents(m: serde_json::Map<String, serde_json::Value>) -> Map<Seq<char>, Seq<char>>;

/// The compact text `serde_json::to_string` writes for an object whose
/// members, each value written compactly, are `members`.
pub uninterp spec fn json_object_text_of(members: Map<Seq<char>, Seq<char>>) -> Seq<char>;

/// The lower-case hexadecimal digit for `d` (0 to 15).
pub open spec fn hex_digit(d: int) -> char {
    if d < 10 {
        digit_char(d)
    } else if d == 10 {
        'a'
    } else if d == 11 {
        'b'
    } else if d == 12 {
        'c'
    } else if d == 13 {
        'd'
    } else if d == 14 {
        'e'
    } else {
        'f'
    }
}

/// How `serde_json` writes the character `c` inside a string: quote and
/// backslash behind a backslash, the five common control characters by their
/// letter, every other control character below 0x20 as `\u00` and two
/// lower-case hexadecimal digits, and any other character as itself.
pub open spec fn json_char_text(c: char) -> Seq<char> {
    if c == '"' {
        seq!['\\', '"']
    } else if c == '\\' {
        seq!['\\', '\\']
    } else if c == '\u{8}' {
        seq!['\\', 'b']
    } else if c == '\u{c}' {
        seq!['\\', 'f']
    } else if c == '\n' {
        seq!['\\', 'n']
    } else if c == '\r' {
        seq!['\\', 'r']
    } else if c == '\t' {
        seq!['\\', 't']
    } else if (c as int) < 0x20 {
        seq!['\\', 'u', '0', '0', hex_digit((c as int) / 16), hex_digit((c as int) % 16)]
    } else {
        seq![c]
    }
}

/// The characters of `s`, each written as `serde_json` writes it in a string.
pub open spec fn json_escaped(s: Seq<char>) -> Seq<char>
    decreases s.len(),
{
    if s.len() == 0 {
        Seq::empty()
    } else {
        json_escaped(s.drop_last()) + json_char_text(s.last())
    }
}

/// The compact JSON text `serde_json` writes for the string `s`: its
/// characters, escaped, between double quotes.
pub open spec fn json_string_text(s: Seq<char>) -> Seq<char> {
    seq!['"'] + json_escaped(s) + seq!['"']
}

/// The text a JWT's middle (payload) segment encodes: the URL-safe base64
/// decoding of that segment, read as UTF-8.
pub uninterp spec fn token_payload(token: Seq<char>) -> Seq<char>;

/// Whether the JWT `token` is signed with `secret` under `algorithm`: its
/// header names the algorithm, and its signature segment is the algorithm's
/// HMAC, under the secret, of the header and payload segments.
pub uninterp spec fn token_signed(token: Seq<char>, secret: Seq<char>, algorithm: JwtAlgorithm) -> bool;

/// The secret a `user_permission_core` token manager signs with.
pub uninterp spec fn token_manager_secret(manager: user_permission_core::TokenManager) -> Seq<char>;

/// The HMAC algorithm a `user_permission_core` token manager signs with;
/// `None` when it holds an asymmetric algorithm, under which an HMAC secret
/// can neither sign nor verify.
pub uninterp spec fn token_manager_algorithm(manager: user_permission_core::TokenManager) -> Option<JwtAlgorithm>;

/// The members of the extra claims handed to `create_token`: those of the
/// object the text holds, and none when there is no text or it holds no object.
pub open spec fn extra_claims_members(extra_claims_json: Option<&str>) -> Map<Seq<char>, Seq<char>> {
    match extra_claims_json {
        Some(text) => match json_reading(text@) {
            Some(Some(members)) => members,
            _ => Map::empty(),
        },
        None => Map::empty(),
    }
}

/// The extra claims are exactly the members of the object the text reads as,
/// whatever its length; text that holds no object, and no text, add none.
pub proof fn lemma_extra_claims_are_the_object_read(text: &str)
    ensures
        json_reading(text@) matches Some(Some(members)) ==> extra_claims_members(Some(text)) == members,
        !(json_reading(text@) matches Some(Some(_))) ==> extra_claims_members(Some(text)) == Map::<
            Seq<char>,
            Seq<char>,
        >::empty(),
        extra_claims_members(None) == Map::<Seq<char>, Seq<char>>::empty(),
{
}

/// The claims of a token issued to user `user_id` named `username` at UNIX
/// time `now` for `lifetime` seconds, with the `extra` claims laid over them.
pub open spec fn user_token_claims(
    user_id: int,
    username: Seq<char>,
    now: int,
    lifetime: int,
    extra: Map<Seq<char>, Seq<char>>,
) -> Map<Seq<char>, Seq<char>> {
    Map::<Seq<char>, Seq<char>>::empty()
        .insert("sub"@, json_string_text(decimal_text(user_id)))
        .insert("username"@, json_string_text(username))
        .insert("iat"@, decimal_text(now))
        .insert("exp"@, decimal_text(now + lifetime))
        .union_prefer_right(extra)
}

/// The scopes joined by single spaces.
pub open spec fn join_scopes(scopes: Seq<Seq<char>>) -> Seq<char>
    decreases scopes.len(),
{
    if scopes.len() == 0 {
        Seq::empty()
    } else if scopes.len() == 1 {
        scopes[0]
    } else {
        join_scopes(scopes.drop_last()) + seq![' '] + scopes.last()
    }
}

/// The claims of a token issued to the service client `client_id` with
/// `scopes` at UNIX time `now` for `lifetime` seconds.
pub open spec fn service_token_claims(
    client_id: Seq<char>,
    scopes: Seq<Seq<char>>,
    now: int,
    lifetime: int,
) -> Map<Seq<char>, Seq<char>> {
    Map::<Seq<char>, Seq<char>>::empty()
        .insert("sub"@, json_string_text("service:"@ + client_id))
        .insert("client_id"@, json_string_text(client_id))
        .insert("kind"@, json_string_text("service"@))
        .insert("scope"@, json_string_text(join_scopes(scopes)))
        .insert("iat"@, decimal_text(now))
        .insert("exp"@, decimal_text(now + lifetime))
}

/// Calls `user_permission_core::TokenManager::new` with the `jsonwebtoken`
/// algorithm that `algorithm` stands for. Claims: the manager signs with
/// `secret` under that algorithm (the constructor stores both).
#[verifier::external_body]
fn new_core_token_manager(secret: &str, algorithm: JwtAlgorithm) -> (r: user_permission_core::TokenManager)
    ensures
        token_manager_secret(r) == secret@,
        token_manager_algorithm(r) == Some(algorithm),
{
    let algorithm = match algorithm {
        JwtAlgorithm::HS256 => jsonwebtoken::Algorithm::HS256,
        JwtAlgorithm::HS384 => jsonwebtoken::Algorithm::HS384,
        JwtAlgorithm::HS512 => jsonwebtoken::Algorithm::HS512,
    };
    user_permission_core::TokenManager::new(secret, algorithm)
}

/// Calls `serde_json::from_str::<serde_json::Value>` and keeps the object when
/// the text holds one. Claims: the parse fails exactly when `json_reading`
/// says the text is refused; an object is returned exactly when the text
/// holds one, with the members `json_reading` gives.
#[verifier::external_body]
fn parse_json_object(text: &str) -> (r: Result<Option<serde_json::Map<String, serde_json::Value>>, serde_json::Error>)
    ensures
        r is Err <==> json_reading(text@) is None,
        r matches Ok(o) ==> (o is Some <==> json_reading(text@) matches Some(Some(_))),
        r matches Ok(Some(m)) ==> json_reading(text@) == Some(Some(json_object_contents(m))),
{
    match serde_json::from_str::<serde_json::Value>(text) {
        Ok(serde_json::Value::Object(m)) => Ok(Some(m)),
        Ok(serde_json::Value::Null) => Ok(None),
        Ok(serde_json::Value::Bool(_)) => Ok(None),
        Ok(serde_json::Value::Number(_)) => Ok(None),
        Ok(serde_json::Value::String(_)) => Ok(None),
        Ok(serde_json::Value::Array(_)) => Ok(None),
        Err(e) => Err(e),
    }
}

/// Whether `c` belongs to the URL-safe base64 alphabet.
pub open spec fn is_base64url_char(c: char) -> bool {
    ||| ('A' <= c && c <= 'Z')
    ||| ('a' <= c && c <= 'z')
    ||| ('0' <= c && c <= '9')
    ||| c == '-'
    ||| c == '_'
}

/// Whether `s` is a non-empty run of URL-safe base64 characters.
pub open spec fn is_base64url_segment(s: Seq<char>) -> bool {
    &&& s.len() > 0
    &&& forall|k: int| 0 <= k < s.len() ==> #[trigger] is_base64url_char(s[k])
}

/// Whether `token` is a JWT in compact form: header, payload and signature,
/// each URL-safe base64 without padding, joined by dots.
pub open spec fn is_compact_jwt(token: Seq<char>) -> bool {
    exists|header: Seq<char>, payload: Seq<char>, signature: Seq<char>|
        #![trigger is_base64url_segment(header), is_base64url_segment(payload), is_base64url_segment(signature)]
        is_base64url_segment(header) && is_base64url_segment(payload) && is_base64url_segment(signature)
            && token == header + seq!['.'] + payload + seq!['.'] + signature
}

/// Calls `serde_json::to_string` on the object `claims`. Claims: writing
/// succeeds (a `Value` has only string keys and writes into memory), and the
/// text is the object written with its members.
#[verifier::external_body]
fn encode_json_object(claims: serde_json::Map<String, serde_json::Value>) -> (r: Result<String, serde_json::Error>)
    ensures
        r is Ok,
        r matches Ok(text) ==> text@ == json_object_text_of(json_object_contents(claims)),
{
    serde_json::to_string(&serde_json::Value::Object(claims))
}

/// Calls `user_permission_core::TokenManager::create_token` with a lifetime of
/// `expires_in_secs` seconds. The manager adds the lifetime to the current
/// time without an overflow check: the lifetime is bounded. Claims, from the
/// source of the manager and of `jsonwebtoken::encode`: the call fails
/// exactly when the manager holds an asymmetric algorithm (an HMAC key cannot
/// sign for it); a token is in compact form, signed with the manager's secret
/// and algorithm, and its payload is the object written with `sub` (the id in
/// decimal), `username`, `iat` (the time of the call) and `exp` (that time
/// plus the lifetime), with the extra claims laid over them. The time of the
/// call is not claimed.
#[verifier::external_body]
fn core_create_token(
    manager: &user_permission_core::TokenManager,
    user_id: i64,
    username: &str,
    expires_in_secs: u64,
    extra_claims: Option<&serde_json::Map<String, serde_json::Value>>,
) -> (r: Result<String, user_permission_core::Error>)
    requires
        expires_in_secs <= MAX_TOKEN_LIFETIME_SECS,
    ensures
        r is Ok <==> token_manager_algorithm(*manager) is Some,
        r matches Ok(token) ==> {
            &&& is_compact_jwt(token@)
            &&& token_signed(token@, token_manager_secret(*manager), token_manager_algorithm(*manager).unwrap())
            &&& exists|now: int|
                #![trigger decimal_text(now)]
                token_payload(token@) == json_object_text_of(user_token_claims(
                    user_id as int,
                    username@,
                    now,
                    expires_in_secs as int,
                    match extra_claims {
                        Some(m) => json_object_contents(*m),
                        None => Map::empty(),
                    },
                ))
        },
{
    manager.create_token(user_id, username, std::time::Duration::from_secs(expires_in_secs), extra_claims)
}

/// Calls `user_permission_core::TokenManager::create_service_token` with a
/// lifetime of `expires_in_secs` seconds. Claims, as for `core_create_token`:
/// the call fails exactly when the manager holds an asymmetric algorithm; a
/// token is in compact form, signed with the manager's secret and algorithm,
/// and its payload is the object written with `sub` (`service:` and the
/// client id), `client_id`, `kind` (`service`), `scope` (the scopes joined by
/// spaces), `iat` and `exp`.
#[verifier::external_body]
fn core_create_service_token(
    manager: &user_permission_core::TokenManager,
    client_id: &str,
    scopes: &Vec<String>,
    expires_in_secs: u64,
) -> (r: Result<String, user_permission_core::Error>)
    requires
        expires_in_secs <= MAX_TOKEN_LIFETIME_SECS,
    ensures
        r is Ok <==> token_manager_algorithm(*manager) is Some,
        r matches Ok(token) ==> {
            &&& is_compact_jwt(token@)
            &&& token_signed(token@, token_manager_secret(*manager), token_manager_algorithm(*manager).unwrap())
            &&& exists|now: int|
                #![trigger decimal_text(now)]
                token_payload(token@) == json_object_text_of(
                    Map::<Seq<char>, Seq<char>>::empty()
                        .insert("sub"@, json_string_text("service:"@ + client_id@))
                        .insert("client_id"@, json_string_text(client_id@))
                        .insert("kind"@, json_string_text("service"@))
                        .insert("scope"@, json_string_text(join_scopes(string_views(scopes@))))
                        .insert("iat"@, decimal_text(now))
                        .insert("exp"@, decimal_text(now + expires_in_secs)),
                )
        },
{
    manager.create_service_token(client_id, scopes, std::time::Duration::from_secs(expires_in_secs))
}

/// Calls `user_permission_core::TokenManager::verify_token`. Whether a token
/// is accepted depends on the current time (expiry), which is not claimed.
/// Claims, from the source of the manager and of `jsonwebtoken::decode`: an
/// accepted token is in compact form (its header, payload and signature each
/// decode, or compare equal, as URL-safe base64), is signed with the
/// manager's secret and algorithm, and the claims returned are what
/// `serde_json` reads from the token's payload.
#[verifier::external_body]
fn core_verify_token(
    manager: &user_permission_core::TokenManager,
    token: &str,
) -> (r: Result<serde_json::Map<String, serde_json::Value>, user_permission_core::Error>)
    ensures
        r matches Ok(claims) ==> {
            &&& is_compact_jwt(token@)
            &&& token_manager_algorithm(*manager) is Some
            &&& token_signed(token@, token_manager_secret(*manager), token_manager_algorithm(*manager).unwrap())
            &&& json_reading(token_payload(token@)) == Some(Some(json_object_contents(claims)))
        },
{
    manager.verify_token(token)
}

/// Whether `outcome` is a result that `user_permission_core`'s verification of
/// `token` by `manager` can give. Which one it gives depends on the clock as
/// well as on the token (an expired token is refused), so no single outcome
/// is named; every possible one is in compact form, signed and read as
/// `core_verify_token` states.
pub closed spec fn core_verification_may_give(
    manager: user_permission_core::TokenManager,
    token: &str,
    outcome: Result<serde_json::Map<String, serde_json::Value>, user_permission_core::Error>,
) -> bool {
    call_ensures(core_verify_token, (&manager, token), outcome)
}

/// What every outcome of the core's verification shows of the token: an
/// accepted token is in compact form, signed with the manager's secret and
/// algorithm, and its claims are the object read from its payload.
pub proof fn lemma_verification_outcomes(
    manager: user_permission_core::TokenManager,
    token: &str,
    outcome: Result<serde_json::Map<String, serde_json::Value>, user_permission_core::Error>,
)
    requires
        core_verification_may_give(manager, token, outcome),
    ensures
        outcome matches Ok(claims) ==> {
            &&& is_compact_jwt(token@)
            &&& token_manager_algorithm(manager) is Some
            &&& token_signed(token@, token_manager_secret(manager), token_manager_algorithm(manager).unwrap())
            &&& json_reading(token_payload(token@)) == Some(Some(json_object_contents(claims)))
        },
{
}

/// What `verify_token` answers for the `outcome` of the core's verification.
pub open spec fn verification_answers(
    outcome: Result<serde_json::Map<String, serde_json::Value>, user_permission_core::Error>,
    r: Result<String, BindingError>,
) -> bool {
    match outcome {
        Ok(claims) => r matches Ok(text) && text@ == json_object_text_of(json_object_contents(claims)),
        Err(e) => r == Err::<String, BindingError>(BindingError::Core(e)),
    }
}

/// Answers the outcome of the core's verification of a token: the accepted
/// claims written as JSON text, or the core's refusal unchanged. The answer is
/// `Ok` exactly when the core accepted the token.
pub fn claims_from_verification(
    outcome: Result<serde_json::Map<String, serde_json::Value>, user_permission_core::Error>,
) -> (r: Result<String, BindingError>)
    ensures
        verification_answers(outcome, r),
        r is Ok <==> outcome is Ok,
{
    match outcome {
        Ok(claims) => match encode_json_object(claims) {
            Ok(text) => Ok(text),
            Err(e) => Err(BindingError::ClaimsEncoding(e)),
        },
        Err(e) => Err(BindingError::Core(e)),
    }
}

/// The lifetime a token is issued for: the one requested, else one hour.
pub fn token_lifetime_secs(requested: Option<u64>) -> (r: u64)
    ensures
        r == spec_token_lifetime_secs(requested),
        requested matches Some(secs) ==> r == secs,
        requested is None ==> r == 3600,
{
    match requested {
        Some(secs) => secs,
        None => DEFAULT_TOKEN_LIFETIME_SECS,
    }
}

/// A requested lifetime is used as given, however long or short; only when
/// none is requested does a token live for one hour.
pub proof fn lemma_requested_lifetime_is_used(secs: u64)
    ensures
        spec_token_lifetime_secs(Some(secs)) == secs,
        spec_token_lifetime_secs(None) == 3600,
{
}

/// Issues and checks JWTs for users and service clients.
pub struct PyTokenManager {
    inner: user_permission_core::TokenManager,
}

impl PyTokenManager {
    /// Wraps a token manager that was obtained elsewhere (from a database, or
    /// from a secret file).
    pub fn from_inner(inner: user_permission_core::TokenManager) -> (r: Self)
        ensures
            r.manager() == inner,
    {
        PyTokenManager { inner }
    }

    /// The wrapped token manager.
    pub closed spec fn manager(self) -> user_permission_core::TokenManager {
        self.inner
    }

    /// The secret the manager signs with.
    pub open spec fn secret_text(self) -> Seq<char> {
        token_manager_secret(self.manager())
    }

    /// The HMAC algorithm the manager signs with, if it holds one.
    pub open spec fn algorithm(self) -> Option<JwtAlgorithm> {
        token_manager_algorithm(self.manager())
    }

    /// Creates a token manager that signs with `secret` under the algorithm
    /// named `algorithm`; an unknown algorithm name is refused.
    pub fn new(secret: &str, algorithm: &str) -> (r: Result<Self, BindingError>)
        ensures
            r is Ok <==> spec_algorithm_from_name(algorithm@) is Some,
            r is Err ==> (r matches Err(BindingError::UnsupportedAlgorithm { name }) && name@ == algorithm@),
            r matches Ok(m) ==> m.secret_text() == secret@ && m.algorithm() == spec_algorithm_from_name(
                algorithm@,
            ),
            r matches Ok(m) ==> m.algorithm() matches Some(a) && algorithm@ == algorithm_name(a),
            r is Ok <==> (algorithm@ == "HS256"@ || algorithm@ == "HS384"@ || algorithm@ == "HS512"@),
    {
        let algorithm = algorithm_from_str(algorithm)?;
        Ok(PyTokenManager { inner: new_core_token_manager(secret, algorithm) })
    }

    /// Issues a token for user `user_id` named `username`, valid for
    /// `expires_in_secs` seconds (one hour when none is given), carrying the
    /// claims of the JSON object `extra_claims_json` laid over the standard
    /// ones (`sub`, `username`, `iat`, `exp`). Text that is not JSON is
    /// refused; JSON that is not an object adds no claims. Issuing succeeds
    /// whenever the claims are accepted and the manager signs with an HMAC
    /// algorithm.
    pub fn create_token(
        &self,
        user_id: i64,
        username: &str,
        expires_in_secs: Option<u64>,
        extra_claims_json: Option<&str>,
    ) -> (r: Result<String, BindingError>)
        requires
            spec_token_lifetime_secs(expires_in_secs) <= MAX_TOKEN_LIFETIME_SECS,
        ensures
            extra_claims_json matches Some(t) && json_reading(t@) is None
                ==> r matches Err(BindingError::InvalidClaims(_)),
            r matches Err(e) ==> {
                ||| (e is Core && self.algorithm() is None)
                ||| (e is InvalidClaims && (extra_claims_json matches Some(t) && json_reading(t@) is None))
            },
            r matches Ok(token) ==> {
                &&& is_compact_jwt(token@)
                &&& self.algorithm() matches Some(a) && token_signed(token@, self.secret_text(), a)
                &&& exists|now: int|
                    #![trigger decimal_text(now)]
                    token_payload(token@) == json_object_text_of(user_token_claims(
                        user_id as int,
                        username@,
                        now,
                        spec_token_lifetime_secs(expires_in_secs) as int,
                        extra_claims_members(extra_claims_json),
                    ))
            },
            r matches Ok(token) ==> (extra_claims_json matches Some(t) ==> (json_reading(t@) matches Some(
                Some(members),
            ) ==> exists|now: int|
                #![trigger decimal_text(now)]
                token_payload(token@) == json_object_text_of(user_token_claims(
                    user_id as int,
                    username@,
                    now,
                    spec_token_lifetime_secs(expires_in_secs) as int,
                    members,
                )))),
            r matches Ok(token) ==> (extra_claims_json is None ==> exists|now: int|
                #![trigger decimal_text(now)]
                token_payload(token@) == json_object_text_of(user_token_claims(
                    user_id as int,
                    username@,
                    now,
                    spec_token_lifetime_secs(expires_in_secs) as int,
                    Map::empty(),
                ))),
            extra_claims_json matches Some(t) && json_reading(t@) is Some && self.algorithm() is Some
                ==> r is Ok,
            extra_claims_json is None && self.algorithm() is Some ==> r is Ok,
    {
        let lifetime = token_lifetime_secs(expires_in_secs);
        let extra = match extra_claims_json {
            Some(text) => match parse_json_object(text) {
                Ok(object) => object,
                Err(e) => return Err(BindingError::InvalidClaims(e)),
            },
            None => None,
        };
        let ghost members = match extra {
            Some(ref m) => json_object_contents(*m),
            None => Map::<Seq<char>, Seq<char>>::empty(),
        };
        assert(members == extra_claims_members(extra_claims_json));
        from_core(core_create_token(&self.inner, user_id, username, lifetime, extra.as_ref()))
    }

    /// Checks `token` and returns its claims: the object `serde_json` reads
    /// from the token's payload, written as JSON text. The answer is the one
    /// `claims_from_verification` gives for an outcome the core's verification
    /// of this very token can have: `Ok` exactly when the core accepts it, the
    /// core's refusal otherwise. An accepted token is in compact form and
    /// signed with the manager's secret and algorithm.
    pub fn verify_token(&self, token: &str) -> (r: Result<String, BindingError>)
        ensures
            exists|outcome: Result<serde_json::Map<String, serde_json::Value>, user_permission_core::Error>|
                #[trigger] core_verification_may_give(self.manager(), token, outcome)
                    && verification_answers(outcome, r),
            r matches Err(e) ==> e is Core,
            r matches Ok(text) ==> {
                &&& is_compact_jwt(token@)
                &&& json_reading(token_payload(token@)) matches Some(Some(claims))
                    && text@ == json_object_text_of(claims)
                &&& self.algorithm() matches Some(a) && token_signed(token@, self.secret_text(), a)
            },
    {
        let outcome = core_verify_token(&self.inner, token);
        proof {
            assert(core_verification_may_give(self.inner, token, outcome));
        }
        claims_from_verification(outcome)
    }

    /// Issues a token for the service client `client_id` carrying `scopes`,
    /// valid for `expires_in_secs` seconds (one hour when none is given).
    /// Issuing succeeds exactly when the manager signs with an HMAC algorithm.
    pub fn create_service_token(
        &self,
        client_id: &str,
        scopes: Vec<String>,
        expires_in_secs: Option<u64>,
    ) -> (r: Result<String, BindingError>)
        requires
            spec_token_lifetime_secs(expires_in_secs) <= MAX_TOKEN_LIFETIME_SECS,
        ensures
            r is Ok <==> self.algorithm() is Some,
            r matches Err(e) ==> e is Core,
            r matches Ok(token) ==> {
                &&& is_compact_jwt(token@)
                &&& self.algorithm() matches Some(a) && token_signed(token@, self.secret_text(), a)
                &&& exists|now: int|
                    #![trigger decimal_text(now)]
                    token_payload(token@) == json_object_text_of(service_token_claims(
                        client_id@,
                        string_views(scopes@),
                        now,
                        spec_token_lifetime_secs(expires_in_secs) as int,
                    ))
            },
    {
        let lifetime = token_lifetime_secs(expires_in_secs);
        from_core(core_create_service_token(&self.inner, client_id, &scopes, lifetime))
    }
}

/// What a token issued by `create_token` carries comes back from
/// `verify_token`: when `serde_json` reads the issued payload back as it was
/// written, the text `verify_token` returns is that same object, in which
/// every extra claim carries its value, and each standard claim that no extra
/// claim replaces carries the user id, the username, the issue time and an
/// expiry `lifetime` seconds after it.
pub proof fn lemma_issued_claims_come_back(
    token: Seq<char>,
    text: Seq<char>,
    user_id: int,
    username: Seq<char>,
    now: int,
    lifetime: int,
    extra: Map<Seq<char>, Seq<char>>,
)
    requires
        token_payload(token) == json_object_text_of(user_token_claims(user_id, username, now, lifetime, extra)),
        json_reading(json_object_text_of(user_token_claims(user_id, username, now, lifetime, extra)))
            == Some(Some(user_token_claims(user_id, username, now, lifetime, extra))),
        json_reading(token_payload(token)) matches Some(Some(claims)) && text == json_object_text_of(claims),
    ensures
        text == json_object_text_of(user_token_claims(user_id, username, now, lifetime, extra)),
        ({
            let claims = user_token_claims(user_id, username, now, lifetime, extra);
            &&& forall|k: Seq<char>| #[trigger] extra.contains_key(k) ==> claims.contains_key(k) && claims[k] == extra[k]
            &&& !extra.contains_key("sub"@) ==> claims["sub"@] == json_string_text(decimal_text(user_id))
            &&& !extra.contains_key("username"@) ==> claims["username"@] == json_string_text(username)
            &&& !extra.contains_key("iat"@) ==> claims["iat"@] == decimal_text(now)
            &&& !extra.contains_key("exp"@) ==> claims["exp"@] == decimal_text(now + lifetime)
        }),
{
    reveal_strlit("sub");
    reveal_strlit("username");
    reveal_strlit("iat");
    reveal_strlit("exp");
    let base = Map::<Seq<char>, Seq<char>>::empty()
        .insert("sub"@, json_string_text(decimal_text(user_id)))
        .insert("username"@, json_string_text(username))
        .insert("iat"@, decimal_text(now))
        .insert("exp"@, decimal_text(now + lifetime));
    assert("sub"@.len() != "username"@.len());
    assert("sub"@[0] != "iat"@[0]);
    assert("sub"@[0] != "exp"@[0]);
    assert("username"@.len() != "iat"@.len());
    assert("username"@.len() != "exp"@.len());
    assert("iat"@[0] != "exp"@[0]);
    assert(base["sub"@] == json_string_text(decimal_text(user_id)));
    assert(base["username"@] == json_string_text(username));
    assert(base["iat"@] == decimal_text(now));
}

} // verus!
