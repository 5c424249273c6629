//! Deciding whether a client may write to a log index.
use vstd::prelude::*;
use vstd::string::*;
use crate::schemes::{allows, contains_string, AccessHashMap, LogMessage};
use crate::text::string_views;

verus! {

/// A refused write.
#[derive(Debug, PartialEq, Eq, Structural)]
pub enum AuthError {
    /// The index has rules and the password is not among them (HTTP 401).
    Unauthorized,
}

/// Whether the client with `password` may write to `index`. An index without
/// rules is open to everyone.
pub fn auth_client(ah: &AccessHashMap, index: &String, password: &String) -> (r: Result<
    (),
    AuthError,
>)
    ensures
        r is Ok <==> allows(ah.rules(), index@, password@),
        r matches Err(e) ==> e == AuthError::Unauthorized,
{
    match ah.passwords(index) {
        Some(p) => {
            if !contains_string(p, password) {
                Err(AuthError::Unauthorized)
            } else {
                Ok(())
            }
        },
        None => Ok(()),
    }
}

/// `str::to_lowercase` of `s`.
pub uninterp spec fn lowercase(s: Seq<char>) -> Seq<char>;

/// `str::to_lowercase`: the Unicode lower case of `s`, a function of `s`
/// alone; its tables are left unstated.
#[verifier::external_body]
pub(crate) fn to_lowercase(s: &str) -> (r: String)
    ensures
        r@ == lowercase(s@),
{
    s.to_lowercase()
}

/// What the token check does with a request.
#[derive(Debug, PartialEq, Eq, Structural)]
pub enum AuthOutcome {
    /// Pass the request on to the service.
    Forward,
    /// The request is not JSON (HTTP 415).
    UnsupportedMediaType,
    /// The body is not a log message (HTTP 400).
    BadRequest,
    /// The token does not open the index (HTTP 401).
    Unauthorized,
}

/// The token check on a request whose content type, in lower case, is
/// `lower_content_type` and, where the body reads as a log message, with its
/// index and token.
pub open spec fn decision_spec(
    lower_content_type: Seq<char>,
    message: Option<(Seq<char>, Seq<char>)>,
    rules: Map<Seq<char>, Seq<Seq<char>>>,
) -> AuthOutcome {
    if lower_content_type != "application/json"@ {
        AuthOutcome::UnsupportedMediaType
    } else {
        match message {
            None => AuthOutcome::BadRequest,
            Some((index, token)) => if allows(rules, index, token) {
                AuthOutcome::Forward
            } else {
                AuthOutcome::Unauthorized
            },
        }
    }
}

/// The token check on a request with the given content type.
pub open spec fn token_outcome(
    content_type: Seq<char>,
    message: Option<(Seq<char>, Seq<char>)>,
    rules: Map<Seq<char>, Seq<Seq<char>>>,
) -> AuthOutcome {
    decision_spec(lowercase(content_type), message, rules)
}

pub open spec fn message_view(m: Option<&LogMessage>) -> Option<(Seq<char>, Seq<char>)> {
    match m {
        Some(m) => Some((m.index@, m.token@)),
        None => None,
    }
}

/// The token check placed in front of the write service.
pub struct TokenAuth;

/// The token check wrapped around a service.
#[derive(Clone)]
pub struct TokenAuthMiddleware<S> {
    service: S,
}

impl TokenAuth {
    /// Wraps `service` in the token check.
    pub fn new_transform<S>(&self, service: S) -> (r: TokenAuthMiddleware<S>)
        ensures
            r.inner() == service,
    {
        TokenAuthMiddleware { service }
    }
}

impl<S> TokenAuthMiddleware<S> {
    pub closed spec fn inner(&self) -> S {
        self.service
    }

    /// The wrapped service.
    pub fn service(&self) -> (r: &S)
        ensures
            *r == self.inner(),
    {
        &self.service
    }

    /// What to do with a request: refuse it unless its content type is JSON
    /// (in any case), its body reads as a log message, and the message's token
    /// opens its index.
    pub fn call(&self, content_type: &str, message: Option<&LogMessage>, rules: &AccessHashMap) -> (r:
        AuthOutcome)
        ensures
            r == token_outcome(content_type@, message_view(message), rules.rules()),
    {
        let lower = to_lowercase(content_type);
        token_decision(lower.as_str(), message, rules)
    }
}

/// A request that the token check forwards carries a log message whose
/// token `auth_client` accepts for its index.
pub proof fn forwarded_requests_pass_auth(
    content_type: Seq<char>,
    message: Option<(Seq<char>, Seq<char>)>,
    rules: Map<Seq<char>, Seq<Seq<char>>>,
)
    ensures
        token_outcome(content_type, message, rules) == AuthOutcome::Forward ==> (message matches Some(
            (index, token),
        ) && allows(rules, index, token)),
{
}

/// The token check once the content type is in lower case: refuse the request
/// unless it is `application/json`, its body reads as a log message, and the
/// message's token opens its index.
pub fn token_decision(lower_content_type: &str, message: Option<&LogMessage>, rules: &AccessHashMap) -> (r:
    AuthOutcome)
    ensures
        r == decision_spec(lower_content_type@, message_view(message), rules.rules()),
{
    let lower = String::from_str(lower_content_type);
    let json = String::from_str("application/json");
    if lower != json {
        return AuthOutcome::UnsupportedMediaType;
    }
    match message {
        None => AuthOutcome::BadRequest,
        Some(m) => match auth_client(rules, &m.index, &m.token) {
            Ok(()) => AuthOutcome::Forward,
            Err(_) => AuthOutcome::Unauthorized,
        },
    }
}

/// For a JSON request that carries a log message, the token check forwards it
/// exactly when the message's index has no access rules or its token is one
/// of the index's passwords, and refuses it as unauthorised otherwise: a
/// message for an index without rules is forwarded whatever its token.
pub proof fn json_message_forwarded_iff_token_opens(
    index: Seq<char>,
    token: Seq<char>,
    rules: Map<Seq<char>, Seq<Seq<char>>>,
)
    ensures
        decision_spec("application/json"@, Some((index, token)), rules) == AuthOutcome::Forward
            <==> (!rules.contains_key(index) || rules[index].contains(token)),
        decision_spec("application/json"@, Some((index, token)), rules) != AuthOutcome::Forward
            ==> decision_spec("application/json"@, Some((index, token)), rules)
            == AuthOutcome::Unauthorized,
        !rules.contains_key(index) ==> decision_spec(
            "application/json"@,
            Some((index, token)),
            rules,
        ) == AuthOutcome::Forward,
{
}

/// Whatever the message, a request whose content type is not JSON is refused
/// as such, and a JSON request whose body is not a log message is a bad
/// request.
pub proof fn non_messages_refused(
    lower_content_type: Seq<char>,
    message: Option<(Seq<char>, Seq<char>)>,
    rules: Map<Seq<char>, Seq<Seq<char>>>,
)
    ensures
        lower_content_type != "application/json"@ ==> decision_spec(
            lower_content_type,
            message,
            rules,
        ) == AuthOutcome::UnsupportedMediaType,
        decision_spec("application/json"@, None, rules) == AuthOutcome::BadRequest,
{
}

} // verus!
