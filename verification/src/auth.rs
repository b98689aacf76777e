use vstd::prelude::*;

use crate::commands::{AuthCredentials, AuthorizeCommand};
use crate::digest::{auth_hash, compute_auth_hash, is_lower_hex_char};
use crate::error::MistError;

verus! {

/// Authentication status codes of the Mist API.
#[derive(Debug, Clone, Copy, PartialEq, Eq)]
pub enum AuthStatus {
    /// Authentication succeeded (`OK` on the wire).
    Okay,
    /// A challenge must be answered.
    Chall,
    /// No account was found.
    NoAcc,
    /// An account was created.
    AccMade,
}

/// The server's answer to an `authorize` command.
#[derive(Debug, Clone, PartialEq, Eq)]
pub struct AuthResponse {
    /// Status of the attempt.
    pub status: Option<AuthStatus>,
    /// Challenge to answer, when the status asks for one.
    pub challenge: Option<String>,
}

/// Whether a response asks for a challenge to be answered.
pub open spec fn response_needs_challenge(r: AuthResponse) -> bool {
    r.status == Some(AuthStatus::Chall)
}

impl AuthResponse {
    /// Whether the response asks for a challenge to be answered: its status is
    /// `Chall`.
    pub fn needs_challenge(&self) -> (res: bool)
        ensures
            res == response_needs_challenge(*self),
            res <==> self.status == Some(AuthStatus::Chall),
    {
        match self.status {
            Some(AuthStatus::Chall) => true,
            _ => false,
        }
    }
}

/// The answer to an `authorize` command, as the Mist API wraps it.
#[derive(Debug, Clone, PartialEq, Eq)]
pub struct AuthResponseWrapper {
    /// The answer itself.
    pub authorize: AuthResponse,
}

/// Result of an authentication attempt.
#[derive(Debug, Clone, PartialEq, Eq)]
pub enum AuthResult {
    /// The client has no credentials, so nothing was sent.
    NotRequired,
    /// The credentials were sent and the server answered.
    Required(AuthResponse),
}

/// Whether a result asks for a challenge to be answered.
pub open spec fn result_needs_challenge(result: AuthResult) -> bool {
    match result {
        AuthResult::Required(r) => response_needs_challenge(r),
        AuthResult::NotRequired => false,
    }
}

/// The challenge that a result asks to answer: the challenge of a response whose
/// status is `Chall`, and nothing otherwise.
pub open spec fn challenge_of(result: AuthResult) -> Option<String> {
    match result {
        AuthResult::Required(r) => if response_needs_challenge(r) {
            r.challenge
        } else {
            None
        },
        AuthResult::NotRequired => None,
    }
}

impl AuthResult {
    /// Whether the server asked for a challenge to be answered.
    pub fn needs_challenge(&self) -> (res: bool)
        ensures
            res == result_needs_challenge(*self),
            res <==> (self matches AuthResult::Required(r) && r.status == Some(AuthStatus::Chall)),
    {
        match self {
            AuthResult::Required(response) => response.needs_challenge(),
            AuthResult::NotRequired => false,
        }
    }

    /// The challenge to answer, if the server asked for one.
    pub fn challenge(&self) -> (res: Option<String>)
        ensures
            res == challenge_of(*self),
            self is NotRequired ==> res is None,
            self matches AuthResult::Required(r) ==> res == (if r.status == Some(AuthStatus::Chall) {
                r.challenge
            } else {
                None
            }),
    {
        match self {
            AuthResult::Required(response) => {
                if response.needs_challenge() {
                    match &response.challenge {
                        Some(c) => Some(c.clone()),
                        None => None,
                    }
                } else {
                    None
                }
            },
            AuthResult::NotRequired => None,
        }
    }
}

/// The first `authorize` command of a login: the user name and the password as
/// they are; none when the client has no credentials, since the server then
/// needs no login.
pub fn password_command(auth: &Option<(String, String)>) -> (res: Option<AuthorizeCommand>)
    ensures
        auth is None <==> res is None,
        auth matches Some(creds) ==> res == Some(
            AuthorizeCommand {
                authorize: AuthCredentials { username: creds.0, password: creds.1 },
            },
        ),
{
    match auth {
        Some((username, password)) => Some(
            AuthorizeCommand::new(
                AuthCredentials { username: username.clone(), password: password.clone() },
            ),
        ),
        None => None,
    }
}

/// Whether `s` has the shape of an answer to a challenge: 32 lower-case
/// hexadecimal digits, the text of an MD5 digest.
pub open spec fn is_challenge_answer(s: Seq<char>) -> bool {
    &&& s.len() == 32
    &&& forall|i: int| 0 <= i < s.len() ==> is_lower_hex_char(#[trigger] s[i])
}

/// The `authorize` command that answers `challenge` for `username` and
/// `password`: the user name, and in place of the password the answer
/// `md5hex(md5hex(password) + challenge)`.
fn answer_command(username: &String, password: &String, challenge: &str) -> (res: AuthorizeCommand)
    ensures
        res.authorize.username == *username,
        res.authorize.password@ == auth_hash(password@, challenge@),
        is_challenge_answer(res.authorize.password@),
{
    let hash = compute_auth_hash(password.as_str(), challenge);
    AuthorizeCommand::new(AuthCredentials { username: username.clone(), password: hash })
}

/// The `authorize` command that answers `challenge`, for a login driven by a
/// client: the user name, and in place of the password the answer
/// `md5hex(md5hex(password) + challenge)`. Without credentials there is nothing
/// to answer with, and that is an error that says a challenge was being answered.
pub fn challenge_command(auth: &Option<(String, String)>, challenge: &str) -> (res: Result<
    AuthorizeCommand,
    MistError,
>)
    ensures
        auth is None ==> (res matches Err(MistError::Auth(m)) && m@
            == "authentication is not configured but trying to perform auth challenge"@),
        auth matches Some(creds) ==> (res matches Ok(cmd) && cmd.authorize.username == creds.0
            && cmd.authorize.password@ == auth_hash(creds.1@, challenge@)
            && is_challenge_answer(cmd.authorize.password@)),
{
    match auth {
        Some((username, password)) => Ok(answer_command(username, password, challenge)),
        None => Err(
            MistError::Auth(
                "authentication is not configured but trying to perform auth challenge".to_owned(),
            ),
        ),
    }
}

/// The `authorize` command that answers `challenge`, for a standalone login
/// controller: the same answer as [`challenge_command`]. Without credentials it
/// is an error that says only that authentication is not configured.
pub fn standalone_challenge_command(auth: &Option<(String, String)>, challenge: &str) -> (res:
    Result<AuthorizeCommand, MistError>)
    ensures
        auth is None ==> (res matches Err(MistError::Auth(m)) && m@
            == "authentication is not configured"@),
        auth matches Some(creds) ==> (res matches Ok(cmd) && cmd.authorize.username == creds.0
            && cmd.authorize.password@ == auth_hash(creds.1@, challenge@)
            && is_challenge_answer(cmd.authorize.password@)),
{
    match auth {
        Some((username, password)) => Ok(answer_command(username, password, challenge)),
        None => Err(MistError::Auth("authentication is not configured".to_owned())),
    }
}

/// Where a login stands.
#[derive(Debug, Clone, PartialEq, Eq)]
pub enum AuthFlow {
    /// Nothing was sent yet; the credentials of the client, if it has any.
    Start(Option<(String, String)>),
    /// The password was sent; the user name and password are kept for the
    /// challenge, and the answer is awaited.
    AwaitingPasswordReply(String, String),
    /// The answer to a challenge was sent; the server's reply is awaited.
    AwaitingChallengeReply,
    /// The login is over, with this result.
    Finished(AuthResult),
}

/// What happens to a login: the caller starts it, or the server replies.
#[derive(Debug, Clone, PartialEq, Eq)]
pub enum AuthEvent {
    /// The caller starts the login.
    Begin,
    /// The server replied to the last command sent.
    Replied(AuthResponse),
}

/// Whether a login in `flow` that meets `event` moves to `next` and sends
/// `request`:
/// - started without credentials, it is over at once, authentication not
///   required, and sends nothing;
/// - started with credentials, it sends them as they are and awaits the reply;
/// - a reply to the password that asks for a challenge, and gives one, is
///   answered with the user name and the hash of the password and the challenge,
///   32 lower-case hexadecimal digits;
/// - any other reply to the password, and any reply to the challenge answer, ends
///   the login with that reply;
/// - an event that does not fit the stage leaves the login as it is.
pub open spec fn auth_transition(
    flow: AuthFlow,
    event: AuthEvent,
    next: AuthFlow,
    request: Option<AuthorizeCommand>,
) -> bool {
    match flow {
        AuthFlow::Start(creds) => match event {
            AuthEvent::Begin => match creds {
                None => next == AuthFlow::Finished(AuthResult::NotRequired) && request is None,
                Some(c) => next == AuthFlow::AwaitingPasswordReply(c.0, c.1) && request == Some(
                    AuthorizeCommand { authorize: AuthCredentials { username: c.0, password: c.1 } },
                ),
            },
            AuthEvent::Replied(_) => next == flow && request is None,
        },
        AuthFlow::AwaitingPasswordReply(username, password) => match event {
            AuthEvent::Replied(r) => match challenge_of(AuthResult::Required(r)) {
                Some(challenge) => next == AuthFlow::AwaitingChallengeReply && (request matches Some(
                    cmd,
                ) && cmd.authorize.username == username && cmd.authorize.password@ == auth_hash(
                    password@,
                    challenge@,
                ) && is_challenge_answer(cmd.authorize.password@)),
                None => next == AuthFlow::Finished(AuthResult::Required(r)) && request is None,
            },
            AuthEvent::Begin => next == flow && request is None,
        },
        AuthFlow::AwaitingChallengeReply => match event {
            AuthEvent::Replied(r) => next == AuthFlow::Finished(AuthResult::Required(r))
                && request is None,
            AuthEvent::Begin => next == flow && request is None,
        },
        AuthFlow::Finished(_) => next == flow && request is None,
    }
}

impl AuthFlow {
    /// A login for a client with the given credentials, not started yet.
    pub fn new(auth: Option<(String, String)>) -> (res: AuthFlow)
        ensures
            res == AuthFlow::Start(auth),
    {
        AuthFlow::Start(auth)
    }

    /// Moves the login on by one event; gives the new stage and the command to
    /// send, if any.
    pub fn step(self, event: AuthEvent) -> (res: (AuthFlow, Option<AuthorizeCommand>))
        ensures
            auth_transition(self, event, res.0, res.1),
    {
        match self {
            AuthFlow::Start(creds) => match event {
                AuthEvent::Begin => {
                    let request = password_command(&creds);
                    match creds {
                        Some((username, password)) => (
                            AuthFlow::AwaitingPasswordReply(username, password),
                            request,
                        ),
                        None => (AuthFlow::Finished(AuthResult::NotRequired), request),
                    }
                },
                AuthEvent::Replied(_) => (AuthFlow::Start(creds), None),
            },
            AuthFlow::AwaitingPasswordReply(username, password) => match event {
                AuthEvent::Replied(reply) => {
                    let result = AuthResult::Required(reply);
                    match result.challenge() {
                        Some(challenge) => {
                            let cmd = answer_command(&username, &password, challenge.as_str());
                            (AuthFlow::AwaitingChallengeReply, Some(cmd))
                        },
                        None => (AuthFlow::Finished(result), None),
                    }
                },
                AuthEvent::Begin => (AuthFlow::AwaitingPasswordReply(username, password), None),
            },
            AuthFlow::AwaitingChallengeReply => match event {
                AuthEvent::Replied(reply) => (
                    AuthFlow::Finished(AuthResult::Required(reply)),
                    None,
                ),
                AuthEvent::Begin => (AuthFlow::AwaitingChallengeReply, None),
            },
            AuthFlow::Finished(result) => (AuthFlow::Finished(result), None),
        }
    }
}

/// A login is over after it starts and gets at most two replies, whatever the
/// replies say: it sends at most two commands, and after the second reply it
/// sends nothing more.
pub proof fn lemma_login_ends_after_two_replies(
    creds: Option<(String, String)>,
    r1: AuthResponse,
    r2: AuthResponse,
    f1: AuthFlow,
    q1: Option<AuthorizeCommand>,
    f2: AuthFlow,
    q2: Option<AuthorizeCommand>,
    f3: AuthFlow,
    q3: Option<AuthorizeCommand>,
)
    requires
        auth_transition(AuthFlow::Start(creds), AuthEvent::Begin, f1, q1),
        auth_transition(f1, AuthEvent::Replied(r1), f2, q2),
        auth_transition(f2, AuthEvent::Replied(r2), f3, q3),
    ensures
        f3 is Finished,
        q3 is None,
{
}

/// Without credentials a login sends nothing and ends at once with
/// authentication not required.
pub proof fn lemma_no_credentials_no_request(f1: AuthFlow, q1: Option<AuthorizeCommand>)
    requires
        auth_transition(AuthFlow::Start(None), AuthEvent::Begin, f1, q1),
    ensures
        f1 == AuthFlow::Finished(AuthResult::NotRequired),
        q1 is None,
{
}

/// A login that is over stays over, with the same result, and sends nothing.
pub proof fn lemma_finished_is_final(
    result: AuthResult,
    event: AuthEvent,
    next: AuthFlow,
    request: Option<AuthorizeCommand>,
)
    requires
        auth_transition(AuthFlow::Finished(result), event, next, request),
    ensures
        next == AuthFlow::Finished(result),
        request is None,
{
}

/// A challenge is offered only by a result that asks for one.
pub proof fn lemma_challenge_only_when_needed(result: AuthResult)
    ensures
        challenge_of(result) is Some ==> result_needs_challenge(result),
        !result_needs_challenge(result) ==> challenge_of(result) is None,
{
}

/// Only a reply whose status is `Chall` asks for a challenge, and only such a
/// reply offers one to answer: a reply with status `Okay`, `NoAcc` or `AccMade`,
/// or with none, asks for nothing more.
pub proof fn lemma_only_chall_asks_for_challenge(r: AuthResponse)
    ensures
        response_needs_challenge(r) <==> r.status == Some(AuthStatus::Chall),
        result_needs_challenge(AuthResult::Required(r)) <==> r.status == Some(AuthStatus::Chall),
        r.status == Some(AuthStatus::Chall) ==> challenge_of(AuthResult::Required(r)) == r.challenge,
        r.status != Some(AuthStatus::Chall) ==> challenge_of(AuthResult::Required(r)) is None,
        !result_needs_challenge(AuthResult::NotRequired),
        challenge_of(AuthResult::NotRequired) is None,
{
}

/// A login with credentials sends the user name and the password as they are;
/// a reply to it that is not a `Chall` reply with a challenge (an `Okay`,
/// `NoAcc` or `AccMade` reply, one without status, or a `Chall` reply without a
/// challenge) ends the login with exactly that reply, and nothing more is sent.
pub proof fn lemma_reply_without_challenge_ends_login(
    username: String,
    password: String,
    r: AuthResponse,
    f1: AuthFlow,
    q1: Option<AuthorizeCommand>,
    f2: AuthFlow,
    q2: Option<AuthorizeCommand>,
)
    requires
        auth_transition(AuthFlow::Start(Some((username, password))), AuthEvent::Begin, f1, q1),
        auth_transition(f1, AuthEvent::Replied(r), f2, q2),
        r.status != Some(AuthStatus::Chall) || r.challenge is None,
    ensures
        q1 == Some(
            AuthorizeCommand { authorize: AuthCredentials { username: username, password: password } },
        ),
        f2 == AuthFlow::Finished(AuthResult::Required(r)),
        q2 is None,
{
}

/// A login with credentials answers a `Chall` reply that carries the challenge
/// `c` with the same user name and, in place of the password,
/// `md5hex(md5hex(password) + c)`, and then waits for the server's verdict, which
/// ends it with exactly that reply.
pub proof fn lemma_challenge_is_answered(
    username: String,
    password: String,
    r: AuthResponse,
    c: String,
    r2: AuthResponse,
    f1: AuthFlow,
    q1: Option<AuthorizeCommand>,
    f2: AuthFlow,
    q2: Option<AuthorizeCommand>,
    f3: AuthFlow,
    q3: Option<AuthorizeCommand>,
)
    requires
        auth_transition(AuthFlow::Start(Some((username, password))), AuthEvent::Begin, f1, q1),
        auth_transition(f1, AuthEvent::Replied(r), f2, q2),
        auth_transition(f2, AuthEvent::Replied(r2), f3, q3),
        r.status == Some(AuthStatus::Chall),
        r.challenge == Some(c),
    ensures
        f2 == AuthFlow::AwaitingChallengeReply,
        q2 matches Some(cmd) && cmd.authorize.username == username && cmd.authorize.password@
            == auth_hash(password@, c@),
        f3 == AuthFlow::Finished(AuthResult::Required(r2)),
        q3 is None,
{
}

/// A login ends with authentication not required only when it started without
/// credentials: every step into `Finished(NotRequired)` comes from a start
/// without credentials, or from a login already over so.
pub proof fn lemma_not_required_only_without_credentials(
    flow: AuthFlow,
    event: AuthEvent,
    next: AuthFlow,
    request: Option<AuthorizeCommand>,
)
    requires
        auth_transition(flow, event, next, request),
        next == AuthFlow::Finished(AuthResult::NotRequired),
    ensures
        flow == AuthFlow::Start(None) || flow == AuthFlow::Finished(AuthResult::NotRequired),
{
}

} // verus!
