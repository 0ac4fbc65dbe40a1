use vstd::prelude::*;
use crate::auth_token::{sign, token_issued_at};
use crate::dto::{LoginInput, RegisterInput, TokenPayload};
use crate::error::{answer_of, ApiError, ApiErrorView, DbError, Error};
use crate::handlers::{reject_invalid, rejection};
use crate::repository::auth::NewUser;
use crate::roles::{role_name, ROLES};
use crate::validation::Validate;

verus! {

/// The stored account a token is signed for.
#[derive(Debug, Clone)]
pub struct UserAccount {
    pub id: i32,
    pub email: String,
    pub role: String,
}

/// The abstract form of a [`UserAccount`].
pub struct UserView {
    pub id: i32,
    pub email: Seq<char>,
    pub role: Seq<char>,
}

impl View for UserAccount {
    type V = UserView;

    open spec fn view(&self) -> UserView {
        UserView { id: self.id, email: self.email@, role: self.role@ }
    }
}

/// A token answer: the HTTP status and the token payload.
#[derive(Debug, Clone)]
pub struct TokenReply {
    pub status: u16,
    pub payload: TokenPayload,
}

/// The abstract form of a [`TokenReply`].
pub struct TokenReplyView {
    pub status: u16,
    pub access_token: Seq<char>,
    pub token_type: Seq<char>,
}

impl View for TokenReply {
    type V = TokenReplyView;

    open spec fn view(&self) -> TokenReplyView {
        TokenReplyView {
            status: self.status,
            access_token: self.payload.access_token@,
            token_type: self.payload.token_type@,
        }
    }
}

/// The abstract form of a token handler's answer.
pub open spec fn token_answer_view(r: Result<TokenReply, ApiError>) -> Result<TokenReplyView, ApiErrorView> {
    match r {
        Ok(t) => Ok(t@),
        Err(e) => Err(e@),
    }
}

/// The token answer for `user`, signed at `iat` with `secret`.
pub open spec fn token_reply_for(status: u16, user: UserView, secret: Seq<char>, iat: i64) -> TokenReplyView {
    TokenReplyView {
        status,
        access_token: token_issued_at(user.email, user.id, user.role, iat, secret),
        token_type: "Bearer"@,
    }
}

/// The token answers for `user`: the answer with a token signed at some
/// time since the epoch, or the clock failure.
pub open spec fn token_answered(r: Result<TokenReplyView, ApiErrorView>, status: u16, user: UserView, secret: Seq<char>) -> bool {
    match r {
        Ok(t) => exists|iat: i64| 0 <= iat && t == #[trigger] token_reply_for(status, user, secret, iat),
        Err(e) => e == answer_of(Error::ClockError),
    }
}

/// Signs a token for the account and wraps it into the answer.
fn token_reply(status: u16, user: UserAccount, secret: &str) -> (res: Result<TokenReply, ApiError>)
    ensures
        token_answered(token_answer_view(res), status, user@, secret@),
{
    let ghost u = user@;
    let signed = sign(user.email, user.id, user.role, secret);
    match signed {
        Ok(token) => {
            let ghost iat = choose|iat: i64|
                0 <= iat && #[trigger] token_issued_at(u.email, u.id, u.role, iat, secret@) == token@;
            let reply = TokenReply {
                status,
                payload: TokenPayload { access_token: token, token_type: String::from_str("Bearer") },
            };
            assert(reply@ == token_reply_for(status, u, secret@, iat));
            Ok(reply)
        },
        Err(e) => Err(ApiError::from(e)),
    }
}

/// Where a signup stands.
#[derive(Debug, Clone, Copy, PartialEq, Eq)]
pub enum SignupStage {
    AwaitingInsert,
    Finished,
}

/// A signup: check the payload, insert the account, sign its token.
#[derive(Debug, Clone, Copy)]
pub struct SignupFlow {
    pub stage: SignupStage,
}

/// The next thing a signup needs.
#[derive(Debug)]
pub enum SignupStep {
    CreateUser { user: NewUser },
    Respond { reply: Result<TokenReply, ApiError> },
}

impl SignupFlow {
    /// Starts a signup: a payload that breaks its rules is answered with
    /// 400; a valid one becomes a new account with the `USER` role.
    pub fn start(input: RegisterInput) -> (res: (SignupFlow, SignupStep))
        ensures
            match rejection(input.failures()) {
                Some(e) => res.0.stage == SignupStage::Finished
                    && (res.1 matches SignupStep::Respond { reply: Err(r) } && r@ == e),
                None => res.0.stage == SignupStage::AwaitingInsert
                    && (res.1 matches SignupStep::CreateUser { user } && user.email@ == input.email@
                    && user.password@ == input.password@ && user.address@ == input.address@
                    && user.phone@ == input.phone@ && user.role@ == role_name(ROLES::USER)),
            },
    {
        match reject_invalid(&input) {
            Some(e) => (SignupFlow { stage: SignupStage::Finished }, SignupStep::Respond { reply: Err(e) }),
            None => {
                let user = NewUser::new(input.email, input.password, input.address, input.phone);
                (SignupFlow { stage: SignupStage::AwaitingInsert }, SignupStep::CreateUser { user })
            },
        }
    }

    /// Takes the outcome of inserting the account: a failure is answered
    /// with the signup error, a stored account with 201 and its token.
    pub fn on_created(self, created: Result<UserAccount, DbError>, secret: &str) -> (res: (SignupFlow, SignupStep))
        requires
            self.stage == SignupStage::AwaitingInsert,
        ensures
            res.0.stage == SignupStage::Finished,
            match created {
                Err(_) => res.1 matches SignupStep::Respond { reply: Err(r) } && r@ == answer_of(Error::SignupError),
                Ok(user) => res.1 matches SignupStep::Respond { reply } && token_answered(
                    token_answer_view(reply),
                    201,
                    user@,
                    secret@,
                ),
            },
    {
        let reply = match created {
            Err(_) => Err(ApiError::from(Error::SignupError)),
            Ok(user) => token_reply(201, user, secret),
        };
        (SignupFlow { stage: SignupStage::Finished }, SignupStep::Respond { reply })
    }
}

/// Where a login stands.
#[derive(Debug, Clone, Copy, PartialEq, Eq)]
pub enum LoginStage {
    AwaitingLookup,
    Finished,
}

/// A login: check the payload, find the account, sign its token.
#[derive(Debug, Clone, Copy)]
pub struct LoginFlow {
    pub stage: LoginStage,
}

/// The next thing a login needs.
#[derive(Debug)]
pub enum LoginStep {
    FindUser { email: String, password: String },
    Respond { reply: Result<TokenReply, ApiError> },
}

impl LoginFlow {
    /// Starts a login: a payload that breaks its rules is answered with 400;
    /// a valid one is looked up by its credentials.
    pub fn start(input: LoginInput) -> (res: (LoginFlow, LoginStep))
        ensures
            match rejection(input.failures()) {
                Some(e) => res.0.stage == LoginStage::Finished
                    && (res.1 matches LoginStep::Respond { reply: Err(r) } && r@ == e),
                None => res.0.stage == LoginStage::AwaitingLookup
                    && (res.1 matches LoginStep::FindUser { email, password } && email@ == input.email@
                    && password@ == input.password@),
            },
    {
        match reject_invalid(&input) {
            Some(e) => (LoginFlow { stage: LoginStage::Finished }, LoginStep::Respond { reply: Err(e) }),
            None => (
                LoginFlow { stage: LoginStage::AwaitingLookup },
                LoginStep::FindUser { email: input.email, password: input.password },
            ),
        }
    }

    /// Takes the outcome of the lookup: no account is answered as wrong
    /// credentials (401), a found account with 200 and its token.
    pub fn on_found(self, found: Result<UserAccount, DbError>, secret: &str) -> (res: (LoginFlow, LoginStep))
        requires
            self.stage == LoginStage::AwaitingLookup,
        ensures
            res.0.stage == LoginStage::Finished,
            match found {
                Err(_) => res.1 matches LoginStep::Respond { reply: Err(r) } && r@ == answer_of(Error::WrongCredentials),
                Ok(user) => res.1 matches LoginStep::Respond { reply } && token_answered(
                    token_answer_view(reply),
                    200,
                    user@,
                    secret@,
                ),
            },
    {
        let reply = match found {
            Err(_) => Err(ApiError::from(Error::WrongCredentials)),
            Ok(user) => token_reply(200, user, secret),
        };
        (LoginFlow { stage: LoginStage::Finished }, LoginStep::Respond { reply })
    }
}

} // verus!
