//! Decisions taken while registering a user and logging one in.

use crate::errors::{result_view, AppError, AppErrorView, FieldMessages};
use crate::auth::TOKEN_LIFETIME_SECS;
use crate::store::{names_after, names_distinct};
use crate::models::{
    AuthResponse, Claims, DbError, LoginRequest, RegisterRequest, RegisterResponse, UserRow,
};
use crate::password::{
    format_message, lemma_encoded_len_at_least_chars, length_message, password_format_ok,
    password_length_ok, validate_password,
};
use validator::ValidateLength;
use vstd::prelude::*;
use vstd::utf8::encode_utf8;

verus! {

broadcast use crate::store::lemma_register_action_keeps_names_distinct;

/// What `bcrypt::verify(password, hash)` returns: `None` where it fails
/// (a hash that is not a well-formed bcrypt hash), otherwise whether the
/// password matches the hash.
pub uninterp spec fn bcrypt_verify_result(password: Seq<char>, hash: Seq<char>) -> Option<bool>;

/// Calls `bcrypt::verify`. Claimed: the result is the named one, and a hash
/// whose length is not 60 bytes fails (the crate's `split_hash` refuses it).
#[verifier::external_body]
fn bcrypt_verify(password: &str, hash: &str) -> (res: Option<bool>)
    ensures
        res == bcrypt_verify_result(password@, hash@),
        hash.len() != 60 ==> res is None,
{
    bcrypt::verify(password, hash).ok()
}

/// Calls `bcrypt::hash` with the crate's default cost. The salt is drawn
/// at random, so nothing fixes which hash comes back; claimed, from the
/// crate's source (the hash records its cost and salt, and verifying
/// recomputes it from them): a hash that comes back verifies the password
/// it was made from, and it is 60 characters long (the crate formats it
/// into a 60-byte ASCII buffer). Failure (the random source failing) is
/// `None`.
#[verifier::external_body]
fn bcrypt_hash(password: &str) -> (res: Option<String>)
    ensures
        res matches Some(h) ==> bcrypt_verify_result(password@, h@) == Some(true),
        res matches Some(h) ==> h@.len() == 60,
{
    bcrypt::hash(password, bcrypt::DEFAULT_COST).ok()
}

/// Calls `validator`'s `validate_length` with only a minimum. Claimed, from
/// the crate's source: a string's length there is its number of characters.
#[verifier::external_body]
fn meets_min_length(s: &str, min: u64) -> (res: bool)
    ensures
        res == (s@.len() >= min),
{
    s.validate_length(Some(min), None, None)
}

pub open spec fn invalid_credentials_message() -> Seq<char> {
    "Invalid username or password"@
}

/// The verdict on a login attempt for `user_id`, given what checking the
/// password against the stored hash gave.
pub open spec fn credentials_verdict(user_id: i32, verified: Option<bool>) -> Result<
    i32,
    AppErrorView,
> {
    match verified {
        None => Err(AppErrorView::InternalServerError(invalid_credentials_message())),
        Some(false) => Err(AppErrorView::Unauthorized(invalid_credentials_message())),
        Some(true) => Ok(user_id),
    }
}

/// The outcome of checking a password of `user_id`: a failed check is an
/// internal error, a mismatch is unauthorized, a match lets the user in.
pub fn password_check_outcome(user_id: i32, verified: Option<bool>) -> (res: Result<i32, AppError>)
    ensures
        result_view(res) == credentials_verdict(user_id, verified),
        verified == Some(true) ==> (res matches Ok(id) && id == user_id),
        verified == Some(false) ==> res matches Err(AppError::Unauthorized(_)),
        verified is None ==> res matches Err(AppError::InternalServerError(_)),
{
    match verified {
        None => Err(AppError::InternalServerError("Invalid username or password".to_owned())),
        Some(false) => Err(AppError::Unauthorized("Invalid username or password".to_owned())),
        Some(true) => Ok(user_id),
    }
}

/// The user that a login attempt with `password` lets in, given the user
/// row found for its username: an unknown username is unauthorized, as is
/// a wrong password.
pub fn check_credentials(user: Option<UserRow>, password: &str) -> (res: Result<i32, AppError>)
    ensures
        user is None ==> result_view(res) == Err::<i32, AppErrorView>(
            AppErrorView::Unauthorized(invalid_credentials_message()),
        ),
        user matches Some(u) ==> result_view(res) == credentials_verdict(
            u.id,
            bcrypt_verify_result(password@, u.password_hash@),
        ),
{
    match user {
        None => Err(AppError::Unauthorized("Invalid username or password".to_owned())),
        Some(u) => {
            let verified = bcrypt_verify(password, u.password_hash.as_str());
            password_check_outcome(u.id, verified)
        },
    }
}

pub open spec fn token_failure_message() -> Seq<char> {
    "Failed to encode token"@
}

/// The answer to a login, given the signed token (`None` where signing
/// failed).
pub fn token_outcome(token: Option<String>) -> (res: Result<AuthResponse, AppError>)
    ensures
        token matches Some(t) ==> (res matches Ok(r) && r.token == t),
        token is None ==> (res matches Err(e) && e@ == AppErrorView::InternalServerError(
            token_failure_message(),
        )),
{
    match token {
        Some(t) => Ok(AuthResponse { token: t }),
        None => Err(AppError::InternalServerError("Failed to encode token".to_owned())),
    }
}

/// The fewest characters a username may have.
pub const MIN_USERNAME_CHARS: u64 = 3;

pub open spec fn username_field() -> Seq<char> {
    "username"@
}

pub open spec fn password_field() -> Seq<char> {
    "password"@
}

pub open spec fn short_username_message() -> Seq<char> {
    "Username is too short"@
}

/// The message the password draws, if any.
pub open spec fn password_problem(password: Seq<char>) -> Option<Seq<char>> {
    if !password_length_ok(password) {
        Some(length_message())
    } else if !password_format_ok(password) {
        Some(format_message())
    } else {
        None
    }
}

/// The field messages of a registration: the username's if it is too
/// short, then the password's if it breaks a rule.
pub open spec fn registration_problems(username: Seq<char>, password: Seq<char>) -> Seq<
    (Seq<char>, Seq<Seq<char>>),
> {
    let name_part = if username.len() < MIN_USERNAME_CHARS {
        seq![(username_field(), seq![short_username_message()])]
    } else {
        Seq::empty()
    };
    let password_part = match password_problem(password) {
        Some(m) => seq![(password_field(), seq![m])],
        None => Seq::empty(),
    };
    name_part + password_part
}

/// Validates a registration: a username of at least three characters and a
/// password that keeps the password rules. Every field that fails is
/// reported with its message.
pub fn validate_registration(req: &RegisterRequest) -> (res: Result<(), AppError>)
    ensures
        registration_problems(req.username@, req.password@).len() == 0 ==> res is Ok,
        res is Ok <==> (req.username@.len() >= 3 && 8 <= encode_utf8(req.password@).len() <= 20
            && password_format_ok(req.password@)),
        registration_problems(req.username@, req.password@).len() != 0 ==> (res matches Err(
            e,
        ) && e@ == AppErrorView::ValidationError(
            registration_problems(req.username@, req.password@),
        )),
{
    let mut fields: Vec<FieldMessages> = Vec::new();
    if !meets_min_length(req.username.as_str(), MIN_USERNAME_CHARS) {
        let mut messages: Vec<String> = Vec::new();
        messages.push("Username is too short".to_owned());
        assert(messages@.map_values(|m: String| m@) =~= seq![short_username_message()]);
        let entry = FieldMessages { field: "username".to_owned(), messages };
        fields.push(entry);
        assert(fields@.map_values(|f: FieldMessages| f@) =~= seq![
            (username_field(), seq![short_username_message()]),
        ]);
    } else {
        assert(fields@.map_values(|f: FieldMessages| f@) =~= Seq::empty());
    }
    let ghost name_part = fields@.map_values(|f: FieldMessages| f@);
    match validate_password(req.password.as_str()) {
        Ok(()) => {
            assert(password_problem(req.password@) is None);
        },
        Err(problem) => {
            let ghost text = problem.message@;
            assert(password_problem(req.password@) == Some(text));
            let mut messages: Vec<String> = Vec::new();
            messages.push(problem.message);
            assert(messages@.map_values(|m: String| m@) =~= seq![text]);
            let entry = FieldMessages { field: "password".to_owned(), messages };
            assert(entry@ == (password_field(), seq![text]));
            fields.push(entry);
            assert(fields@.map_values(|f: FieldMessages| f@) =~= name_part.push(
                (password_field(), seq![text]),
            ));
        },
    }
    assert(fields@.map_values(|f: FieldMessages| f@) =~= registration_problems(
        req.username@,
        req.password@,
    ));
    if fields.len() == 0 {
        Ok(())
    } else {
        Err(AppError::ValidationError(fields))
    }
}

pub open spec fn username_taken_message() -> Seq<char> {
    "This users in used"@
}

/// The outcome of the check for an existing user of the same name; a
/// missing answer counts as no such user.
pub fn username_taken_outcome(exists: Option<bool>) -> (res: Result<(), AppError>)
    ensures
        exists == Some(true) ==> (res matches Err(e) && e@ == AppErrorView::Conflict(
            username_taken_message(),
        )),
        exists != Some(true) ==> res is Ok,
{
    let taken = match exists {
        Some(b) => b,
        None => false,
    };
    if taken {
        return Err(AppError::Conflict("This users in used".to_owned()));
    }
    Ok(())
}

pub open spec fn hashing_failure_message() -> Seq<char> {
    "Invalid"@
}

/// The outcome of hashing a new password (`None` where hashing failed).
pub fn hash_outcome(hashed: Option<String>) -> (res: Result<String, AppError>)
    ensures
        hashed matches Some(h) ==> (res matches Ok(r) && r == h),
        hashed is None ==> (res matches Err(e) && e@ == AppErrorView::InternalServerError(
            hashing_failure_message(),
        )),
{
    match hashed {
        Some(h) => Ok(h),
        None => Err(AppError::InternalServerError("Invalid".to_owned())),
    }
}

/// Hashes the password of a new user. The hash is salted at random, so
/// only what holds of every outcome is stated: a hash that comes back
/// verifies the password and is 60 characters long.
pub fn hash_password(password: &str) -> (res: Result<String, AppError>)
    ensures
        res matches Ok(h) ==> bcrypt_verify_result(password@, h@) == Some(true),
        res matches Ok(h) ==> h@.len() == 60,
        res matches Err(e) ==> e@ == AppErrorView::InternalServerError(hashing_failure_message()),
{
    hash_outcome(bcrypt_hash(password))
}

pub open spec fn duplicate_username_message() -> Seq<char> {
    "Username already exists!"@
}

pub open spec fn database_logic_message() -> Seq<char> {
    "Database logic error"@
}

pub open spec fn connection_failure_message() -> Seq<char> {
    "Datebase connection failed"@
}

pub open spec fn registered_message() -> Seq<char> {
    "Register successful"@
}

/// The answer to a registration, given how inserting the new user went: a
/// unique-key refusal means the name is taken; any other refusal by the
/// database, or a failure to reach it, is an internal error.
pub fn register_insert_outcome(inserted: Result<(), DbError>) -> (res: Result<
    RegisterResponse,
    AppError,
>)
    ensures
        inserted is Ok ==> (res matches Ok(r) && r.message@ == registered_message()),
        inserted matches Err(e) ==> (res matches Err(err) && err@ == (if e.database_message is Some {
            if e.unique_violation {
                AppErrorView::Conflict(duplicate_username_message())
            } else {
                AppErrorView::InternalServerError(database_logic_message())
            }
        } else {
            AppErrorView::InternalServerError(connection_failure_message())
        })),
{
    match inserted {
        Ok(()) => Ok(RegisterResponse { message: "Register successful".to_owned() }),
        Err(e) => {
            if e.database_message.is_some() {
                if e.unique_violation {
                    Err(AppError::Conflict("Username already exists!".to_owned()))
                } else {
                    Err(AppError::InternalServerError("Database logic error".to_owned()))
                }
            } else {
                Err(AppError::InternalServerError("Datebase connection failed".to_owned()))
            }
        },
    }
}

/// A user who registered with a password can log in with it: registration
/// stores only a hash that the password verifies against, and a login
/// whose password verifies against the stored hash lets the user in.
pub proof fn lemma_registered_password_logs_in(user_id: i32, password: Seq<char>, stored: Seq<char>)
    requires
        bcrypt_verify_result(password, stored) == Some(true),
    ensures
        credentials_verdict(user_id, bcrypt_verify_result(password, stored)) == Ok::<
            i32,
            AppErrorView,
        >(user_id),
{
}

/// Where a login stands between outside calls.
#[derive(Clone, Copy, Debug)]
pub enum LoginStage {
    Start,
    AwaitUser,
    AwaitClock { user_id: i32 },
    AwaitToken,
    Finished,
}

/// What came back from the last action of a login.
#[derive(Debug)]
pub enum LoginEvent {
    /// The request arrived.
    Started,
    /// The id and password hash of the user with the requested name, if any.
    UserLoaded(Result<Option<UserRow>, DbError>),
    /// The current time, in seconds since the UNIX epoch.
    ClockRead(u64),
    /// The signed token, or `None` where signing failed.
    TokenSigned(Option<String>),
}

/// What a login asks for next.
#[derive(Debug)]
pub enum LoginAction {
    FindUser { username: String },
    ReadClock,
    SignToken(Claims),
    Respond(Result<AuthResponse, AppError>),
}

/// One login attempt, driven one outside answer at a time.
pub struct LoginFlow {
    request: LoginRequest,
    stage: LoginStage,
    /// The stored hash that the password was checked against.
    checked_hash: Ghost<Seq<char>>,
}

impl LoginFlow {

    /// The login request.
    pub closed spec fn request(self) -> LoginRequest {
        self.request
    }

    /// Where the flow stands.
    pub closed spec fn stage(self) -> LoginStage {
        self.stage
    }

    /// The stored hash that the password was checked against.
    pub closed spec fn checked_hash(self) -> Seq<char> {
        self.checked_hash@
    }
    /// Once a user is let in, the password verified against that user's
    /// stored hash.
    pub open spec fn wf(self) -> bool {
        match self.stage() {
            LoginStage::AwaitClock { .. } | LoginStage::AwaitToken => bcrypt_verify_result(
                self.request().password@,
                self.checked_hash(),
            ) == Some(true),
            _ => true,
        }
    }

    /// The event that answers the flow's last action; a clock reading must
    /// leave room for the token's lifetime.
    pub open spec fn awaits(self, event: LoginEvent) -> bool {
        match self.stage() {
            LoginStage::Start => event is Started,
            LoginStage::AwaitUser => event is UserLoaded,
            LoginStage::AwaitClock { .. } => event matches LoginEvent::ClockRead(now) && now
                + TOKEN_LIFETIME_SECS <= usize::MAX,
            LoginStage::AwaitToken => event is TokenSigned,
            LoginStage::Finished => false,
        }
    }

    /// Whether `event` answers the flow's last action.
    pub fn is_awaiting(&self, event: &LoginEvent) -> (res: bool)
        ensures
            res == self.awaits(*event),
    {
        match (&self.stage, event) {
            (LoginStage::Start, LoginEvent::Started) => true,
            (LoginStage::AwaitUser, LoginEvent::UserLoaded(_)) => true,
            (LoginStage::AwaitClock { .. }, LoginEvent::ClockRead(now)) => *now as u128
                + TOKEN_LIFETIME_SECS as u128 <= usize::MAX as u128,
            (LoginStage::AwaitToken, LoginEvent::TokenSigned(_)) => true,
            _ => false,
        }
    }

    /// A login attempt for `request`.
    pub fn new(request: LoginRequest) -> (res: LoginFlow)
        ensures
            res.request() == request,
            res.stage() is Start,
            res.wf(),
    {
        LoginFlow { request, stage: LoginStage::Start, checked_hash: Ghost(Seq::empty()) }
    }

    /// Takes the answer to the last action and says what to do next: the
    /// user is looked up by name, the password checked against the stored
    /// hash, the clock read, and a token that expires one day later signed
    /// for the user.
    pub fn step(&mut self, event: LoginEvent) -> (action: LoginAction)
        requires
            old(self).wf(),
            old(self).awaits(event),
        ensures
            final(self).wf(),
            final(self).request() == old(self).request(),
            (action is Respond) <==> (final(self).stage() is Finished),
            old(self).stage() is Start ==> (action matches LoginAction::FindUser { username }
                && username == old(self).request().username && final(self).stage() is AwaitUser),
            old(self).stage() is AwaitUser ==> match event {
                LoginEvent::UserLoaded(Err(e)) => action == LoginAction::Respond(
                    Err(AppError::DatabaseError(e)),
                ),
                LoginEvent::UserLoaded(Ok(None)) => action matches LoginAction::Respond(Err(e))
                    && e@ == AppErrorView::Unauthorized(invalid_credentials_message()),
                LoginEvent::UserLoaded(Ok(Some(u))) => match credentials_verdict(
                    u.id,
                    bcrypt_verify_result(old(self).request().password@, u.password_hash@),
                ) {
                    Ok(id) => action is ReadClock && final(self).stage() == (LoginStage::AwaitClock {
                        user_id: id,
                    }) && final(self).checked_hash() == u.password_hash@,
                    Err(v) => action matches LoginAction::Respond(Err(e)) && e@ == v,
                },
                _ => false,
            },
            old(self).stage() matches LoginStage::AwaitClock { user_id } ==> (event matches LoginEvent::ClockRead(
                now,
            ) && action == LoginAction::SignToken(
                Claims { user_id, exp: (now + TOKEN_LIFETIME_SECS) as usize },
            ) && final(self).stage() is AwaitToken),
            old(self).stage() is AwaitToken ==> match event {
                LoginEvent::TokenSigned(Some(t)) => action matches LoginAction::Respond(Ok(r))
                    && r.token == t,
                LoginEvent::TokenSigned(None) => action matches LoginAction::Respond(Err(e)) && e@
                    == AppErrorView::InternalServerError(token_failure_message()),
                _ => false,
            },
            // A token is signed only for a user whose stored hash the
            // password verified against.
            action is SignToken ==> bcrypt_verify_result(
                old(self).request().password@,
                old(self).checked_hash(),
            ) == Some(true),
    {
        let stage = self.stage;
        match stage {
            LoginStage::Start => {
                self.stage = LoginStage::AwaitUser;
                LoginAction::FindUser { username: self.request.username.clone() }
            },
            LoginStage::AwaitUser => {
                match event {
                    LoginEvent::UserLoaded(Err(e)) => {
                        self.stage = LoginStage::Finished;
                        LoginAction::Respond(Err(AppError::from(e)))
                    },
                    LoginEvent::UserLoaded(Ok(user)) => {
                        let ghost stored = match &user {
                            Some(u) => u.password_hash@,
                            None => Seq::empty(),
                        };
                        match check_credentials(user, self.request.password.as_str()) {
                            Ok(id) => {
                                self.stage = LoginStage::AwaitClock { user_id: id };
                                self.checked_hash = Ghost(stored);
                                LoginAction::ReadClock
                            },
                            Err(e) => {
                                self.stage = LoginStage::Finished;
                                LoginAction::Respond(Err(e))
                            },
                        }
                    },
                    _ => {
                        proof {
                            assert(false);
                        }
                        LoginAction::ReadClock
                    },
                }
            },
            LoginStage::AwaitClock { user_id } => {
                match event {
                    LoginEvent::ClockRead(now) => {
                        self.stage = LoginStage::AwaitToken;
                        LoginAction::SignToken(Claims::for_login(user_id, now))
                    },
                    _ => {
                        proof {
                            assert(false);
                        }
                        LoginAction::ReadClock
                    },
                }
            },
            LoginStage::AwaitToken => {
                match event {
                    LoginEvent::TokenSigned(token) => {
                        self.stage = LoginStage::Finished;
                        LoginAction::Respond(token_outcome(token))
                    },
                    _ => {
                        proof {
                            assert(false);
                        }
                        LoginAction::ReadClock
                    },
                }
            },
            LoginStage::Finished => {
                proof {
                    assert(false);
                }
                LoginAction::ReadClock
            },
        }
    }
}

/// Where a registration stands between database calls.
#[derive(Clone, Copy, Debug)]
pub enum RegisterStage {
    Start,
    AwaitNameCheck,
    AwaitInsert,
    Finished,
}

/// What the database answered to the last action of a registration.
#[derive(Debug)]
pub enum RegisterEvent {
    /// The request arrived.
    Started,
    /// Whether a user of the requested name exists.
    NameChecked(Result<Option<bool>, DbError>),
    UserInserted(Result<(), DbError>),
}

/// What a registration asks for next.
#[derive(Debug)]
pub enum RegisterAction {
    CheckName { username: String },
    InsertUser { username: String, password_hash: String },
    Respond(Result<RegisterResponse, AppError>),
}

/// One registration, driven one database answer at a time.
#[derive(Debug)]
pub struct RegisterFlow {
    request: RegisterRequest,
    stage: RegisterStage,
}

impl RegisterFlow {

    /// The registration request.
    pub closed spec fn request(self) -> RegisterRequest {
        self.request
    }

    /// Where the flow stands.
    pub closed spec fn stage(self) -> RegisterStage {
        self.stage
    }
    /// Past its first step and before its answer, the flow holds a request
    /// that passed validation.
    pub open spec fn wf(self) -> bool {
        match self.stage() {
            RegisterStage::AwaitNameCheck | RegisterStage::AwaitInsert => registration_problems(
                self.request().username@,
                self.request().password@,
            ).len() == 0,
            _ => true,
        }
    }

    /// The event that answers the flow's last action.
    pub open spec fn awaits(self, event: RegisterEvent) -> bool {
        match self.stage() {
            RegisterStage::Start => event is Started,
            RegisterStage::AwaitNameCheck => event is NameChecked,
            RegisterStage::AwaitInsert => event is UserInserted,
            RegisterStage::Finished => false,
        }
    }

    /// Whether `event` answers the flow's last action.
    pub fn is_awaiting(&self, event: &RegisterEvent) -> (res: bool)
        ensures
            res == self.awaits(*event),
    {
        match (&self.stage, event) {
            (RegisterStage::Start, RegisterEvent::Started) => true,
            (RegisterStage::AwaitNameCheck, RegisterEvent::NameChecked(_)) => true,
            (RegisterStage::AwaitInsert, RegisterEvent::UserInserted(_)) => true,
            _ => false,
        }
    }

    /// A registration of `request`.
    pub fn new(request: RegisterRequest) -> (res: RegisterFlow)
        ensures
            res.request() == request,
            res.stage() is Start,
            res.wf(),
    {
        RegisterFlow { request, stage: RegisterStage::Start }
    }

    /// Takes the answer to the last action and says what to do next: the
    /// request is validated, the name checked for an existing user, the
    /// password hashed and the user inserted.
    pub fn step(&mut self, event: RegisterEvent) -> (action: RegisterAction)
        requires
            old(self).wf(),
            old(self).awaits(event),
        ensures
            final(self).wf(),
            final(self).request() == old(self).request(),
            (action is Respond) <==> (final(self).stage() is Finished),
            old(self).stage() is Start ==> if registration_problems(
                old(self).request().username@,
                old(self).request().password@,
            ).len() == 0 {
                action matches RegisterAction::CheckName { username } && username
                    == old(self).request().username && final(self).stage() is AwaitNameCheck
            } else {
                action matches RegisterAction::Respond(Err(e)) && e@
                    == AppErrorView::ValidationError(
                    registration_problems(old(self).request().username@, old(self).request().password@),
                )
            },
            old(self).stage() is AwaitNameCheck ==> match event {
                RegisterEvent::NameChecked(Err(e)) => action == RegisterAction::Respond(
                    Err(AppError::DatabaseError(e)),
                ),
                RegisterEvent::NameChecked(Ok(Some(true))) => action matches RegisterAction::Respond(
                    Err(e),
                ) && e@ == AppErrorView::Conflict(username_taken_message()),
                RegisterEvent::NameChecked(Ok(_)) => (action matches RegisterAction::InsertUser {
                    username,
                    password_hash,
                } && username == old(self).request().username && bcrypt_verify_result(
                    old(self).request().password@,
                    password_hash@,
                ) == Some(true) && final(self).stage() is AwaitInsert) || (action matches RegisterAction::Respond(
                    Err(e),
                ) && e@ == AppErrorView::InternalServerError(hashing_failure_message())),
                _ => false,
            },
            old(self).stage() is AwaitInsert ==> match event {
                RegisterEvent::UserInserted(Ok(())) => action matches RegisterAction::Respond(Ok(r))
                    && r.message@ == registered_message(),
                RegisterEvent::UserInserted(Err(e)) => action matches RegisterAction::Respond(
                    Err(err),
                ) && err@ == (if e.database_message is Some {
                    if e.unique_violation {
                        AppErrorView::Conflict(duplicate_username_message())
                    } else {
                        AppErrorView::InternalServerError(database_logic_message())
                    }
                } else {
                    AppErrorView::InternalServerError(connection_failure_message())
                }),
                _ => false,
            },
            // Carrying out the action keeps the stored usernames distinct.
            forall|names: Seq<Seq<char>>|
                names_distinct(names) ==> #[trigger] names_distinct(names_after(names, action)),
            // A user is inserted only once the request passed validation and
            // no user of that name was found, and with a hash that the
            // password verifies against.
            action matches RegisterAction::InsertUser { password_hash, .. } ==> registration_problems(
                old(self).request().username@,
                old(self).request().password@,
            ).len() == 0 && !(event matches RegisterEvent::NameChecked(Ok(Some(true))))
                && bcrypt_verify_result(old(self).request().password@, password_hash@) == Some(true)
                && password_hash@.len() == 60 && password_hash@ != old(self).request().password@,
    {
        let stage = self.stage;
        match stage {
            RegisterStage::Start => {
                match validate_registration(&self.request) {
                    Ok(()) => {
                        self.stage = RegisterStage::AwaitNameCheck;
                        RegisterAction::CheckName { username: self.request.username.clone() }
                    },
                    Err(e) => {
                        self.stage = RegisterStage::Finished;
                        RegisterAction::Respond(Err(e))
                    },
                }
            },
            RegisterStage::AwaitNameCheck => {
                match event {
                    RegisterEvent::NameChecked(Err(e)) => {
                        self.stage = RegisterStage::Finished;
                        RegisterAction::Respond(Err(AppError::from(e)))
                    },
                    RegisterEvent::NameChecked(Ok(exists)) => {
                        match username_taken_outcome(exists) {
                            Err(e) => {
                                self.stage = RegisterStage::Finished;
                                RegisterAction::Respond(Err(e))
                            },
                            Ok(()) => {
                                match hash_password(self.request.password.as_str()) {
                                    Ok(h) => {
                                        proof {
                                            assert(password_problem(self.request.password@) is None);
                                            lemma_encoded_len_at_least_chars(self.request.password@);
                                        }
                                        self.stage = RegisterStage::AwaitInsert;
                                        RegisterAction::InsertUser {
                                            username: self.request.username.clone(),
                                            password_hash: h,
                                        }
                                    },
                                    Err(e) => {
                                        self.stage = RegisterStage::Finished;
                                        RegisterAction::Respond(Err(e))
                                    },
                                }
                            },
                        }
                    },
                    _ => {
                        proof {
                            assert(false);
                        }
                        RegisterAction::Respond(Ok(RegisterResponse { message: String::new() }))
                    },
                }
            },
            RegisterStage::AwaitInsert => {
                match event {
                    RegisterEvent::UserInserted(inserted) => {
                        self.stage = RegisterStage::Finished;
                        RegisterAction::Respond(register_insert_outcome(inserted))
                    },
                    _ => {
                        proof {
                            assert(false);
                        }
                        RegisterAction::Respond(Ok(RegisterResponse { message: String::new() }))
                    },
                }
            },
            RegisterStage::Finished => {
                proof {
                    assert(false);
                }
                RegisterAction::Respond(Ok(RegisterResponse { message: String::new() }))
            },
        }
    }
}

} // verus!
