//! The user operations: registration, login, and reading and updating a
//! profile.
//!
//! Each operation talks to the user store between its decisions, and the
//! store is reached over the network. So each operation is a flow: it is
//! started with the request, names the store call it needs next, and is
//! resumed with the store's reply until it is done. The caller performs the
//! store calls.
use vstd::prelude::*;
use crate::auth::{
    ascii_text, bearer_prefix, expiry_hours_supported, expiry_in_range, hs256_payload,
    issued_claims_text, jwt_text, max_timestamp, min_timestamp, subject_id, token_for_time,
    token_text, unix_now,
};
use crate::ids::uuid_hyphenated;
use crate::config::Settings;
use crate::token::{authenticated, lemma_sign_then_accept};
use crate::errors::{AppError, AppResult};
use crate::models::{
    response_of, user_response, AuthResponse, LoginRequest, RegisterRequest,
    UpdateProfileRequest, User, UserResponse,
};
use crate::password::{
    argon2_accepts, argon2_phc_form, hash_password, password_check, phc_well_formed,
    verify_password,
};
use vstd::utf8::encode_utf8;

verus! {

/// A call to the user store.
#[derive(Debug, Clone, PartialEq, Eq)]
pub enum RepoCall {
    /// The user with this id; `NotFound` when there is none.
    FindById(u128),
    /// The user with this email, if any.
    FindByEmail(String),
    /// The user with this username, if any.
    FindByUsername(String),
    /// Stores a new user and gives it back.
    Create {
        email: String,
        username: String,
        password_hash: String,
        display_name: Option<String>,
    },
    /// Changes the given fields of a user's profile and gives the user back.
    UpdateProfile { id: u128, update: UpdateProfileRequest },
}

/// The user store's reply to a call.
#[derive(Debug, PartialEq, Eq)]
pub enum RepoReply {
    /// The reply to `FindById`, `Create` and `UpdateProfile`.
    Record(AppResult<User>),
    /// The reply to `FindByEmail` and `FindByUsername`.
    Lookup(AppResult<Option<User>>),
}

/// What a flow needs next.
#[derive(Debug, PartialEq, Eq)]
pub enum Step<T> {
    /// The store call to perform; its reply resumes the flow.
    Call(RepoCall),
    /// The operation's answer.
    Done(AppResult<T>),
    /// The token's expiry lies outside the clock's range, so no answer can be
    /// made.
    Abort,
}

/// The public view of a stored user, or the store's error.
pub open spec fn respond(r: AppResult<User>) -> AppResult<UserResponse> {
    match r {
        Ok(u) => Ok(response_of(u)),
        Err(e) => Err(e),
    }
}

/// The answer made of a store's reply shows the stored user as stored: each
/// field of the answer is the same field of the user (all but the password
/// hash), and a store error is answered as it is, for every reply.
pub proof fn lemma_respond_fields(r: AppResult<User>)
    ensures
        r matches Err(e) ==> respond(r) == Err::<UserResponse, AppError>(e),
        r matches Ok(u) ==> respond(r) matches Ok(v) && v.id == u.id && v.email == u.email
            && v.username == u.username && v.display_name == u.display_name && v.bio == u.bio
            && v.avatar_url == u.avatar_url && v.created_at == u.created_at && v.updated_at
            == u.updated_at,
{
}

fn respond_exec(r: AppResult<User>) -> (out: AppResult<UserResponse>)
    ensures
        out == respond(r),
        r matches Err(e) ==> out == Err::<UserResponse, AppError>(e),
        r matches Ok(u) ==> out matches Ok(v) && v.id == u.id && v.email == u.email && v.username
            == u.username && v.display_name == u.display_name && v.bio == u.bio && v.avatar_url
            == u.avatar_url && v.created_at == u.created_at && v.updated_at == u.updated_at,
{
    match r {
        Ok(u) => Ok(user_response(u)),
        Err(e) => Err(e),
    }
}

fn copy_text(s: &String) -> (r: String)
    ensures
        r == *s,
{
    s.clone()
}

fn copy_opt_text(s: &Option<String>) -> (r: Option<String>)
    ensures
        r == *s,
{
    match s {
        Some(t) => Some(t.clone()),
        None => None,
    }
}

fn copy_update(u: &UpdateProfileRequest) -> (r: UpdateProfileRequest)
    ensures
        r == *u,
{
    UpdateProfileRequest {
        display_name: copy_opt_text(&u.display_name),
        bio: copy_opt_text(&u.bio),
        avatar_url: copy_opt_text(&u.avatar_url),
    }
}

/// The user operations, configured by the service settings.
pub struct UserService {
    pub settings: Settings,
}

/// Where a registration stands.
#[derive(Debug, Clone, Copy, PartialEq, Eq, Structural)]
pub enum RegisterStage {
    AwaitEmail,
    AwaitUsername,
    AwaitCreate,
    Finished,
}

/// A registration in progress.
pub struct RegisterFlow {
    pub req: RegisterRequest,
    pub stage: RegisterStage,
}

/// Where a login stands.
#[derive(Debug, Clone, Copy, PartialEq, Eq, Structural)]
pub enum LoginStage {
    AwaitUser,
    Finished,
}

/// A login in progress.
pub struct LoginFlow<'a> {
    pub req: LoginRequest,
    pub settings: &'a Settings,
    pub stage: LoginStage,
}

/// Where a profile read stands.
#[derive(Debug, Clone, Copy, PartialEq, Eq, Structural)]
pub enum ProfileStage {
    AwaitUser,
    Finished,
}

/// A profile read in progress.
pub struct ProfileFlow {
    pub user_id: u128,
    pub stage: ProfileStage,
}

/// Where a profile update stands.
#[derive(Debug, Clone, Copy, PartialEq, Eq, Structural)]
pub enum UpdateStage {
    AwaitExisting,
    AwaitUpdate,
    Finished,
}

/// A profile update in progress.
pub struct UpdateProfileFlow {
    pub user_id: u128,
    pub req: UpdateProfileRequest,
    pub stage: UpdateStage,
}

/// Whether a reply answers a lookup by email or username.
pub open spec fn is_lookup(reply: RepoReply) -> bool {
    reply is Lookup
}

/// Whether a reply answers a call that gives back one user.
pub open spec fn is_record(reply: RepoReply) -> bool {
    reply is Record
}

fn reply_is_lookup(reply: &RepoReply) -> (r: bool)
    ensures
        r == is_lookup(*reply),
{
    match reply {
        RepoReply::Lookup(_) => true,
        RepoReply::Record(_) => false,
    }
}

impl UserService {
    pub fn new(settings: Settings) -> (r: UserService)
        ensures
            r.settings == settings,
    {
        UserService { settings }
    }

    /// Starts a registration: first the email is looked up.
    pub fn register(&self, req: RegisterRequest) -> (r: (RegisterFlow, RepoCall))
        ensures
            r.0.req == req,
            r.0.stage == RegisterStage::AwaitEmail,
            r.1 == RepoCall::FindByEmail(req.email),
    {
        let email = copy_text(&req.email);
        (RegisterFlow { req, stage: RegisterStage::AwaitEmail }, RepoCall::FindByEmail(email))
    }

    /// Starts a login: first the user is looked up by email.
    pub fn login<'a>(&'a self, req: LoginRequest) -> (r: (LoginFlow<'a>, RepoCall))
        ensures
            r.0.req == req,
            *r.0.settings == self.settings,
            r.0.stage == LoginStage::AwaitUser,
            r.1 == RepoCall::FindByEmail(req.email),
    {
        let email = copy_text(&req.email);
        (
            LoginFlow { req, settings: &self.settings, stage: LoginStage::AwaitUser },
            RepoCall::FindByEmail(email),
        )
    }

    /// Starts reading a user's profile.
    pub fn get_profile(&self, user_id: u128) -> (r: (ProfileFlow, RepoCall))
        ensures
            r.0.user_id == user_id,
            r.0.stage == ProfileStage::AwaitUser,
            r.1 == RepoCall::FindById(user_id),
    {
        (ProfileFlow { user_id, stage: ProfileStage::AwaitUser }, RepoCall::FindById(user_id))
    }

    /// Starts updating a user's profile: first the user must exist.
    pub fn update_profile(&self, user_id: u128, req: UpdateProfileRequest) -> (r: (
        UpdateProfileFlow,
        RepoCall,
    ))
        ensures
            r.0.user_id == user_id,
            r.0.req == req,
            r.0.stage == UpdateStage::AwaitExisting,
            r.1 == RepoCall::FindById(user_id),
    {
        (
            UpdateProfileFlow { user_id, req, stage: UpdateStage::AwaitExisting },
            RepoCall::FindById(user_id),
        )
    }
}

/// Whether a step ends its flow.
pub open spec fn ends(step: Step<UserResponse>) -> bool {
    !(step is Call)
}

/// Whether a login step ends its flow.
pub open spec fn login_ends(step: Step<AuthResponse>) -> bool {
    !(step is Call)
}

/// One step of a registration: from `stage`, the reply `reply` leads to
/// `next` with `step`.
pub open spec fn register_next(
    stage: RegisterStage,
    req: RegisterRequest,
    reply: RepoReply,
    next: RegisterStage,
    step: Step<UserResponse>,
) -> bool {
    match (stage, reply) {
        (RegisterStage::AwaitEmail, RepoReply::Lookup(Err(e))) => step == Step::<
            UserResponse,
        >::Done(Err(e)) && next == RegisterStage::Finished,
        (RegisterStage::AwaitEmail, RepoReply::Lookup(Ok(Some(_)))) => (step matches Step::<
            UserResponse,
        >::Done(Err(AppError::Conflict(m))) && m@ == "Email already registered"@)
            && next == RegisterStage::Finished,
        (RegisterStage::AwaitEmail, RepoReply::Lookup(Ok(None))) => step == Step::<
            UserResponse,
        >::Call(RepoCall::FindByUsername(req.username)) && next
            == RegisterStage::AwaitUsername,
        (RegisterStage::AwaitUsername, RepoReply::Lookup(Err(e))) => step == Step::<
            UserResponse,
        >::Done(Err(e)) && next == RegisterStage::Finished,
        (RegisterStage::AwaitUsername, RepoReply::Lookup(Ok(Some(_)))) => (step matches Step::<
            UserResponse,
        >::Done(Err(AppError::Conflict(m))) && m@ == "Username already taken"@)
            && next == RegisterStage::Finished,
        (RegisterStage::AwaitUsername, RepoReply::Lookup(Ok(None))) => {
            &&& encode_utf8(req.password@).len() <= 0xFFFF_FFFF ==> step is Call
            &&& {
                ||| step == Step::<UserResponse>::Done(Err(AppError::InternalServerError))
                    && next == RegisterStage::Finished
                ||| (step matches Step::<UserResponse>::Call(
                    RepoCall::Create { email, username, password_hash, display_name },
                ) && email == req.email && username == req.username && display_name
                    == req.display_name && password_check(req.password@, password_hash@) == Ok::<
                    (),
                    AppError,
                >(()) && argon2_phc_form(password_hash@) && (password_hash@ != req.password@
                    || argon2_phc_form(req.password@))) && next == RegisterStage::AwaitCreate
            }
        },
        (RegisterStage::AwaitCreate, RepoReply::Record(r)) => step == Step::<
            UserResponse,
        >::Done(respond(r)) && next == RegisterStage::Finished,
        _ => false,
    }
}

/// A registration stores a user only after both the email and the username
/// were found free: in every run of two steps from the start that ends in a
/// `Create`, both lookups came back empty, the second one was the
/// username's, and the user stored has exactly the request's email,
/// username and display name and a hash that verifies the request's
/// password.
pub proof fn lemma_register_stores_only_free_accounts(
    req: RegisterRequest,
    reply1: RepoReply,
    stage1: RegisterStage,
    step1: Step<UserResponse>,
    reply2: RepoReply,
    stage2: RegisterStage,
    step2: Step<UserResponse>,
)
    requires
        register_next(RegisterStage::AwaitEmail, req, reply1, stage1, step1),
        register_next(stage1, req, reply2, stage2, step2),
        step2 matches Step::Call(RepoCall::Create { .. }),
    ensures
        reply1 == RepoReply::Lookup(Ok(None)),
        step1 == Step::<UserResponse>::Call(RepoCall::FindByUsername(req.username)),
        reply2 == RepoReply::Lookup(Ok(None)),
        stage2 == RegisterStage::AwaitCreate,
        step2 matches Step::Call(RepoCall::Create { email, username, password_hash, display_name })
            && email == req.email && username == req.username && display_name == req.display_name
            && password_check(req.password@, password_hash@) == Ok::<(), AppError>(()),
{
}

/// A step that stores a user is taken only from the username lookup, and
/// only when that lookup came back empty.
pub proof fn lemma_register_store_step(
    stage: RegisterStage,
    req: RegisterRequest,
    reply: RepoReply,
    next: RegisterStage,
    step: Step<UserResponse>,
)
    requires
        register_next(stage, req, reply, next, step),
        step matches Step::Call(RepoCall::Create { .. }),
    ensures
        stage == RegisterStage::AwaitUsername,
        reply == RepoReply::Lookup(Ok(None)),
{
}

impl RegisterFlow {
    /// How many more store calls the registration may make.
    pub open spec fn calls_left(&self) -> nat {
        match self.stage {
            RegisterStage::AwaitEmail => 3,
            RegisterStage::AwaitUsername => 2,
            RegisterStage::AwaitCreate => 1,
            RegisterStage::Finished => 0,
        }
    }

    /// Whether the flow waits for this kind of reply.
    pub open spec fn awaits(&self, reply: RepoReply) -> bool {
        match self.stage {
            RegisterStage::AwaitEmail => is_lookup(reply),
            RegisterStage::AwaitUsername => is_lookup(reply),
            RegisterStage::AwaitCreate => is_record(reply),
            RegisterStage::Finished => false,
        }
    }

    /// Whether the flow waits for this kind of reply.
    pub fn accepts(&self, reply: &RepoReply) -> (r: bool)
        ensures
            r == self.awaits(*reply),
    {
        match self.stage {
            RegisterStage::AwaitEmail => reply_is_lookup(reply),
            RegisterStage::AwaitUsername => reply_is_lookup(reply),
            RegisterStage::AwaitCreate => !reply_is_lookup(reply),
            RegisterStage::Finished => false,
        }
    }

    /// Resumes the registration with the store's reply.
    ///
    /// A taken email or username is a conflict and nothing is stored; store
    /// errors are answered as they are; otherwise the password is hashed and
    /// the user stored, and the stored user is the answer.
    pub fn resume(&mut self, reply: RepoReply) -> (step: Step<UserResponse>)
        requires
            old(self).awaits(reply),
        ensures
            final(self).req == old(self).req,
            ends(step) ==> final(self).calls_left() == 0,
            !ends(step) ==> final(self).calls_left() + 1 == old(self).calls_left(),
            register_next(old(self).stage, old(self).req, reply, final(self).stage, step),
    {
        match (self.stage, reply) {
            (RegisterStage::AwaitEmail, RepoReply::Lookup(Err(e))) => {
                self.stage = RegisterStage::Finished;
                Step::Done(Err(e))
            },
            (RegisterStage::AwaitEmail, RepoReply::Lookup(Ok(Some(_)))) => {
                self.stage = RegisterStage::Finished;
                Step::Done(Err(AppError::Conflict(crate::text::string_of("Email already registered"))))
            },
            (RegisterStage::AwaitEmail, RepoReply::Lookup(Ok(None))) => {
                self.stage = RegisterStage::AwaitUsername;
                Step::Call(RepoCall::FindByUsername(copy_text(&self.req.username)))
            },
            (RegisterStage::AwaitUsername, RepoReply::Lookup(Err(e))) => {
                self.stage = RegisterStage::Finished;
                Step::Done(Err(e))
            },
            (RegisterStage::AwaitUsername, RepoReply::Lookup(Ok(Some(_)))) => {
                self.stage = RegisterStage::Finished;
                Step::Done(Err(AppError::Conflict(crate::text::string_of("Username already taken"))))
            },
            (RegisterStage::AwaitUsername, RepoReply::Lookup(Ok(None))) => {
                match hash_password(self.req.password.as_str()) {
                    Ok(password_hash) => {
                        self.stage = RegisterStage::AwaitCreate;
                        Step::Call(
                            RepoCall::Create {
                                email: copy_text(&self.req.email),
                                username: copy_text(&self.req.username),
                                password_hash,
                                display_name: copy_opt_text(&self.req.display_name),
                            },
                        )
                    },
                    Err(e) => {
                        self.stage = RegisterStage::Finished;
                        Step::Done(Err(e))
                    },
                }
            },
            (RegisterStage::AwaitCreate, RepoReply::Record(r)) => {
                self.stage = RegisterStage::Finished;
                Step::Done(respond_exec(r))
            },
            _ => {
                assert(false);
                Step::Abort
            },
        }
    }
}

/// The answer to a login once the user with the email has been found and
/// the clock reads `now`: a refusal where the password check fails; a token
/// issued at `now` and the user's public view where the expiry is a time that
/// `DateTime<Utc>` holds; and no answer where it is not.
pub open spec fn login_answered(
    req: LoginRequest,
    settings: Settings,
    user: User,
    now: int,
    step: Step<AuthResponse>,
) -> bool {
    let hours = settings.jwt.expiration_hours as int;
    match password_check(req.password@, user.password_hash@) {
        Err(e) => step == Step::<AuthResponse>::Done(Err(e)),
        Ok(_) => if expiry_in_range(now, hours) {
            &&& step matches Step::<AuthResponse>::Done(Ok(a))
            &&& a.user == response_of(user)
            &&& a.token@ == token_text(user.id, now, hours, settings.jwt.secret@)
            &&& jwt_text(a.token@)
            &&& hs256_payload(a.token@, encode_utf8(settings.jwt.secret@)) == Some(
                issued_claims_text(user.id, now, hours),
            )
        } else {
            step is Abort
        },
    }
}

/// A user stored by a registration logs in with the password registered:
/// the login is answered with a token and the user's public view whenever
/// the clock reads a time from which the configured expiry can be reached,
/// and with no answer otherwise.
pub proof fn lemma_register_then_login(
    req: RegisterRequest,
    next: RegisterStage,
    step: Step<UserResponse>,
    user: User,
    login: LoginRequest,
    settings: Settings,
    now: int,
    answer: Step<AuthResponse>,
)
    requires
        register_next(RegisterStage::AwaitUsername, req, RepoReply::Lookup(Ok(None)), next, step),
        step matches Step::Call(RepoCall::Create { password_hash, .. })
            && user.password_hash@ == password_hash@,
        login.password@ == req.password@,
        login_answered(login, settings, user, now, answer),
    ensures
        expiry_in_range(now, settings.jwt.expiration_hours as int) ==> (answer matches Step::Done(
            Ok(a),
        ) && a.user == response_of(user)),
        !expiry_in_range(now, settings.jwt.expiration_hours as int) ==> answer is Abort,
{
}

/// The token of a login is accepted as the user who logged in: sent as
/// `Bearer <token>` and checked with the same secret, it is answered with the
/// claims issued at login, whose subject names that user, or refused with
/// `InvalidToken` once it has expired.
pub proof fn lemma_login_token_accepted(
    login: LoginRequest,
    settings: Settings,
    user: User,
    now: int,
    answer: Step<AuthResponse>,
    token: Seq<u8>,
    r: Result<String, AppError>,
)
    requires
        login_answered(login, settings, user, now, answer),
        answer matches Step::Done(Ok(a)) && ascii_text(token) == a.token@,
        authenticated(Some(bearer_prefix() + token), settings.jwt.secret@, r),
    ensures
        r == Err::<String, AppError>(AppError::InvalidToken) || (r matches Ok(c) && c@
            == issued_claims_text(user.id, now, settings.jwt.expiration_hours as int)),
        subject_id(uuid_hyphenated(user.id)) == Ok::<u128, AppError>(user.id),
{
    lemma_sign_then_accept(
        user.id,
        now,
        settings.jwt.expiration_hours as int,
        settings.jwt.secret@,
        token,
        r,
    );
}

/// A login with a wrong password is refused with `InvalidCredentials`, the
/// answer that a login with an unknown email gets, so the answer does not
/// tell which of the two was wrong.
pub proof fn lemma_login_refusals_alike(
    req: LoginRequest,
    settings: Settings,
    user: User,
    now: int,
    step: Step<AuthResponse>,
)
    requires
        phc_well_formed(user.password_hash@),
        !argon2_accepts(encode_utf8(req.password@), user.password_hash@),
        login_answered(req, settings, user, now, step),
    ensures
        step == Step::<AuthResponse>::Done(Err(AppError::InvalidCredentials)),
{
}

impl<'a> LoginFlow<'a> {
    /// How many more store calls the login may make.
    pub open spec fn calls_left(&self) -> nat {
        match self.stage {
            LoginStage::AwaitUser => 1,
            LoginStage::Finished => 0,
        }
    }

    /// Whether the flow waits for this kind of reply.
    pub open spec fn awaits(&self, reply: RepoReply) -> bool {
        self.stage == LoginStage::AwaitUser && is_lookup(reply)
    }

    /// Whether the flow waits for this kind of reply.
    pub fn accepts(&self, reply: &RepoReply) -> (r: bool)
        ensures
            r == self.awaits(*reply),
    {
        self.stage == LoginStage::AwaitUser && reply_is_lookup(reply)
    }

    /// Resumes the login with the store's reply to the email lookup, the
    /// clock reading `now`.
    ///
    /// An unknown email and a wrong password get the same answer,
    /// `InvalidCredentials`; a right password gets a token issued at `now`
    /// and the user's public view.
    pub fn resume_at(&mut self, reply: RepoReply, now: i64) -> (step: Step<AuthResponse>)
        requires
            old(self).awaits(reply),
            min_timestamp() <= now <= max_timestamp(),
        ensures
            final(self).req == old(self).req,
            final(self).settings == old(self).settings,
            final(self).stage == LoginStage::Finished,
            login_ends(step),
            match reply {
                RepoReply::Lookup(Err(e)) => step == Step::<AuthResponse>::Done(Err(e)),
                RepoReply::Lookup(Ok(None)) => step == Step::<AuthResponse>::Done(
                    Err(AppError::InvalidCredentials),
                ),
                RepoReply::Lookup(Ok(Some(user))) => login_answered(
                    old(self).req,
                    *old(self).settings,
                    user,
                    now as int,
                    step,
                ),
                RepoReply::Record(_) => false,
            },
    {
        self.stage = LoginStage::Finished;
        let user = match reply {
            RepoReply::Lookup(Err(e)) => return Step::Done(Err(e)),
            RepoReply::Lookup(Ok(None)) => return Step::Done(Err(AppError::InvalidCredentials)),
            RepoReply::Lookup(Ok(Some(user))) => user,
            RepoReply::Record(_) => {
                assert(false);
                return Step::Abort;
            },
        };
        if let Err(e) = verify_password(self.req.password.as_str(), user.password_hash.as_str()) {
            return Step::Done(Err(e));
        }
        let hours = self.settings.jwt.expiration_hours;
        if !expiry_hours_supported(hours) {
            assert(!expiry_in_range(now as int, hours as int)) by (nonlinear_arith)
                requires
                    !(-2_562_047_788_015 <= hours <= 2_562_047_788_015),
            ;
            return Step::Abort;
        }
        match token_for_time(user.id, now, self.settings) {
            None => Step::Abort,
            Some(Err(_)) => {
                assert(false);
                Step::Abort
            },
            Some(Ok(token)) => {
                let ghost u = user;
                let view = user_response(user);
                let a = AuthResponse { token, user: view };
                assert(a.user == response_of(u));
                Step::Done(Ok(a))
            },
        }
    }

    /// Resumes the login with the store's reply to the email lookup, the
    /// token issued at the time the clock reads now.
    pub fn resume(&mut self, reply: RepoReply) -> (step: Step<AuthResponse>)
        requires
            old(self).awaits(reply),
        ensures
            final(self).req == old(self).req,
            final(self).settings == old(self).settings,
            final(self).stage == LoginStage::Finished,
            login_ends(step),
            match reply {
                RepoReply::Lookup(Err(e)) => step == Step::<AuthResponse>::Done(Err(e)),
                RepoReply::Lookup(Ok(None)) => step == Step::<AuthResponse>::Done(
                    Err(AppError::InvalidCredentials),
                ),
                RepoReply::Lookup(Ok(Some(user))) => exists|now: i64|
                    min_timestamp() <= now <= max_timestamp() && #[trigger] login_answered(
                        old(self).req,
                        *old(self).settings,
                        user,
                        now as int,
                        step,
                    ),
                RepoReply::Record(_) => false,
            },
    {
        let now = unix_now();
        let ghost rep = reply;
        let step = self.resume_at(reply, now);
        proof {
            if let RepoReply::Lookup(Ok(Some(user))) = rep {
                assert(login_answered(old(self).req, *old(self).settings, user, now as int, step));
            }
        }
        step
    }
}

impl ProfileFlow {
    /// How many more store calls the read may make.
    pub open spec fn calls_left(&self) -> nat {
        match self.stage {
            ProfileStage::AwaitUser => 1,
            ProfileStage::Finished => 0,
        }
    }

    /// Whether the flow waits for this kind of reply.
    pub open spec fn awaits(&self, reply: RepoReply) -> bool {
        self.stage == ProfileStage::AwaitUser && is_record(reply)
    }

    /// Whether the flow waits for this kind of reply.
    pub fn accepts(&self, reply: &RepoReply) -> (r: bool)
        ensures
            r == self.awaits(*reply),
    {
        self.stage == ProfileStage::AwaitUser && !reply_is_lookup(reply)
    }

    /// Resumes the read with the stored user, whose public view is the answer.
    pub fn resume(&mut self, reply: RepoReply) -> (step: Step<UserResponse>)
        requires
            old(self).awaits(reply),
        ensures
            final(self).user_id == old(self).user_id,
            final(self).stage == ProfileStage::Finished,
            ends(step),
            match reply {
                RepoReply::Record(r) => step == Step::<UserResponse>::Done(respond(r)),
                RepoReply::Lookup(_) => false,
            },
    {
        self.stage = ProfileStage::Finished;
        match reply {
            RepoReply::Record(r) => Step::Done(respond_exec(r)),
            RepoReply::Lookup(_) => {
                assert(false);
                Step::Abort
            },
        }
    }
}

impl UpdateProfileFlow {
    /// How many more store calls the update may make.
    pub open spec fn calls_left(&self) -> nat {
        match self.stage {
            UpdateStage::AwaitExisting => 2,
            UpdateStage::AwaitUpdate => 1,
            UpdateStage::Finished => 0,
        }
    }

    /// Whether the flow waits for this kind of reply.
    pub open spec fn awaits(&self, reply: RepoReply) -> bool {
        (self.stage == UpdateStage::AwaitExisting || self.stage == UpdateStage::AwaitUpdate)
            && is_record(reply)
    }

    /// Whether the flow waits for this kind of reply.
    pub fn accepts(&self, reply: &RepoReply) -> (r: bool)
        ensures
            r == self.awaits(*reply),
    {
        (self.stage == UpdateStage::AwaitExisting || self.stage == UpdateStage::AwaitUpdate)
            && !reply_is_lookup(reply)
    }

    /// Resumes the update with the store's reply: once the user is known to
    /// exist, the update is stored, and the updated user's public view is
    /// the answer.
    pub fn resume(&mut self, reply: RepoReply) -> (step: Step<UserResponse>)
        requires
            old(self).awaits(reply),
        ensures
            final(self).user_id == old(self).user_id,
            final(self).req == old(self).req,
            ends(step) ==> final(self).calls_left() == 0,
            !ends(step) ==> final(self).calls_left() + 1 == old(self).calls_left(),
            match (old(self).stage, reply) {
                (UpdateStage::AwaitExisting, RepoReply::Record(Err(e))) => step == Step::<
                    UserResponse,
                >::Done(Err(e)) && final(self).stage == UpdateStage::Finished,
                (UpdateStage::AwaitExisting, RepoReply::Record(Ok(_))) => step == Step::<
                    UserResponse,
                >::Call(RepoCall::UpdateProfile { id: old(self).user_id, update: old(self).req })
                    && final(self).stage == UpdateStage::AwaitUpdate,
                (UpdateStage::AwaitUpdate, RepoReply::Record(r)) => step == Step::<
                    UserResponse,
                >::Done(respond(r)) && final(self).stage == UpdateStage::Finished,
                _ => false,
            },
    {
        match (self.stage, reply) {
            (UpdateStage::AwaitExisting, RepoReply::Record(Err(e))) => {
                self.stage = UpdateStage::Finished;
                Step::Done(Err(e))
            },
            (UpdateStage::AwaitExisting, RepoReply::Record(Ok(_))) => {
                self.stage = UpdateStage::AwaitUpdate;
                Step::Call(RepoCall::UpdateProfile { id: self.user_id, update: copy_update(&self.req) })
            },
            (UpdateStage::AwaitUpdate, RepoReply::Record(r)) => {
                self.stage = UpdateStage::Finished;
                Step::Done(respond_exec(r))
            },
            _ => {
                assert(false);
                Step::Abort
            },
        }
    }
}

} // verus!
