//! The transport-neutral request boundary of the platform: authenticated
//! principals, the operation context created for each authenticated
//! request, local browser-session authentication and the shell snapshot
//! service that only answers direct user sessions.
use vstd::prelude::*;

use crate::runtime_model::AppIdentity;
use crate::text::owned;

verus! {

/// The locale of a user without a preference.
pub open spec fn default_shell_locale() -> Seq<char> {
    "en-US"@
}

/// Who acts in an operation.
#[derive(Debug)]
pub enum Identity {
    User(String),
    App(AppIdentity),
    Service(String),
}

/// The identity of an app as plain text: app, installation and publisher.
pub open spec fn app_view(app: AppIdentity) -> (Seq<char>, Seq<char>, Seq<char>) {
    (app.spec_app_id(), app.spec_installation_id(), app.spec_publisher_id())
}

pub enum IdentityView {
    User(Seq<char>),
    App((Seq<char>, Seq<char>, Seq<char>)),
    Service(Seq<char>),
}

impl View for Identity {
    type V = IdentityView;

    open spec fn view(&self) -> IdentityView {
        match self {
            Identity::User(user) => IdentityView::User(user@),
            Identity::App(app) => IdentityView::App(app_view(*app)),
            Identity::Service(service) => IdentityView::Service(service@),
        }
    }
}

/// The ID that ties together what one request causes, in logs and errors.
#[derive(Debug, Clone, Copy, PartialEq, Eq)]
pub struct CorrelationId {
    bytes: [u8; 16],
}

impl CorrelationId {
    pub closed spec fn spec_bytes(&self) -> Seq<u8> {
        self.bytes@
    }

    pub fn from_bytes(bytes: [u8; 16]) -> (r: Self)
        ensures
            r.spec_bytes() == bytes@,
    {
        CorrelationId { bytes }
    }

    pub fn bytes(&self) -> (r: [u8; 16])
        ensures
            r@ == self.spec_bytes(),
    {
        self.bytes
    }

    /// A fresh correlation ID of sixteen random bytes; only the operating
    /// system's random source can fail it.
    pub fn generate() -> (r: Result<CorrelationId, getrandom::Error>) {
        let mut bytes = [0u8; 16];
        match crate::random::fill_random(&mut bytes) {
            Ok(()) => Ok(CorrelationId { bytes }),
            Err(error) => Err(error),
        }
    }
}

/// The trusted context of an authenticated operation: the actor, the user
/// and session on whose behalf it acts, if any, and the request's
/// correlation ID.
#[derive(Debug)]
pub struct OperationContext {
    actor: Identity,
    user: Option<String>,
    session: Option<String>,
    correlation_id: CorrelationId,
}

pub struct OperationContextView {
    pub actor: IdentityView,
    pub user: Option<Seq<char>>,
    pub session: Option<Seq<char>>,
}

pub open spec fn text_view(value: Option<String>) -> Option<Seq<char>> {
    match value {
        Some(text) => Some(text@),
        None => None,
    }
}

impl View for OperationContext {
    type V = OperationContextView;

    closed spec fn view(&self) -> OperationContextView {
        OperationContextView {
            actor: self.actor@,
            user: text_view(self.user),
            session: text_view(self.session),
        }
    }
}

fn copy_text(value: &Option<String>) -> (r: Option<String>)
    ensures
        text_view(r) == text_view(*value),
{
    match value {
        Some(text) => Some(owned(text.as_str())),
        None => None,
    }
}

fn copy_app(app: &AppIdentity) -> (r: AppIdentity)
    ensures
        app_view(r) == app_view(*app),
{
    AppIdentity::new(owned(app.app_id()), owned(app.installation_id()), owned(app.publisher_id()))
}

fn copy_identity(identity: &Identity) -> (r: Identity)
    ensures
        r@ == identity@,
{
    match identity {
        Identity::User(user) => Identity::User(owned(user.as_str())),
        Identity::App(app) => Identity::App(copy_app(app)),
        Identity::Service(service) => Identity::Service(owned(service.as_str())),
    }
}

impl OperationContext {
    pub closed spec fn spec_correlation_id(&self) -> Seq<u8> {
        self.correlation_id.spec_bytes()
    }

    pub fn correlation_id(&self) -> (r: CorrelationId)
        ensures
            r.spec_bytes() == self.spec_correlation_id(),
    {
        self.correlation_id
    }

    pub fn actor(&self) -> (r: Identity)
        ensures
            r@ == self@.actor,
    {
        copy_identity(&self.actor)
    }

    pub fn user(&self) -> (r: Option<String>)
        ensures
            text_view(r) == self@.user,
    {
        copy_text(&self.user)
    }

    pub fn session(&self) -> (r: Option<String>)
        ensures
            text_view(r) == self@.session,
    {
        copy_text(&self.session)
    }
}

/// What authentication established about a request.
#[derive(Debug)]
pub enum AuthenticatedPrincipal {
    User { user: String, session: String },
    AppAsUser { app: AppIdentity, user: String, session: String },
    BackgroundApp { app: AppIdentity },
    Service { service: String },
}

pub enum PrincipalView {
    User { user: Seq<char>, session: Seq<char> },
    AppAsUser { app: (Seq<char>, Seq<char>, Seq<char>), user: Seq<char>, session: Seq<char> },
    BackgroundApp { app: (Seq<char>, Seq<char>, Seq<char>) },
    Service { service: Seq<char> },
}

impl View for AuthenticatedPrincipal {
    type V = PrincipalView;

    open spec fn view(&self) -> PrincipalView {
        match self {
            AuthenticatedPrincipal::User { user, session } => PrincipalView::User {
                user: user@,
                session: session@,
            },
            AuthenticatedPrincipal::AppAsUser { app, user, session } => PrincipalView::AppAsUser {
                app: app_view(*app),
                user: user@,
                session: session@,
            },
            AuthenticatedPrincipal::BackgroundApp { app } => PrincipalView::BackgroundApp {
                app: app_view(*app),
            },
            AuthenticatedPrincipal::Service { service } => PrincipalView::Service {
                service: service@,
            },
        }
    }
}

/// The actor of a principal.
pub open spec fn principal_actor(p: PrincipalView) -> IdentityView {
    match p {
        PrincipalView::User { user, .. } => IdentityView::User(user),
        PrincipalView::AppAsUser { app, .. } => IdentityView::App(app),
        PrincipalView::BackgroundApp { app } => IdentityView::App(app),
        PrincipalView::Service { service } => IdentityView::Service(service),
    }
}

/// The context of a principal: a user acts in its own session; an app acts
/// for a user only with that user's session; a background app and a service
/// act without a user or session.
pub open spec fn context_of(p: PrincipalView) -> OperationContextView {
    match p {
        PrincipalView::User { user, session } => OperationContextView {
            actor: IdentityView::User(user),
            user: Some(user),
            session: Some(session),
        },
        PrincipalView::AppAsUser { app, user, session } => OperationContextView {
            actor: IdentityView::App(app),
            user: Some(user),
            session: Some(session),
        },
        PrincipalView::BackgroundApp { app } => OperationContextView {
            actor: IdentityView::App(app),
            user: None,
            session: None,
        },
        PrincipalView::Service { service } => OperationContextView {
            actor: IdentityView::Service(service),
            user: None,
            session: None,
        },
    }
}

impl AuthenticatedPrincipal {
    pub fn user(user: String, session: String) -> (r: Self)
        ensures
            r@ == (PrincipalView::User { user: user@, session: session@ }),
    {
        AuthenticatedPrincipal::User { user, session }
    }

    pub fn app_as_user(app: AppIdentity, user: String, session: String) -> (r: Self)
        ensures
            r@ == (PrincipalView::AppAsUser { app: app_view(app), user: user@, session: session@ }),
    {
        AuthenticatedPrincipal::AppAsUser { app, user, session }
    }

    pub fn background_app(app: AppIdentity) -> (r: Self)
        ensures
            r@ == (PrincipalView::BackgroundApp { app: app_view(app) }),
    {
        AuthenticatedPrincipal::BackgroundApp { app }
    }

    pub fn service(service: String) -> (r: Self)
        ensures
            r@ == (PrincipalView::Service { service: service@ }),
    {
        AuthenticatedPrincipal::Service { service }
    }

    pub fn actor(&self) -> (r: Identity)
        ensures
            r@ == principal_actor(self@),
    {
        match self {
            AuthenticatedPrincipal::User { user, .. } => Identity::User(owned(user.as_str())),
            AuthenticatedPrincipal::AppAsUser { app, .. } => Identity::App(copy_app(app)),
            AuthenticatedPrincipal::BackgroundApp { app } => Identity::App(copy_app(app)),
            AuthenticatedPrincipal::Service { service } => Identity::Service(owned(service.as_str())),
        }
    }
}

/// Authenticates a transport's credential. Adapters implement it; what a
/// credential proves is theirs to decide.
pub trait RequestAuthenticator {
    type Credential: ?Sized;
    type Error;

    fn authenticate(&self, credential: &Self::Credential) -> Result<AuthenticatedPrincipal, Self::Error>;
}

/// Creates the operation context of an authenticated principal.
#[derive(Debug, Default, Clone, Copy)]
pub struct RequestContextFactory;

impl RequestContextFactory {
    pub fn new() -> (r: Self) {
        RequestContextFactory
    }

    pub fn create(&self, principal: AuthenticatedPrincipal, correlation_id: CorrelationId) -> (r:
        OperationContext)
        ensures
            r@ == context_of(principal@),
            r.spec_correlation_id() == correlation_id.spec_bytes(),
    {
        match principal {
            AuthenticatedPrincipal::User { user, session } => {
                let actor = Identity::User(owned(user.as_str()));
                OperationContext { actor, user: Some(user), session: Some(session), correlation_id }
            },
            AuthenticatedPrincipal::AppAsUser { app, user, session } => OperationContext {
                actor: Identity::App(app),
                user: Some(user),
                session: Some(session),
                correlation_id,
            },
            AuthenticatedPrincipal::BackgroundApp { app } => OperationContext {
                actor: Identity::App(app),
                user: None,
                session: None,
                correlation_id,
            },
            AuthenticatedPrincipal::Service { service } => OperationContext {
                actor: Identity::Service(service),
                user: None,
                session: None,
                correlation_id,
            },
        }
    }
}

/// An authenticated request: its trusted context and its payload.
#[derive(Debug)]
pub struct PlatformRequest<T> {
    context: OperationContext,
    payload: T,
}

impl<T> PlatformRequest<T> {
    pub closed spec fn spec_context(&self) -> OperationContextView {
        self.context@
    }

    pub closed spec fn spec_payload(&self) -> T {
        self.payload
    }

    pub closed spec fn spec_correlation_id(&self) -> Seq<u8> {
        self.context.spec_correlation_id()
    }

    pub fn context(&self) -> (r: &OperationContext)
        ensures
            r@ == self.spec_context(),
    {
        &self.context
    }

    pub fn payload(&self) -> (r: &T)
        ensures
            *r == self.spec_payload(),
    {
        &self.payload
    }

    pub fn into_parts(self) -> (r: (OperationContext, T))
        ensures
            r.0@ == self.spec_context(),
            r.0.spec_correlation_id() == self.spec_correlation_id(),
            r.1 == self.spec_payload(),
    {
        (self.context, self.payload)
    }
}

/// A request that gets no context: the authenticator refused its
/// credential, or no correlation ID could be drawn for it.
pub enum PlatformRequestAuthenticationError<E> {
    Authentication(E),
    CorrelationId(getrandom::Error),
}

impl<E> PlatformRequestAuthenticationError<E> {
    /// The authenticator's error.
    pub fn authentication_error(&self) -> (r: &E)
        requires
            self is Authentication,
        ensures
            *r == self->Authentication_0,
    {
        match self {
            PlatformRequestAuthenticationError::Authentication(source) => source,
            PlatformRequestAuthenticationError::CorrelationId(_) => vstd::pervasive::unreached(),
        }
    }
}

/// The request of an authenticated principal: its context under the given
/// correlation ID, and the payload.
pub fn authenticated_request<T>(principal: AuthenticatedPrincipal, correlation_id: CorrelationId, payload: T) -> (r:
    PlatformRequest<T>)
    ensures
        r.spec_context() == context_of(principal@),
        r.spec_correlation_id() == correlation_id.spec_bytes(),
        r.spec_payload() == payload,
{
    let context = RequestContextFactory::new().create(principal, correlation_id);
    PlatformRequest { context, payload }
}

/// Authenticates requests and gives each one its operation context.
#[derive(Debug)]
pub struct PlatformRequestGateway<A> {
    authenticator: A,
    context_factory: RequestContextFactory,
}

impl<A: RequestAuthenticator> PlatformRequestGateway<A> {
    pub closed spec fn spec_authenticator(&self) -> A {
        self.authenticator
    }

    pub fn new(authenticator: A) -> (r: Self)
        ensures
            r.spec_authenticator() == authenticator,
    {
        PlatformRequestGateway { authenticator, context_factory: RequestContextFactory::new() }
    }

    /// Asks this gateway's authenticator about the credential: a request
    /// carries the payload and the context of the principal that the
    /// authenticator returned for this credential, under a fresh correlation
    /// ID; a refusal carries the error that the authenticator returned; a
    /// failure to draw the correlation ID comes only after the credential
    /// was accepted.
    pub fn authenticate<T>(&self, credential: &A::Credential, payload: T) -> (r: Result<
        PlatformRequest<T>,
        PlatformRequestAuthenticationError<A::Error>,
    >)
        ensures
            r matches Ok(request) ==> request.spec_payload() == payload && exists|
                p: AuthenticatedPrincipal,
            |
                call_ensures(
                    A::authenticate,
                    (&self.spec_authenticator(), credential),
                    Ok::<AuthenticatedPrincipal, A::Error>(p),
                ) && request.spec_context() == context_of(p@),
            r matches Err(PlatformRequestAuthenticationError::Authentication(e)) ==> call_ensures(
                A::authenticate,
                (&self.spec_authenticator(), credential),
                Err::<AuthenticatedPrincipal, A::Error>(e),
            ),
            r matches Err(PlatformRequestAuthenticationError::CorrelationId(_)) ==> exists|
                p: AuthenticatedPrincipal,
            |
                call_ensures(
                    A::authenticate,
                    (&self.spec_authenticator(), credential),
                    Ok::<AuthenticatedPrincipal, A::Error>(p),
                ),
    {
        let principal = match self.authenticator.authenticate(credential) {
            Ok(principal) => principal,
            Err(error) => return Err(PlatformRequestAuthenticationError::Authentication(error)),
        };
        let correlation_id = match CorrelationId::generate() {
            Ok(id) => id,
            Err(error) => return Err(PlatformRequestAuthenticationError::CorrelationId(error)),
        };
        let context = self.context_factory.create(principal, correlation_id);
        Ok(PlatformRequest { context, payload })
    }

    pub fn authenticator(&self) -> (r: &A)
        ensures
            *r == self.spec_authenticator(),
    {
        &self.authenticator
    }
}

// ---------------------------------------------------------------------------
// Local browser sessions
// ---------------------------------------------------------------------------

/// The operating system's clock.
#[derive(Debug, Default, Clone, Copy)]
pub struct SystemAuthenticationClock;

/// Authenticates browser requests against the local account state: a
/// resolver turns the opaque credential into a session ID, the account
/// repository holds sessions and accounts, and the clock says when it is.
#[derive(Debug)]
pub struct LocalSessionAuthenticator<R, S, C> {
    resolver: R,
    accounts: S,
    clock: C,
}

#[derive(Debug)]
pub enum LocalSessionAuthenticationError<ResolverError, RepositoryError, ClockError> {
    Credential(ResolverError),
    Repository(RepositoryError),
    Clock(ClockError),
    InvalidSession,
}

impl<R, S> LocalSessionAuthenticator<R, S, SystemAuthenticationClock> {
    pub fn new(resolver: R, accounts: S) -> (r: Self)
        ensures
            r.spec_resolver() == resolver,
            r.spec_accounts() == accounts,
    {
        LocalSessionAuthenticator { resolver, accounts, clock: SystemAuthenticationClock }
    }
}

impl<R, S, C> LocalSessionAuthenticator<R, S, C> {
    pub closed spec fn spec_resolver(&self) -> R {
        self.resolver
    }

    pub closed spec fn spec_accounts(&self) -> S {
        self.accounts
    }

    pub closed spec fn spec_clock(&self) -> C {
        self.clock
    }

    pub fn with_clock(resolver: R, accounts: S, clock: C) -> (r: Self)
        ensures
            r.spec_resolver() == resolver,
            r.spec_accounts() == accounts,
            r.spec_clock() == clock,
    {
        LocalSessionAuthenticator { resolver, accounts, clock }
    }

    pub fn resolver(&self) -> (r: &R)
        ensures
            *r == self.spec_resolver(),
    {
        &self.resolver
    }

    pub fn account_repository(&self) -> (r: &S)
        ensures
            *r == self.spec_accounts(),
    {
        &self.accounts
    }

    pub fn clock(&self) -> (r: &C)
        ensures
            *r == self.spec_clock(),
    {
        &self.clock
    }
}

/// What the account state says of a resolved session at the current time.
pub struct SessionStanding {
    /// The user of the session, if the session exists.
    pub user: Option<String>,
    /// Whether the session's user has an account that may authenticate.
    pub account_can_authenticate: bool,
    /// Whether the session is active now.
    pub active: bool,
}

/// Decides a resolved session: it is a direct user session only if it
/// exists, its account may authenticate and it is active now.
pub fn session_principal<ResolverError, RepositoryError, ClockError>(
    session_id: String,
    standing: SessionStanding,
) -> (r: Result<
    AuthenticatedPrincipal,
    LocalSessionAuthenticationError<ResolverError, RepositoryError, ClockError>,
>)
    ensures
        (standing.user matches Some(user) && standing.account_can_authenticate && standing.active)
            ==> (r matches Ok(p) && p@ == (PrincipalView::User {
            user: standing.user->Some_0@,
            session: session_id@,
        })),
        !(standing.user is Some && standing.account_can_authenticate && standing.active) ==> (r matches Err(
            LocalSessionAuthenticationError::InvalidSession,
        )),
{
    match standing.user {
        Some(user) => {
            if !standing.account_can_authenticate || !standing.active {
                return Err(LocalSessionAuthenticationError::InvalidSession);
            }
            Ok(AuthenticatedPrincipal::User { user, session: session_id })
        },
        None => Err(LocalSessionAuthenticationError::InvalidSession),
    }
}

/// Turns an opaque browser credential into the ID of the session it stands
/// for. Adapters implement it.
pub trait SessionCredentialResolver {
    type Credential: ?Sized;
    type Error;

    fn resolve_session(&self, credential: &Self::Credential) -> Result<String, Self::Error>;
}

/// Says what time it is, in seconds since the Unix epoch.
pub trait AuthenticationClock {
    type Error;

    fn now(&self) -> Result<u64, Self::Error>;
}

/// An account as authentication reads it: its user and whether it may
/// authenticate (a locked or disabled account may not).
#[derive(Debug, Clone)]
pub struct AccountRecord {
    pub user_id: String,
    pub can_authenticate: bool,
}

/// A session as authentication reads it: its ID, its user, the time from
/// which it holds and the time at which it ends, and whether it was revoked.
#[derive(Debug, Clone)]
pub struct SessionRecord {
    pub session_id: String,
    pub user_id: String,
    pub started_at: u64,
    pub expires_at: u64,
    pub revoked: bool,
}

/// The accounts and sessions of the local account state.
#[derive(Debug, Clone)]
pub struct AccountState {
    pub accounts: Vec<AccountRecord>,
    pub sessions: Vec<SessionRecord>,
}

/// Loads the local account state. Adapters implement it.
pub trait AccountStateRepository {
    type Error;

    fn load(&self) -> Result<AccountState, Self::Error>;
}

/// A session is active from its start until, not including, its end, unless
/// it was revoked.
pub open spec fn session_active_at(session: SessionRecord, now: u64) -> bool {
    session.started_at <= now && now < session.expires_at && !session.revoked
}

/// The index of the first session with this ID, if any.
pub open spec fn session_index(sessions: Seq<SessionRecord>, session_id: Seq<char>) -> Option<int>
    decreases sessions.len(),
{
    if sessions.len() == 0 {
        None
    } else {
        match session_index(sessions.drop_last(), session_id) {
            Some(i) => Some(i),
            None => if sessions.last().session_id@ == session_id {
                Some(sessions.len() - 1)
            } else {
                None
            },
        }
    }
}

/// The index of the first account of this user, if any.
pub open spec fn account_index(accounts: Seq<AccountRecord>, user_id: Seq<char>) -> Option<int>
    decreases accounts.len(),
{
    if accounts.len() == 0 {
        None
    } else {
        match account_index(accounts.drop_last(), user_id) {
            Some(i) => Some(i),
            None => if accounts.last().user_id@ == user_id {
                Some(accounts.len() - 1)
            } else {
                None
            },
        }
    }
}

proof fn lemma_session_index_push(sessions: Seq<SessionRecord>, s: SessionRecord, session_id: Seq<char>)
    ensures
        session_index(sessions.push(s), session_id) == match session_index(sessions, session_id) {
            Some(i) => Some(i),
            None => if s.session_id@ == session_id {
                Some(sessions.len() as int)
            } else {
                None
            },
        },
{
    assert(sessions.push(s).drop_last() =~= sessions);
}

proof fn lemma_account_index_push(accounts: Seq<AccountRecord>, a: AccountRecord, user_id: Seq<char>)
    ensures
        account_index(accounts.push(a), user_id) == match account_index(accounts, user_id) {
            Some(i) => Some(i),
            None => if a.user_id@ == user_id {
                Some(accounts.len() as int)
            } else {
                None
            },
        },
{
    assert(accounts.push(a).drop_last() =~= accounts);
}

proof fn lemma_session_index_bounds(sessions: Seq<SessionRecord>, session_id: Seq<char>)
    ensures
        session_index(sessions, session_id) matches Some(i) ==> 0 <= i < sessions.len()
            && sessions[i].session_id@ == session_id,
    decreases sessions.len(),
{
    if sessions.len() > 0 {
        lemma_session_index_bounds(sessions.drop_last(), session_id);
    }
}

proof fn lemma_account_index_bounds(accounts: Seq<AccountRecord>, user_id: Seq<char>)
    ensures
        account_index(accounts, user_id) matches Some(i) ==> 0 <= i < accounts.len()
            && accounts[i].user_id@ == user_id,
    decreases accounts.len(),
{
    if accounts.len() > 0 {
        lemma_account_index_bounds(accounts.drop_last(), user_id);
    }
}

/// Whether the session with this ID exists at `now`, is active and belongs
/// to an account that may authenticate; then its user.
pub open spec fn authenticated_user(state: AccountState, session_id: Seq<char>, now: u64) -> Option<
    Seq<char>,
> {
    match session_index(state.sessions@, session_id) {
        None => None,
        Some(i) => {
            let session = state.sessions@[i];
            match account_index(state.accounts@, session.user_id@) {
                None => None,
                Some(j) => if state.accounts@[j].can_authenticate && session_active_at(session, now) {
                    Some(state.accounts@[j].user_id@)
                } else {
                    None
                },
            }
        },
    }
}

/// Only a live session authenticates: when the account state names a user
/// for a session, the first stored session with that ID is not revoked, has
/// started and has not yet expired at `now`, and belongs to that user's
/// account, which may authenticate. A revoked session never authenticates,
/// whatever the time.
pub proof fn lemma_only_live_sessions_authenticate(state: AccountState, session_id: Seq<char>, now: u64)
    ensures
        authenticated_user(state, session_id, now) is Some ==> (session_index(
            state.sessions@,
            session_id,
        ) matches Some(i) && {
            let session = state.sessions@[i];
            &&& session.session_id@ == session_id
            &&& !session.revoked
            &&& session.started_at <= now
            &&& now < session.expires_at
            &&& account_index(state.accounts@, session.user_id@) matches Some(j)
                && state.accounts@[j].can_authenticate && state.accounts@[j].user_id@
                == session.user_id@ && authenticated_user(state, session_id, now) == Some(
                session.user_id@,
            )
        }),
        (session_index(state.sessions@, session_id) matches Some(i) && state.sessions@[i].revoked)
            ==> authenticated_user(state, session_id, now) is None,
{
    lemma_session_index_bounds(state.sessions@, session_id);
    if let Some(i) = session_index(state.sessions@, session_id) {
        lemma_account_index_bounds(state.accounts@, state.sessions@[i].user_id@);
    }
}

/// What the account state says of a session at `now`.
pub fn session_standing(state: &AccountState, session_id: &str, now: u64) -> (r: SessionStanding)
    ensures
        match authenticated_user(*state, session_id@, now) {
            Some(user) => r.user matches Some(u) && u@ == user && r.account_can_authenticate
                && r.active,
            None => !(r.user is Some && r.account_can_authenticate && r.active),
        },
{
    let mut i: usize = 0;
    let mut found: Option<usize> = None;
    while i < state.sessions.len()
        invariant
            i <= state.sessions@.len(),
            match found {
                Some(k) => session_index(state.sessions@.take(i as int), session_id@) == Some(k as int)
                    && k < i,
                None => session_index(state.sessions@.take(i as int), session_id@) is None,
            },
        decreases state.sessions@.len() - i,
    {
        proof {
            assert(state.sessions@.take(i + 1) =~= state.sessions@.take(i as int).push(state.sessions@[i as int]));
            lemma_session_index_push(state.sessions@.take(i as int), state.sessions@[i as int], session_id@);
        }
        if found.is_none() && crate::docker_runtime_target::str_equals(
            state.sessions[i].session_id.as_str(),
            session_id,
        ) {
            found = Some(i);
        }
        i = i + 1;
    }
    assert(state.sessions@.take(state.sessions@.len() as int) =~= state.sessions@);
    proof {
        lemma_session_index_bounds(state.sessions@, session_id@);
    }
    let k = match found {
        Some(k) => k,
        None => return SessionStanding { user: None, account_can_authenticate: false, active: false },
    };
    let session = &state.sessions[k];
    let active = session.started_at <= now && now < session.expires_at && !session.revoked;
    let mut j: usize = 0;
    let mut account: Option<usize> = None;
    while j < state.accounts.len()
        invariant
            j <= state.accounts@.len(),
            match account {
                Some(a) => account_index(state.accounts@.take(j as int), session.user_id@) == Some(
                    a as int,
                ) && a < j,
                None => account_index(state.accounts@.take(j as int), session.user_id@) is None,
            },
        decreases state.accounts@.len() - j,
    {
        proof {
            assert(state.accounts@.take(j + 1) =~= state.accounts@.take(j as int).push(state.accounts@[j as int]));
            lemma_account_index_push(state.accounts@.take(j as int), state.accounts@[j as int], session.user_id@);
        }
        if account.is_none() && crate::docker_runtime_target::str_equals(
            state.accounts[j].user_id.as_str(),
            session.user_id.as_str(),
        ) {
            account = Some(j);
        }
        j = j + 1;
    }
    assert(state.accounts@.take(state.accounts@.len() as int) =~= state.accounts@);
    proof {
        lemma_account_index_bounds(state.accounts@, session.user_id@);
    }
    match account {
        Some(a) => SessionStanding {
            user: Some(owned(state.accounts[a].user_id.as_str())),
            account_can_authenticate: state.accounts[a].can_authenticate,
            active,
        },
        None => SessionStanding { user: None, account_can_authenticate: false, active: false },
    }
}

impl AuthenticationClock for SystemAuthenticationClock {
    type Error = std::time::SystemTimeError;

    /// Reads the operating system's clock.
    fn now(&self) -> (r: Result<u64, std::time::SystemTimeError>) {
        crate::clock::unix_seconds_now()
    }
}

impl<R, S, C> RequestAuthenticator for LocalSessionAuthenticator<R, S, C> where
    R: SessionCredentialResolver,
    S: AccountStateRepository,
    C: AuthenticationClock,
 {
    type Credential = R::Credential;
    type Error = LocalSessionAuthenticationError<R::Error, S::Error, C::Error>;

    /// Resolves the credential to a session, loads the account state and
    /// reads the clock, each failure reported as such; the principal is the
    /// session's user if the session exists, is active now and belongs to an
    /// account that may authenticate, else the session is invalid.
    fn authenticate(&self, credential: &Self::Credential) -> (r: Result<
        AuthenticatedPrincipal,
        Self::Error,
    >)
        ensures
            r matches Err(LocalSessionAuthenticationError::Credential(e)) ==> call_ensures(
                R::resolve_session,
                (&self.spec_resolver(), credential),
                Err::<String, R::Error>(e),
            ),
            r matches Err(LocalSessionAuthenticationError::Repository(e)) ==> exists|
                session_id: String,
            |
                call_ensures(
                    R::resolve_session,
                    (&self.spec_resolver(), credential),
                    Ok::<String, R::Error>(session_id),
                ) && call_ensures(S::load, (&self.spec_accounts(),), Err::<AccountState, S::Error>(e)),
            r matches Err(LocalSessionAuthenticationError::Clock(e)) ==> exists|
                session_id: String,
                state: AccountState,
            |
                call_ensures(
                    R::resolve_session,
                    (&self.spec_resolver(), credential),
                    Ok::<String, R::Error>(session_id),
                ) && call_ensures(S::load, (&self.spec_accounts(),), Ok::<AccountState, S::Error>(state))
                    && call_ensures(C::now, (&self.spec_clock(),), Err::<u64, C::Error>(e)),
            r matches Ok(p) ==> exists|session_id: String, state: AccountState, now: u64|
                call_ensures(
                    R::resolve_session,
                    (&self.spec_resolver(), credential),
                    Ok::<String, R::Error>(session_id),
                ) && call_ensures(S::load, (&self.spec_accounts(),), Ok::<AccountState, S::Error>(state))
                    && call_ensures(C::now, (&self.spec_clock(),), Ok::<u64, C::Error>(now))
                    && authenticated_user(state, session_id@, now) is Some && p@ == (
                PrincipalView::User {
                    user: authenticated_user(state, session_id@, now)->Some_0,
                    session: session_id@,
                }),
            r matches Err(LocalSessionAuthenticationError::InvalidSession) ==> exists|
                session_id: String,
                state: AccountState,
                now: u64,
            |
                call_ensures(
                    R::resolve_session,
                    (&self.spec_resolver(), credential),
                    Ok::<String, R::Error>(session_id),
                ) && call_ensures(S::load, (&self.spec_accounts(),), Ok::<AccountState, S::Error>(state))
                    && call_ensures(C::now, (&self.spec_clock(),), Ok::<u64, C::Error>(now))
                    && authenticated_user(state, session_id@, now) is None,
    {
        let session_id = match self.resolver.resolve_session(credential) {
            Ok(id) => id,
            Err(error) => return Err(LocalSessionAuthenticationError::Credential(error)),
        };
        let state = match self.accounts.load() {
            Ok(state) => state,
            Err(error) => return Err(LocalSessionAuthenticationError::Repository(error)),
        };
        let now = match self.clock.now() {
            Ok(now) => now,
            Err(error) => return Err(LocalSessionAuthenticationError::Clock(error)),
        };
        let standing = session_standing(&state, session_id.as_str(), now);
        let r = session_principal(owned(session_id.as_str()), standing);
        proof {
            if r is Ok {
                assert(authenticated_user(state, session_id@, now) is Some);
            }
        }
        r
    }
}

// ---------------------------------------------------------------------------
// Shell snapshots
// ---------------------------------------------------------------------------

/// A request for the shell snapshot of the requesting user.
#[derive(Debug, Clone, Copy, Default, PartialEq, Eq)]
pub struct ShellSnapshotQuery;

/// The user a shell snapshot is loaded for, and the correlation ID of the
/// request that asks for it.
#[derive(Debug)]
pub struct ShellSnapshotSubject {
    user_id: String,
    correlation_id: CorrelationId,
}

impl ShellSnapshotSubject {
    pub closed spec fn spec_user_id(&self) -> Seq<char> {
        self.user_id@
    }

    pub closed spec fn spec_correlation_id(&self) -> Seq<u8> {
        self.correlation_id.spec_bytes()
    }

    pub fn correlation_id(&self) -> (r: CorrelationId)
        ensures
            r.spec_bytes() == self.spec_correlation_id(),
    {
        self.correlation_id
    }

    pub fn new(user_id: String, correlation_id: CorrelationId) -> (r: Self)
        ensures
            r.spec_user_id() == user_id@,
            r.spec_correlation_id() == correlation_id.spec_bytes(),
    {
        ShellSnapshotSubject { user_id, correlation_id }
    }

    pub fn user_id(&self) -> (r: &str)
        ensures
            r@ == self.spec_user_id(),
    {
        self.user_id.as_str()
    }
}

/// Loads the shell snapshot of a user.
pub trait ShellSnapshotProvider {
    type Snapshot;
    type Error;

    fn load_for_user(&self, subject: &ShellSnapshotSubject) -> Result<Self::Snapshot, Self::Error>;
}

#[derive(Debug)]
pub enum ShellSnapshotRequestError<E> {
    DirectUserSessionRequired,
    Provider(E),
}

/// The subject of a shell snapshot request: only a user acting directly, in
/// a session, for itself.
pub open spec fn snapshot_subject(context: OperationContextView) -> Option<Seq<char>> {
    match context.actor {
        IdentityView::User(user) => if context.session is Some && context.user == Some(user) {
            Some(user)
        } else {
            None
        },
        _ => None,
    }
}

/// Checks that a request comes from a direct user session.
pub fn shell_snapshot_subject<E>(context: &OperationContext) -> (r: Result<
    ShellSnapshotSubject,
    ShellSnapshotRequestError<E>,
>)
    ensures
        match snapshot_subject(context@) {
            Some(user) => r matches Ok(subject) && subject.spec_user_id() == user
                && subject.spec_correlation_id() == context.spec_correlation_id(),
            None => r matches Err(ShellSnapshotRequestError::DirectUserSessionRequired),
        },
{
    let actor = context.actor();
    let user = context.user();
    let session = context.session();
    match actor {
        Identity::User(identity) => {
            if session.is_none() {
                return Err(ShellSnapshotRequestError::DirectUserSessionRequired);
            }
            match user {
                Some(user) => {
                    if !crate::docker_runtime_target::str_equals(user.as_str(), identity.as_str()) {
                        return Err(ShellSnapshotRequestError::DirectUserSessionRequired);
                    }
                    Ok(ShellSnapshotSubject { user_id: identity, correlation_id: context.correlation_id() })
                },
                None => Err(ShellSnapshotRequestError::DirectUserSessionRequired),
            }
        },
        _ => Err(ShellSnapshotRequestError::DirectUserSessionRequired),
    }
}

/// Answers shell snapshot requests of authenticated users.
#[derive(Debug)]
pub struct AuthenticatedShellSnapshotService<P> {
    provider: P,
}

impl<P: ShellSnapshotProvider> AuthenticatedShellSnapshotService<P> {
    pub closed spec fn spec_provider(&self) -> P {
        self.provider
    }

    pub fn new(provider: P) -> (r: Self)
        ensures
            r.spec_provider() == provider,
    {
        AuthenticatedShellSnapshotService { provider }
    }

    pub fn provider(&self) -> (r: &P)
        ensures
            *r == self.spec_provider(),
    {
        &self.provider
    }

    /// Loads the snapshot of the requesting user; a request that is not a
    /// direct user session is refused before the provider is asked. The
    /// provider is asked for the requesting user under the request's
    /// correlation ID; what it returns is the answer, its error wrapped as
    /// `Provider`.
    pub fn load(&self, request: PlatformRequest<ShellSnapshotQuery>) -> (r: Result<
        P::Snapshot,
        ShellSnapshotRequestError<P::Error>,
    >)
        ensures
            snapshot_subject(request.spec_context()) is None ==> r matches Err(
                ShellSnapshotRequestError::DirectUserSessionRequired,
            ),
            snapshot_subject(request.spec_context()) is Some ==> !(r matches Err(
                ShellSnapshotRequestError::DirectUserSessionRequired,
            )),
            r matches Ok(snapshot) ==> exists|subject: ShellSnapshotSubject|
                snapshot_subject(request.spec_context()) == Some(subject.spec_user_id())
                    && subject.spec_correlation_id() == request.spec_correlation_id()
                    && call_ensures(
                    P::load_for_user,
                    (&self.spec_provider(), &subject),
                    Ok::<P::Snapshot, P::Error>(snapshot),
                ),
            r matches Err(ShellSnapshotRequestError::Provider(e)) ==> exists|
                subject: ShellSnapshotSubject,
            |
                snapshot_subject(request.spec_context()) == Some(subject.spec_user_id())
                    && subject.spec_correlation_id() == request.spec_correlation_id()
                    && call_ensures(
                    P::load_for_user,
                    (&self.spec_provider(), &subject),
                    Err::<P::Snapshot, P::Error>(e),
                ),
    {
        let (context, _) = request.into_parts();
        let subject = match shell_snapshot_subject::<P::Error>(&context) {
            Ok(subject) => subject,
            Err(error) => return Err(error),
        };
        match self.provider.load_for_user(&subject) {
            Ok(snapshot) => Ok(snapshot),
            Err(error) => Err(ShellSnapshotRequestError::Provider(error)),
        }
    }
}

/// The sources a shell snapshot is composed from, named in errors.
#[derive(Debug, Clone, Copy, PartialEq, Eq, Structural)]
pub enum ShellSnapshotSourceKind {
    User,
    Theme,
    Status,
    Contribution,
    Revision,
}

/// Composes shell snapshots from a user, theme, status, contribution and
/// revision source under one shell build.
pub struct ShellSnapshotComposer<U, T, S, C, R> {
    shell_build_id: String,
    users: U,
    themes: T,
    statuses: S,
    contributions: C,
    revisions: R,
}

impl<U, T, S, C, R> ShellSnapshotComposer<U, T, S, C, R> {
    pub closed spec fn spec_shell_build_id(&self) -> Seq<char> {
        self.shell_build_id@
    }

    pub fn new(shell_build_id: String, users: U, themes: T, statuses: S, contributions: C, revisions: R) -> (r:
        Self)
        ensures
            r.spec_shell_build_id() == shell_build_id@,
    {
        ShellSnapshotComposer { shell_build_id, users, themes, statuses, contributions, revisions }
    }

    pub fn shell_build_id(&self) -> (r: &str)
        ensures
            r@ == self.spec_shell_build_id(),
    {
        self.shell_build_id.as_str()
    }
}

/// Loads the shell user of a subject. Adapters implement it.
pub trait ShellUserSource {
    type User;
    type Error;

    fn load_user(&self, subject: &ShellSnapshotSubject) -> Result<Self::User, Self::Error>;
}

/// Loads the shell theme of a subject. Adapters implement it.
pub trait ShellThemeSource {
    type Theme;
    type Error;

    fn load_theme(&self, subject: &ShellSnapshotSubject) -> Result<Self::Theme, Self::Error>;
}

/// Loads the system status shown to a subject. Adapters implement it.
pub trait ShellStatusSource {
    type Status;
    type Error;

    fn load_status(&self, subject: &ShellSnapshotSubject) -> Result<Self::Status, Self::Error>;
}

/// Loads the extension contributions shown to a subject. Adapters implement
/// it.
pub trait ShellContributionSource {
    type Contributions;
    type Error;

    fn load_contributions(&self, subject: &ShellSnapshotSubject) -> Result<
        Self::Contributions,
        Self::Error,
    >;
}

/// Loads the revision that every projected value of a subject's snapshot
/// belongs to; it changes whenever any of them changes. Adapters implement
/// it.
pub trait ShellRevisionSource {
    type Error;

    fn load_revision(&self, subject: &ShellSnapshotSubject) -> Result<String, Self::Error>;
}

/// A composed snapshot: the shell build, the revision all parts were read
/// under, and the parts.
pub struct ComposedShellSnapshot<User, Theme, Status, Contributions> {
    pub shell_build_id: String,
    pub revision: String,
    pub user: User,
    pub theme: Theme,
    pub status: Status,
    pub contributions: Contributions,
}

/// Why no snapshot was composed: a source failed, or the revision changed
/// while the parts were read.
pub enum ShellSnapshotCompositionError<E> {
    Source { kind: ShellSnapshotSourceKind, source: E },
    ChangedDuringRead,
}

impl<E> ShellSnapshotCompositionError<E> {
    /// What the error says to a user: which kind of failure, never the
    /// source's own details.
    pub fn message(&self) -> (r: String)
        ensures
            self is Source ==> r@ == "shell snapshot source is unavailable"@,
            self is ChangedDuringRead ==> r@ == "shell snapshot changed during reading"@,
    {
        match self {
            ShellSnapshotCompositionError::Source { .. } => owned("shell snapshot source is unavailable"),
            ShellSnapshotCompositionError::ChangedDuringRead => owned(
                "shell snapshot changed during reading",
            ),
        }
    }
}

impl<U, T, S, C, R> ShellSnapshotComposer<U, T, S, C, R> {
    pub closed spec fn spec_users(&self) -> U {
        self.users
    }

    pub closed spec fn spec_themes(&self) -> T {
        self.themes
    }

    pub closed spec fn spec_statuses(&self) -> S {
        self.statuses
    }

    pub closed spec fn spec_contributions(&self) -> C {
        self.contributions
    }

    pub closed spec fn spec_revisions(&self) -> R {
        self.revisions
    }
}

impl<U, T, S, C, R> ShellSnapshotProvider for ShellSnapshotComposer<U, T, S, C, R> where
    U: ShellUserSource,
    T: ShellThemeSource<Error = U::Error>,
    S: ShellStatusSource<Error = U::Error>,
    C: ShellContributionSource<Error = U::Error>,
    R: ShellRevisionSource<Error = U::Error>,
 {
    type Snapshot = ComposedShellSnapshot<U::User, T::Theme, S::Status, C::Contributions>;
    type Error = ShellSnapshotCompositionError<U::Error>;

    /// Reads the revision, then the user, theme, status and contributions,
    /// then the revision again, stopping at the first source that fails; the
    /// snapshot stands only if both revisions are the same.
    fn load_for_user(&self, subject: &ShellSnapshotSubject) -> (r: Result<
        Self::Snapshot,
        Self::Error,
    >)
        ensures
            r matches Ok(snapshot) ==> snapshot.shell_build_id@ == self.spec_shell_build_id()
                && call_ensures(
                R::load_revision,
                (&self.spec_revisions(), subject),
                Ok::<String, U::Error>(snapshot.revision),
            ) && call_ensures(
                U::load_user,
                (&self.spec_users(), subject),
                Ok::<U::User, U::Error>(snapshot.user),
            ) && call_ensures(
                T::load_theme,
                (&self.spec_themes(), subject),
                Ok::<T::Theme, U::Error>(snapshot.theme),
            ) && call_ensures(
                S::load_status,
                (&self.spec_statuses(), subject),
                Ok::<S::Status, U::Error>(snapshot.status),
            ) && call_ensures(
                C::load_contributions,
                (&self.spec_contributions(), subject),
                Ok::<C::Contributions, U::Error>(snapshot.contributions),
            ),
            r matches Err(ShellSnapshotCompositionError::Source { kind, source }) ==> match kind {
                ShellSnapshotSourceKind::Revision => call_ensures(
                    R::load_revision,
                    (&self.spec_revisions(), subject),
                    Err::<String, U::Error>(source),
                ),
                ShellSnapshotSourceKind::User => call_ensures(
                    U::load_user,
                    (&self.spec_users(), subject),
                    Err::<U::User, U::Error>(source),
                ),
                ShellSnapshotSourceKind::Theme => call_ensures(
                    T::load_theme,
                    (&self.spec_themes(), subject),
                    Err::<T::Theme, U::Error>(source),
                ),
                ShellSnapshotSourceKind::Status => call_ensures(
                    S::load_status,
                    (&self.spec_statuses(), subject),
                    Err::<S::Status, U::Error>(source),
                ),
                ShellSnapshotSourceKind::Contribution => call_ensures(
                    C::load_contributions,
                    (&self.spec_contributions(), subject),
                    Err::<C::Contributions, U::Error>(source),
                ),
            },
            r matches Err(ShellSnapshotCompositionError::ChangedDuringRead) ==> exists|
                before: String,
                after: String,
            |
                call_ensures(
                    R::load_revision,
                    (&self.spec_revisions(), subject),
                    Ok::<String, U::Error>(before),
                ) && call_ensures(
                    R::load_revision,
                    (&self.spec_revisions(), subject),
                    Ok::<String, U::Error>(after),
                ) && before@ != after@,
    {
        let revision = match self.revisions.load_revision(subject) {
            Ok(revision) => revision,
            Err(source) => return Err(
                ShellSnapshotCompositionError::Source { kind: ShellSnapshotSourceKind::Revision, source },
            ),
        };
        let user = match self.users.load_user(subject) {
            Ok(user) => user,
            Err(source) => return Err(
                ShellSnapshotCompositionError::Source { kind: ShellSnapshotSourceKind::User, source },
            ),
        };
        let theme = match self.themes.load_theme(subject) {
            Ok(theme) => theme,
            Err(source) => return Err(
                ShellSnapshotCompositionError::Source { kind: ShellSnapshotSourceKind::Theme, source },
            ),
        };
        let status = match self.statuses.load_status(subject) {
            Ok(status) => status,
            Err(source) => return Err(
                ShellSnapshotCompositionError::Source { kind: ShellSnapshotSourceKind::Status, source },
            ),
        };
        let contributions = match self.contributions.load_contributions(subject) {
            Ok(contributions) => contributions,
            Err(source) => return Err(
                ShellSnapshotCompositionError::Source {
                    kind: ShellSnapshotSourceKind::Contribution,
                    source,
                },
            ),
        };
        let current = match self.revisions.load_revision(subject) {
            Ok(revision) => revision,
            Err(source) => return Err(
                ShellSnapshotCompositionError::Source { kind: ShellSnapshotSourceKind::Revision, source },
            ),
        };
        if !unchanged_revision(revision.as_str(), current.as_str()) {
            return Err(ShellSnapshotCompositionError::ChangedDuringRead);
        }
        Ok(
            ComposedShellSnapshot {
                shell_build_id: owned(self.shell_build_id.as_str()),
                revision,
                user,
                theme,
                status,
                contributions,
            },
        )
    }
}

/// A snapshot is consistent only if the revision read before and after its
/// parts is the same.
pub fn unchanged_revision(before: &str, after: &str) -> (r: bool)
    ensures
        r == (before@ == after@),
{
    crate::docker_runtime_target::str_equals(before, after)
}

/// Locales of users without a stored preference.
#[derive(Debug, Clone, Copy, Default)]
pub struct DefaultEnglishLocale;

/// The shell locale of a user: the stored preference, else `en-US`.
pub fn shell_locale(preference: Option<String>) -> (r: String)
    ensures
        preference matches Some(p) ==> r@ == p@,
        preference is None ==> r@ == default_shell_locale(),
{
    match preference {
        Some(locale) => locale,
        None => owned("en-US"),
    }
}

/// The shell user of an account: its account state and its locale
/// preferences.
pub struct AccountStateShellUserSource<R, L> {
    accounts: R,
    locales: L,
}

impl<R, L> AccountStateShellUserSource<R, L> {
    pub closed spec fn spec_accounts(&self) -> R {
        self.accounts
    }

    pub closed spec fn spec_locales(&self) -> L {
        self.locales
    }

    pub fn new(accounts: R, locales: L) -> (r: Self)
        ensures
            r.spec_accounts() == accounts,
            r.spec_locales() == locales,
    {
        AccountStateShellUserSource { accounts, locales }
    }
}

/// Only a direct user session is given a shell snapshot: the context of a
/// user principal always qualifies, with that user as the subject, while an
/// app acting for a user, a background app and a service are refused.
pub proof fn lemma_only_direct_users_get_snapshots(p: PrincipalView)
    ensures
        snapshot_subject(context_of(p)) is Some <==> p is User,
        p matches PrincipalView::User { user, .. } ==> snapshot_subject(context_of(p)) == Some(user),
{
}

} // verus!
