use rumahl_platform::platform_api::{
    authenticated_request, session_principal, shell_locale, AuthenticatedPrincipal,
    AuthenticatedShellSnapshotService, CorrelationId, Identity, LocalSessionAuthenticationError,
    PlatformRequestGateway, RequestAuthenticator, RequestContextFactory, SessionStanding,
    ShellSnapshotProvider, ShellSnapshotQuery, ShellSnapshotRequestError, ShellSnapshotSubject,
};
use rumahl_platform::platform_service::{
    host_allowed, provisioning_password, stylesheet_path, LocalPasswordBlocklist, NoWidgets,
};
use rumahl_platform::runtime_model::AppIdentity;
use std::cell::RefCell;

fn correlation() -> CorrelationId {
    CorrelationId::from_bytes([7; 16])
}

fn app() -> AppIdentity {
    AppIdentity::new(
        "com.rumahl.notes".to_owned(),
        "installation-1".to_owned(),
        "com.rumahl".to_owned(),
    )
}

#[test]
fn creates_direct_user_context() {
    let context = RequestContextFactory::new().create(
        AuthenticatedPrincipal::user("user-1".to_owned(), "session-1".to_owned()),
        correlation(),
    );

    assert!(matches!(context.actor(), Identity::User(user) if user == "user-1"));
    assert_eq!(context.user().as_deref(), Some("user-1"));
    assert_eq!(context.session().as_deref(), Some("session-1"));
}

#[test]
fn creates_app_context_only_with_explicit_user_delegation() {
    let delegated = RequestContextFactory::new().create(
        AuthenticatedPrincipal::app_as_user(app(), "user-1".to_owned(), "session-1".to_owned()),
        correlation(),
    );
    let background =
        RequestContextFactory::new().create(AuthenticatedPrincipal::background_app(app()), correlation());

    assert!(matches!(delegated.actor(), Identity::App(_)));
    assert_eq!(delegated.user().as_deref(), Some("user-1"));
    assert_eq!(delegated.session().as_deref(), Some("session-1"));
    assert!(matches!(background.actor(), Identity::App(_)));
    assert_eq!(background.user(), None);
    assert_eq!(background.session(), None);
}

#[test]
fn creates_service_context_without_user_session() {
    let context = RequestContextFactory::new().create(
        AuthenticatedPrincipal::service("rumahl.storage".to_owned()),
        correlation(),
    );

    assert!(matches!(context.actor(), Identity::Service(service) if service == "rumahl.storage"));
    assert_eq!(context.user(), None);
    assert_eq!(context.session(), None);
}

#[derive(Debug, Clone, Copy, PartialEq, Eq)]
struct InvalidCredential;

struct TestAuthenticator;

impl RequestAuthenticator for TestAuthenticator {
    type Credential = str;
    type Error = InvalidCredential;

    fn authenticate(&self, credential: &str) -> Result<AuthenticatedPrincipal, InvalidCredential> {
        if credential != "valid" {
            return Err(InvalidCredential);
        }
        Ok(AuthenticatedPrincipal::user(
            "user-1".to_owned(),
            "session-1".to_owned(),
        ))
    }
}

#[test]
fn authenticates_transport_payload_and_creates_context() {
    let request = PlatformRequestGateway::new(TestAuthenticator)
        .authenticate("valid", "list-installed-apps")
        .ok()
        .unwrap();

    assert_eq!(request.payload(), &"list-installed-apps");
    assert!(matches!(request.context().actor(), Identity::User(_)));
    assert!(request.context().user().is_some());
    assert!(request.context().session().is_some());
}

#[test]
fn rejects_request_before_context_creation() {
    let error = PlatformRequestGateway::new(TestAuthenticator)
        .authenticate("invalid", "list-installed-apps")
        .err()
        .unwrap();

    assert_eq!(error.authentication_error(), &InvalidCredential);
}

#[test]
fn each_authenticated_request_gets_new_correlation_id() {
    let gateway = PlatformRequestGateway::new(TestAuthenticator);
    let first = gateway.authenticate("valid", ()).ok().unwrap();
    let second = gateway.authenticate("valid", ()).ok().unwrap();

    assert_ne!(
        first.context().correlation_id(),
        second.context().correlation_id()
    );
}

#[test]
fn authenticated_request_carries_context_correlation_and_payload() {
    let request = authenticated_request(
        AuthenticatedPrincipal::background_app(app()),
        correlation(),
        7,
    );
    assert_eq!(*request.payload(), 7);
    assert_eq!(request.context().user(), None);
    assert_eq!(request.context().correlation_id().bytes(), [7; 16]);
}

#[test]
fn local_sessions_must_exist_be_active_and_belong_to_usable_accounts() {
    let principal = session_principal::<(), (), ()>(
        "session-1".to_owned(),
        SessionStanding {
            user: Some("user-1".to_owned()),
            account_can_authenticate: true,
            active: true,
        },
    )
    .unwrap();
    assert!(matches!(
        principal,
        AuthenticatedPrincipal::User { ref user, ref session } if user == "user-1" && session == "session-1"
    ));
    for (user, can, active) in [
        (None, true, true),
        (Some("user-1".to_owned()), false, true),
        (Some("user-1".to_owned()), true, false),
    ] {
        assert!(matches!(
            session_principal::<(), (), ()>(
                "session-1".to_owned(),
                SessionStanding {
                    user,
                    account_can_authenticate: can,
                    active
                }
            ),
            Err(LocalSessionAuthenticationError::InvalidSession)
        ));
    }
}

#[derive(Default)]
struct RecordingProvider {
    subjects: RefCell<Vec<(String, CorrelationId)>>,
    fail: bool,
}

impl ShellSnapshotProvider for RecordingProvider {
    type Snapshot = String;
    type Error = ();

    fn load_for_user(&self, subject: &ShellSnapshotSubject) -> Result<String, ()> {
        self.subjects
            .borrow_mut()
            .push((subject.user_id().to_owned(), subject.correlation_id()));
        if self.fail {
            return Err(());
        }
        Ok(format!("snapshot of {}", subject.user_id()))
    }
}

fn request_from(principal: AuthenticatedPrincipal) -> rumahl_platform::platform_api::PlatformRequest<ShellSnapshotQuery> {
    authenticated_request(principal, correlation(), ShellSnapshotQuery)
}

#[test]
fn loads_snapshot_for_direct_authenticated_user() {
    let service = AuthenticatedShellSnapshotService::new(RecordingProvider::default());
    let snapshot = service
        .load(request_from(AuthenticatedPrincipal::user(
            "user-1".to_owned(),
            "session-1".to_owned(),
        )))
        .unwrap();
    assert_eq!(snapshot, "snapshot of user-1");
    assert_eq!(
        *service.provider().subjects.borrow(),
        vec![("user-1".to_owned(), correlation())]
    );
}

#[test]
fn provider_errors_come_back_as_provider_errors() {
    let service = AuthenticatedShellSnapshotService::new(RecordingProvider {
        subjects: RefCell::new(Vec::new()),
        fail: true,
    });
    assert!(matches!(
        service.load(request_from(AuthenticatedPrincipal::user(
            "user-1".to_owned(),
            "session-1".to_owned(),
        ))),
        Err(ShellSnapshotRequestError::Provider(()))
    ));
    assert_eq!(service.provider().subjects.borrow().len(), 1);
}

#[test]
fn rejects_delegated_apps_and_services_before_provider_call() {
    let service = AuthenticatedShellSnapshotService::new(RecordingProvider::default());
    for principal in [
        AuthenticatedPrincipal::app_as_user(app(), "user-1".to_owned(), "session-1".to_owned()),
        AuthenticatedPrincipal::background_app(app()),
        AuthenticatedPrincipal::service("rumahl.storage".to_owned()),
    ] {
        assert!(matches!(
            service.load(request_from(principal)),
            Err(ShellSnapshotRequestError::DirectUserSessionRequired)
        ));
    }
    assert!(service.provider().subjects.borrow().is_empty());
}

#[test]
fn locale_defaults_to_english() {
    assert_eq!(shell_locale(None), "en-US");
    assert_eq!(shell_locale(Some("de-DE".to_owned())), "de-DE");
}

#[test]
fn service_pieces() {
    let blocklist = LocalPasswordBlocklist(vec!["password".to_owned(), "123456".to_owned()]);
    assert!(blocklist.contains("123456"));
    assert!(!blocklist.contains("correct horse"));
    assert_eq!(NoWidgets.resolve("user-1", "app", "widget"), None);
    assert_eq!(
        stylesheet_path("body{}"),
        format!(
            "/shell/themes/sha256-{}.css",
            "7c98040a541657584690ae2a1cc3b42a8b53b159cc60c5d3abbfecbaeac6c94a"
        )
    );
}

use rumahl_platform::platform_api::{
    AccountRecord, AccountState, AccountStateRepository, AuthenticationClock,
    LocalSessionAuthenticator, SessionCredentialResolver, SessionRecord,
};

#[derive(Debug, PartialEq, Eq)]
struct UnknownCredential;

struct OpaqueCredentialResolver {
    credential: String,
    session_id: String,
}

impl SessionCredentialResolver for OpaqueCredentialResolver {
    type Credential = str;
    type Error = UnknownCredential;

    fn resolve_session(&self, credential: &str) -> Result<String, UnknownCredential> {
        if credential == self.credential {
            Ok(self.session_id.clone())
        } else {
            Err(UnknownCredential)
        }
    }
}

struct MemoryAccountRepository {
    state: AccountState,
}

impl AccountStateRepository for MemoryAccountRepository {
    type Error = ();

    fn load(&self) -> Result<AccountState, ()> {
        Ok(self.state.clone())
    }
}

struct FixedClock(u64);

impl AuthenticationClock for FixedClock {
    type Error = ();

    fn now(&self) -> Result<u64, ()> {
        Ok(self.0)
    }
}

fn local_authenticator(
    now: u64,
    can_authenticate: bool,
) -> LocalSessionAuthenticator<OpaqueCredentialResolver, MemoryAccountRepository, FixedClock> {
    LocalSessionAuthenticator::with_clock(
        OpaqueCredentialResolver {
            credential: "opaque-browser-session".to_owned(),
            session_id: "session-kai".to_owned(),
        },
        MemoryAccountRepository {
            state: AccountState {
                accounts: vec![AccountRecord { user_id: "user-kai".to_owned(), can_authenticate }],
                sessions: vec![SessionRecord {
                    session_id: "session-kai".to_owned(),
                    user_id: "user-kai".to_owned(),
                    started_at: 100,
                    expires_at: 200,
                    revoked: false,
                }],
            },
        },
        FixedClock(now),
    )
}

#[test]
fn resolves_opaque_credential_and_revalidates_os_session() {
    let principal = local_authenticator(150, true)
        .authenticate("opaque-browser-session")
        .unwrap();
    assert!(matches!(
        principal,
        AuthenticatedPrincipal::User { ref user, ref session } if user == "user-kai" && session == "session-kai"
    ));
}

#[test]
fn rejects_unknown_opaque_credential() {
    assert!(matches!(
        local_authenticator(150, true).authenticate("a-session-id-is-not-a-token"),
        Err(LocalSessionAuthenticationError::Credential(UnknownCredential))
    ));
}

#[test]
fn rejects_expired_session_after_credential_resolution() {
    assert!(matches!(
        local_authenticator(200, true).authenticate("opaque-browser-session"),
        Err(LocalSessionAuthenticationError::InvalidSession)
    ));
}

#[test]
fn rejects_revoked_session_after_credential_resolution() {
    assert!(matches!(
        local_authenticator(150, false).authenticate("opaque-browser-session"),
        Err(LocalSessionAuthenticationError::InvalidSession)
    ));
}

use rumahl_platform::platform_api::{
    ShellContributionSource, ShellRevisionSource, ShellSnapshotComposer,
    ShellSnapshotCompositionError, ShellSnapshotSourceKind, ShellStatusSource, ShellThemeSource,
    ShellUserSource,
};
use std::cell::Cell;

struct Sources {
    expected_user: String,
    revision_reads: Cell<u8>,
    change_revision: bool,
    fail_theme: bool,
}

impl ShellUserSource for &Sources {
    type User = (String, String);
    type Error = String;

    fn load_user(&self, subject: &ShellSnapshotSubject) -> Result<(String, String), String> {
        if subject.user_id() != self.expected_user {
            return Err("wrong user".to_owned());
        }
        Ok(("Ada".to_owned(), "de-DE".to_owned()))
    }
}

impl ShellThemeSource for &Sources {
    type Theme = String;
    type Error = String;

    fn load_theme(&self, _: &ShellSnapshotSubject) -> Result<String, String> {
        if self.fail_theme {
            return Err("internal theme failure".to_owned());
        }
        Ok("/shell/themes/sha256-aaaaaaaaaaaaaaaaaaaaaaaaaaaaaaaaaaaaaaaaaaaaaaaaaaaaaaaaaaaaaaaa.css".to_owned())
    }
}

impl ShellStatusSource for &Sources {
    type Status = u32;
    type Error = String;

    fn load_status(&self, _: &ShellSnapshotSubject) -> Result<u32, String> {
        Ok(2)
    }
}

impl ShellContributionSource for &Sources {
    type Contributions = Vec<String>;
    type Error = String;

    fn load_contributions(&self, _: &ShellSnapshotSubject) -> Result<Vec<String>, String> {
        Ok(vec!["com.example.notes.open".to_owned()])
    }
}

impl ShellRevisionSource for &Sources {
    type Error = String;

    fn load_revision(&self, _: &ShellSnapshotSubject) -> Result<String, String> {
        let reads = self.revision_reads.get() + 1;
        self.revision_reads.set(reads);
        Ok(if self.change_revision && reads > 1 {
            "revision-2"
        } else {
            "revision-1"
        }
        .to_owned())
    }
}

fn sources(expected_user: &str) -> Sources {
    Sources {
        expected_user: expected_user.to_owned(),
        revision_reads: Cell::new(0),
        change_revision: false,
        fail_theme: false,
    }
}

fn compose(
    sources: &Sources,
) -> ShellSnapshotComposer<&Sources, &Sources, &Sources, &Sources, &Sources> {
    ShellSnapshotComposer::new(
        "shell-build-001".to_owned(),
        sources,
        sources,
        sources,
        sources,
        sources,
    )
}

fn subject(user: &str) -> ShellSnapshotSubject {
    ShellSnapshotSubject::new(user.to_owned(), correlation())
}

#[test]
fn composes_all_sources_for_the_authenticated_user() {
    let sources = sources("user-ada");
    let snapshot = compose(&sources).load_for_user(&subject("user-ada")).ok().unwrap();

    assert_eq!(snapshot.user.0, "Ada");
    assert_eq!(snapshot.user.1, "de-DE");
    assert_eq!(snapshot.status, 2);
    assert_eq!(snapshot.contributions.len(), 1);
    assert_eq!(snapshot.revision, "revision-1");
    assert_eq!(snapshot.shell_build_id, "shell-build-001");
    assert_eq!(sources.revision_reads.get(), 2);
}

#[test]
fn rejects_an_update_during_assembly() {
    let mut sources = sources("user-ada");
    sources.change_revision = true;

    let result = compose(&sources).load_for_user(&subject("user-ada"));

    assert!(matches!(
        result,
        Err(ShellSnapshotCompositionError::ChangedDuringRead)
    ));
}

#[test]
fn identifies_failing_source_without_exposing_its_details() {
    let mut sources = sources("user-ada");
    sources.fail_theme = true;

    let error = compose(&sources).load_for_user(&subject("user-ada")).err().unwrap();

    assert!(matches!(
        error,
        ShellSnapshotCompositionError::Source {
            kind: ShellSnapshotSourceKind::Theme,
            ..
        }
    ));
    assert_eq!(error.message(), "shell snapshot source is unavailable");
    assert!(!error.message().contains("internal theme failure"));
    assert_eq!(sources.revision_reads.get(), 1);
}

use rumahl_platform::platform_api::SystemAuthenticationClock;

#[test]
fn the_system_clock_reads_seconds_since_the_epoch() {
    let now = SystemAuthenticationClock.now().unwrap();
    assert!(now > 1_600_000_000);
}

#[test]
fn provisioning_reads_one_line_of_bounded_password_input() {
    assert_eq!(provisioning_password(b"secret\r\n").unwrap(), b"secret".to_vec());
    assert_eq!(provisioning_password(b"secret\n").unwrap(), b"secret".to_vec());
    assert_eq!(provisioning_password(b"secret\r").unwrap(), b"secret\r".to_vec());
    assert_eq!(provisioning_password(b"two\n\n").unwrap(), b"two\n".to_vec());
    assert_eq!(provisioning_password(&[b'a'; 8192]).unwrap().len(), 8192);
    assert!(provisioning_password(&[b'a'; 8193]).is_none());
}

#[test]
fn requests_must_name_the_service_authority_once() {
    let host = |value: &str| Some(value.to_owned());
    assert!(host_allowed(&[host("rumahl.local:8443")], "rumahl.local:8443/"));
    assert!(host_allowed(&[host("rumahl.local:8443")], "rumahl.local:8443"));
    assert!(!host_allowed(&[host("evil.example")], "rumahl.local:8443"));
    assert!(!host_allowed(&[host("rumahl.local:8443"), host("rumahl.local:8443")], "rumahl.local:8443"));
    assert!(!host_allowed(&[], "rumahl.local:8443"));
    assert!(!host_allowed(&[None], "rumahl.local:8443"));
}
