//! Per-installation SQLite databases of apps: where they live (an active,
//! a retained and a staging area under one root) and the rules for
//! provisioning, retaining and restoring an installation's databases.
use vstd::prelude::*;

use crate::docker_control::{join_path, path_join};
use crate::docker_runtime_target::str_equals;
use crate::runtime_model::AppIdentity;
use crate::text::concat;

verus! {

/// The databases in use.
pub open spec fn active_area() -> Seq<char> {
    "active"@
}

/// The databases of uninstalled apps, kept for a reinstallation.
pub open spec fn retained_area() -> Seq<char> {
    "retained"@
}

/// Databases being created.
pub open spec fn staging_area() -> Seq<char> {
    "staging"@
}

/// A database an app declared, owned by one installation.
#[derive(Debug)]
pub struct AppDatabaseBinding {
    owner: AppIdentity,
    id: String,
}

impl AppDatabaseBinding {
    pub closed spec fn spec_owner(&self) -> AppIdentity {
        self.owner
    }

    pub closed spec fn spec_id(&self) -> Seq<char> {
        self.id@
    }

    pub fn new(owner: AppIdentity, id: String) -> (r: Self)
        ensures
            r.spec_owner() == owner,
            r.spec_id() == id@,
    {
        AppDatabaseBinding { owner, id }
    }

    pub fn owner(&self) -> (r: &AppIdentity)
        ensures
            *r == self.spec_owner(),
    {
        &self.owner
    }

    pub fn id(&self) -> (r: &str)
        ensures
            r@ == self.spec_id(),
    {
        self.id.as_str()
    }
}

/// The app databases under one root directory.
#[derive(Debug)]
pub struct SqliteAppDatabaseProvider {
    root: String,
}

#[derive(Debug)]
pub enum SqliteAppDatabaseProviderError {
    Io(std::io::Error),
    MixedInstallationBindings,
    DuplicateDatabaseBinding,
    AlreadyProvisioned,
    RetainedDataExists,
    StagingDataExists,
    DatabaseNotActive,
}

/// Whether two owners are the same installation of the same app.
pub open spec fn same_owner(a: AppIdentity, b: AppIdentity) -> bool {
    &&& a.spec_app_id() == b.spec_app_id()
    &&& a.spec_installation_id() == b.spec_installation_id()
    &&& a.spec_publisher_id() == b.spec_publisher_id()
}

fn owners_equal(a: &AppIdentity, b: &AppIdentity) -> (r: bool)
    ensures
        r == same_owner(*a, *b),
{
    str_equals(a.app_id(), b.app_id()) && str_equals(a.installation_id(), b.installation_id())
        && str_equals(a.publisher_id(), b.publisher_id())
}

/// The first binding that breaks a rule: another owner than the first
/// binding's, or a database ID already declared before it.
pub open spec fn first_bad_binding(bindings: Seq<AppDatabaseBinding>, n: int) -> Option<int>
    decreases n,
{
    if n <= 0 {
        None
    } else {
        match first_bad_binding(bindings, n - 1) {
            Some(i) => Some(i),
            None => if !same_owner(bindings[n - 1].spec_owner(), bindings[0].spec_owner()) || exists|
                k: int,
            | 0 <= k < n - 1 && (#[trigger] bindings[k]).spec_id() == bindings[n - 1].spec_id() {
                Some(n - 1)
            } else {
                None
            },
        }
    }
}

impl SqliteAppDatabaseProvider {
    pub closed spec fn spec_root(&self) -> Seq<char> {
        self.root@
    }

    /// The provider of an existing root directory, with its three areas.
    pub fn with_root(root: String) -> (r: Self)
        ensures
            r.spec_root() == root@,
    {
        SqliteAppDatabaseProvider { root }
    }

    /// The directory of an installation in one area.
    pub fn installation_directory(&self, area: &str, installation_id: &str) -> (r: String)
        ensures
            r@ == path_join(path_join(self.spec_root(), area@), installation_id@),
    {
        let area_directory = join_path(self.root.as_str(), area);
        join_path(area_directory.as_str(), installation_id)
    }

    /// The active database file of a binding.
    pub fn active_database_path(&self, binding: &AppDatabaseBinding) -> (r: String)
        ensures
            r@ == path_join(
                path_join(
                    path_join(self.spec_root(), active_area()),
                    binding.spec_owner().spec_installation_id(),
                ),
                binding.spec_id() + ".sqlite3"@,
            ),
    {
        let directory = self.installation_directory("active", binding.owner().installation_id());
        let file = concat(binding.id(), ".sqlite3");
        join_path(directory.as_str(), file.as_str())
    }

    /// Checks the bindings of one provisioning: all owned by one
    /// installation, no database declared twice. Gives that installation,
    /// or nothing for an empty set.
    pub fn validate_bindings(bindings: &[AppDatabaseBinding]) -> (r: Result<
        Option<String>,
        SqliteAppDatabaseProviderError,
    >)
        ensures
            bindings@.len() == 0 ==> r matches Ok(None),
            bindings@.len() > 0 && first_bad_binding(bindings@, bindings@.len() as int) is None ==> (r matches Ok(
                Some(id),
            ) && id@ == bindings@[0].spec_owner().spec_installation_id()),
            bindings@.len() > 0 ==> (first_bad_binding(bindings@, bindings@.len() as int) matches Some(i) ==> (
            if !same_owner(bindings@[i].spec_owner(), bindings@[0].spec_owner()) {
                r matches Err(SqliteAppDatabaseProviderError::MixedInstallationBindings)
            } else {
                r matches Err(SqliteAppDatabaseProviderError::DuplicateDatabaseBinding)
            })),
    {
        if bindings.len() == 0 {
            return Ok(None);
        }
        let owner = bindings[0].owner();
        let mut j: usize = 0;
        while j < bindings.len()
            invariant
                0 < bindings@.len(),
                j <= bindings@.len(),
                *owner == bindings@[0].spec_owner(),
                first_bad_binding(bindings@, j as int) is None,
            decreases bindings@.len() - j,
        {
            proof {
                lemma_first_bad_prefix(bindings@, j as int + 1, bindings@.len() as int);
            }
            if !owners_equal(bindings[j].owner(), owner) {
                return Err(SqliteAppDatabaseProviderError::MixedInstallationBindings);
            }
            let mut k: usize = 0;
            while k < j
                invariant
                    0 < bindings@.len(),
                    j < bindings@.len(),
                    k <= j,
                    *owner == bindings@[0].spec_owner(),
                    first_bad_binding(bindings@, j as int) is None,
                    same_owner(bindings@[j as int].spec_owner(), bindings@[0].spec_owner()),
                    first_bad_binding(bindings@, j as int + 1) is Some ==> first_bad_binding(
                        bindings@,
                        bindings@.len() as int,
                    ) == first_bad_binding(bindings@, j as int + 1),
                    forall|m: int| 0 <= m < k ==> bindings@[m].spec_id() != bindings@[j as int].spec_id(),
                decreases j - k,
            {
                if str_equals(bindings[k].id(), bindings[j].id()) {
                    assert(bindings@[k as int].spec_id() == bindings@[j as int].spec_id());
                    return Err(SqliteAppDatabaseProviderError::DuplicateDatabaseBinding);
                }
                k = k + 1;
            }
            j = j + 1;
        }
        Ok(Some(crate::text::owned(owner.installation_id())))
    }
}

/// Once a binding breaks a rule, the first one that does stays first.
proof fn lemma_first_bad_prefix(bindings: Seq<AppDatabaseBinding>, n: int, m: int)
    requires
        n <= m,
    ensures
        first_bad_binding(bindings, n) is Some ==> first_bad_binding(bindings, m) == first_bad_binding(
            bindings,
            n,
        ),
    decreases m - n,
{
    if n < m {
        lemma_first_bad_prefix(bindings, n, m - 1);
    }
}

/// Provisioning starts only if the installation has no active, retained or
/// staged databases.
pub fn check_provisioning(active_exists: bool, retained_exists: bool, staging_exists: bool) -> (r:
    Result<(), SqliteAppDatabaseProviderError>)
    ensures
        active_exists ==> r matches Err(SqliteAppDatabaseProviderError::AlreadyProvisioned),
        !active_exists && retained_exists ==> r matches Err(
            SqliteAppDatabaseProviderError::RetainedDataExists,
        ),
        !active_exists && !retained_exists && staging_exists ==> r matches Err(
            SqliteAppDatabaseProviderError::StagingDataExists,
        ),
        !active_exists && !retained_exists && !staging_exists ==> r is Ok,
{
    if active_exists {
        return Err(SqliteAppDatabaseProviderError::AlreadyProvisioned);
    }
    if retained_exists {
        return Err(SqliteAppDatabaseProviderError::RetainedDataExists);
    }
    if staging_exists {
        return Err(SqliteAppDatabaseProviderError::StagingDataExists);
    }
    Ok(())
}

/// Retaining moves active databases aside: nothing to do without active
/// ones (`false`), refused over retained ones, otherwise moved (`true`).
pub fn check_retain(active_exists: bool, retained_exists: bool) -> (r: Result<
    bool,
    SqliteAppDatabaseProviderError,
>)
    ensures
        !active_exists ==> r matches Ok(false),
        active_exists && retained_exists ==> r matches Err(
            SqliteAppDatabaseProviderError::RetainedDataExists,
        ),
        active_exists && !retained_exists ==> r matches Ok(true),
{
    if !active_exists {
        return Ok(false);
    }
    if retained_exists {
        return Err(SqliteAppDatabaseProviderError::RetainedDataExists);
    }
    Ok(true)
}

/// Restoring moves retained databases back: nothing to do without retained
/// ones (`false`), refused over active ones, otherwise moved (`true`).
pub fn check_restore(retained_exists: bool, active_exists: bool) -> (r: Result<
    bool,
    SqliteAppDatabaseProviderError,
>)
    ensures
        !retained_exists ==> r matches Ok(false),
        retained_exists && active_exists ==> r matches Err(
            SqliteAppDatabaseProviderError::AlreadyProvisioned,
        ),
        retained_exists && !active_exists ==> r matches Ok(true),
{
    if !retained_exists {
        return Ok(false);
    }
    if active_exists {
        return Err(SqliteAppDatabaseProviderError::AlreadyProvisioned);
    }
    Ok(true)
}

} // verus!
