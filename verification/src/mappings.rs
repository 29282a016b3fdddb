//! The role-mapping table and the store that holds the table in force.

use crate::error::Error;
use crate::text::str_eq;
use std::sync::Arc;
use vstd::prelude::*;

verus! {

/// One line of the table: the role that a service account of a namespace may take.
#[derive(Clone, Debug, PartialEq, Eq)]
pub struct ServiceRoleMapping {
    pub service_account: String,
    pub namespace: String,
    pub aws_role: String,
}

pub struct ServiceRoleMappingView {
    pub service_account: Seq<char>,
    pub namespace: Seq<char>,
    pub aws_role: Seq<char>,
}

impl View for ServiceRoleMapping {
    type V = ServiceRoleMappingView;

    open spec fn view(&self) -> ServiceRoleMappingView {
        ServiceRoleMappingView {
            service_account: self.service_account@,
            namespace: self.namespace@,
            aws_role: self.aws_role@,
        }
    }
}

impl DeepView for ServiceRoleMapping {
    type V = ServiceRoleMappingView;

    open spec fn deep_view(&self) -> ServiceRoleMappingView {
        self@
    }
}

/// Whether `mapping` is a line for this namespace and service account. The
/// comparison is exact: case matters.
pub open spec fn matches(
    mapping: ServiceRoleMappingView,
    namespace: Seq<char>,
    service_account: Seq<char>,
) -> bool {
    mapping.service_account == service_account && mapping.namespace == namespace
}

/// The role of the first line of `table` that matches, if any line does.
pub open spec fn role_of(
    table: Seq<ServiceRoleMappingView>,
    namespace: Seq<char>,
    service_account: Seq<char>,
) -> Option<Seq<char>>
    decreases table.len(),
{
    if table.len() == 0 {
        None
    } else if matches(table[0], namespace, service_account) {
        Some(table[0].aws_role)
    } else {
        role_of(table.drop_first(), namespace, service_account)
    }
}

/// Lookup is first-match: a role is found exactly when some line matches, and
/// it is the role of the matching line before which no line matches.
pub proof fn lemma_role_of_first_match(
    table: Seq<ServiceRoleMappingView>,
    namespace: Seq<char>,
    service_account: Seq<char>,
)
    ensures
        match role_of(table, namespace, service_account) {
            Some(role) => exists|i: int|
                0 <= i < table.len() && matches(#[trigger] table[i], namespace, service_account)
                    && table[i].aws_role == role && forall|j: int|
                    0 <= j < i ==> !matches(#[trigger] table[j], namespace, service_account),
            None => forall|i: int|
                0 <= i < table.len() ==> !matches(#[trigger] table[i], namespace, service_account),
        },
    decreases table.len(),
{
    if table.len() > 0 && !matches(table[0], namespace, service_account) {
        let rest = table.drop_first();
        lemma_role_of_first_match(rest, namespace, service_account);
        match role_of(rest, namespace, service_account) {
            Some(role) => {
                let i = choose|i: int|
                    0 <= i < rest.len() && matches(#[trigger] rest[i], namespace, service_account)
                        && rest[i].aws_role == role && forall|j: int|
                        0 <= j < i ==> !matches(#[trigger] rest[j], namespace, service_account);
                assert forall|j: int| 0 <= j < i + 1 implies !matches(
                    #[trigger] table[j],
                    namespace,
                    service_account,
                ) by {
                    if j > 0 {
                        assert(table[j] == rest[j - 1]);
                    }
                }
            },
            None => {
                assert forall|i: int| 0 <= i < table.len() implies !matches(
                    #[trigger] table[i],
                    namespace,
                    service_account,
                ) by {
                    if i > 0 {
                        assert(table[i] == rest[i - 1]);
                    }
                }
            },
        }
    }
}

/// The whole table as one source held it at one time, in source order.
#[derive(Clone, Debug, PartialEq, Eq)]
pub struct Mappings {
    pub mappings: Vec<ServiceRoleMapping>,
}

impl View for Mappings {
    type V = Seq<ServiceRoleMappingView>;

    open spec fn view(&self) -> Seq<ServiceRoleMappingView> {
        self.mappings.deep_view()
    }
}

impl Mappings {
    /// The role mapped to `service_account` in `namespace`: that of the first
    /// matching line.
    pub fn get_role(&self, namespace: &str, service_account: &str) -> (role: Option<String>)
        ensures
            match role {
                Some(r) => role_of(self@, namespace@, service_account@) == Some(r@),
                None => role_of(self@, namespace@, service_account@).is_none(),
            },
    {
        let mut i: usize = 0;
        proof {
            assert(self@.skip(0) =~= self@);
        }
        while i < self.mappings.len()
            invariant
                i <= self.mappings.len(),
                role_of(self@, namespace@, service_account@) == role_of(
                    self@.skip(i as int),
                    namespace@,
                    service_account@,
                ),
            decreases self.mappings.len() - i,
        {
            let line = &self.mappings[i];
            proof {
                assert(self@.skip(i as int).drop_first() =~= self@.skip(i + 1));
            }
            if str_eq(line.service_account.as_str(), service_account) && str_eq(
                line.namespace.as_str(),
                namespace,
            ) {
                return Some(line.aws_role.clone());
            }
            i += 1;
        }
        None
    }
}

/// The table that a reload leaves in force: the loaded one, or the one before
/// where nothing could be loaded.
pub open spec fn reloaded(
    current: Seq<ServiceRoleMappingView>,
    loaded: Option<Seq<ServiceRoleMappingView>>,
) -> Seq<ServiceRoleMappingView> {
    match loaded {
        Some(table) => table,
        None => current,
    }
}

/// Reloading a source whose content has not changed leaves every lookup as it was.
pub proof fn lemma_reload_unchanged(
    current: Seq<ServiceRoleMappingView>,
    namespace: Seq<char>,
    service_account: Seq<char>,
)
    ensures
        role_of(reloaded(current, Some(current)), namespace, service_account) == role_of(
            current,
            namespace,
            service_account,
        ),
{
}

/// A failed reload leaves every lookup as it was.
pub proof fn lemma_reload_failure_keeps(
    current: Seq<ServiceRoleMappingView>,
    namespace: Seq<char>,
    service_account: Seq<char>,
)
    ensures
        role_of(reloaded(current, None), namespace, service_account) == role_of(
            current,
            namespace,
            service_account,
        ),
{
}

/// The store: it holds the table in force as one shared snapshot, which a
/// reload replaces whole and never edits.
#[derive(Clone, Debug)]
pub struct Mapping {
    pub mappings: Arc<Mappings>,
}

impl View for Mapping {
    type V = Seq<ServiceRoleMappingView>;

    open spec fn view(&self) -> Seq<ServiceRoleMappingView> {
        (*self.mappings)@
    }
}

impl Mapping {
    /// Starts the store from the first load. Without a table there is no
    /// store: the failure is handed back.
    pub fn try_new(loaded: Result<Mappings, Error>) -> (store: Result<Mapping, Error>)
        ensures
            match (loaded, store) {
                (Ok(table), Ok(s)) => s@ == table@,
                (Err(e), Err(f)) => f@ == e@,
                _ => false,
            },
    {
        match loaded {
            Ok(table) => Ok(Mapping { mappings: Arc::new(table) }),
            Err(e) => Err(e),
        }
    }

    /// The role mapped to `service_account` in `namespace` by the table in force.
    pub fn get_role(&self, namespace: &str, service_account: &str) -> (role: Option<String>)
        ensures
            match role {
                Some(r) => role_of(self@, namespace@, service_account@) == Some(r@),
                None => role_of(self@, namespace@, service_account@).is_none(),
            },
    {
        self.mappings.get_role(namespace, service_account)
    }

    /// The snapshot in force, shared and not copied.
    pub fn snapshot(&self) -> (table: Arc<Mappings>)
        ensures
            (*table)@ == self@,
    {
        Arc::clone(&self.mappings)
    }

    /// Takes the outcome of a reload. A loaded table replaces the snapshot
    /// whole; a failure leaves the snapshot in force and is handed back to be
    /// logged.
    pub fn reload(&mut self, loaded: Result<Mappings, Error>) -> (failure: Option<Error>)
        ensures
            match loaded {
                Ok(table) => failure.is_none() && final(self)@ == table@,
                Err(e) => failure.is_some() && failure.unwrap()@ == e@ && final(self)@ == old(
                    self,
                )@,
            },
            final(self)@ == reloaded(
                old(self)@,
                match loaded {
                    Ok(table) => Some(table@),
                    Err(_) => None,
                },
            ),
    {
        match loaded {
            Ok(table) => {
                self.mappings = Arc::new(table);
                None
            },
            Err(e) => Some(e),
        }
    }
}

} // verus!
