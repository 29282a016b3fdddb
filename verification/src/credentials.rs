//! Temporary credentials and the cache that hands them out again while they
//! are still good for a quarter of an hour.

use crate::error::{Error, ErrorView};
use crate::text::str_eq;
use vstd::prelude::*;

verus! {

/// A credential is handed out from the cache only while at least this many
/// seconds of its life are left.
pub const EXPIRY_BUFFER_SECONDS: i64 = 900;

/// The life asked of every freshly issued credential, in seconds.
pub const SESSION_DURATION_SECONDS: i32 = 3600;

/// The `Version` of every credential document.
pub const CREDENTIAL_VERSION: usize = 1;

/// An instant: whole seconds since the Unix epoch and the nanoseconds into
/// that second, which stay below one thousand million.
#[derive(Clone, Copy, Debug, PartialEq, Eq)]
pub struct DateTime {
    seconds: i64,
    subsecond_nanos: u32,
}

impl DateTime {
    #[verifier::type_invariant]
    spec fn nanos_in_range(self) -> bool {
        self.subsecond_nanos < 1_000_000_000
    }

    pub closed spec fn spec_secs(&self) -> i64 {
        self.seconds
    }

    pub closed spec fn spec_subsec_nanos(&self) -> u32 {
        self.subsecond_nanos
    }

    /// The instant `epoch_seconds` after the epoch, to the second.
    pub fn from_secs(epoch_seconds: i64) -> (instant: DateTime)
        ensures
            instant.spec_secs() == epoch_seconds,
            instant.spec_subsec_nanos() == 0,
    {
        DateTime { seconds: epoch_seconds, subsecond_nanos: 0 }
    }

    /// The instant `subsecond_nanos` nanoseconds into the second `seconds`.
    pub fn from_secs_and_nanos(seconds: i64, subsecond_nanos: u32) -> (instant: DateTime)
        requires
            subsecond_nanos < 1_000_000_000,
        ensures
            instant.spec_secs() == seconds,
            instant.spec_subsec_nanos() == subsecond_nanos,
    {
        DateTime { seconds, subsecond_nanos }
    }

    #[verifier::when_used_as_spec(spec_secs)]
    pub fn secs(&self) -> (seconds: i64)
        ensures
            seconds == self.spec_secs(),
    {
        self.seconds
    }

    #[verifier::when_used_as_spec(spec_subsec_nanos)]
    pub fn subsec_nanos(&self) -> (nanos: u32)
        ensures
            nanos == self.spec_subsec_nanos(),
            nanos < 1_000_000_000,
    {
        proof {
            use_type_invariant(self);
        }
        self.subsecond_nanos
    }
}

/// The text that `aws_smithy_types::DateTime` shows for the instant
/// `subsecond_nanos` nanoseconds into the second `seconds`.
pub uninterp spec fn date_time_text(seconds: i64, subsecond_nanos: u32) -> Seq<char>;

/// `aws_smithy_types::DateTime::from_secs_and_nanos` followed by `to_string`.
/// The text depends on the two numbers alone, and the contract names it
/// without saying more of it. The constructor panics on a thousand million
/// nanoseconds or more, which `requires` leaves out.
#[verifier::external_body]
fn format_date_time(seconds: i64, subsecond_nanos: u32) -> (text: String)
    requires
        subsecond_nanos < 1_000_000_000,
    ensures
        text@ == date_time_text(seconds, subsecond_nanos),
{
    aws_smithy_types::DateTime::from_secs_and_nanos(seconds, subsecond_nanos).to_string()
}

/// The expiration as it is written into the credential document.
pub fn serialize_date_time(dt: &DateTime) -> (text: String)
    ensures
        text@ == date_time_text(dt.secs(), dt.subsec_nanos()),
{
    format_date_time(dt.secs(), dt.subsec_nanos())
}

/// Whether a credential that expires at `expiration` may still be handed out
/// at `now_secs` seconds after the epoch: at least the buffer is left.
pub open spec fn usable(expiration: DateTime, now_secs: u64) -> bool {
    expiration.secs() - now_secs >= EXPIRY_BUFFER_SECONDS
}

/// A reading of the clock as the contracts see it: the seconds since the
/// epoch, or why the clock could not be read as such, as when it stands
/// before the epoch.
pub open spec fn clock_view(now: Result<u64, String>) -> Result<u64, Seq<char>> {
    match now {
        Ok(now_secs) => Ok(now_secs),
        Err(cause) => Err(cause@),
    }
}

/// Whether a credential that expires at `expiration` may be handed out on
/// the reading `now`. Without a reading nothing may be handed out.
pub open spec fn usable_at(expiration: DateTime, now: Result<u64, Seq<char>>) -> bool {
    now matches Ok(now_secs) && usable(expiration, now_secs)
}

/// Whether less than the buffer is left of a credential on the reading
/// `now`. A credential whose expiration lies before the reading counts as
/// expired, by however much. A clock that could not be read is a failure
/// that carries the cause.
pub fn expired(credential_expiration: &DateTime, now: &Result<u64, String>) -> (is_expired: Result<
    bool,
    Error,
>)
    ensures
        match *now {
            Ok(now_secs) => is_expired matches Ok(e) && e == !usable(
                *credential_expiration,
                now_secs,
            ) && e == (credential_expiration.secs() - now_secs < 900),
            Err(cause) => is_expired matches Err(e) && e@ == ErrorView::TimeError(cause@),
        },
{
    match now {
        Ok(now_secs) => {
            let expiration: i128 = credential_expiration.secs() as i128;
            let reading: i128 = *now_secs as i128;
            Ok(expiration - reading < 900)
        },
        Err(cause) => Err(Error::TimeError(cause.clone())),
    }
}

/// A temporary credential as the issuer gave it. It is never changed: a later
/// issuance for the same role takes its place.
#[derive(Clone, Debug, PartialEq, Eq)]
pub struct TemporaryCredential {
    pub version: usize,
    pub access_key_id: String,
    pub secret_access_key: String,
    pub session_token: String,
    pub expiration: DateTime,
}

pub struct TemporaryCredentialView {
    pub version: usize,
    pub access_key_id: Seq<char>,
    pub secret_access_key: Seq<char>,
    pub session_token: Seq<char>,
    pub expiration: DateTime,
}

impl View for TemporaryCredential {
    type V = TemporaryCredentialView;

    open spec fn view(&self) -> TemporaryCredentialView {
        TemporaryCredentialView {
            version: self.version,
            access_key_id: self.access_key_id@,
            secret_access_key: self.secret_access_key@,
            session_token: self.session_token@,
            expiration: self.expiration,
        }
    }
}

impl TemporaryCredential {
    /// A copy with the same content.
    pub fn duplicate(&self) -> (copy: TemporaryCredential)
        ensures
            copy@ == self@,
    {
        TemporaryCredential {
            version: self.version,
            access_key_id: self.access_key_id.clone(),
            secret_access_key: self.secret_access_key.clone(),
            session_token: self.session_token.clone(),
            expiration: self.expiration,
        }
    }
}

/// The value of one member of a document that goes out as JSON.
#[derive(Clone, Debug, PartialEq, Eq)]
pub enum FieldValue {
    Number(usize),
    Text(String),
}

pub enum FieldValueView {
    Number(usize),
    Text(Seq<char>),
}

impl View for FieldValue {
    type V = FieldValueView;

    open spec fn view(&self) -> FieldValueView {
        match self {
            FieldValue::Number(n) => FieldValueView::Number(*n),
            FieldValue::Text(s) => FieldValueView::Text(s@),
        }
    }
}

/// One member of such a document: its name as it is written, and its value.
#[derive(Clone, Debug, PartialEq, Eq)]
pub struct Field {
    pub name: &'static str,
    pub value: FieldValue,
}

pub struct FieldView {
    pub name: Seq<char>,
    pub value: FieldValueView,
}

impl View for Field {
    type V = FieldView;

    open spec fn view(&self) -> FieldView {
        FieldView { name: self.name@, value: self.value@ }
    }
}

impl DeepView for Field {
    type V = FieldView;

    open spec fn deep_view(&self) -> FieldView {
        self@
    }
}

/// The credential document: the five members by the names that client
/// libraries read, in this order, with the expiration as text.
pub open spec fn document_of(credential: TemporaryCredentialView) -> Seq<FieldView> {
    seq![
        FieldView { name: "Version"@, value: FieldValueView::Number(credential.version) },
        FieldView { name: "AccessKeyId"@, value: FieldValueView::Text(credential.access_key_id) },
        FieldView {
            name: "SecretAccessKey"@,
            value: FieldValueView::Text(credential.secret_access_key),
        },
        FieldView { name: "Token"@, value: FieldValueView::Text(credential.session_token) },
        FieldView {
            name: "Expiration"@,
            value: FieldValueView::Text(
                date_time_text(credential.expiration.secs(), credential.expiration.subsec_nanos()),
            ),
        },
    ]
}

/// The members of the credential document for `credential`.
pub fn credential_document(credential: &TemporaryCredential) -> (fields: Vec<Field>)
    ensures
        fields.deep_view() == document_of(credential@),
{
    let mut fields: Vec<Field> = Vec::new();
    fields.push(Field { name: "Version", value: FieldValue::Number(credential.version) });
    fields.push(
        Field { name: "AccessKeyId", value: FieldValue::Text(credential.access_key_id.clone()) },
    );
    fields.push(
        Field {
            name: "SecretAccessKey",
            value: FieldValue::Text(credential.secret_access_key.clone()),
        },
    );
    fields.push(Field { name: "Token", value: FieldValue::Text(credential.session_token.clone()) });
    fields.push(
        Field {
            name: "Expiration",
            value: FieldValue::Text(serialize_date_time(&credential.expiration)),
        },
    );
    fields
}

/// What the issuer returns of a credential, before the broker stamps it.
#[derive(Clone, Debug, PartialEq, Eq)]
pub struct Credentials {
    pub access_key_id: String,
    pub secret_access_key: String,
    pub session_token: String,
    pub expiration: DateTime,
}

/// The credential document made of what the issuer returned.
pub open spec fn stamped(
    access_key_id: Seq<char>,
    secret_access_key: Seq<char>,
    session_token: Seq<char>,
    expiration: DateTime,
) -> TemporaryCredentialView {
    TemporaryCredentialView {
        version: CREDENTIAL_VERSION,
        access_key_id,
        secret_access_key,
        session_token,
        expiration,
    }
}

/// One entry of the cache: a role and the credential last issued for it.
#[derive(Clone, Debug, PartialEq, Eq)]
pub struct CachedCredential {
    pub role: String,
    pub credential: TemporaryCredential,
}

pub struct CachedCredentialView {
    pub role: Seq<char>,
    pub credential: TemporaryCredentialView,
}

impl View for CachedCredential {
    type V = CachedCredentialView;

    open spec fn view(&self) -> CachedCredentialView {
        CachedCredentialView { role: self.role@, credential: self.credential@ }
    }
}

impl DeepView for CachedCredential {
    type V = CachedCredentialView;

    open spec fn deep_view(&self) -> CachedCredentialView {
        self@
    }
}

/// The request put to the issuer for a fresh credential.
#[derive(Clone, Debug, PartialEq, Eq)]
pub struct AssumeRoleRequest {
    pub role_arn: String,
    pub role_session_name: String,
    pub duration_seconds: i32,
}

pub struct AssumeRoleRequestView {
    pub role_arn: Seq<char>,
    pub role_session_name: Seq<char>,
    pub duration_seconds: i32,
}

impl View for AssumeRoleRequest {
    type V = AssumeRoleRequestView;

    open spec fn view(&self) -> AssumeRoleRequestView {
        AssumeRoleRequestView {
            role_arn: self.role_arn@,
            role_session_name: self.role_session_name@,
            duration_seconds: self.duration_seconds,
        }
    }
}

/// What to do for a request for credentials: answer from the cache, or ask
/// the issuer.
#[derive(Clone, Debug, PartialEq, Eq)]
pub enum CredentialStep {
    Cached(TemporaryCredential),
    Issue(AssumeRoleRequest),
}

pub enum CredentialStepView {
    Cached(TemporaryCredentialView),
    Issue(AssumeRoleRequestView),
}

impl View for CredentialStep {
    type V = CredentialStepView;

    open spec fn view(&self) -> CredentialStepView {
        match self {
            CredentialStep::Cached(credential) => CredentialStepView::Cached(credential@),
            CredentialStep::Issue(request) => CredentialStepView::Issue(request@),
        }
    }
}

/// How a request for credentials of `role` is met on the reading `now` by a
/// cache that holds `cache`. A cached credential is handed out exactly when
/// the role has an entry with at least the buffer left. Otherwise, and
/// whenever the clock could not be read, the issuer is asked for a credential
/// of an hour for `role`, under `session_name`.
pub open spec fn credential_step(
    cache: Map<Seq<char>, TemporaryCredentialView>,
    role: Seq<char>,
    session_name: Seq<char>,
    now: Result<u64, Seq<char>>,
) -> CredentialStepView {
    if cache.contains_key(role) && usable_at(cache[role].expiration, now) {
        CredentialStepView::Cached(
            stamped(
                cache[role].access_key_id,
                cache[role].secret_access_key,
                cache[role].session_token,
                cache[role].expiration,
            ),
        )
    } else {
        CredentialStepView::Issue(
            AssumeRoleRequestView {
                role_arn: role,
                role_session_name: session_name,
                duration_seconds: SESSION_DURATION_SECONDS,
            },
        )
    }
}

/// For every entry of the cache, its credential is handed out if and only
/// if its expiration lies at least 900 seconds after now; in every other
/// case a fresh issuance is requested.
pub proof fn lemma_cached_iff_buffer_left(
    cache: Map<Seq<char>, TemporaryCredentialView>,
    role: Seq<char>,
    session_name: Seq<char>,
    now_secs: u64,
)
    ensures
        credential_step(cache, role, session_name, Ok(now_secs)) is Cached <==> cache.contains_key(
            role,
        ) && cache[role].expiration.secs() - now_secs >= 900,
        credential_step(cache, role, session_name, Ok(now_secs)) is Issue <==> !cache.contains_key(
            role,
        ) || cache[role].expiration.secs() - now_secs < 900,
{
}

/// While the clock cannot be read nothing is handed out from the cache:
/// every request goes to the issuer.
pub proof fn lemma_unread_clock_issues(
    cache: Map<Seq<char>, TemporaryCredentialView>,
    role: Seq<char>,
    session_name: Seq<char>,
    cause: Seq<char>,
)
    ensures
        credential_step(cache, role, session_name, Err(cause)) == CredentialStepView::Issue(
            AssumeRoleRequestView {
                role_arn: role,
                role_session_name: session_name,
                duration_seconds: SESSION_DURATION_SECONDS,
            },
        ),
{
}

/// A credential stored for a role is the one handed out for that role from
/// the moment it is stored until less than the buffer is left of it, and it
/// changes what is handed out for no other role.
pub proof fn lemma_stored_is_served(
    cache: Map<Seq<char>, TemporaryCredentialView>,
    role: Seq<char>,
    credential: TemporaryCredentialView,
    other: Seq<char>,
    session_name: Seq<char>,
    now_secs: u64,
)
    ensures
        credential.expiration.secs() - now_secs >= 900 ==> credential_step(
            cache.insert(role, credential),
            role,
            session_name,
            Ok(now_secs),
        ) == CredentialStepView::Cached(
            stamped(
                credential.access_key_id,
                credential.secret_access_key,
                credential.session_token,
                credential.expiration,
            ),
        ),
        credential.expiration.secs() - now_secs < 900 ==> credential_step(
            cache.insert(role, credential),
            role,
            session_name,
            Ok(now_secs),
        ) is Issue,
        other != role ==> credential_step(
            cache.insert(role, credential),
            other,
            session_name,
            Ok(now_secs),
        ) == credential_step(cache, other, session_name, Ok(now_secs)),
{
}


/// Of two credentials stored for one role the later one stays, and the role
/// still has one entry: storing is idempotent, the last writer wins.
pub proof fn lemma_last_writer_wins(
    cache: Map<Seq<char>, TemporaryCredentialView>,
    role: Seq<char>,
    first: TemporaryCredentialView,
    second: TemporaryCredentialView,
)
    ensures
        cache.insert(role, first).insert(role, second) == cache.insert(role, second),
        cache.insert(role, second).insert(role, second) == cache.insert(role, second),
        cache.insert(role, first).dom() == cache.dom().insert(role),
{
}

/// Whether `entries` has an entry for `role`.
pub open spec fn holds_role(entries: Seq<CachedCredentialView>, role: Seq<char>) -> bool {
    exists|i: int| 0 <= i < entries.len() && #[trigger] entries[i].role == role
}

/// Where the entry for `role` stands in `entries`.
pub open spec fn index_of_role(entries: Seq<CachedCredentialView>, role: Seq<char>) -> int {
    choose|i: int| 0 <= i < entries.len() && #[trigger] entries[i].role == role
}

/// No role has two entries.
pub open spec fn distinct_roles(entries: Seq<CachedCredentialView>) -> bool {
    forall|i: int, j: int|
        0 <= i < entries.len() && 0 <= j < entries.len() && i != j ==> (#[trigger] entries[i]).role
            != (#[trigger] entries[j]).role
}

/// The cache as a map from role to the credential last issued for it.
pub open spec fn as_map(entries: Seq<CachedCredentialView>) -> Map<
    Seq<char>,
    TemporaryCredentialView,
> {
    Map::new(
        |role: Seq<char>| holds_role(entries, role),
        |role: Seq<char>| entries[index_of_role(entries, role)].credential,
    )
}

/// The credential cache. It holds at most one entry for each role; entries
/// are replaced on refresh and never removed.
#[derive(Debug)]
pub struct AwsState {
    credential_cache: Vec<CachedCredential>,
}

impl View for AwsState {
    type V = Map<Seq<char>, TemporaryCredentialView>;

    closed spec fn view(&self) -> Map<Seq<char>, TemporaryCredentialView> {
        as_map(self.credential_cache.deep_view())
    }
}

impl AwsState {
    #[verifier::type_invariant]
    spec fn one_entry_per_role(&self) -> bool {
        distinct_roles(self.credential_cache.deep_view())
    }

    /// An empty cache.
    pub fn new() -> (state: AwsState)
        ensures
            state@ == Map::<Seq<char>, TemporaryCredentialView>::empty(),
    {
        let state = AwsState { credential_cache: Vec::new() };
        state
    }

    /// The number of roles with an entry.
    pub fn len(&self) -> (count: usize)
        ensures
            count == self@.dom().len(),
            self@.dom().finite(),
    {
        proof {
            use_type_invariant(self);
            lemma_map_size(self.credential_cache.deep_view());
        }
        self.credential_cache.len()
    }

    fn position(&self, role: &str) -> (found: Option<usize>)
        ensures
            match found {
                Some(i) => i < self.credential_cache.len()
                    && self.credential_cache.deep_view()[i as int].role == role@,
                None => !holds_role(self.credential_cache.deep_view(), role@),
            },
    {
        let mut i: usize = 0;
        while i < self.credential_cache.len()
            invariant
                i <= self.credential_cache.len(),
                forall|k: int|
                    0 <= k < i ==> (#[trigger] self.credential_cache.deep_view()[k]).role != role@,
            decreases self.credential_cache.len() - i,
        {
            if str_eq(self.credential_cache[i].role.as_str(), role) {
                return Some(i);
            }
            i += 1;
        }
        None
    }

    /// The credential cached for `role`, if there is one and it is still
    /// usable on the reading `now`. Without a reading there is none.
    pub fn get_cached_credential(&self, role: &str, now: &Result<u64, String>) -> (cached: Option<
        TemporaryCredential,
    >)
        ensures
            match cached {
                Some(c) => self@.contains_key(role@) && c@ == self@[role@] && usable_at(
                    self@[role@].expiration,
                    clock_view(*now),
                ),
                None => !self@.contains_key(role@) || !usable_at(
                    self@[role@].expiration,
                    clock_view(*now),
                ),
            },
    {
        proof {
            use_type_invariant(self);
        }
        match self.position(role) {
            Some(i) => {
                let entry = &self.credential_cache[i];
                match expired(&entry.credential.expiration, now) {
                    Ok(false) => Some(entry.credential.duplicate()),
                    Ok(true) => None,
                    Err(_) => None,
                }
            },
            None => None,
        }
    }

    /// Stores `cached_cred`: in place of the entry of its role where there is
    /// one, as a new entry where there is none. Every other role keeps its entry.
    pub fn add_cached_credential(&mut self, cached_cred: CachedCredential)
        ensures
            final(self)@ == old(self)@.insert(cached_cred.role@, cached_cred.credential@),
    {
        proof {
            use_type_invariant(&*self);
        }
        let ghost before = self.credential_cache.deep_view();
        let ghost role = cached_cred.role@;
        let ghost credential = cached_cred.credential@;
        match self.position(cached_cred.role.as_str()) {
            Some(i) => {
                let mut entries: Vec<CachedCredential> = Vec::new();
                std::mem::swap(&mut entries, &mut self.credential_cache);
                entries.set(i, cached_cred);
                proof {
                    let after = entries.deep_view();
                    assert(after =~= before.update(
                        i as int,
                        CachedCredentialView { role, credential },
                    ));
                    lemma_update_is_insert(before, i as int, credential);
                }
                self.credential_cache = entries;
            },
            None => {
                let mut entries: Vec<CachedCredential> = Vec::new();
                std::mem::swap(&mut entries, &mut self.credential_cache);
                entries.push(cached_cred);
                proof {
                    let after = entries.deep_view();
                    assert(after =~= before.push(CachedCredentialView { role, credential }));
                    lemma_push_is_insert(before, role, credential);
                }
                self.credential_cache = entries;
            },
        }
    }

    /// Decides how a request for credentials of `role` is met on the reading
    /// `now`. A cached credential is handed out exactly when the role has an
    /// entry with at least the buffer left. Otherwise, and whenever the clock
    /// could not be read, the issuer is to be asked for a credential of an
    /// hour for `role`, under `session_name`.
    pub fn get_credentials(
        &self,
        role: String,
        session_name: String,
        now: &Result<u64, String>,
    ) -> (step: CredentialStep)
        ensures
            step@ == credential_step(self@, role@, session_name@, clock_view(*now)),
    {
        match self.get_cached_credential(role.as_str(), now) {
            Some(creds) => CredentialStep::Cached(
                TemporaryCredential {
                    version: CREDENTIAL_VERSION,
                    access_key_id: creds.access_key_id,
                    secret_access_key: creds.secret_access_key,
                    session_token: creds.session_token,
                    expiration: creds.expiration,
                },
            ),
            None => CredentialStep::Issue(
                AssumeRoleRequest {
                    role_arn: role,
                    role_session_name: session_name,
                    duration_seconds: SESSION_DURATION_SECONDS,
                },
            ),
        }
    }

    /// Takes the issuer's answer to a request for `role`. A credential is
    /// stamped, stored for the role and handed back. A refusal, or an answer
    /// without credentials, is a failure and leaves the cache as it was.
    pub fn credentials_issued(
        &mut self,
        role: String,
        issued: Result<Option<Credentials>, String>,
    ) -> (outcome: Result<TemporaryCredential, Error>)
        ensures
            match issued {
                Ok(Some(creds)) => outcome matches Ok(tc) && tc@ == stamped(
                    creds.access_key_id@,
                    creds.secret_access_key@,
                    creds.session_token@,
                    creds.expiration,
                ) && final(self)@ == old(self)@.insert(role@, tc@),
                Ok(None) => outcome matches Err(e) && e@ == crate::error::ErrorView::AwsError(
                    "credentials not provided"@,
                ) && final(self)@ == old(self)@,
                Err(cause) => outcome matches Err(e) && e@ == crate::error::ErrorView::AwsError(
                    cause@,
                ) && final(self)@ == old(self)@,
            },
    {
        match issued {
            Err(cause) => Err(Error::AwsError(cause)),
            Ok(None) => Err(Error::AwsError("credentials not provided".to_owned())),
            Ok(Some(creds)) => {
                let tc = TemporaryCredential {
                    version: CREDENTIAL_VERSION,
                    access_key_id: creds.access_key_id,
                    secret_access_key: creds.secret_access_key,
                    session_token: creds.session_token,
                    expiration: creds.expiration,
                };
                self.add_cached_credential(CachedCredential { role, credential: tc.duplicate() });
                Ok(tc)
            },
        }
    }
}

proof fn lemma_update_is_insert(
    entries: Seq<CachedCredentialView>,
    i: int,
    credential: TemporaryCredentialView,
)
    requires
        distinct_roles(entries),
        0 <= i < entries.len(),
    ensures
        distinct_roles(
            entries.update(i, CachedCredentialView { role: entries[i].role, credential }),
        ),
        as_map(entries.update(i, CachedCredentialView { role: entries[i].role, credential }))
            == as_map(entries).insert(entries[i].role, credential),
{
    let role = entries[i].role;
    let after = entries.update(i, CachedCredentialView { role, credential });
    assert forall|r: Seq<char>| holds_role(after, r) == holds_role(entries, r) by {
        if holds_role(entries, r) {
            assert(after[index_of_role(entries, r)].role == r);
        }
        if holds_role(after, r) {
            assert(entries[index_of_role(after, r)].role == r);
        }
    }
    assert(holds_role(entries, role)) by {
        assert(entries[i].role == role);
    }
    assert forall|r: Seq<char>| holds_role(after, r) implies #[trigger] as_map(after)[r] == as_map(
        entries,
    ).insert(role, credential)[r] by {
        assert(entries[index_of_role(after, r)].role == r);
    }
    assert(as_map(after) =~= as_map(entries).insert(role, credential));
}

proof fn lemma_push_is_insert(
    entries: Seq<CachedCredentialView>,
    role: Seq<char>,
    credential: TemporaryCredentialView,
)
    requires
        distinct_roles(entries),
        !holds_role(entries, role),
    ensures
        distinct_roles(entries.push(CachedCredentialView { role, credential })),
        as_map(entries.push(CachedCredentialView { role, credential })) == as_map(entries).insert(
            role,
            credential,
        ),
{
    let after = entries.push(CachedCredentialView { role, credential });
    assert forall|r: Seq<char>| holds_role(after, r) == (holds_role(entries, r) || r == role) by {
        if holds_role(entries, r) {
            assert(after[index_of_role(entries, r)].role == r);
        }
        if r == role {
            assert(after[entries.len() as int].role == r);
        }
    }
    assert forall|r: Seq<char>| holds_role(after, r) implies #[trigger] as_map(after)[r] == as_map(
        entries,
    ).insert(role, credential)[r] by {
        if r != role {
            assert(after[index_of_role(entries, r)].role == r);
        }
    }
    assert(as_map(after) =~= as_map(entries).insert(role, credential));
}

proof fn lemma_map_size(entries: Seq<CachedCredentialView>)
    requires
        distinct_roles(entries),
    ensures
        as_map(entries).dom().finite(),
        as_map(entries).dom().len() == entries.len(),
    decreases entries.len(),
{
    if entries.len() == 0 {
        assert(as_map(entries).dom() =~= Set::<Seq<char>>::empty());
    } else {
        let front = entries.drop_last();
        let last = entries.last();
        assert(distinct_roles(front)) by {
            assert forall|i: int, j: int|
                0 <= i < front.len() && 0 <= j < front.len() && i != j implies (
            #[trigger] front[i]).role != (#[trigger] front[j]).role by {
                assert(entries[i].role != entries[j].role);
            }
        }
        assert(!holds_role(front, last.role)) by {
            if holds_role(front, last.role) {
                let k = index_of_role(front, last.role);
                assert(entries[k].role == entries[entries.len() - 1].role);
            }
        }
        lemma_map_size(front);
        lemma_push_is_insert(front, last.role, last.credential);
        assert(front.push(CachedCredentialView { role: last.role, credential: last.credential })
            =~= entries);
    }
}

} // verus!
