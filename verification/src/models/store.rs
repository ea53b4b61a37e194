//! The persisted mapping from identifier to principal and hash.

use crate::configuration::Environment;
use crate::models::credentials::{AuthError, Fault};
use crate::models::hasher::HashString;
use vstd::prelude::*;
use vstd::string::StringExecFns;

verus! {

/// One user's credential as it is stored.
pub struct Credentials {
    /// The principal: issued once, never reused.
    pub user_id: i32,
    /// The identifier, unique among all credentials.
    pub email: String,
    /// The user's name.
    pub name: String,
    /// The hash of the secret, never the secret.
    pub password: HashString,
}

/// What a stored credential says.
pub struct Record {
    pub principal: int,
    pub identifier: Seq<char>,
    pub name: Seq<char>,
    pub hash: Seq<char>,
}

impl View for Credentials {
    type V = Record;

    open spec fn view(&self) -> Record {
        Record {
            principal: self.user_id as int,
            identifier: self.email@,
            name: self.name@,
            hash: self.password@,
        }
    }
}

/// What a store holds: its credentials in the order in which they were
/// created, the principal that the next one will get, and the environment
/// that decides whether a write stays.
pub struct StoreView {
    pub records: Seq<Record>,
    pub next_id: int,
    pub environment: Environment,
}

impl StoreView {
    /// No two credentials share an identifier or a principal, and every
    /// principal was issued before the next one.
    pub open spec fn wf(self) -> bool {
        &&& 1 <= self.next_id <= i32::MAX
        &&& forall|i: int|
            0 <= i < self.records.len() ==> 1 <= (#[trigger] self.records[i]).principal
                < self.next_id
        &&& forall|i: int, j: int|
            0 <= i < j < self.records.len() ==> (#[trigger] self.records[i]).identifier != (
            #[trigger] self.records[j]).identifier
        &&& forall|i: int, j: int|
            0 <= i < j < self.records.len() ==> (#[trigger] self.records[i]).principal != (
            #[trigger] self.records[j]).principal
    }

    /// Whether a credential with this identifier is stored.
    pub open spec fn holds(self, identifier: Seq<char>) -> bool {
        exists|i: int|
            0 <= i < self.records.len() && (#[trigger] self.records[i]).identifier == identifier
    }

    /// The credential with this identifier, if one is stored.
    pub open spec fn lookup(self, identifier: Seq<char>) -> Option<Record> {
        if self.holds(identifier) {
            Some(
                self.records[choose|i: int|
                    0 <= i < self.records.len() && (#[trigger] self.records[i]).identifier
                        == identifier],
            )
        } else {
            None
        }
    }

    /// Whether a credential of this principal is stored.
    pub open spec fn knows(self, principal: int) -> bool {
        exists|i: int|
            0 <= i < self.records.len() && (#[trigger] self.records[i]).principal == principal
    }

    /// The credential of this principal, if one is stored.
    pub open spec fn credential_of(self, principal: int) -> Option<Record> {
        if self.knows(principal) {
            Some(
                self.records[choose|i: int|
                    0 <= i < self.records.len() && (#[trigger] self.records[i]).principal
                        == principal],
            )
        } else {
            None
        }
    }

    /// Whether what is written stays.
    pub open spec fn durable(self) -> bool {
        self.environment == Environment::Dev
    }

    /// The store with one more credential, under the next principal.
    pub open spec fn with_credential(
        self,
        identifier: Seq<char>,
        name: Seq<char>,
        hash: Seq<char>,
    ) -> StoreView {
        StoreView {
            records: self.records.push(Record { principal: self.next_id, identifier, name, hash }),
            next_id: self.next_id + 1,
            environment: self.environment,
        }
    }

    /// The store with the hash of one principal replaced, and nothing else.
    pub open spec fn with_hash(self, principal: int, hash: Seq<char>) -> StoreView {
        StoreView {
            records: Seq::new(
                self.records.len(),
                |i: int|
                    if self.records[i].principal == principal {
                        Record {
                            principal: self.records[i].principal,
                            identifier: self.records[i].identifier,
                            name: self.records[i].name,
                            hash,
                        }
                    } else {
                        self.records[i]
                    },
            ),
            next_id: self.next_id,
            environment: self.environment,
        }
    }

    /// What `create` answers and leaves behind. A taken identifier is a
    /// conflict; with no principal left to issue the store is at fault; else
    /// the credential is added, and stays if the environment is durable.
    pub open spec fn create(self, identifier: Seq<char>, name: Seq<char>, hash: Seq<char>) -> (
        StoreView,
        Result<(), AuthError>,
    ) {
        if self.holds(identifier) {
            (self, Err(AuthError::Conflict))
        } else if self.next_id >= i32::MAX {
            (self, Err(AuthError::UnexpectedError(Fault::Store)))
        } else if self.durable() {
            (self.with_credential(identifier, name, hash), Ok(()))
        } else {
            (self, Ok(()))
        }
    }

    /// What `update_hash` answers and leaves behind. An unknown principal is
    /// a fault; else the hash is replaced, and stays replaced if the
    /// environment is durable.
    pub open spec fn update_hash(self, principal: int, hash: Seq<char>) -> (
        StoreView,
        Result<(), AuthError>,
    ) {
        if !self.knows(principal) {
            (self, Err(AuthError::UnexpectedError(Fault::UnknownPrincipal)))
        } else if self.durable() {
            (self.with_hash(principal, hash), Ok(()))
        } else {
            (self, Ok(()))
        }
    }
}

/// The code by which a database reports that a unique identifier is taken.
pub const UNIQUE_VIOLATION: &'static str = "23505";

/// What a write that a database refused means: a violated uniqueness
/// constraint is a conflict, and every other refusal a fault of the store.
pub open spec fn refusal(code: Option<Seq<char>>) -> AuthError {
    if code == Some(UNIQUE_VIOLATION@) {
        AuthError::Conflict
    } else {
        AuthError::UnexpectedError(Fault::Store)
    }
}

/// What a write that a database refused means, given the code that the
/// database named, if it named one.
pub fn classify_refusal(code: Option<&str>) -> (e: AuthError)
    ensures
        e == refusal(
            match code {
                Some(text) => Some(text@),
                None => None,
            },
        ),
{
    match code {
        Some(text) => {
            if String::from_str(text) == String::from_str(UNIQUE_VIOLATION) {
                AuthError::Conflict
            } else {
                AuthError::UnexpectedError(Fault::Store)
            }
        },
        None => AuthError::UnexpectedError(Fault::Store),
    }
}

/// What a replaced hash means, given how many credentials the database
/// changed: none is an unknown principal.
pub fn classify_update(changed: u64) -> (r: Result<(), AuthError>)
    ensures
        r == if changed == 0 {
            Err::<(), AuthError>(AuthError::UnexpectedError(Fault::UnknownPrincipal))
        } else {
            Ok::<(), AuthError>(())
        },
{
    if changed == 0 {
        Err(AuthError::UnexpectedError(Fault::UnknownPrincipal))
    } else {
        Ok(())
    }
}

/// In a well-formed store, looking up the identifier of a stored credential
/// finds that credential.
pub proof fn lemma_lookup_finds(s: StoreView, i: int)
    requires
        s.wf(),
        0 <= i < s.records.len(),
    ensures
        s.holds(s.records[i].identifier),
        s.lookup(s.records[i].identifier) == Some(s.records[i]),
        s.knows(s.records[i].principal),
        s.credential_of(s.records[i].principal) == Some(s.records[i]),
{
    let by_identifier = choose|k: int|
        0 <= k < s.records.len() && (#[trigger] s.records[k]).identifier
            == s.records[i].identifier;
    assert(by_identifier == i);
    let by_principal = choose|k: int|
        0 <= k < s.records.len() && (#[trigger] s.records[k]).principal == s.records[i].principal;
    assert(by_principal == i);
}

/// Adding a credential under a free identifier keeps a store well-formed.
pub proof fn lemma_with_credential_wf(
    s: StoreView,
    identifier: Seq<char>,
    name: Seq<char>,
    hash: Seq<char>,
)
    requires
        s.wf(),
        !s.holds(identifier),
        s.next_id < i32::MAX,
    ensures
        s.with_credential(identifier, name, hash).wf(),
{
    let t = s.with_credential(identifier, name, hash);
    assert forall|i: int, j: int| 0 <= i < j < t.records.len() implies (#[trigger] t.records[i]).identifier
        != (#[trigger] t.records[j]).identifier && t.records[i].principal
        != t.records[j].principal by {
        if j < s.records.len() {
            assert(t.records[i] == s.records[i]);
            assert(t.records[j] == s.records[j]);
        } else {
            assert(t.records[i] == s.records[i]);
        }
    }
    assert forall|i: int| 0 <= i < t.records.len() implies 1 <= (#[trigger] t.records[i]).principal
        < t.next_id by {
        if i < s.records.len() {
            assert(t.records[i] == s.records[i]);
        }
    }
}

/// Replacing a hash keeps a store well-formed.
pub proof fn lemma_with_hash_wf(s: StoreView, principal: int, hash: Seq<char>)
    requires
        s.wf(),
    ensures
        s.with_hash(principal, hash).wf(),
{
    let t = s.with_hash(principal, hash);
    assert forall|i: int| 0 <= i < t.records.len() implies (#[trigger] t.records[i]).principal
        == s.records[i].principal && t.records[i].identifier == s.records[i].identifier by {}
    assert forall|i: int, j: int| 0 <= i < j < t.records.len() implies (#[trigger] t.records[i]).identifier
        != (#[trigger] t.records[j]).identifier && t.records[i].principal
        != t.records[j].principal by {
        assert(s.records[i].identifier != s.records[j].identifier);
        assert(s.records[i].principal != s.records[j].principal);
    }
    assert forall|i: int| 0 <= i < t.records.len() implies 1 <= (#[trigger] t.records[i]).principal
        < t.next_id by {
        assert(1 <= s.records[i].principal < s.next_id);
    }
}

/// No write removes a credential or moves an identifier to another
/// principal: what a store holds under an identifier before a `create` or an
/// `update_hash`, it holds after it, under the same principal and name.
pub proof fn lemma_credentials_stay(
    s: StoreView,
    held: Seq<char>,
    identifier: Seq<char>,
    name: Seq<char>,
    principal: int,
    hash: Seq<char>,
)
    requires
        s.wf(),
        s.holds(held),
    ensures
        s.create(identifier, name, hash).0.lookup(held) == s.lookup(held),
        s.update_hash(principal, hash).0.lookup(held) matches Some(after) && s.lookup(held)
            matches Some(before) && after.principal == before.principal && after.name
            == before.name && after.identifier == held && after.hash == if before.principal
            == principal && s.durable() {
            hash
        } else {
            before.hash
        },
{
    let at = choose|i: int|
        0 <= i < s.records.len() && (#[trigger] s.records[i]).identifier == held;
    lemma_lookup_finds(s, at);
    if !s.holds(identifier) && s.next_id < i32::MAX {
        let created = s.with_credential(identifier, name, hash);
        lemma_with_credential_wf(s, identifier, name, hash);
        assert(created.records[at] == s.records[at]);
        lemma_lookup_finds(created, at);
    }
    let changed = s.with_hash(principal, hash);
    lemma_with_hash_wf(s, principal, hash);
    assert(changed.records[at].identifier == held);
    lemma_lookup_finds(changed, at);
}

/// The credentials of a store, stored in memory.
pub struct CredentialStore {
    environment: Environment,
    records: Vec<Credentials>,
    next_id: i32,
}

impl View for CredentialStore {
    type V = StoreView;

    closed spec fn view(&self) -> StoreView {
        StoreView {
            records: Seq::new(self.records@.len(), |i: int| self.records@[i]@),
            next_id: self.next_id as int,
            environment: self.environment,
        }
    }
}

impl CredentialStore {
    /// What holds of every store: its credentials are well-formed.
    #[verifier::type_invariant]
    pub open spec fn well_formed(self) -> bool {
        self@.wf()
    }

    /// An empty store for the given environment. The first principal is 1.
    pub fn new(environment: Environment) -> (store: Self)
        ensures
            store@.wf(),
            store@ == (StoreView { records: Seq::<Record>::empty(), next_id: 1, environment }),
    {
        let store = CredentialStore { environment, records: Vec::new(), next_id: 1 };
        assert(store@.records =~= Seq::<Record>::empty());
        store
    }

    /// The environment that the store was made for.
    pub fn environment(&self) -> (environment: Environment)
        ensures
            environment == self@.environment,
    {
        self.environment
    }

    /// The number of credentials stored.
    pub fn len(&self) -> (n: usize)
        ensures
            n == self@.records.len(),
    {
        self.records.len()
    }

    /// The principal and hash stored under an identifier. To find none is a
    /// regular answer, not an error.
    pub fn lookup(&self, identifier: &str) -> (found: Option<(i32, HashString)>)
        ensures
            self@.wf(),
            match found {
                Some((principal, hash)) => self@.lookup(identifier@) matches Some(record)
                    && record.principal == principal && record.hash == hash@,
                None => self@.lookup(identifier@) is None,
            },
    {
        proof {
            use_type_invariant(self);
        }
        let needle = String::from_str(identifier);
        let mut i: usize = 0;
        while i < self.records.len()
            invariant
                0 <= i <= self.records.len(),
                needle@ == identifier@,
                forall|k: int| 0 <= k < i ==> (#[trigger] self@.records[k]).identifier != identifier@,
            decreases self.records.len() - i,
        {
            if self.records[i].email == needle {
                proof {
                    use_type_invariant(self);
                    assert(self@.records[i as int] == self.records@[i as int]@);
                    lemma_lookup_finds(self@, i as int);
                }
                return Some((self.records[i].user_id, self.records[i].password.duplicate()));
            }
            i += 1;
        }
        None
    }

    /// The name of a principal. A principal without a credential is a fault.
    pub fn get_name(&self, user_id: i32) -> (r: Result<String, AuthError>)
        ensures
            self@.wf(),
            match r {
                Ok(name) => self@.credential_of(user_id as int) matches Some(record)
                    && record.name == name@,
                Err(e) => self@.credential_of(user_id as int) is None && e
                    == AuthError::UnexpectedError(Fault::UnknownPrincipal),
            },
    {
        proof {
            use_type_invariant(self);
        }
        match self.position_of(user_id) {
            Some(i) => {
                proof {
                    lemma_lookup_finds(self@, i as int);
                }
                Ok(self.records[i].name.clone())
            },
            None => Err(AuthError::UnexpectedError(Fault::UnknownPrincipal)),
        }
    }

    /// Where the credential of a principal stands.
    fn position_of(&self, principal: i32) -> (at: Option<usize>)
        ensures
            match at {
                Some(i) => i < self@.records.len() && self@.records[i as int].principal
                    == principal && self@.records[i as int] == self.records@[i as int]@,
                None => !self@.knows(principal as int),
            },
    {
        let mut i: usize = 0;
        while i < self.records.len()
            invariant
                0 <= i <= self.records.len(),
                forall|k: int| 0 <= k < i ==> (#[trigger] self@.records[k]).principal != principal,
            decreases self.records.len() - i,
        {
            if self.records[i].user_id == principal {
                return Some(i);
            }
            i += 1;
        }
        None
    }

    /// Stores a new credential under the next principal, as one unit of work.
    ///
    /// A taken identifier is a conflict and leaves the store as it was. In an
    /// ephemeral environment the unit of work is rolled back when it ends: the
    /// answer is the same, and the store is left as it was.
    pub fn create(&mut self, identifier: &str, name: &str, hash: HashString) -> (r: Result<
        (),
        AuthError,
    >)
        ensures
            final(self)@.wf(),
            (final(self)@, r) == old(self)@.create(identifier@, name@, hash@),
    {
        proof {
            use_type_invariant(&*self);
        }
        if self.lookup(identifier).is_some() {
            return Err(AuthError::Conflict);
        }
        if self.next_id >= i32::MAX {
            return Err(AuthError::UnexpectedError(Fault::Store));
        }
        if self.environment.commits() {
            let credential = Credentials {
                user_id: self.next_id,
                email: String::from_str(identifier),
                name: String::from_str(name),
                password: hash,
            };
            let mut records: Vec<Credentials> = Vec::new();
            core::mem::swap(&mut self.records, &mut records);
            self.next_id = self.next_id + 1;
            records.push(credential);
            proof {
                let after = old(self)@.with_credential(identifier@, name@, hash@);
                lemma_with_credential_wf(old(self)@, identifier@, name@, hash@);
                assert(Seq::new(records@.len(), |i: int| records@[i]@) =~= after.records);
            }
            core::mem::swap(&mut self.records, &mut records);
        }
        Ok(())
    }

    /// Replaces the hash of a principal, as one unit of work.
    ///
    /// An unknown principal is a fault and leaves the store as it was. In an
    /// ephemeral environment the unit of work is rolled back when it ends.
    pub fn update_hash(&mut self, principal: i32, hash: HashString) -> (r: Result<(), AuthError>)
        ensures
            final(self)@.wf(),
            (final(self)@, r) == old(self)@.update_hash(principal as int, hash@),
    {
        proof {
            use_type_invariant(&*self);
        }
        match self.position_of(principal) {
            None => Err(AuthError::UnexpectedError(Fault::UnknownPrincipal)),
            Some(i) => {
                proof {
                    lemma_lookup_finds(self@, i as int);
                }
                if self.environment.commits() {
                    let credential = Credentials {
                        user_id: principal,
                        email: self.records[i].email.clone(),
                        name: self.records[i].name.clone(),
                        password: hash,
                    };
                    let mut records: Vec<Credentials> = Vec::new();
                    core::mem::swap(&mut self.records, &mut records);
                    records.set(i, credential);
                    proof {
                        let after = old(self)@.with_hash(principal as int, hash@);
                        lemma_with_hash_wf(old(self)@, principal as int, hash@);
                        assert forall|k: int| 0 <= k < records@.len() implies #[trigger] records@[k]@
                            == after.records[k] by {
                            if k != i {
                                assert(old(self)@.records[k] == old(self).records@[k]@);
                                assert(old(self)@.records[k].principal != old(
                                    self,
                                )@.records[i as int].principal);
                            }
                        }
                        assert(Seq::new(records@.len(), |k: int| records@[k]@) =~= after.records);
                    }
                    core::mem::swap(&mut self.records, &mut records);
                }
                Ok(())
            },
        }
    }
}

} // verus!
