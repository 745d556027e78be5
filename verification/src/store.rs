use vstd::prelude::*;
use vstd::string::StringExecFns;
use std::collections::HashMap;
use crate::decimal::spec_decimal;
use crate::decimal::u32_to_decimal;
use crate::user::User;

verus! {

broadcast use vstd::std_specs::hash::group_hash_axioms;

/// The one domain error: a lookup found no record with the requested id.
#[derive(Clone, Copy, Debug, PartialEq, Eq, Structural)]
pub struct NotFound {
    pub id: u32,
}

/// The plain-text body the service answers with when an id is absent.
pub open spec fn spec_not_found_message(id: u32) -> Seq<char> {
    "User "@ + spec_decimal(id) + " not found"@
}

impl NotFound {
    /// Renders the error as its response body, `User <id> not found`.
    pub fn message(&self) -> (r: String)
        ensures
            r@ == spec_not_found_message(self.id),
    {
        let mut r = String::from_str("User ");
        let digits = u32_to_decimal(self.id);
        r.append(digits.as_str());
        r.append(" not found");
        proof {
            assert(r@ =~= spec_not_found_message(self.id));
        }
        r
    }
}

/// What a lookup yields: the record under `id`, if one is held.
pub open spec fn spec_get(m: Map<u32, User>, id: u32) -> Option<User> {
    if m.contains_key(id) {
        Some(m[id])
    } else {
        None
    }
}

/// What a listing yields: the records under ids `1..=count`, in id order.
/// Meaningful for the store because its key set is always exactly that range.
pub open spec fn spec_list(m: Map<u32, User>) -> Seq<User> {
    Seq::new(m.dom().len(), |i: int| m[(i + 1) as u32])
}

/// The in-memory user directory: a table from id to record.
///
/// A fresh id is assigned from the record count, so the key set is always
/// exactly `1..=count`; every record carries the id it is keyed under.
pub struct Store {
    users: HashMap<u32, User>,
}

impl View for Store {
    type V = Map<u32, User>;

    closed spec fn view(&self) -> Map<u32, User> {
        self.users@
    }
}

impl Store {
    /// Every key holds a record carrying that id, and the keys are exactly
    /// `1..=count`: ids are assigned from the record count and nothing is
    /// ever removed.
    #[verifier::type_invariant]
    spec fn wf(&self) -> bool {
        &&& self.users@.dom().finite()
        &&& self.users@.dom().len() <= u32::MAX
        &&& forall|k: u32| self.users@.contains_key(k) ==> (#[trigger] self.users@[k]).id == k
        &&& forall|k: u32| #[trigger] self.users@.contains_key(k) <==> 1 <= k <= self.users@.dom().len()
    }

    /// How many records are held.
    pub fn count(&self) -> (n: usize)
        ensures
            n == self@.dom().len(),
    {
        proof {
            use_type_invariant(self);
        }
        self.users.len()
    }

    /// Returns the record under `id`, or `NotFound` when no record is
    /// held there; the returned record carries the queried id.
    pub fn get(&self, id: u32) -> (result: Result<User, NotFound>)
        ensures
            match result {
                Ok(user) => spec_get(self@, id) == Some(user) && user.id == id,
                Err(err) => spec_get(self@, id) is None && err == (NotFound { id }),
            },
            result is Ok <==> self@.contains_key(id),
    {
        proof {
            use_type_invariant(self);
        }
        match self.users.get(&id) {
            Some(user) => Ok(user.clone()),
            None => Err(NotFound { id }),
        }
    }

    /// Returns every record currently held, one entry per id: the ids of
    /// the result are exactly the store's key set, each paired with the
    /// record held under it.
    pub fn list(&self) -> (users: Vec<User>)
        ensures
            users@ == spec_list(self@),
            users@.len() == self@.dom().len(),
            forall|i: int|
                0 <= i < users@.len() ==> self@.contains_key((#[trigger] users@[i]).id)
                    && users@[i] == self@[users@[i].id],
            forall|k: u32| #[trigger]
                self@.contains_key(k) ==> exists|i: int|
                    0 <= i < users@.len() && (#[trigger] users@[i]).id == k,
    {
        proof {
            use_type_invariant(self);
        }
        let n = self.users.len();
        let mut users: Vec<User> = Vec::new();
        let mut i: usize = 0;
        while i < n
            invariant
                self.wf(),
                n == self@.dom().len(),
                i <= n,
                users@.len() == i,
                forall|j: int| 0 <= j < i ==> users@[j] == self@[((j + 1) as u32)],
            decreases n - i,
        {
            let id: u32 = (i + 1) as u32;
            match self.users.get(&id) {
                Some(user) => {
                    users.push(user.clone());
                },
                None => {
                    // the key set is exactly 1..=count, so every probed id is held
                    proof {
                        assert(false);
                    }
                },
            }
            i = i + 1;
        }
        proof {
            assert(users@ =~= spec_list(self@));
            assert forall|k: u32| self@.contains_key(k) implies exists|i: int|
                0 <= i < users@.len() && (#[trigger] users@[i]).id == k by {
                let w = k - 1;
                assert(users@[w] == self@[k]);
                assert(users@[w].id == k);
            }
        }
        users
    }

    /// Inserts a new record built from the payload's name and email under a
    /// freshly assigned id, the current record count plus one, and returns
    /// it. Any id the payload carries is ignored and overwritten.
    pub fn create(&mut self, payload: User) -> (user: User)
        requires
            old(self)@.dom().len() < u32::MAX,
        ensures
            user.id == old(self)@.dom().len() + 1,
            user.name == payload.name,
            user.email == payload.email,
            !old(self)@.contains_key(user.id),
            final(self)@ == old(self)@.insert(user.id, user),
            final(self)@.dom().len() == old(self)@.dom().len() + 1,
    {
        proof {
            use_type_invariant(&*self);
        }
        let n = self.users.len();
        let id: u32 = (n + 1) as u32;
        let user = User { id, name: payload.name, email: payload.email };
        let mut users: HashMap<u32, User> = HashMap::new();
        std::mem::swap(&mut users, &mut self.users);
        users.insert(id, user.clone());
        proof {
            assert(users@.dom() =~= old(self)@.dom().insert(id));
        }
        self.users = users;
        user
    }
}

/// A record just created is retrievable: after a record is inserted under
/// its own id, a lookup of that id yields exactly that record.
pub proof fn lemma_created_record_retrievable(m: Map<u32, User>, user: User)
    ensures
        spec_get(m.insert(user.id, user), user.id) == Some(user),
{
}

/// `list` and `get` are read-only queries whose results are determined by
/// the store's state alone, so repeated calls with no intervening `create`
/// return identical results.
pub proof fn lemma_queries_deterministic(m1: Map<u32, User>, m2: Map<u32, User>, id: u32)
    requires
        m1 == m2,
    ensures
        spec_list(m1) == spec_list(m2),
        spec_get(m1, id) == spec_get(m2, id),
{
}

/// Builds the seeded directory the service starts with: two records,
/// id 1 for Alice and id 2 for Bob.
pub fn create_db() -> (store: Store)
    ensures
        store@.dom().len() == 2,
        forall|k: u32| #[trigger] store@.contains_key(k) <==> (k == 1 || k == 2),
        store@[1].id == 1 && store@[1].name@ == "Alice"@ && store@[1].email@
            == "alice@example.com"@,
        store@[2].id == 2 && store@[2].name@ == "Bob"@ && store@[2].email@ == "bob@example.com"@,
{
    let mut users: HashMap<u32, User> = HashMap::new();
    users.insert(
        1,
        User {
            id: 1,
            name: String::from_str("Alice"),
            email: String::from_str("alice@example.com"),
        },
    );
    users.insert(
        2,
        User { id: 2, name: String::from_str("Bob"), email: String::from_str("bob@example.com") },
    );
    proof {
        assert(users@.dom() =~= Set::empty().insert(1u32).insert(2u32));
    }
    Store { users }
}

} // verus!
