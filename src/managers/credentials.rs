//! An in-memory store of logins, each with its role and password digest.
use vstd::prelude::*;

use core::marker::PhantomData;
use vstd::std_specs::cmp::PartialEqSpec;

use super::table::Table;
use super::{CredentialManager, Crypt, Error, Role};

verus! {

/// What the store keeps for one login.
pub struct Credential<R> {
    /// The role that the login grants.
    pub role: R,
    /// The digest of the login's password.
    pub digest: String,
}

/// The digest that a password is checked against when its login is unknown.
pub const ABSENT_DIGEST: &'static str = "";

/// `C::verify` may say `verified` when asked whether `password` made `digest`.
pub open spec fn verified_by<C: Crypt>(password: Seq<char>, digest: Seq<char>, verified: bool) -> bool {
    exists|p: &str, d: &str| p@ == password && d@ == digest && #[trigger] call_ensures(C::verify, (p, d), verified)
}

/// `C::hash` may give `digest` for `password`.
pub open spec fn hashed_by<C: Crypt>(password: Seq<char>, digest: String) -> bool {
    exists|p: &str| p@ == password && #[trigger] call_ensures(C::hash, (p,), digest)
}

/// The role that a check of `login` grants, when the digest check of its
/// password said `verified`: the same `None` for an unknown login and for a
/// wrong password.
pub open spec fn answer<R>(m: Map<Seq<char>, Credential<R>>, login: Seq<char>, verified: bool) -> Option<R> {
    if m.contains_key(login) && verified {
        Some(m[login].role)
    } else {
        None
    }
}

/// `got` is what [`answer`] gives, up to copying the role.
pub open spec fn answered<R: Clone>(m: Map<Seq<char>, Credential<R>>, login: Seq<char>, verified: bool, got: Option<R>) -> bool {
    match answer(m, login, verified) {
        None => got is None,
        Some(role) => got matches Some(g) && cloned(role, g),
    }
}

/// A check of an unknown login and a check of a known login whose password
/// is wrong give the same answer: no role.
pub proof fn lemma_uniform_refusal<R>(
    m: Map<Seq<char>, Credential<R>>,
    known: Seq<char>,
    unknown: Seq<char>,
    verified: bool,
)
    requires
        m.contains_key(known),
        !m.contains_key(unknown),
    ensures
        answer(m, unknown, verified) == answer(m, known, false),
        answer(m, unknown, verified) is None,
{
}

/// The first row whose role equals `role`.
fn position_of_role<R: PartialEq>(table: &Table<Credential<R>>, role: &R) -> (r: Option<usize>)
    ensures
        r matches Some(i) ==> i < table.rows@.len() && (R::obeys_eq_spec() ==> table.rows@[i as int].1.role.eq_spec(role)),
        r is None && R::obeys_eq_spec() ==> forall|j: int| 0 <= j < table.rows@.len() ==> !table.rows@[j].1.role.eq_spec(role),
{
    let mut i: usize = 0;
    while i < table.rows.len()
        invariant
            i <= table.rows@.len(),
            R::obeys_eq_spec() ==> forall|j: int| 0 <= j < i ==> !table.rows@[j].1.role.eq_spec(role),
        decreases table.rows@.len() - i,
    {
        if table.rows[i].1.role == *role {
            return Some(i);
        }
        i = i + 1;
    }
    None
}

/// A credential checker over a table from logins to credentials; `C` checks digests.
pub struct CredentialChecker<R, C> {
    table: Table<Credential<R>>,
    crypt: PhantomData<C>,
}

impl<R, C> View for CredentialChecker<R, C> {
    type V = Map<Seq<char>, Credential<R>>;

    closed spec fn view(&self) -> Map<Seq<char>, Credential<R>> {
        self.table.map@
    }
}

impl<R, C> CredentialChecker<R, C> {
    #[verifier::type_invariant]
    spec fn inv(&self) -> bool {
        self.table.wf()
    }
}

impl<R: Role, C: Crypt> CredentialChecker<R, C> {
    /// An empty store.
    pub fn new() -> (s: Self)
        ensures
            s@ == Map::<Seq<char>, Credential<R>>::empty(),
    {
        CredentialChecker { table: Table::new(), crypt: PhantomData }
    }

    /// Moves the table out, leaving an empty one behind.
    fn take_table(&mut self) -> (t: Table<Credential<R>>)
        ensures
            t.wf(),
            t.map@ == old(self)@,
    {
        let mut taken = CredentialChecker { table: Table::new(), crypt: PhantomData };
        std::mem::swap(self, &mut taken);
        proof {
            use_type_invariant(&taken);
        }
        taken.table
    }

    /// Registers `login` for `role` with the digest that `C::hash` makes of
    /// `password`, in place of what the login had.
    pub fn add_login(&mut self, login: &str, role: R, password: &str)
        ensures
            exists|digest: String|
                {
                    &&& hashed_by::<C>(password@, digest)
                    &&& final(self)@ == old(self)@.insert(login@, Credential { role, digest })
                },
    {
        let mut table = self.take_table();
        let digest = C::hash(password);
        assert(hashed_by::<C>(password@, digest));
        table.insert(login.to_owned(), Credential { role, digest });
        *self = CredentialChecker { table, crypt: PhantomData };
    }
}

impl<R: Role + Clone, C: Crypt> CredentialChecker<R, C> {
    /// The role that a check of `login` grants when the digest check of its
    /// password said `verified`.
    pub fn answer_for(&self, login: &str, verified: bool) -> (r: Option<R>)
        ensures
            answered(self@, login@, verified, r),
    {
        proof {
            use_type_invariant(self);
        }
        let key = login.to_owned();
        match self.table.find(&key) {
            Some(i) if verified => {
                assert(self.table.map@.contains_key(self.table.rows@[i as int].0@));
                Some(self.table.rows[i].1.role.clone())
            },
            _ => None,
        }
    }
}

impl<R: Role + Clone + PartialEq, C: Crypt> CredentialManager<R> for CredentialChecker<R, C> {
    /// Checking a login leaves the store as it is and answers what [`answer`]
    /// gives for what `C::verify` said of `password` against the login's
    /// digest: the same `None` for an unknown login and for a wrong password.
    open spec fn picks(&self, login: Seq<char>, password: Seq<char>, after: Self, r: Result<Option<R>, Error>) -> bool {
        &&& after@ == self@
        &&& r matches Ok(found) && exists|verified: bool|
            {
                &&& self@.contains_key(login) ==> verified_by::<C>(password, self@[login].digest@, verified)
                &&& answered(self@, login, verified, found)
            }
    }

    /// Attaching finds the login whose role equals `role`, gives back a copy
    /// of that role, and stores the digest that `C::hash` made of `password`;
    /// with no such login it fails with `UnknownRole` and changes nothing.
    open spec fn attaches(&self, role: R, password: Seq<char>, after: Self, r: Result<Option<R>, Error>) -> bool {
        &&& r matches Err(e) ==> e == Error::UnknownRole && after@ == self@
        &&& r is Ok ==> exists|l: Seq<char>, digest: String|
            {
                &&& self@.contains_key(l)
                &&& R::obeys_eq_spec() ==> self@[l].role.eq_spec(&role)
                &&& r matches Ok(Some(got)) && cloned(self@[l].role, got)
                &&& hashed_by::<C>(password, digest)
                &&& after@ == self@.insert(l, Credential { role: self@[l].role, digest })
            }
        &&& R::obeys_eq_spec() ==> (r is Ok <==> exists|l: Seq<char>|
            self@.contains_key(l) && #[trigger] self@[l].role.eq_spec(&role))
    }

    /// Checks `password` against the digest of `login`; an unknown login is
    /// checked against [`ABSENT_DIGEST`], so that both cost a digest check.
    fn pick_role(&mut self, login: &str, password: &str) -> (r: Result<Option<R>, Error>) {
        proof {
            use_type_invariant(&*self);
        }
        let key = login.to_owned();
        let verified = match self.table.find(&key) {
            None => {
                C::verify(password, ABSENT_DIGEST);
                false
            },
            Some(i) => {
                let digest = self.table.rows[i].1.digest.as_str();
                let verified = C::verify(password, digest);
                assert(self.table.map@.contains_key(self.table.rows@[i as int].0@));
                assert(verified_by::<C>(password@, self@[login@].digest@, verified));
                verified
            },
        };
        Ok(self.answer_for(login, verified))
    }

    fn attach_password(&mut self, role: &R, password: &str) -> (r: Result<Option<R>, Error>) {
        let mut table = self.take_table();
        let ghost m0 = table.map@;
        let i = match position_of_role(&table, role) {
            Some(i) => i,
            None => {
                proof {
                    if R::obeys_eq_spec() {
                        assert forall|l: Seq<char>| !(m0.contains_key(l) && #[trigger] m0[l].role.eq_spec(role)) by {
                            if m0.contains_key(l) {
                                let j = choose|j: int| 0 <= j < table.rows@.len() && table.rows@[j].0@ == l;
                                assert(table.map@.contains_key(table.rows@[j].0@));
                            }
                        }
                    }
                }
                *self = CredentialChecker { table, crypt: PhantomData };
                return Err(Error::UnknownRole);
            },
        };
        let key = table.rows[i].0.clone();
        let ghost l = key@;
        assert(table.map@.contains_key(table.rows@[i as int].0@));
        let old_entry = table.remove_at(i);
        let prev = old_entry.role.clone();
        let digest = C::hash(password);
        assert(hashed_by::<C>(password@, digest));
        let ghost new_entry = Credential { role: old_entry.role, digest };
        table.insert(key, Credential { role: old_entry.role, digest });
        assert(table.map@ =~= m0.insert(l, new_entry));
        *self = CredentialChecker { table, crypt: PhantomData };
        Ok(Some(prev))
    }
}

} // verus!
