//! An in-memory table of token rules: single-use and reusable tokens.
use vstd::prelude::*;

pub use super::Error;
use super::table::Table;
use super::{Role, TokenManager};

verus! {

/// What a registered token grants when it is presented.
pub enum Rule<R> {
    /// Grants the role once; the token is gone afterwards.
    Once(R),
    /// Grants a fresh copy of the role every time.
    Multiple(R),
}

impl<R> Rule<R> {
    /// The role that the rule grants.
    pub open spec fn role(self) -> R {
        match self {
            Rule::Once(r) => r,
            Rule::Multiple(r) => r,
        }
    }

    fn into_role(self) -> (r: R)
        ensures
            r == self.role(),
    {
        match self {
            Rule::Once(r) => r,
            Rule::Multiple(r) => r,
        }
    }
}

/// The table after `token` was presented: a single-use rule is spent and gone.
pub open spec fn resolve_map<R>(m: Map<Seq<char>, Rule<R>>, token: Seq<char>) -> Map<Seq<char>, Rule<R>> {
    if m.contains_key(token) && m[token] is Once {
        m.remove(token)
    } else {
        m
    }
}

/// The role that presenting `token` grants, if any.
pub open spec fn resolve_role<R>(m: Map<Seq<char>, Rule<R>>, token: Seq<char>) -> Option<R> {
    if m.contains_key(token) {
        Some(m[token].role())
    } else {
        None
    }
}

/// What each presentation grants when the tokens of `ts` are presented one
/// after another, starting from the table `m`.
pub open spec fn outcomes<R>(m: Map<Seq<char>, Rule<R>>, ts: Seq<Seq<char>>) -> Seq<Option<R>>
    decreases ts.len(),
{
    if ts.len() == 0 {
        Seq::empty()
    } else {
        seq![resolve_role(m, ts[0])] + outcomes(resolve_map(m, ts[0]), ts.drop_first())
    }
}

/// A single-use token, once registered, grants its role on the first
/// presentation; the entry is then gone, and presenting the token again grants
/// nothing and leaves the table as it is.
pub proof fn lemma_single_use_exhaustion<R>(m: Map<Seq<char>, Rule<R>>, t: Seq<char>, r: R)
    ensures
        ({
            let m1 = m.insert(t, Rule::Once(r));
            let m2 = resolve_map(m1, t);
            &&& resolve_role(m1, t) == Some(r)
            &&& !m2.contains_key(t)
            &&& m2 == m.remove(t)
            &&& resolve_role(m2, t) is None
            &&& resolve_map(m2, t) == m2
        }),
{
    let m1 = m.insert(t, Rule::Once(r));
    assert(resolve_map(m1, t) =~= m.remove(t));
}

/// A token absent from the table grants nothing to any number of
/// presentations, whatever else is presented in between.
proof fn lemma_absent_grants_nothing<R>(m: Map<Seq<char>, Rule<R>>, ts: Seq<Seq<char>>, t: Seq<char>)
    requires
        !m.contains_key(t),
    ensures
        outcomes(m, ts).len() == ts.len(),
        forall|i: int| 0 <= i < ts.len() && ts[i] == t ==> outcomes(m, ts)[i] is None,
    decreases ts.len(),
{
    if ts.len() > 0 {
        lemma_absent_grants_nothing(resolve_map(m, ts[0]), ts.drop_first(), t);
        assert forall|i: int| 0 <= i < ts.len() && ts[i] == t implies outcomes(m, ts)[i] is None by {
            if i > 0 {
                assert(ts.drop_first()[i - 1] == ts[i]);
            }
        }
    }
}

/// However many presentations of one single-use token are served one at a
/// time, and whatever other tokens are presented in between, exactly one of
/// them, the first, is granted the role; every other one is granted nothing.
pub proof fn lemma_single_use_serialized<R>(m: Map<Seq<char>, Rule<R>>, ts: Seq<Seq<char>>, t: Seq<char>, r: R)
    requires
        m.contains_key(t),
        m[t] == Rule::Once(r),
        ts.contains(t),
    ensures
        outcomes(m, ts).len() == ts.len(),
        exists|f: int|
            {
                &&& 0 <= f < ts.len()
                &&& ts[f] == t
                &&& outcomes(m, ts)[f] == Some(r)
                &&& forall|i: int| 0 <= i < ts.len() && ts[i] == t && i != f ==> outcomes(m, ts)[i] is None
            },
    decreases ts.len(),
{
    let rest = ts.drop_first();
    let m1 = resolve_map(m, ts[0]);
    if ts[0] == t {
        lemma_absent_grants_nothing(m1, rest, t);
        assert forall|i: int| 0 <= i < ts.len() && ts[i] == t && i != 0 implies outcomes(m, ts)[i] is None by {
            assert(rest[i - 1] == ts[i]);
        }
    } else {
        let k = choose|k: int| 0 <= k < ts.len() && ts[k] == t;
        assert(rest[k - 1] == t);
        assert(m1.contains_key(t) && m1[t] == Rule::Once(r));
        lemma_single_use_serialized(m1, rest, t, r);
        let f = choose|f: int|
            {
                &&& 0 <= f < rest.len()
                &&& rest[f] == t
                &&& outcomes(m1, rest)[f] == Some(r)
                &&& forall|i: int| 0 <= i < rest.len() && rest[i] == t && i != f ==> outcomes(m1, rest)[i] is None
            };
        assert(ts[f + 1] == t);
        assert forall|i: int| 0 <= i < ts.len() && ts[i] == t && i != f + 1 implies outcomes(m, ts)[i] is None by {
            assert(rest[i - 1] == ts[i]);
        }
    }
}

/// A reusable token grants its role on every presentation, and presenting
/// tokens that are not registered in between grants nothing and changes
/// nothing.
pub proof fn lemma_reusable_stability<R>(m: Map<Seq<char>, Rule<R>>, ts: Seq<Seq<char>>, t: Seq<char>, r: R)
    requires
        forall|i: int| 0 <= i < ts.len() ==> ts[i] == t || !m.insert(t, Rule::Multiple(r)).contains_key(#[trigger] ts[i]),
    ensures
        ({
            let m1 = m.insert(t, Rule::Multiple(r));
            &&& outcomes(m1, ts).len() == ts.len()
            &&& forall|i: int| 0 <= i < ts.len() ==> (#[trigger] outcomes(m1, ts)[i]) == if ts[i] == t {
                Some(r)
            } else {
                None
            }
        }),
    decreases ts.len(),
{
    let m1 = m.insert(t, Rule::Multiple(r));
    if ts.len() > 0 {
        let rest = ts.drop_first();
        assert(resolve_map(m1, ts[0]) == m1);
        assert forall|i: int| 0 <= i < rest.len() implies rest[i] == t || !m1.contains_key(#[trigger] rest[i]) by {
            assert(rest[i] == ts[i + 1]);
        }
        lemma_reusable_stability(m, rest, t, r);
        assert forall|i: int| 0 <= i < ts.len() implies (#[trigger] outcomes(m1, ts)[i]) == if ts[i] == t {
            Some(r)
        } else {
            None
        } by {
            if i > 0 {
                assert(rest[i - 1] == ts[i]);
            }
        }
    }
}

/// Presenting a token that is not registered grants nothing and leaves the
/// table as it is.
pub proof fn lemma_unknown_token<R>(m: Map<Seq<char>, Rule<R>>, t: Seq<char>)
    requires
        !m.contains_key(t),
    ensures
        resolve_role(m, t) is None,
        resolve_map(m, t) == m,
{
}

/// A token checker over a table from token strings to rules.
pub struct StringChecker<R> {
    table: Table<Rule<R>>,
}

impl<R> View for StringChecker<R> {
    type V = Map<Seq<char>, Rule<R>>;

    closed spec fn view(&self) -> Map<Seq<char>, Rule<R>> {
        self.table.map@
    }
}

impl<R> StringChecker<R> {
    #[verifier::type_invariant]
    spec fn inv(&self) -> bool {
        self.table.wf()
    }
}

impl<R: Role> StringChecker<R> {
    /// An empty table.
    pub fn new() -> (s: Self)
        ensures
            s@ == Map::<Seq<char>, Rule<R>>::empty(),
    {
        StringChecker { table: Table::new() }
    }

    fn add_rule(&mut self, token: &str, rule: Rule<R>)
        ensures
            final(self)@ == old(self)@.insert(token@, rule),
    {
        let mut table = self.take_table();
        table.insert(token.to_owned(), rule);
        *self = StringChecker { table };
    }

    /// Moves the table out, leaving an empty one behind.
    fn take_table(&mut self) -> (t: Table<Rule<R>>)
        ensures
            t.wf(),
            t.map@ == old(self)@,
    {
        let mut taken = StringChecker { table: Table::new() };
        std::mem::swap(self, &mut taken);
        proof {
            use_type_invariant(&taken);
        }
        taken.table
    }

    /// Registers `token` as single-use for `role`, in place of any rule it had.
    pub fn add_once(&mut self, token: &str, role: R)
        ensures
            final(self)@ == old(self)@.insert(token@, Rule::Once(role)),
    {
        self.add_rule(token, Rule::Once(role));
    }

    /// Registers `token` as reusable for `role`, in place of any rule it had.
    pub fn add_multiple(&mut self, token: &str, role: R)
        ensures
            final(self)@ == old(self)@.insert(token@, Rule::Multiple(role)),
    {
        self.add_rule(token, Rule::Multiple(role));
    }
}

impl<R: Role + Clone> TokenManager<R> for StringChecker<R> {
    /// Resolving `token` spends a single-use rule and hands its role over,
    /// hands out a copy of a reusable rule's role, and gives `None` for an
    /// unknown token.
    open spec fn picks(&self, token: Seq<char>, after: Self, r: Result<Option<R>, Error>) -> bool {
        &&& after@ == resolve_map(self@, token)
        &&& r matches Ok(found) && match resolve_role(self@, token) {
            None => found is None,
            Some(role) => found matches Some(got) && cloned(role, got),
        }
        &&& self@.contains_key(token) && self@[token] is Once ==> r == Ok::<Option<R>, Error>(resolve_role(self@, token))
    }

    /// The table never mints a token, and minting leaves it as it is.
    open spec fn acquires(&self, role: R, after: Self, r: Result<String, Error>) -> bool {
        &&& r == Err::<String, Error>(Error::Unsupported)
        &&& after@ == self@
    }

    /// Resolves `token`: a single-use rule hands its role over and leaves the
    /// table, a reusable one hands out a copy and stays, an unknown token gives
    /// `None`.
    fn pick_role(&mut self, token: &str) -> (r: Result<Option<R>, Error>) {
        let key = token.to_owned();
        let mut table = self.take_table();
        let found = match table.find(&key) {
            None => None,
            Some(i) => {
                let ghost k = table.rows@[i as int].0@;
                assert(table.map@.contains_key(k));
                match &table.rows[i].1 {
                    Rule::Multiple(role) => Some(role.clone()),
                    Rule::Once(_) => Some(table.remove_at(i).into_role()),
                }
            },
        };
        *self = StringChecker { table };
        Ok(found)
    }

    /// The table has no way to mint a token.
    fn acquire_token(&mut self, role: &R) -> (r: Result<String, Error>) {
        Err(Error::Unsupported)
    }
}

} // verus!
