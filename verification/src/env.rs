//! Applying a descriptor's environment overrides to the inherited
//! environment before spawn.
//!
//! An override with a value sets or replaces that variable; one without a
//! value removes it; variables no override names pass through untouched.
//! `apply_env_overrides` computes the child's exact environment, and the
//! closing lemma states that meaning variable by variable.

use vstd::prelude::*;

verus! {

/// No two entries bind the same key: the map semantics the overrides come
/// with (each environment variable is named at most once).
pub open spec fn distinct_keys<T>(s: Seq<(String, T)>) -> bool {
    forall|i: int, j: int| 0 <= i < j < s.len() ==> s[i].0@ != s[j].0@
}

/// First binding of `k` in an environment list, if any.
pub open spec fn env_lookup(env: Seq<(String, String)>, k: Seq<char>) -> Option<String>
    decreases env.len(),
{
    if env.len() == 0 {
        None
    } else if env[0].0@ == k {
        Some(env[0].1)
    } else {
        env_lookup(env.drop_first(), k)
    }
}

/// First override naming `k`, if any: `Some(Some(v))` sets, `Some(None)`
/// removes.
pub open spec fn override_lookup(ov: Seq<(String, Option<String>)>, k: Seq<char>) -> Option<
    Option<String>,
>
    decreases ov.len(),
{
    if ov.len() == 0 {
        None
    } else if ov[0].0@ == k {
        Some(ov[0].1)
    } else {
        override_lookup(ov.drop_first(), k)
    }
}

/// The inherited environment after each variable has been kept, replaced or
/// removed according to the override naming it.
pub open spec fn applied_inherited(
    inh: Seq<(String, String)>,
    ov: Seq<(String, Option<String>)>,
) -> Seq<(String, String)>
    decreases inh.len(),
{
    if inh.len() == 0 {
        Seq::empty()
    } else {
        let rest = applied_inherited(inh.drop_last(), ov);
        let p = inh.last();
        match override_lookup(ov, p.0@) {
            None => rest.push(p),
            Some(Some(v)) => rest.push((p.0, v)),
            Some(None) => rest,
        }
    }
}

/// The overrides that set a variable the inherited environment lacks, in
/// override order.
pub open spec fn added_overrides(
    inh: Seq<(String, String)>,
    ov: Seq<(String, Option<String>)>,
) -> Seq<(String, String)>
    decreases ov.len(),
{
    if ov.len() == 0 {
        Seq::empty()
    } else {
        let rest = added_overrides(inh, ov.drop_last());
        let q = ov.last();
        match q.1 {
            Some(v) => if env_lookup(inh, q.0@) is None {
                rest.push((q.0, v))
            } else {
                rest
            },
            None => rest,
        }
    }
}

/// The child environment an inherited environment and a set of overrides
/// produce.
pub open spec fn child_env(
    inh: Seq<(String, String)>,
    ov: Seq<(String, Option<String>)>,
) -> Seq<(String, String)> {
    applied_inherited(inh, ov) + added_overrides(inh, ov)
}

/// Lookup distributes over concatenation, preferring the left part.
pub proof fn lemma_env_lookup_concat(a: Seq<(String, String)>, b: Seq<(String, String)>, k: Seq<char>)
    ensures
        env_lookup(a + b, k) == (match env_lookup(a, k) {
            Some(v) => Some(v),
            None => env_lookup(b, k),
        }),
    decreases a.len(),
{
    if a.len() == 0 {
        assert(a + b =~= b);
    } else {
        assert((a + b).drop_first() =~= a.drop_first() + b);
        assert((a + b)[0] == a[0]);
        lemma_env_lookup_concat(a.drop_first(), b, k);
    }
}

/// Lookup after appending one binding: the old bindings still win.
pub proof fn lemma_env_lookup_push(s: Seq<(String, String)>, p: (String, String), k: Seq<char>)
    ensures
        env_lookup(s.push(p), k) == (match env_lookup(s, k) {
            Some(v) => Some(v),
            None => if p.0@ == k {
                Some(p.1)
            } else {
                None
            },
        }),
    decreases s.len(),
{
    if s.len() == 0 {
        assert(s.push(p).drop_first() =~= Seq::<(String, String)>::empty());
        assert(s.push(p)[0] == p);
        assert(env_lookup(Seq::<(String, String)>::empty(), k) is None);
    } else {
        assert(s.push(p)[0] == s[0]);
        assert(s.push(p).drop_first() =~= s.drop_first().push(p));
        lemma_env_lookup_push(s.drop_first(), p, k);
    }
}

/// Override lookup after appending one override: earlier overrides win.
pub proof fn lemma_override_lookup_push(
    s: Seq<(String, Option<String>)>,
    q: (String, Option<String>),
    k: Seq<char>,
)
    ensures
        override_lookup(s.push(q), k) == (match override_lookup(s, k) {
            Some(a) => Some(a),
            None => if q.0@ == k {
                Some(q.1)
            } else {
                None
            },
        }),
    decreases s.len(),
{
    if s.len() == 0 {
        assert(s.push(q).drop_first() =~= Seq::<(String, Option<String>)>::empty());
        assert(s.push(q)[0] == q);
        assert(override_lookup(Seq::<(String, Option<String>)>::empty(), k) is None);
    } else {
        assert(s.push(q)[0] == s[0]);
        assert(s.push(q).drop_first() =~= s.drop_first().push(q));
        lemma_override_lookup_push(s.drop_first(), q, k);
    }
}

/// What survives of the inherited environment: a variable an override sets is
/// present exactly where it was inherited, one an override removes is gone,
/// and the rest keep their inherited values.
pub proof fn lemma_applied_lookup(
    inh: Seq<(String, String)>,
    ov: Seq<(String, Option<String>)>,
    k: Seq<char>,
)
    ensures
        env_lookup(applied_inherited(inh, ov), k) == (match override_lookup(ov, k) {
            None => env_lookup(inh, k),
            Some(Some(v)) => if env_lookup(inh, k) is Some {
                Some(v)
            } else {
                None
            },
            Some(None) => None,
        }),
    decreases inh.len(),
{
    if inh.len() == 0 {
    } else {
        let p = inh.last();
        let rest = inh.drop_last();
        lemma_applied_lookup(rest, ov, k);
        assert(inh =~= rest.push(p));
        lemma_env_lookup_push(rest, p, k);
        match override_lookup(ov, p.0@) {
            None => lemma_env_lookup_push(applied_inherited(rest, ov), p, k),
            Some(Some(v)) => lemma_env_lookup_push(applied_inherited(rest, ov), (p.0, v), k),
            Some(None) => {},
        }
    }
}

/// A list without `k` among its keys never resolves a lookup of `k`.
pub proof fn lemma_override_lookup_absent(ov: Seq<(String, Option<String>)>, k: Seq<char>)
    requires
        forall|i: int| 0 <= i < ov.len() ==> ov[i].0@ != k,
    ensures
        override_lookup(ov, k) is None,
    decreases ov.len(),
{
    if ov.len() > 0 {
        assert(forall|i: int| 0 <= i < ov.drop_first().len() ==> ov.drop_first()[i] == ov[i + 1]);
        lemma_override_lookup_absent(ov.drop_first(), k);
    }
}

/// What the added part contributes: exactly the variables an override sets
/// that the inherited environment lacks.
pub proof fn lemma_added_lookup(
    inh: Seq<(String, String)>,
    ov: Seq<(String, Option<String>)>,
    k: Seq<char>,
)
    requires
        distinct_keys(ov),
    ensures
        env_lookup(added_overrides(inh, ov), k) == (match override_lookup(ov, k) {
            Some(Some(v)) => if env_lookup(inh, k) is None {
                Some(v)
            } else {
                None
            },
            _ => None,
        }),
    decreases ov.len(),
{
    if ov.len() == 0 {
        assert(env_lookup(Seq::<(String, String)>::empty(), k) is None);
    } else {
        let q = ov.last();
        let rest = ov.drop_last();
        assert(forall|i: int| 0 <= i < rest.len() ==> rest[i] == ov[i]);
        lemma_added_lookup(inh, rest, k);
        assert(ov =~= rest.push(q));
        lemma_override_lookup_push(rest, q, k);
        lemma_override_lookup_absent(rest, q.0@);
        match q.1 {
            Some(v) => {
                if env_lookup(inh, q.0@) is None {
                    lemma_env_lookup_push(added_overrides(inh, rest), (q.0, v), k);
                }
            },
            None => {},
        }
    }
}

/// The meaning of environment overrides, variable by variable: an override
/// with a value sets that variable to it, an override without a value removes
/// it, and every variable no override names keeps its inherited binding.
pub proof fn lemma_child_env_meaning(
    inh: Seq<(String, String)>,
    ov: Seq<(String, Option<String>)>,
    k: Seq<char>,
)
    requires
        distinct_keys(ov),
    ensures
        env_lookup(child_env(inh, ov), k) == (match override_lookup(ov, k) {
            Some(Some(v)) => Some(v),
            Some(None) => None::<String>,
            None => env_lookup(inh, k),
        }),
{
    lemma_env_lookup_concat(applied_inherited(inh, ov), added_overrides(inh, ov), k);
    lemma_applied_lookup(inh, ov, k);
    lemma_added_lookup(inh, ov, k);
}

/// Scan for the first override naming `k`.
fn find_override(ov: &Vec<(String, Option<String>)>, k: &String) -> (r: Option<usize>)
    ensures
        match r {
            Some(j) => j < ov@.len() && ov@[j as int].0@ == k@ && override_lookup(ov@, k@)
                == Some(ov@[j as int].1),
            None => override_lookup(ov@, k@) is None,
        },
{
    let mut j: usize = 0;
    proof {
        assert(ov@.skip(0) =~= ov@);
    }
    while j < ov.len()
        invariant
            j <= ov@.len(),
            override_lookup(ov@, k@) == override_lookup(ov@.skip(j as int), k@),
        decreases ov@.len() - j,
    {
        proof {
            assert(ov@.skip(j as int)[0] == ov@[j as int]);
        }
        if ov[j].0 == *k {
            return Some(j);
        }
        proof {
            assert(ov@.skip(j as int).drop_first() =~= ov@.skip(j as int + 1));
        }
        j = j + 1;
    }
    proof {
        assert(ov@.skip(ov@.len() as int) =~= Seq::<(String, Option<String>)>::empty());
    }
    None
}

/// Scan for the first binding of `k`.
fn find_env(env: &Vec<(String, String)>, k: &String) -> (r: Option<usize>)
    ensures
        match r {
            Some(j) => j < env@.len() && env@[j as int].0@ == k@ && env_lookup(env@, k@)
                == Some(env@[j as int].1),
            None => env_lookup(env@, k@) is None,
        },
{
    let mut j: usize = 0;
    proof {
        assert(env@.skip(0) =~= env@);
    }
    while j < env.len()
        invariant
            j <= env@.len(),
            env_lookup(env@, k@) == env_lookup(env@.skip(j as int), k@),
        decreases env@.len() - j,
    {
        proof {
            assert(env@.skip(j as int)[0] == env@[j as int]);
        }
        if env[j].0 == *k {
            return Some(j);
        }
        proof {
            assert(env@.skip(j as int).drop_first() =~= env@.skip(j as int + 1));
        }
        j = j + 1;
    }
    proof {
        assert(env@.skip(env@.len() as int) =~= Seq::<(String, String)>::empty());
    }
    None
}

/// Compute the child's environment: the inherited bindings with overrides
/// applied, then the overrides that introduce new variables, in order.
pub fn apply_env_overrides(
    inherited: &Vec<(String, String)>,
    overrides: &Vec<(String, Option<String>)>,
) -> (r: Vec<(String, String)>)
    ensures
        r@ == child_env(inherited@, overrides@),
{
    let mut out: Vec<(String, String)> = Vec::new();
    let mut i: usize = 0;
    proof {
        assert(inherited@.take(0) =~= Seq::<(String, String)>::empty());
    }
    while i < inherited.len()
        invariant
            i <= inherited@.len(),
            out@ == applied_inherited(inherited@.take(i as int), overrides@),
        decreases inherited@.len() - i,
    {
        proof {
            assert(inherited@.take(i as int + 1).drop_last() =~= inherited@.take(i as int));
            assert(inherited@.take(i as int + 1).last() == inherited@[i as int]);
        }
        match find_override(overrides, &inherited[i].0) {
            None => {
                let pair = (inherited[i].0.clone(), inherited[i].1.clone());
                out.push(pair);
            },
            Some(j) => {
                match &overrides[j].1 {
                    Some(v) => {
                        let pair = (inherited[i].0.clone(), v.clone());
                        out.push(pair);
                    },
                    None => {},
                }
            },
        }
        i = i + 1;
    }
    proof {
        assert(inherited@.take(inherited@.len() as int) =~= inherited@);
    }
    let mut i: usize = 0;
    proof {
        assert(overrides@.take(0) =~= Seq::<(String, Option<String>)>::empty());
        assert(out@ =~= applied_inherited(inherited@, overrides@) + added_overrides(
            inherited@,
            overrides@.take(0),
        ));
    }
    while i < overrides.len()
        invariant
            i <= overrides@.len(),
            out@ == applied_inherited(inherited@, overrides@) + added_overrides(
                inherited@,
                overrides@.take(i as int),
            ),
        decreases overrides@.len() - i,
    {
        proof {
            assert(overrides@.take(i as int + 1).drop_last() =~= overrides@.take(i as int));
            assert(overrides@.take(i as int + 1).last() == overrides@[i as int]);
        }
        match &overrides[i].1 {
            Some(v) => {
                match find_env(inherited, &overrides[i].0) {
                    None => {
                        let pair = (overrides[i].0.clone(), v.clone());
                        out.push(pair);
                        proof {
                            assert(out@ =~= applied_inherited(inherited@, overrides@)
                                + added_overrides(inherited@, overrides@.take(i as int + 1)));
                        }
                    },
                    Some(_) => {},
                }
            },
            None => {},
        }
        i = i + 1;
    }
    proof {
        assert(overrides@.take(overrides@.len() as int) =~= overrides@);
    }
    out
}

} // verus!
