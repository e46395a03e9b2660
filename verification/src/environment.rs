//! The environment snapshot: an ordered list of (name, value) pairs in which,
//! of two entries with one name, the later one counts.

use vstd::prelude::*;

verus! {

/// The mathematical model of an environment snapshot.
pub type EnvView = Seq<(Seq<char>, Seq<char>)>;

/// The name of the search-path variable.
pub open spec fn path_var() -> Seq<char> {
    "PATH"@
}

/// The name of the home-directory variable.
pub open spec fn home_var() -> Seq<char> {
    "HOME"@
}

/// The name of the variable that holds the home directory on Windows.
pub open spec fn userprofile_var() -> Seq<char> {
    "USERPROFILE"@
}

/// The position of the last entry named `name`, if there is one.
pub open spec fn last_index_of(env: EnvView, name: Seq<char>) -> Option<int>
    decreases env.len(),
{
    if env.len() == 0 {
        None
    } else if env.last().0 == name {
        Some(env.len() - 1)
    } else {
        last_index_of(env.drop_last(), name)
    }
}

/// Whether some entry of `env` is named `name`.
pub open spec fn has_var(env: EnvView, name: Seq<char>) -> bool {
    exists|i: int| 0 <= i < env.len() && (#[trigger] env[i]).0 == name
}

/// The value that `name` has in `env`: that of the last entry so named.
pub open spec fn env_lookup(env: EnvView, name: Seq<char>) -> Option<Seq<char>> {
    match last_index_of(env, name) {
        Some(i) => Some(env[i].1),
        None => None,
    }
}

/// No two entries of `env` have the same name.
pub open spec fn keys_unique(env: EnvView) -> bool {
    forall|i: int, j: int|
        0 <= i < j < env.len() ==> (#[trigger] env[i]).0 != (#[trigger] env[j]).0
}

/// What `last_index_of` finds: an entry named `name` after which no entry has
/// that name; and it finds none only where there is none.
pub proof fn lemma_last_index_of(env: EnvView, name: Seq<char>)
    ensures
        match last_index_of(env, name) {
            Some(i) => {
                &&& 0 <= i < env.len()
                &&& env[i].0 == name
                &&& forall|j: int| i < j < env.len() ==> (#[trigger] env[j]).0 != name
            },
            None => forall|j: int| 0 <= j < env.len() ==> (#[trigger] env[j]).0 != name,
        },
        last_index_of(env, name) is Some <==> has_var(env, name),
    decreases env.len(),
{
    if env.len() > 0 && env.last().0 != name {
        let front = env.drop_last();
        lemma_last_index_of(front, name);
        assert forall|j: int| 0 <= j < env.len() - 1 implies env[j] == front[j] by {}
        match last_index_of(front, name) {
            Some(i) => {
                assert(env[i].0 == name);
                assert forall|j: int| i < j < env.len() implies (#[trigger] env[j]).0 != name by {
                    if j < env.len() - 1 {
                        assert(front[j].0 != name);
                    }
                }
            },
            None => {
                assert forall|j: int| 0 <= j < env.len() implies (#[trigger] env[j]).0 != name by {
                    if j < env.len() - 1 {
                        assert(front[j].0 != name);
                    }
                }
            },
        }
    } else if env.len() > 0 {
        assert(env[env.len() - 1].0 == name);
    }
}

/// The last entry named `name` is the one at `i` when it is so named and no
/// later entry is.
pub proof fn lemma_last_index_is(env: EnvView, name: Seq<char>, i: int)
    requires
        0 <= i < env.len(),
        env[i].0 == name,
        forall|j: int| i < j < env.len() ==> (#[trigger] env[j]).0 != name,
    ensures
        last_index_of(env, name) == Some(i),
{
    lemma_last_index_of(env, name);
}

/// Where `later` differs from `earlier` only in entries that are not named
/// `name`, changed in value or added at the end, `name` has the same value in
/// both.
pub proof fn lemma_same_names_same_index(earlier: EnvView, later: EnvView, name: Seq<char>)
    requires
        earlier.len() <= later.len(),
        forall|j: int|
            0 <= j < earlier.len() ==> (#[trigger] later[j]).0 == earlier[j].0 && (later[j].0
                == name ==> later[j] == earlier[j]),
        forall|j: int| earlier.len() <= j < later.len() ==> (#[trigger] later[j]).0 != name,
    ensures
        last_index_of(later, name) == last_index_of(earlier, name),
        env_lookup(later, name) == env_lookup(earlier, name),
{
    lemma_last_index_of(earlier, name);
    match last_index_of(earlier, name) {
        Some(i) => {
            assert(later[i].0 == name);
            assert forall|j: int| i < j < later.len() implies (#[trigger] later[j]).0 != name by {
                if j < earlier.len() {
                    assert(earlier[j].0 != name);
                }
            }
            lemma_last_index_is(later, name, i);
        },
        None => {
            assert forall|j: int| 0 <= j < later.len() implies (#[trigger] later[j]).0 != name by {
                if j < earlier.len() {
                    assert(earlier[j].0 != name);
                }
            }
            lemma_last_index_of(later, name);
        },
    }
}

/// The position of the last entry of `env` named `name`.
pub fn last_position(env: &[(String, String)], name: &str) -> (position: Option<usize>)
    ensures
        match position {
            Some(i) => i < env.len() && last_index_of(env.deep_view(), name@) == Some(i as int),
            None => last_index_of(env.deep_view(), name@) is None,
        },
{
    let wanted = name.to_owned();
    let mut i: usize = env.len();
    while i > 0
        invariant
            i <= env.len(),
            wanted@ == name@,
            forall|j: int| i <= j < env.len() ==> (#[trigger] env.deep_view()[j]).0 != name@,
        decreases i,
    {
        i -= 1;
        if env[i].0 == wanted {
            proof {
                lemma_last_index_is(env.deep_view(), name@, i as int);
            }
            return Some(i);
        }
    }
    proof {
        lemma_last_index_of(env.deep_view(), name@);
    }
    None
}

/// Looks `name` up in `env`. Of several entries with that name the last one
/// counts.
pub fn get_env_var(env: &[(String, String)], name: &str) -> (value: Option<String>)
    ensures
        value.deep_view() == env_lookup(env.deep_view(), name@),
{
    match last_position(env, name) {
        Some(i) => Some(env[i].1.clone()),
        None => None,
    }
}

} // verus!
