//! Search paths: values made of directories with a `:` between them.

use crate::substring::{chars_of, matches_at, occurs_at};
use vstd::prelude::*;
use vstd::string::*;

verus! {

/// `dir` holds no `:`, so that it can be one component of a search path.
pub open spec fn colon_free(dir: Seq<char>) -> bool {
    forall|k: int| 0 <= k < dir.len() ==> dir[k] != ':'
}

/// `dir` stands in `value` at character offset `at`, from one `:` or the
/// beginning of `value` up to the next `:` or the end of `value`.
pub open spec fn is_component_at(dir: Seq<char>, value: Seq<char>, at: int) -> bool {
    &&& occurs_at(dir, value, at)
    &&& (at == 0 || value[at - 1] == ':')
    &&& (at + dir.len() == value.len() || value[at + dir.len()] == ':')
}

/// `dir` is one of the `:`-separated components of the search path `value`.
pub open spec fn has_component(dir: Seq<char>, value: Seq<char>) -> bool {
    colon_free(dir) && exists|at: int| is_component_at(dir, value, at)
}

/// The three standard system directories.
pub open spec fn system_dir_list() -> Seq<Seq<char>> {
    seq!["/usr/local/bin"@, "/usr/bin"@, "/bin"@]
}

/// The standard system directories, as they are appended to a search path.
pub open spec fn system_dirs() -> Seq<char> {
    "/usr/local/bin:/usr/bin:/bin"@
}

/// The search path `value` reaches the standard system directories: each of
/// the three is one of its components.
pub open spec fn reaches_system_dirs(value: Seq<char>) -> bool {
    forall|n: int|
        0 <= n < system_dir_list().len() ==> has_component(#[trigger] system_dir_list()[n], value)
}

/// A component of `tail` is a component of `head`, a `:` and `tail` put
/// together.
pub proof fn lemma_component_of_tail(dir: Seq<char>, head: Seq<char>, tail: Seq<char>)
    requires
        has_component(dir, tail),
    ensures
        has_component(dir, head + ":"@ + tail),
{
    reveal_strlit(":");
    let at = choose|at: int| is_component_at(dir, tail, at);
    let whole = head + ":"@ + tail;
    let moved = head.len() + 1 + at;
    assert(whole.subrange(moved, moved + dir.len()) =~= tail.subrange(at, at + dir.len()));
    assert(whole[moved - 1] == ':') by {
        if at > 0 {
            assert(whole[moved - 1] == tail[at - 1]);
        }
    }
    if at + dir.len() < tail.len() {
        assert(whole[moved + dir.len()] == tail[at + dir.len()]);
    }
    assert(is_component_at(dir, whole, moved));
}

/// What is appended to a search path is the three standard system
/// directories with a `:` between them, and reaches each of them.
pub proof fn lemma_system_dirs_reach_themselves()
    ensures
        system_dirs() == "/usr/local/bin"@ + ":"@ + "/usr/bin"@ + ":"@ + "/bin"@,
        reaches_system_dirs(system_dirs()),
{
    reveal_strlit(":");
    reveal_strlit("/usr/local/bin");
    reveal_strlit("/usr/bin");
    reveal_strlit("/bin");
    reveal_strlit("/usr/local/bin:/usr/bin:/bin");
    let all = system_dirs();
    assert(all =~= "/usr/local/bin"@ + ":"@ + "/usr/bin"@ + ":"@ + "/bin"@);
    assert(all.subrange(0, 14) =~= "/usr/local/bin"@);
    assert(all.subrange(15, 23) =~= "/usr/bin"@);
    assert(all.subrange(24, 28) =~= "/bin"@);
    assert(is_component_at("/usr/local/bin"@, all, 0));
    assert(is_component_at("/usr/bin"@, all, 15));
    assert(is_component_at("/bin"@, all, 24));
    assert(colon_free("/usr/local/bin"@));
    assert(colon_free("/usr/bin"@));
    assert(colon_free("/bin"@));
}

/// A search path to which the standard system directories were appended
/// reaches them.
pub proof fn lemma_appended_reaches_system_dirs(value: Seq<char>)
    ensures
        reaches_system_dirs(value + ":"@ + system_dirs()),
{
    lemma_system_dirs_reach_themselves();
    assert forall|n: int| 0 <= n < system_dir_list().len() implies has_component(
        #[trigger] system_dir_list()[n],
        value + ":"@ + system_dirs(),
    ) by {
        lemma_component_of_tail(system_dir_list()[n], value, system_dirs());
    }
}

/// Whether `dir` holds no `:`.
fn is_colon_free(dir: &Vec<char>) -> (free: bool)
    ensures
        free == colon_free(dir@),
{
    let mut k: usize = 0;
    while k < dir.len()
        invariant
            k <= dir.len(),
            forall|j: int| 0 <= j < k ==> dir@[j] != ':',
        decreases dir.len() - k,
    {
        if dir[k] == ':' {
            return false;
        }
        k += 1;
    }
    true
}

/// Whether `dir` is a component of `value` at offset `at`.
fn is_component_here(value: &Vec<char>, dir: &Vec<char>, at: usize) -> (here: bool)
    requires
        at + dir.len() <= value.len(),
    ensures
        here == is_component_at(dir@, value@, at as int),
{
    if !matches_at(value, dir, at) {
        return false;
    }
    let begins = at == 0 || value[at - 1] == ':';
    let ends = at + dir.len() == value.len() || value[at + dir.len()] == ':';
    begins && ends
}

/// Whether `dir` is one of the `:`-separated components of `value`,
/// character by character.
pub fn has_component_chars(value: &Vec<char>, dir: &Vec<char>) -> (found: bool)
    ensures
        found == has_component(dir@, value@),
{
    if !is_colon_free(dir) || dir.len() > value.len() {
        return false;
    }
    let last: usize = value.len() - dir.len();
    let mut at: usize = 0;
    while at < last
        invariant
            at <= last,
            last == value.len() - dir.len(),
            colon_free(dir@),
            forall|i: int| 0 <= i < at ==> !is_component_at(dir@, value@, i),
        decreases last - at,
    {
        if is_component_here(value, dir, at) {
            return true;
        }
        at += 1;
    }
    is_component_here(value, dir, last)
}

/// Whether `dir` is one of the `:`-separated components of the search path
/// `value`.
pub fn is_on_search_path(value: &str, dir: &str) -> (found: bool)
    ensures
        found == has_component(dir@, value@),
{
    let all = chars_of(value);
    let one = chars_of(dir);
    has_component_chars(&all, &one)
}

/// Whether the search path `value` reaches the three standard system
/// directories.
pub fn search_path_reaches_system_dirs(value: &str) -> (reaches: bool)
    ensures
        reaches == reaches_system_dirs(value@),
{
    let all = chars_of(value);
    let local = chars_of("/usr/local/bin");
    let usr = chars_of("/usr/bin");
    let bin = chars_of("/bin");
    let reaches = has_component_chars(&all, &local) && has_component_chars(&all, &usr)
        && has_component_chars(&all, &bin);
    proof {
        let dirs = system_dir_list();
        assert(dirs.len() == 3);
        assert(dirs[0] == "/usr/local/bin"@ && dirs[1] == "/usr/bin"@ && dirs[2] == "/bin"@);
    }
    reaches
}

} // verus!
