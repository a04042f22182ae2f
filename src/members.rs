use vstd::prelude::*;

use crate::error::WgError;

verus! {

/// The flavour of package created for a member.
#[derive(Debug, Clone, Copy, PartialEq, Eq)]
pub enum MemberKind {
    Lib,
    Bin,
}

/// The text of each name in a list.
pub open spec fn names(v: Seq<String>) -> Seq<Seq<char>> {
    v.map_values(|s: String| s@)
}

/// The name at `j` already occurs before `j`.
pub open spec fn repeats_earlier(s: Seq<Seq<char>>, j: int) -> bool {
    exists|i: int| 0 <= i < j && #[trigger] s[i] == s[j]
}

/// Some name occurs twice in the list.
pub open spec fn has_duplicate(s: Seq<Seq<char>>) -> bool {
    exists|j: int| 0 <= j < s.len() && #[trigger] repeats_earlier(s, j)
}

/// `j` is the first position whose name was already seen.
pub open spec fn is_first_repeat(s: Seq<Seq<char>>, j: int) -> bool {
    &&& 0 <= j < s.len()
    &&& repeats_earlier(s, j)
    &&& forall|k: int| 0 <= k < j ==> !#[trigger] repeats_earlier(s, k)
}

/// The members of the workspace: the libraries, then the binaries, each list
/// in its own order.
pub fn collect_members(libs: &[String], bins: &[String]) -> (r: Vec<String>)
    requires
        libs@.len() + bins@.len() <= usize::MAX,
    ensures
        r@ == libs@ + bins@,
{
    let mut combined: Vec<String> = Vec::with_capacity(libs.len() + bins.len());
    let mut i: usize = 0;
    while i < libs.len()
        invariant
            i <= libs@.len(),
            combined@ == libs@.subrange(0, i as int),
        decreases libs@.len() - i,
    {
        combined.push(libs[i].clone());
        i = i + 1;
    }
    let mut j: usize = 0;
    while j < bins.len()
        invariant
            j <= bins@.len(),
            combined@ == libs@ + bins@.subrange(0, j as int),
        decreases bins@.len() - j,
    {
        combined.push(bins[j].clone());
        j = j + 1;
    }
    assert(libs@.subrange(0, libs@.len() as int) == libs@);
    assert(bins@.subrange(0, bins@.len() as int) == bins@);
    combined
}

/// Fails on the first name, libraries before binaries, that was already
/// requested; succeeds exactly when all names differ.
pub fn ensure_no_duplicate_members(libs: &[String], bins: &[String]) -> (r: Result<(), WgError>)
    requires
        libs@.len() + bins@.len() <= usize::MAX,
    ensures
        r is Ok <==> !has_duplicate(names(libs@ + bins@)),
        r is Err ==> exists|j: int|
            is_first_repeat(names(libs@ + bins@), j) && r == Err::<(), WgError>(
                WgError::DuplicateMember((libs@ + bins@)[j]),
            ),
{
    let all = collect_members(libs, bins);
    let ghost s = names(all@);
    let mut j: usize = 0;
    while j < all.len()
        invariant
            j <= all@.len(),
            all@ == libs@ + bins@,
            s == names(all@),
            forall|k: int| 0 <= k < j ==> !#[trigger] repeats_earlier(s, k),
        decreases all@.len() - j,
    {
        let mut i: usize = 0;
        while i < j
            invariant
                i <= j < all@.len(),
                all@ == libs@ + bins@,
                s == names(all@),
                forall|k: int| 0 <= k < j ==> !#[trigger] repeats_earlier(s, k),
                forall|k: int| 0 <= k < i ==> s[k] != s[j as int],
            decreases j - i,
        {
            if all[i] == all[j] {
                assert(s[i as int] == s[j as int]);
                assert(repeats_earlier(s, j as int));
                assert(is_first_repeat(s, j as int));
                assert(has_duplicate(s));
                return Err(WgError::DuplicateMember(all[j].clone()));
            }
            i = i + 1;
        }
        assert(!repeats_earlier(s, j as int));
        j = j + 1;
    }
    assert(!has_duplicate(s));
    Ok(())
}

/// The flag that selects the kind of package.
pub open spec fn kind_flag(kind: MemberKind) -> Seq<char> {
    match kind {
        MemberKind::Lib => "--lib"@,
        MemberKind::Bin => "--bin"@,
    }
}

/// The arguments of the package-creation command for one member: its name, a
/// fixed edition, no version control of its own, quiet output, and its kind.
pub open spec fn creation_args(name: Seq<char>, kind: MemberKind) -> Seq<Seq<char>> {
    seq!["new"@, name, "--edition"@, "2024"@, "--vcs"@, "none"@, "--quiet"@, kind_flag(kind)]
}

/// The arguments handed to `cargo` to create the member `name`.
pub fn cargo_new_args(name: &str, kind: MemberKind) -> (r: Vec<String>)
    ensures
        names(r@) == creation_args(name@, kind),
{
    let mut args: Vec<String> = Vec::new();
    args.push(String::from_str("new"));
    args.push(String::from_str(name));
    args.push(String::from_str("--edition"));
    args.push(String::from_str("2024"));
    args.push(String::from_str("--vcs"));
    args.push(String::from_str("none"));
    args.push(String::from_str("--quiet"));
    match kind {
        MemberKind::Lib => args.push(String::from_str("--lib")),
        MemberKind::Bin => args.push(String::from_str("--bin")),
    }
    assert(names(args@) =~= creation_args(name@, kind));
    args
}

/// A member is never created over a directory that is already there.
pub fn check_member_absent(name: &str, member_dir: &str, exists: bool) -> (r: Result<(), WgError>)
    ensures
        !exists ==> r is Ok,
        exists ==> (r matches Err(WgError::MemberAlreadyExists(n, d)) && n@ == name@ && d@
            == member_dir@),
{
    if exists {
        Err(WgError::MemberAlreadyExists(String::from_str(name), String::from_str(member_dir)))
    } else {
        Ok(())
    }
}

/// A name that both lists hold is a repeated name of the combined list.
pub proof fn lemma_shared_name_is_duplicate(libs: Seq<Seq<char>>, bins: Seq<Seq<char>>, i: int, j: int)
    requires
        0 <= i < libs.len(),
        0 <= j < bins.len(),
        libs[i] == bins[j],
    ensures
        has_duplicate(libs + bins),
{
    let s = libs + bins;
    assert(s[i] == s[libs.len() + j]);
    assert(repeats_earlier(s, libs.len() + j));
}

/// When neither list repeats a name of its own, a repeated name of the
/// combined list is one that both lists hold: the refusal names a shared name.
pub proof fn lemma_repeat_is_shared(libs: Seq<Seq<char>>, bins: Seq<Seq<char>>, j: int)
    requires
        !has_duplicate(libs),
        !has_duplicate(bins),
        0 <= j < libs.len() + bins.len(),
        repeats_earlier(libs + bins, j),
    ensures
        libs.contains((libs + bins)[j]),
        bins.contains((libs + bins)[j]),
{
    let s = libs + bins;
    let i = choose|i: int| 0 <= i < j && #[trigger] s[i] == s[j];
    if j < libs.len() {
        assert(repeats_earlier(libs, j));
        assert(false);
    } else if i >= libs.len() {
        assert(bins[i - libs.len()] == bins[j - libs.len()]);
        assert(repeats_earlier(bins, j - libs.len()));
        assert(false);
    } else {
        assert(libs[i] == s[j]);
        assert(bins[j - libs.len()] == s[j]);
    }
}

/// When `n` is the only name that both lists hold, and neither list repeats a
/// name of its own, the refused name is `n`.
pub proof fn lemma_refusal_names_the_shared(libs: Seq<Seq<char>>, bins: Seq<Seq<char>>, n: Seq<char>, j: int)
    requires
        !has_duplicate(libs),
        !has_duplicate(bins),
        forall|x: Seq<char>| libs.contains(x) && bins.contains(x) ==> x == n,
        is_first_repeat(libs + bins, j),
    ensures
        (libs + bins)[j] == n,
{
    lemma_repeat_is_shared(libs, bins, j);
}

/// Lists that share no name, and repeat none of their own, pass the check.
pub proof fn lemma_disjoint_lists_pass(libs: Seq<Seq<char>>, bins: Seq<Seq<char>>)
    requires
        !has_duplicate(libs),
        !has_duplicate(bins),
        forall|x: Seq<char>| libs.contains(x) ==> !bins.contains(x),
    ensures
        !has_duplicate(libs + bins),
{
    if has_duplicate(libs + bins) {
        let j = choose|j: int| 0 <= j < (libs + bins).len() && #[trigger] repeats_earlier(libs + bins, j);
        lemma_repeat_is_shared(libs, bins, j);
    }
}

} // verus!
