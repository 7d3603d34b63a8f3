//! The decisions behind asset lookup. The store of embedded assets is the
//! host's: it hands the bytes found for a path, or the full list of paths,
//! to these functions, which decide what a lookup returns — the empty
//! path is no asset, a missing asset is a fatal error with its message —
//! and which paths a listing keeps.

use vstd::prelude::*;

verus! {

/// Whether `prefix` is an initial segment of `s`.
pub open spec fn has_prefix(s: Seq<char>, prefix: Seq<char>) -> bool {
    prefix.len() <= s.len() && s.subrange(0, prefix.len() as int) == prefix
}

/// The error message for a path no asset was embedded under.
pub open spec fn spec_missing_asset_message(path: Seq<char>) -> Seq<char> {
    "could not find asset at path \""@ + path + "\""@
}

/// The paths of `paths` that `prefix` is an initial segment of, in their
/// original order.
pub open spec fn keep_with_prefix(paths: Seq<Seq<char>>, prefix: Seq<char>) -> Seq<Seq<char>>
    decreases paths.len(),
{
    if paths.len() == 0 {
        Seq::empty()
    } else {
        let rest = keep_with_prefix(paths.drop_last(), prefix);
        if has_prefix(paths.last(), prefix) {
            rest.push(paths.last())
        } else {
            rest
        }
    }
}

/// Whether `s` starts with `prefix`.
pub fn starts_with(s: &str, prefix: &str) -> (r: bool)
    ensures
        r == has_prefix(s@, prefix@),
{
    let n = prefix.unicode_len();
    let m = s.unicode_len();
    if n > m {
        return false;
    }
    let mut i: usize = 0;
    while i < n
        invariant
            i <= n,
            n == prefix@.len(),
            m == s@.len(),
            n <= m,
            forall|j: int| 0 <= j < i ==> s@[j] == prefix@[j],
        decreases n - i,
    {
        if s.get_char(i) != prefix.get_char(i) {
            proof {
                assert(s@.subrange(0, n as int)[i as int] == s@[i as int]);
            }
            return false;
        }
        i += 1;
    }
    proof {
        assert(s@.subrange(0, n as int) =~= prefix@);
    }
    true
}

/// What a lookup returns for `path` when the embedded store held
/// `content` for it: nothing for the empty path, the bytes when they were
/// found, and otherwise the fatal message naming the path.
pub fn load(path: &str, content: Option<Vec<u8>>) -> (r: Result<Option<Vec<u8>>, String>)
    ensures
        path@.len() == 0 ==> (r matches Ok(data) && data is None),
        path@.len() > 0 && content is Some ==> (r matches Ok(data) && data == content),
        path@.len() > 0 && content is None ==> (r matches Err(m) && m@
            == spec_missing_asset_message(path@)),
{
    if path.is_empty() {
        return Ok(None);
    }
    match content {
        Some(data) => Ok(Some(data)),
        None => {
            let mut m = String::from_str("could not find asset at path \"");
            m.append(path);
            m.append("\"");
            Err(m)
        },
    }
}

/// The embedded paths that start with `prefix`, in their original order:
/// what a listing under `prefix` returns.
pub fn list(paths: &Vec<String>, prefix: &str) -> (r: Vec<String>)
    ensures
        r.deep_view() == keep_with_prefix(paths.deep_view(), prefix@),
{
    let mut r: Vec<String> = Vec::new();
    let mut i: usize = 0;
    proof {
        assert(r.deep_view() =~= Seq::<Seq<char>>::empty());
        assert(paths.deep_view().take(0) =~= Seq::<Seq<char>>::empty());
    }
    while i < paths.len()
        invariant
            i <= paths.len(),
            r.deep_view() == keep_with_prefix(paths.deep_view().take(i as int), prefix@),
        decreases paths.len() - i,
    {
        let p = &paths[i];
        proof {
            assert(paths.deep_view().take(i + 1) =~= paths.deep_view().take(i as int).push(p@));
            lemma_keep_with_prefix_push(paths.deep_view().take(i as int), p@, prefix@);
        }
        let ghost prev = r.deep_view();
        if starts_with(p.as_str(), prefix) {
            r.push(p.clone());
            proof {
                assert(r.deep_view() =~= prev.push(p@));
            }
        }
        i += 1;
    }
    proof {
        assert(paths.deep_view().take(i as int) =~= paths.deep_view());
    }
    r
}

/// Extending the embedded paths by one extends the listing exactly when
/// the new path starts with the prefix.
proof fn lemma_keep_with_prefix_push(paths: Seq<Seq<char>>, p: Seq<char>, prefix: Seq<char>)
    ensures
        keep_with_prefix(paths.push(p), prefix) == if has_prefix(p, prefix) {
            keep_with_prefix(paths, prefix).push(p)
        } else {
            keep_with_prefix(paths, prefix)
        },
{
    assert(paths.push(p).drop_last() =~= paths);
}

} // verus!
