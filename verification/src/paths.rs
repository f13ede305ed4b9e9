use vstd::prelude::*;
use vstd::string::StringExecFns;
use vstd::string::StrSliceExecFns;

verus! {

/// Index of the last path separator in `p`, or -1 when `p` has none.
pub open spec fn last_slash(p: Seq<char>) -> int
    decreases p.len(),
{
    if p.len() == 0 {
        -1
    } else if p.last() == '/' {
        p.len() - 1
    } else {
        last_slash(p.drop_last())
    }
}

/// The parent directory of a path: the text before the last separator.
/// A path with no separator, or with nothing before its last separator,
/// has no usable parent.
pub open spec fn parent_of(p: Seq<char>) -> Option<Seq<char>> {
    if last_slash(p) >= 1 {
        Some(p.take(last_slash(p)))
    } else {
        None
    }
}

proof fn lemma_last_slash_range(p: Seq<char>)
    ensures
        -1 <= last_slash(p) < p.len(),
        last_slash(p) >= 0 ==> p[last_slash(p)] == '/',
        forall|k: int| last_slash(p) < k < p.len() ==> p[k] != '/',
    decreases p.len(),
{
    if p.len() > 0 && p.last() != '/' {
        lemma_last_slash_range(p.drop_last());
        assert(forall|k: int| 0 <= k < p.len() - 1 ==> p[k] == p.drop_last()[k]);
    }
}

proof fn lemma_last_slash_at(p: Seq<char>, j: int)
    requires
        0 <= j < p.len(),
        p[j] == '/',
        forall|k: int| j < k < p.len() ==> p[k] != '/',
    ensures
        last_slash(p) == j,
    decreases p.len(),
{
    if j < p.len() - 1 {
        assert(p.last() != '/');
        lemma_last_slash_at(p.drop_last(), j);
    }
}

/// Finds the parent directory of `path`, the text before the last `/`.
/// `None` when the path is a bare file name with no directory component,
/// or when the text before the last `/` is empty.
pub fn parent_dir(path: &str) -> (r: Option<String>)
    ensures
        r is Some <==> parent_of(path@) is Some,
        r matches Some(d) ==> parent_of(path@) == Some(d@),
{
    proof {
        lemma_last_slash_range(path@);
    }
    let len = path.unicode_len();
    let mut i: usize = len;
    while i > 0
        invariant
            i <= len,
            len == path@.len(),
            forall|k: int| i <= k < len ==> path@[k] != '/',
        decreases i,
    {
        if path.get_char(i - 1) == '/' {
            proof {
                lemma_last_slash_at(path@, i - 1);
            }
            if i - 1 >= 1 {
                return Some(path.substring_char(0, i - 1).to_owned());
            } else {
                return None;
            }
        }
        i = i - 1;
    }
    None
}

/// The two artifact locations, both siblings of the profiled executable.
pub struct ArtifactPaths {
    pub capture_path: String,
    pub trace_path: String,
}

/// Derives where the raw capture and the converted trace are written:
/// `perf.data` and `perf.trace` in the executable's parent directory.
/// Fails exactly when the executable's path has no usable parent.
pub fn artifact_paths(executable: &str) -> (r: Option<ArtifactPaths>)
    ensures
        r is Some <==> parent_of(executable@) is Some,
        r matches Some(ap) ==> parent_of(executable@) matches Some(d) && ap.capture_path@ == d
            + "/perf.data"@ && ap.trace_path@ == d + "/perf.trace"@,
{
    match parent_dir(executable) {
        Some(dir) => {
            let capture_path = dir.clone().concat("/perf.data");
            let trace_path = dir.concat("/perf.trace");
            Some(ArtifactPaths { capture_path, trace_path })
        },
        None => None,
    }
}

/// A path without any separator — a bare file name — has no parent, so
/// artifact derivation fails on it.
pub proof fn lemma_bare_filename_has_no_parent(p: Seq<char>)
    requires
        forall|k: int| 0 <= k < p.len() ==> p[k] != '/',
    ensures
        parent_of(p) is None,
{
    lemma_last_slash_range(p);
    if last_slash(p) >= 0 {
        assert(p[last_slash(p)] == '/');
    }
}

/// The two derived artifact paths are siblings: each has exactly the
/// executable's parent directory as its own parent.
pub proof fn lemma_artifact_paths_are_siblings(d: Seq<char>)
    requires
        d.len() >= 1,
    ensures
        parent_of(d + "/perf.data"@) == Some(d),
        parent_of(d + "/perf.trace"@) == Some(d),
{
    reveal_strlit("/perf.data");
    reveal_strlit("/perf.trace");
    let p1 = d + "/perf.data"@;
    let p2 = d + "/perf.trace"@;
    assert(p1[d.len() as int] == '/');
    assert forall|k: int| d.len() < k < p1.len() implies p1[k] != '/' by {
        assert(p1[k] == "/perf.data"@[k - d.len()]);
    }
    lemma_last_slash_at(p1, d.len() as int);
    assert(p1.take(d.len() as int) =~= d);
    assert(p2[d.len() as int] == '/');
    assert forall|k: int| d.len() < k < p2.len() implies p2[k] != '/' by {
        assert(p2[k] == "/perf.trace"@[k - d.len()]);
    }
    lemma_last_slash_at(p2, d.len() as int);
    assert(p2.take(d.len() as int) =~= d);
}

} // verus!
