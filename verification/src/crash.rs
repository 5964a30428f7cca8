//! Where crash reports go: the log file under the crash-log directory, and the object
//! key of a `gs://` address inside its bucket.
use vstd::prelude::*;
use crate::text::{joined, join};

verus! {

/// The crash log file under the directory `dir`.
pub open spec fn crash_log_file(dir: Seq<char>) -> Seq<char> {
    joined(dir, seq!['e', 'x', 'e', 'c', 'u', 't', 'i', 'o', 'n', '_', 's', 't', 'd', 'e', 'r', 'r', '.', 't', 'x', 't'])
}

/// `{dir}/execution_stderr.txt`, with trailing slashes of `dir` collapsed.
pub fn crash_log_path(dir: &str) -> (path: String)
    ensures
        path@ == crash_log_file(dir@),
{
    let name = "execution_stderr.txt";
    proof {
        reveal_strlit("execution_stderr.txt");
    }
    join(dir, name)
}

/// The address prefix `gs://{bucket}/` of the objects in `bucket`.
pub open spec fn bucket_prefix(bucket: Seq<char>) -> Seq<char> {
    seq!['g', 's', ':', '/', '/'] + bucket + seq!['/']
}

/// The key of the object at `path` in `bucket`: `path` without the prefix
/// `gs://{bucket}/` where it starts with it, otherwise `path` as it stands.
pub open spec fn object_key_of(path: Seq<char>, bucket: Seq<char>) -> Seq<char> {
    let prefix = bucket_prefix(bucket);
    if prefix.len() <= path.len() && path.subrange(0, prefix.len() as int) == prefix {
        path.subrange(prefix.len() as int, path.len() as int)
    } else {
        path
    }
}

/// The key under which the store, already bound to `bucket`, keeps the object that the
/// full address `path` names (see `object_key_of`).
pub fn object_key(path: &str, bucket: &str) -> (key: String)
    ensures
        key@ == object_key_of(path@, bucket@),
{
    let mut prefix = String::from_str("gs://");
    prefix.append(bucket);
    prefix.append("/");
    proof {
        reveal_strlit("gs://");
        reveal_strlit("/");
        assert(prefix@ =~= bucket_prefix(bucket@));
    }
    let n = path.unicode_len();
    let m = prefix.as_str().unicode_len();
    if m > n {
        return String::from_str(path);
    }
    let p = prefix.as_str();
    let mut i: usize = 0;
    while i < m
        invariant
            m == p@.len(),
            p@ == bucket_prefix(bucket@),
            n == path@.len(),
            m <= n,
            i <= m,
            forall|k: int| 0 <= k < i ==> path@[k] == p@[k],
        decreases m - i,
    {
        if path.get_char(i) != p.get_char(i) {
            proof {
                assert(path@.subrange(0, m as int)[i as int] != p@[i as int]);
            }
            return String::from_str(path);
        }
        i = i + 1;
    }
    assert(path@.subrange(0, m as int) =~= p@);
    String::from_str(path.substring_char(m, n))
}

} // verus!
