//! Per-user paths of the lock file, the metadata file and the IPC
//! endpoint.
//!
//! The paths are a deterministic function of the numeric user identity;
//! nothing in this core overrides them. The shell supplies the user id.

use vstd::prelude::*;
use vstd::string::StringExecFns;

use crate::decimal::{dec_digits, u64_to_decimal};

verus! {

/// Index of the last occurrence of `c` in `s`, or `-1`.
pub open spec fn last_index_of(s: Seq<char>, c: char) -> int
    decreases s.len(),
{
    if s.len() == 0 {
        -1
    } else if s.last() == c {
        s.len() - 1
    } else {
        last_index_of(s.drop_last(), c)
    }
}

/// `last_index_of` finds exactly the last occurrence.
proof fn lemma_last_index_of_found(s: Seq<char>, c: char, j: int)
    requires
        0 <= j < s.len(),
        s[j] == c,
        forall|k: int| j < k < s.len() ==> s[k] != c,
    ensures
        last_index_of(s, c) == j,
    decreases s.len(),
{
    if j == s.len() - 1 {
    } else {
        assert(s.last() != c);
        let t = s.drop_last();
        assert(t[j] == c);
        lemma_last_index_of_found(t, c, j);
    }
}

/// Without an occurrence, `last_index_of` is `-1`.
proof fn lemma_last_index_of_absent(s: Seq<char>, c: char)
    requires
        forall|k: int| 0 <= k < s.len() ==> s[k] != c,
    ensures
        last_index_of(s, c) == -1,
    decreases s.len(),
{
    if s.len() > 0 {
        lemma_last_index_of_absent(s.drop_last(), c);
    }
}

/// Index of the last occurrence of `c`, if any.
pub fn last_index(s: &str, c: char) -> (r: Option<usize>)
    ensures
        r matches Some(i) ==> 0 <= i < s@.len() && last_index_of(s@, c) == i,
        r is None ==> last_index_of(s@, c) == -1,
{
    let n = s.unicode_len();
    let mut i: usize = n;
    while i > 0
        invariant
            0 <= i <= n == s@.len(),
            forall|k: int| i <= k < s@.len() ==> s@[k] != c,
        decreases i,
    {
        if s.get_char(i - 1) == c {
            proof {
                lemma_last_index_of_found(s@, c, i - 1);
            }
            return Some(i - 1);
        }
        i = i - 1;
    }
    proof {
        lemma_last_index_of_absent(s@, c);
    }
    None
}

/// `path` with its extension replaced by `ext`: everything from the last
/// dot of the final path segment is dropped (a dot opening the segment
/// names a hidden file, not an extension), and `.` plus `ext` appended.
pub open spec fn spec_replace_extension(path: Seq<char>, ext: Seq<char>) -> Seq<char> {
    let slash = last_index_of(path, '/');
    let dot = last_index_of(path, '.');
    let stem = if dot > slash + 1 {
        path.subrange(0, dot)
    } else {
        path
    };
    stem + seq!['.'] + ext
}

/// Replace the extension of `path` by `ext`.
pub fn replace_extension(path: &str, ext: &str) -> (r: String)
    ensures
        r@ == spec_replace_extension(path@, ext@),
{
    let dot = last_index(path, '.');
    let slash = last_index(path, '/');
    let n = path.unicode_len();
    let stem_end: usize = match dot {
        Some(d) => {
            let cut = match slash {
                Some(sl) => d > sl + 1,
                None => d > 0,
            };
            if cut {
                d
            } else {
                n
            }
        },
        None => n,
    };
    let stem = path.substring_char(0, stem_end);
    let mut r = String::from_str(stem);
    r.append(".");
    r.append(ext);
    proof {
        reveal_strlit(".");
        assert("."@ =~= seq!['.']);
        if stem_end < n {
            assert(path@.subrange(0, stem_end as int) == stem@);
        } else {
            assert(path@.subrange(0, path@.len() as int) =~= path@);
        }
        assert(r@ =~= spec_replace_extension(path@, ext@));
    }
    r
}

/// The lock-file path of user `uid`.
pub open spec fn spec_default_lock_path(uid: nat) -> Seq<char> {
    "/tmp/gouide-"@ + dec_digits(uid) + "/daemon.lock"@
}

/// The endpoint path of user `uid`.
pub open spec fn spec_default_endpoint_path(uid: nat) -> Seq<char> {
    "/tmp/gouide-"@ + dec_digits(uid) + "/daemon.sock"@
}

/// The per-user lock file path: `/tmp/gouide-<uid>/daemon.lock`.
pub fn default_lock_path(uid: u32) -> (r: String)
    ensures
        r@ == spec_default_lock_path(uid as nat),
{
    let mut r = String::from_str("/tmp/gouide-");
    r.append(u64_to_decimal(uid as u64).as_str());
    r.append("/daemon.lock");
    r
}

/// The per-user IPC endpoint path: `/tmp/gouide-<uid>/daemon.sock`.
pub fn default_endpoint_path(uid: u32) -> (r: String)
    ensures
        r@ == spec_default_endpoint_path(uid as nat),
{
    let mut r = String::from_str("/tmp/gouide-");
    r.append(u64_to_decimal(uid as u64).as_str());
    r.append("/daemon.sock");
    r
}

/// The metadata file beside a lock file: the same path with a `json`
/// extension.
pub fn metadata_path_for(lock_path: &str) -> (r: String)
    ensures
        r@ == spec_replace_extension(lock_path@, "json"@),
{
    replace_extension(lock_path, "json")
}

/// The socket beside a lock file: the same path with a `sock`
/// extension.
pub fn get_socket_path(lock_path: &str) -> (r: String)
    ensures
        r@ == spec_replace_extension(lock_path@, "sock"@),
{
    replace_extension(lock_path, "sock")
}

} // verus!
