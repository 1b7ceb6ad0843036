use vstd::prelude::*;

use crate::reply::WriteReply;

verus! {

/// `pat` occurs in `s` starting at position `i`.
pub open spec fn occurs_at(s: Seq<char>, pat: Seq<char>, i: int) -> bool {
    0 <= i && i + pat.len() <= s.len() && s.subrange(i, i + pat.len()) == pat
}

pub open spec fn text_contains(s: Seq<char>, pat: Seq<char>) -> bool {
    exists|i: int| occurs_at(s, pat, i)
}

/// Whether a store's error message reports a broken primary-key or unique
/// constraint, in the wording of SQLite, MySQL, PostgreSQL or SQL Server.
pub open spec fn is_duplicate_key_message(msg: Seq<char>) -> bool {
    text_contains(msg, "UNIQUE constraint failed"@)
    || text_contains(msg, "Duplicate entry"@)
    || text_contains(msg, "duplicate key value"@)
    || text_contains(msg, "Violation of PRIMARY KEY constraint"@)
}

fn occurs_at_exec(s: &str, pat: &str, i: usize, n: usize, m: usize) -> (r: bool)
    requires
        n == s@.len(),
        m == pat@.len(),
        i + m <= n,
    ensures
        r == occurs_at(s@, pat@, i as int),
{
    let mut j: usize = 0;
    while j < m
        invariant
            j <= m,
            n == s@.len(),
            m == pat@.len(),
            i + m <= n,
            forall|k: int| 0 <= k < j ==> s@[i + k] == pat@[k],
        decreases m - j,
    {
        if s.get_char(i + j) != pat.get_char(j) {
            proof {
                if s@.subrange(i as int, (i + m) as int) == pat@ {
                    assert(s@.subrange(i as int, (i + m) as int)[j as int] == s@[i + j]);
                }
            }
            return false;
        }
        j = j + 1;
    }
    proof {
        assert(s@.subrange(i as int, (i + m) as int) =~= pat@);
    }
    true
}

/// Whether `pat` occurs anywhere in `s`.
pub fn contains_text(s: &str, pat: &str) -> (r: bool)
    ensures
        r == text_contains(s@, pat@),
{
    let n = s.unicode_len();
    let m = pat.unicode_len();
    if m > n {
        return false;
    }
    let mut i: usize = 0;
    while i <= n - m
        invariant
            n == s@.len(),
            m == pat@.len(),
            m <= n,
            i <= n - m + 1,
            forall|k: int| 0 <= k < i ==> !occurs_at(s@, pat@, k),
        decreases n - m + 1 - i,
    {
        if occurs_at_exec(s, pat, i, n, m) {
            return true;
        }
        if i == n - m {
            return false;
        }
        i = i + 1;
    }
    false
}

/// Whether a store's error message reports a duplicate key.
pub fn is_duplicate_key_error(message: &str) -> (r: bool)
    ensures
        r == is_duplicate_key_message(message@),
{
    contains_text(message, "UNIQUE constraint failed")
        || contains_text(message, "Duplicate entry")
        || contains_text(message, "duplicate key value")
        || contains_text(message, "Violation of PRIMARY KEY constraint")
}

/// The reply that a failed write stands for: a duplicate key where the
/// message reports one, else an unavailable store.
pub fn write_reply_for_error(message: &str) -> (r: WriteReply)
    ensures
        r == (if is_duplicate_key_message(message@) {
            WriteReply::DuplicateKey
        } else {
            WriteReply::Unavailable
        }),
{
    if is_duplicate_key_error(message) {
        WriteReply::DuplicateKey
    } else {
        WriteReply::Unavailable
    }
}

} // verus!
