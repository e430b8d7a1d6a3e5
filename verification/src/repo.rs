//! Parsing of model repository identifiers.
//!
//! An identifier has the shape `owner/name` or `owner/name:revision`.  The
//! part before the colon (the *repository part*) becomes the logical model
//! name under which the directory files a model; the part after the colon is
//! the requested revision, defaulting to `main` when absent.  The repository
//! part must contain exactly one `/` with a non-empty owner on its left and a
//! non-empty name on its right, and an explicit revision must be non-empty.

use vstd::prelude::*;
use vstd::string::*;

use crate::error::RepoParseError;

verus! {

/// How many times `c` occurs in `s`.
pub open spec fn count_char(s: Seq<char>, c: char) -> nat
    decreases s.len(),
{
    if s.len() == 0 {
        0
    } else {
        count_char(s.drop_last(), c) + if s.last() == c {
            1nat
        } else {
            0nat
        }
    }
}

/// Index of the first occurrence of `c` in `s`, or `-1` when `c` does not
/// occur.
pub open spec fn first_index_of(s: Seq<char>, c: char) -> int
    decreases s.len(),
{
    if s.len() == 0 {
        -1
    } else if s[0] == c {
        0
    } else if first_index_of(s.drop_first(), c) < 0 {
        -1
    } else {
        first_index_of(s.drop_first(), c) + 1
    }
}

/// The repository part of an identifier: everything before the first colon,
/// or the whole identifier when it has no colon.
pub open spec fn repo_part(s: Seq<char>) -> Seq<char> {
    if first_index_of(s, ':') >= 0 {
        s.take(first_index_of(s, ':'))
    } else {
        s
    }
}

/// The revision part of an identifier: everything after the first colon, or
/// `main` when the identifier has no colon.
pub open spec fn revision_part(s: Seq<char>) -> Seq<char> {
    if first_index_of(s, ':') >= 0 {
        s.skip(first_index_of(s, ':') + 1)
    } else {
        "main"@
    }
}

/// A repository part is well-formed when it holds exactly one `/`, not at
/// either end: a non-empty owner, one slash, a non-empty name.
pub open spec fn valid_repo_part(rp: Seq<char>) -> bool {
    &&& count_char(rp, '/') == 1
    &&& 0 < first_index_of(rp, '/') < rp.len() - 1
}

/// Whether an identifier parses: a well-formed repository part, and, if a
/// colon is present, a non-empty revision behind it.
pub open spec fn parse_ok(s: Seq<char>) -> bool {
    &&& valid_repo_part(repo_part(s))
    &&& (first_index_of(s, ':') >= 0 ==> revision_part(s).len() > 0)
}

/// `first_index_of` names the first occurrence: an occurrence at `i` with a
/// clean prefix pins the spec value to `i`.
proof fn lemma_first_index_found(s: Seq<char>, c: char, i: int)
    requires
        0 <= i < s.len(),
        s[i] == c,
        forall|j: int| 0 <= j < i ==> s[j] != c,
    ensures
        first_index_of(s, c) == i,
    decreases i,
{
    if i > 0 {
        assert(s.drop_first()[i - 1] == c);
        assert(forall|j: int| 0 <= j < i - 1 ==> s.drop_first()[j] != c);
        lemma_first_index_found(s.drop_first(), c, i - 1);
    }
}

/// When `c` occurs nowhere in `s`, `first_index_of` reports `-1`.
proof fn lemma_first_index_absent(s: Seq<char>, c: char)
    requires
        forall|j: int| 0 <= j < s.len() ==> s[j] != c,
    ensures
        first_index_of(s, c) == -1,
    decreases s.len(),
{
    if s.len() > 0 {
        assert(forall|j: int| 0 <= j < s.len() - 1 ==> s.drop_first()[j] != c);
        lemma_first_index_absent(s.drop_first(), c);
    }
}

/// Splits a model repository identifier into its logical name and its
/// revision.
///
/// Returns `Ok((name, revision))` exactly when the identifier is well
/// formed; the name is the repository part and the revision defaults to
/// `main` when no colon is present.
pub fn parse_repo_string(s: &str) -> (r: Result<(String, String), RepoParseError>)
    ensures
        r is Ok <==> parse_ok(s@),
        r matches Ok(p) ==> p.0@ == repo_part(s@) && p.1@ == revision_part(s@),
        r matches Err(e) ==> e == RepoParseError::Malformed,
{
    let n: usize = s.unicode_len();

    let mut colon: Option<usize> = None;
    let mut i: usize = 0;
    while i < n
        invariant_except_break
            i <= n,
            n == s@.len(),
            colon is None,
            forall|j: int| 0 <= j < i ==> s@[j] != ':',
        ensures
            n == s@.len(),
            colon matches Some(ci) ==> ci < n && s@[ci as int] == ':' && (forall|j: int|
                0 <= j < ci ==> s@[j] != ':'),
            colon is None ==> forall|j: int| 0 <= j < n ==> s@[j] != ':',
        decreases n - i,
    {
        if s.get_char(i) == ':' {
            colon = Some(i);
            break;
        }
        i = i + 1;
    }
    proof {
        match colon {
            Some(ci) => lemma_first_index_found(s@, ':', ci as int),
            None => lemma_first_index_absent(s@, ':'),
        }
    }

    let rp_end: usize = match colon {
        Some(ci) => ci,
        None => n,
    };
    let rp: &str = s.substring_char(0, rp_end);
    proof {
        assert(rp@ =~= repo_part(s@));
    }

    let mut slash_count: usize = 0;
    let mut first_slash: Option<usize> = None;
    let mut k: usize = 0;
    while k < rp_end
        invariant
            k <= rp_end,
            rp@.len() == rp_end,
            slash_count <= k,
            slash_count == count_char(rp@.take(k as int), '/'),
            first_slash matches Some(fs) ==> fs < k && rp@[fs as int] == '/' && (forall|j: int|
                0 <= j < fs ==> rp@[j] != '/'),
            first_slash is None ==> forall|j: int| 0 <= j < k ==> rp@[j] != '/',
        decreases rp_end - k,
    {
        let c = rp.get_char(k);
        proof {
            assert(rp@.take(k + 1).drop_last() =~= rp@.take(k as int));
            assert(rp@.take(k + 1).last() == rp@[k as int]);
        }
        if c == '/' {
            slash_count = slash_count + 1;
            if first_slash.is_none() {
                first_slash = Some(k);
            }
        }
        k = k + 1;
    }
    proof {
        assert(rp@.take(rp_end as int) =~= rp@);
        match first_slash {
            Some(fs) => lemma_first_index_found(rp@, '/', fs as int),
            None => lemma_first_index_absent(rp@, '/'),
        }
    }

    let repo_valid: bool = match first_slash {
        Some(fs) => slash_count == 1 && fs > 0 && fs + 1 < rp_end,
        None => false,
    };
    let revision_valid: bool = match colon {
        Some(ci) => ci + 1 < n,
        None => true,
    };
    if !(repo_valid && revision_valid) {
        return Err(RepoParseError::Malformed);
    }

    let name: String = rp.to_owned();
    let revision: String = match colon {
        Some(ci) => s.substring_char(ci + 1, n).to_owned(),
        None => String::from_str("main"),
    };
    proof {
        assert(revision@ =~= revision_part(s@));
    }
    Ok((name, revision))
}

} // verus!
