//! The session manager: owns the current authentication token and
//! knows how to extract a fresh one from a bootstrap document.
//!
//! The token is the substring between a fixed opening marker and the
//! first closing marker after it. A failed refresh leaves the stored
//! token untouched — never a partial string.

use vstd::prelude::*;
use vstd::string::StrSliceExecFns;
use vstd::string::StringExecFns;

use crate::errors::SessionError;

verus! {

/// The opening marker of the token in the bootstrap document.
pub const CSRF_META_START_TAG: &'static str = "<meta name=\"csrf-token\" content=\"";

/// The closing marker of the token in the bootstrap document.
pub const CSRF_META_END_TAG: &'static str = "\" />";

/// Whether `pat` occurs in `body` starting at position `i`.
pub open spec fn match_at(body: Seq<char>, pat: Seq<char>, i: int) -> bool {
    &&& 0 <= i
    &&& i + pat.len() <= body.len()
    &&& body.subrange(i, i + pat.len()) == pat
}

/// The first position at or after `from` where `pat` occurs in
/// `body`, if any.
pub open spec fn find_at(body: Seq<char>, pat: Seq<char>, from: int) -> Option<int>
    decreases body.len() + 1 - from,
{
    if from < 0 {
        None
    } else if from + pat.len() > body.len() {
        None
    } else if body.subrange(from, from + pat.len()) == pat {
        Some(from)
    } else {
        find_at(body, pat, from + 1)
    }
}

/// A found position is the first one: `find_at` answers with a real
/// match, at or after `from`, and with no earlier match — so the
/// token really sits behind the first opening marker, before the
/// first closing marker after it.
pub proof fn lemma_find_at_is_first(body: Seq<char>, pat: Seq<char>, from: int, i: int)
    requires
        find_at(body, pat, from) == Some(i),
    ensures
        from <= i,
        match_at(body, pat, i),
        forall|j: int| from <= j < i ==> !match_at(body, pat, j),
    decreases body.len() + 1 - from,
{
    if from < 0 || from + pat.len() > body.len() {
        assert(false);
    } else if body.subrange(from, from + pat.len()) == pat {
        assert(i == from);
    } else {
        lemma_find_at_is_first(body, pat, from + 1, i);
        assert(!match_at(body, pat, from));
    }
}

/// The token a bootstrap document carries: the characters between the
/// end of the first opening marker and the first closing marker after
/// it; nothing when either marker is absent.
pub open spec fn token_of(body: Seq<char>) -> Option<Seq<char>> {
    match find_at(body, CSRF_META_START_TAG@, 0) {
        None => None,
        Some(s) => {
            let start = s + CSRF_META_START_TAG@.len();
            match find_at(body, CSRF_META_END_TAG@, start) {
                None => None,
                Some(e) => Some(body.subrange(start, e)),
            }
        },
    }
}

/// Whether `pat` occurs in `body` at position `at`, compared
/// character by character.
fn matches_at(body: &str, pat: &str, at: usize, body_len: usize, pat_len: usize) -> (r: bool)
    requires
        body_len == body@.len(),
        pat_len == pat@.len(),
        at + pat_len <= body_len,
    ensures
        r == match_at(body@, pat@, at as int),
{
    let mut j: usize = 0;
    while j < pat_len
        invariant
            j <= pat_len,
            body_len == body@.len(),
            pat_len == pat@.len(),
            at + pat_len <= body_len,
            body@.subrange(at as int, at + j) == pat@.subrange(0, j as int),
        decreases pat_len - j,
    {
        if body.get_char(at + j) != pat.get_char(j) {
            proof {
                if match_at(body@, pat@, at as int) {
                    assert(body@.subrange(at as int, at + pat@.len())[j as int] == body@[at + j]);
                }
            }
            return false;
        }
        proof {
            assert(body@.subrange(at as int, at + j + 1) =~= pat@.subrange(0, j + 1));
        }
        j = j + 1;
    }
    proof {
        assert(pat@.subrange(0, pat@.len() as int) =~= pat@);
    }
    true
}

/// The first position at or after `from` where `pat` occurs in
/// `body`: a linear scan matching [`find_at`] exactly.
pub fn find_marker(body: &str, pat: &str, from: usize) -> (r: Option<usize>)
    ensures
        (r is None) <==> (find_at(body@, pat@, from as int) is None),
        r matches Some(i) ==> {
            &&& find_at(body@, pat@, from as int) == Some(i as int)
            &&& from <= i
            &&& i + pat@.len() <= body@.len()
            &&& match_at(body@, pat@, i as int)
        },
{
    let body_len = body.unicode_len();
    let pat_len = pat.unicode_len();
    if pat_len > body_len || from > body_len - pat_len {
        proof {
            assert(find_at(body@, pat@, from as int) is None);
        }
        return None;
    }
    if pat_len == 0 {
        proof {
            assert(body@.subrange(from as int, from as int) =~= pat@);
        }
        return Some(from);
    }
    let mut i: usize = from;
    while i <= body_len - pat_len
        invariant
            body_len == body@.len(),
            pat_len == pat@.len(),
            0 < pat_len <= body_len,
            from <= i,
            i <= body_len - pat_len + 1,
            find_at(body@, pat@, from as int) == find_at(body@, pat@, i as int),
        decreases body_len - i,
    {
        if matches_at(body, pat, i, body_len, pat_len) {
            proof {
                assert(find_at(body@, pat@, i as int) == Some(i as int));
            }
            return Some(i);
        }
        proof {
            assert(find_at(body@, pat@, i as int) == find_at(body@, pat@, i + 1));
        }
        i = i + 1;
    }
    proof {
        assert(find_at(body@, pat@, i as int) is None);
    }
    None
}

/// Extracts the token from a bootstrap document: the characters
/// between the first opening marker and the first closing marker
/// after it, exactly as [`token_of`] names them.
pub fn extract_token(body: &str) -> (r: Option<String>)
    ensures
        (r is None) <==> (token_of(body@) is None),
        r matches Some(t) ==> token_of(body@) == Some(t@),
{
    let body_len = body.unicode_len();
    match find_marker(body, CSRF_META_START_TAG, 0) {
        None => None,
        Some(s) => {
            let start = s + CSRF_META_START_TAG.unicode_len();
            proof {
                assert(start <= body_len);
            }
            match find_marker(body, CSRF_META_END_TAG, start) {
                None => None,
                Some(e) => {
                    let sub = body.substring_char(start, e);
                    Some(String::from_str(sub))
                },
            }
        },
    }
}

/// Owns the current authentication token; empty means "not yet
/// authenticated".
pub struct Session {
    token: String,
}

impl Session {
    /// The stored token's characters; empty when unauthenticated.
    pub closed spec fn spec_token(self) -> Seq<char> {
        self.token@
    }

    /// A session that has not authenticated yet.
    pub fn new() -> (s: Self)
        ensures
            s.spec_token() == Seq::<char>::empty(),
    {
        Session { token: String::new() }
    }

    /// The current token; empty when not yet authenticated.
    pub fn current_token(&self) -> (r: &str)
        ensures
            r@ == self.spec_token(),
    {
        self.token.as_str()
    }

    /// Whether a non-empty token is stored.
    pub fn has_token(&self) -> (r: bool)
        ensures
            r == (self.spec_token().len() != 0),
    {
        self.token.as_str().unicode_len() != 0
    }

    /// Drops the stored token so the next cycle must refresh.
    pub fn clear(&mut self)
        ensures
            final(self).spec_token() == Seq::<char>::empty(),
    {
        self.token = String::new();
    }

    /// Installs the token extracted from a fetched bootstrap
    /// document, overwriting the prior one, and returns it. When the
    /// document lacks a marker the refresh fails with `TokenNotFound`
    /// and the previously stored token is left unchanged.
    pub fn refresh(&mut self, body: &str) -> (r: Result<String, SessionError>)
        ensures
            token_of(body@) matches Some(t) ==> {
                &&& r matches Ok(tok) && tok@ == t
                &&& final(self).spec_token() == t
            },
            token_of(body@) is None ==> {
                &&& r == Result::<String, SessionError>::Err(SessionError::TokenNotFound)
                &&& *final(self) == *old(self)
            },
    {
        match extract_token(body) {
            Some(t) => {
                let out = t.clone();
                self.token = t;
                Ok(out)
            },
            None => Err(SessionError::TokenNotFound),
        }
    }
}

} // verus!
