//! The login session and the text it is kept as between runs.
use vstd::prelude::*;
use crate::text::{chars_of, find_char, find_from, lemma_find_from_props, push_str, string_of_range};

verus! {

broadcast use vstd::string::group_string_axioms;

/// A logged-in user and the cookie that proves it.
pub struct Session {
    pub username: String,
    pub cookie: String,
}

impl Clone for Session {
    fn clone(&self) -> (r: Self)
        ensures
            r.username@ == self.username@,
            r.cookie@ == self.cookie@,
    {
        Session { username: self.username.clone(), cookie: self.cookie.clone() }
    }
}

/// The line of `s` that starts at `from`, and where the next one starts (as one step of
/// `str::lines`): the text up to the next newline, without it and without a carriage
/// return just before it, or the rest of `s` when there is no newline; `None` at the end
/// of `s`.
pub open spec fn line_at(s: Seq<char>, from: int) -> Option<(Seq<char>, int)> {
    if from < 0 || from >= s.len() {
        None
    } else {
        match find_from(s, from, seq!['\n']) {
            None => Some((s.subrange(from, s.len() as int), s.len() as int)),
            Some(j) => {
                let l = s.subrange(from, j);
                Some(
                    (
                        if l.len() > 0 && l.last() == '\r' {
                            l.drop_last()
                        } else {
                            l
                        },
                        j + 1,
                    ),
                )
            },
        }
    }
}

/// The user name and cookie that the session text `s` holds: its first two lines, when
/// both are there and neither is empty.
pub open spec fn session_of_text(s: Seq<char>) -> Option<(Seq<char>, Seq<char>)> {
    match line_at(s, 0) {
        None => None,
        Some((u, next)) => match line_at(s, next) {
            None => None,
            Some((c, _)) => if u.len() == 0 || c.len() == 0 {
                None
            } else {
                Some((u, c))
            },
        },
    }
}

/// The session text for user `u` and cookie `c`: the two on lines of their own.
pub open spec fn session_text(u: Seq<char>, c: Seq<char>) -> Seq<char> {
    u + seq!['\n'] + c
}

/// The line of `v` starting at `from`, and where the next one starts.
fn line_at_exec(v: &Vec<char>, from: usize) -> (r: Option<(String, usize)>)
    ensures
        match r {
            None => line_at(v@, from as int) is None,
            Some((l, n)) => line_at(v@, from as int) == Some((l@, n as int)),
        },
{
    if from >= v.len() {
        return None;
    }
    proof {
        lemma_find_from_props(v@, from as int, seq!['\n']);
    }
    match find_char(v, from, '\n') {
        None => Some((string_of_range(v, from, v.len()), v.len())),
        Some(j) => {
            let end = if j > from && v[j - 1] == '\r' {
                j - 1
            } else {
                j
            };
            let ghost l = v@.subrange(from as int, j as int);
            assert(v@.subrange(from as int, end as int) =~= (if l.len() > 0 && l.last() == '\r' {
                l.drop_last()
            } else {
                l
            }));
            Some((string_of_range(v, from, end), j + 1))
        },
    }
}

impl Session {
    /// The text the session is kept as: user name, newline, cookie.
    pub fn to_text(&self) -> (r: String)
        ensures
            r@ == session_text(self.username@, self.cookie@),
    {
        let mut s = self.username.clone();
        s.push('\n');
        push_str(&mut s, self.cookie.as_str());
        s
    }

    /// The session that the kept text `content` holds, if it holds one.
    pub fn from_text(content: &str) -> (r: Option<Session>)
        ensures
            match r {
                None => session_of_text(content@) is None,
                Some(s) => session_of_text(content@) == Some((s.username@, s.cookie@)),
            },
    {
        let v = chars_of(content);
        match line_at_exec(&v, 0) {
            None => None,
            Some((u, next)) => match line_at_exec(&v, next) {
                None => None,
                Some((c, _)) => {
                    if u.as_str().is_empty() || c.as_str().is_empty() {
                        None
                    } else {
                        Some(Session { username: u, cookie: c })
                    }
                },
            },
        }
    }
}

/// Reading back the text a session is kept as gives the same session, for a non-empty
/// user name and cookie with no newline in either and no carriage return ending the user
/// name.
pub proof fn law_session_round_trip(u: Seq<char>, c: Seq<char>)
    requires
        u.len() > 0,
        c.len() > 0,
        !u.contains('\n'),
        !c.contains('\n'),
        u.last() != '\r',
    ensures
        session_of_text(session_text(u, c)) == Some((u, c)),
{
    let s = session_text(u, c);
    let n = u.len() as int;
    assert(s[n] == '\n');
    lemma_find_from_props(s, 0, seq!['\n']);
    assert(s.subrange(n, n + 1) =~= seq!['\n']);
    assert(matches_at_nl(s, n));
    assert forall|k: int| 0 <= k < n implies !#[trigger] crate::text::matches_at(s, k, seq!['\n']) by {
        if crate::text::matches_at(s, k, seq!['\n']) {
            assert(s.subrange(k, k + 1)[0] == s[k]);
            assert(u[k] == s[k]);
        }
    }
    lemma_first_match(s, 0, n, seq!['\n']);
    assert(s.subrange(0, n) =~= u);
    lemma_find_from_props(s, n + 1, seq!['\n']);
    assert forall|k: int| n + 1 <= k implies !#[trigger] crate::text::matches_at(s, k, seq!['\n']) by {
        if crate::text::matches_at(s, k, seq!['\n']) {
            assert(s.subrange(k, k + 1)[0] == s[k]);
            assert(c[k - n - 1] == s[k]);
        }
    }
    assert(s.subrange(n + 1, s.len() as int) =~= c);
}

spec fn matches_at_nl(s: Seq<char>, i: int) -> bool {
    crate::text::matches_at(s, i, seq!['\n'])
}

/// When `pat` occurs at `m` and nowhere in `[from, m)`, searching from `from` finds `m`.
proof fn lemma_first_match(s: Seq<char>, from: int, m: int, pat: Seq<char>)
    requires
        0 <= from <= m,
        crate::text::matches_at(s, m, pat),
        forall|k: int| from <= k < m ==> !#[trigger] crate::text::matches_at(s, k, pat),
    ensures
        find_from(s, from, pat) == Some(m),
    decreases m - from,
{
    if from < m {
        lemma_first_match(s, from + 1, m, pat);
    }
}

} // verus!
