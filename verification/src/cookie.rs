//! Cookies of a browser session, and the lookup of one by name.

use crate::error::CaptureError;
use crate::session::RecordedSession;
use vstd::prelude::*;

verus! {

/// Name of the cookie that tells whether the session is signed in.
pub const SESSION_COOKIE: &'static str = "session_id_edsby";

/// A cookie as the pipeline reads it: its name and its value.
#[derive(Debug, PartialEq, Eq)]
pub struct Cookie {
    pub name: String,
    pub value: String,
}

/// Mathematical content of a [`Cookie`].
pub struct CookieView {
    pub name: Seq<char>,
    pub value: Seq<char>,
}

impl View for Cookie {
    type V = CookieView;

    open spec fn view(&self) -> CookieView {
        CookieView { name: self.name@, value: self.value@ }
    }
}

impl DeepView for Cookie {
    type V = CookieView;

    open spec fn deep_view(&self) -> CookieView {
        self@
    }
}

impl Clone for Cookie {
    fn clone(&self) -> (copy: Cookie)
        ensures
            copy@ == self@,
    {
        Cookie { name: self.name.clone(), value: self.value.clone() }
    }
}

impl Cookie {
    /// Does the cookie carry anything? A cookie with an empty value is
    /// reported like a missing one.
    pub fn has_value(&self) -> (filled: bool)
        ensures
            filled == (self@.value.len() > 0),
    {
        !self.value.as_str().is_empty()
    }
}

/// The first cookie of the jar that bears the name, if there is one.
pub open spec fn lookup(jar: Seq<CookieView>, name: Seq<char>) -> Option<CookieView>
    decreases jar.len(),
{
    if jar.len() == 0 {
        None
    } else if jar[0].name == name {
        Some(jar[0])
    } else {
        lookup(jar.drop_first(), name)
    }
}

/// Reads the cookie of the given name from a jar. Fails with
/// `CookieNotFound`, and with nothing else, exactly when no cookie of the
/// jar bears the name.
pub fn get_cookie(jar: &Vec<Cookie>, name: &str) -> (found: Result<Cookie, CaptureError>)
    ensures
        match found {
            Ok(cookie) => lookup(jar.deep_view(), name@) == Some(cookie@),
            Err(error) => error == CaptureError::CookieNotFound && lookup(jar.deep_view(), name@)
                is None,
        },
{
    let wanted = name.to_owned();
    let ghost cookies = jar.deep_view();
    let mut i: usize = 0;
    assert(cookies.skip(0) == cookies);
    while i < jar.len()
        invariant
            i <= jar.len(),
            cookies == jar.deep_view(),
            cookies.len() == jar.len(),
            wanted@ == name@,
            lookup(cookies, name@) == lookup(cookies.skip(i as int), name@),
        decreases jar.len() - i,
    {
        assert(cookies[i as int] == jar[i as int]@);
        assert(cookies.skip(i as int)[0] == cookies[i as int]);
        assert(cookies.skip(i as int).drop_first() == cookies.skip(i as int + 1));
        if jar[i].name == wanted {
            return Ok(jar[i].clone());
        }
        i += 1;
    }
    Err(CaptureError::CookieNotFound)
}

/// Looks a cookie up in a session. A missing cookie is an answer, not a
/// failure: the result is `None`.
pub fn read_named(session: &RecordedSession, name: &str) -> (found: Option<Cookie>)
    ensures
        match found {
            Some(cookie) => lookup(session@.cookies, name@) == Some(cookie@),
            None => lookup(session@.cookies, name@) is None,
        },
{
    match get_cookie(&session.cookies, name) {
        Ok(cookie) => Some(cookie),
        Err(_) => None,
    }
}

/// Looking a name up is a function of the session's cookies alone: two
/// lookups against sessions with the same cookies give the same answer.
pub proof fn lemma_lookup_repeatable(first: Seq<CookieView>, second: Seq<CookieView>, name: Seq<char>)
    requires
        first == second,
    ensures
        lookup(first, name) == lookup(second, name),
{
}

/// A lookup that finds nothing means that no cookie of the jar bears the
/// name; one that finds a cookie returns the first that does.
pub proof fn lemma_lookup_first(jar: Seq<CookieView>, name: Seq<char>)
    ensures
        lookup(jar, name) is None <==> forall|i: int|
            0 <= i < jar.len() ==> (#[trigger] jar[i]).name != name,
        lookup(jar, name) matches Some(cookie) ==> exists|i: int|
            0 <= i < jar.len() && #[trigger] jar[i] == cookie && cookie.name == name && forall|
                j: int,
            | 0 <= j < i ==> (#[trigger] jar[j]).name != name,
    decreases jar.len(),
{
    if jar.len() > 0 {
        if jar[0].name == name {
            assert(jar[0] == jar[0]);
        } else {
            let rest = jar.drop_first();
            lemma_lookup_first(rest, name);
            assert(forall|i: int| 0 <= i < rest.len() ==> rest[i] == jar[i + 1]);
            if lookup(rest, name) is None {
                assert forall|i: int| 0 <= i < jar.len() implies (#[trigger] jar[i]).name
                    != name by {
                    if i > 0 {
                        assert(rest[i - 1].name != name);
                    }
                }
            } else {
                let cookie = lookup(rest, name)->Some_0;
                let i = choose|i: int|
                    0 <= i < rest.len() && #[trigger] rest[i] == cookie && cookie.name == name
                        && forall|j: int| 0 <= j < i ==> (#[trigger] rest[j]).name != name;
                assert(jar[i + 1] == cookie);
                assert forall|j: int| 0 <= j < i + 1 implies (#[trigger] jar[j]).name != name by {
                    if j > 0 {
                        assert(rest[j - 1].name != name);
                    }
                }
            }
        }
    }
}

} // verus!
