//! Finding the session token among a request's cookies.
//!
//! A cookie is one string of the form `name=value`. The auth cookie is the
//! first one, in the order received, whose text begins with `auth-token=`;
//! the token is what follows that prefix. Matching is by prefix and by exact
//! characters. Nothing is asked of the token itself: an empty or malformed
//! one is handed on, and it is the session store that turns it down.

use vstd::prelude::*;
use vstd::string::*;

verus! {

/// The name of the cookie that carries the session token.
pub const COOKIE_AUTH_TOKEN: &'static str = "auth-token";

/// The text that an auth cookie begins with: the cookie's name and `=`.
pub const COOKIE_AUTH_KEY: &'static str = "auth-token=";

/// The characters of [`COOKIE_AUTH_KEY`].
pub open spec fn auth_key() -> Seq<char> {
    seq!['a', 'u', 't', 'h', '-', 't', 'o', 'k', 'e', 'n', '=']
}

/// Whether a cookie's text begins with the auth key.
pub open spec fn is_auth_cookie(cookie: Seq<char>) -> bool {
    auth_key().is_prefix_of(cookie)
}

/// What follows the auth key in an auth cookie.
pub open spec fn token_of(cookie: Seq<char>) -> Seq<char> {
    cookie.skip(auth_key().len() as int)
}

/// The texts of a list of cookie strings.
pub open spec fn cookie_texts(cookies: Seq<String>) -> Seq<Seq<char>> {
    Seq::new(cookies.len(), |i: int| cookies[i]@)
}

/// The position of the first auth cookie in the list, if there is one.
pub open spec fn first_auth_cookie(cookies: Seq<Seq<char>>) -> Option<int>
    decreases cookies.len(),
{
    if cookies.len() == 0 {
        None
    } else if is_auth_cookie(cookies.last()) && first_auth_cookie(cookies.drop_last()) is None {
        Some(cookies.len() - 1)
    } else {
        first_auth_cookie(cookies.drop_last())
    }
}

/// The token that a list of cookies carries: what follows the key in the first
/// auth cookie, or nothing where no cookie is an auth cookie.
pub open spec fn token_among(cookies: Seq<Seq<char>>) -> Option<Seq<char>> {
    match first_auth_cookie(cookies) {
        Some(i) => Some(token_of(cookies[i])),
        None => None,
    }
}

/// The first auth cookie is an auth cookie of the list and no cookie before it
/// is one; there is none exactly when no cookie of the list is an auth cookie.
pub proof fn first_auth_cookie_is_first(cookies: Seq<Seq<char>>)
    ensures
        match first_auth_cookie(cookies) {
            Some(i) => {
                &&& 0 <= i < cookies.len()
                &&& is_auth_cookie(cookies[i])
                &&& forall|j: int| 0 <= j < i ==> !is_auth_cookie(#[trigger] cookies[j])
            },
            None => forall|j: int| 0 <= j < cookies.len() ==> !is_auth_cookie(#[trigger] cookies[j]),
        },
    decreases cookies.len(),
{
    if cookies.len() > 0 {
        let front = cookies.drop_last();
        first_auth_cookie_is_first(front);
        assert forall|j: int| 0 <= j < front.len() implies front[j] == cookies[j] by {}
        match first_auth_cookie(front) {
            Some(i) => {
                assert(front[i] == cookies[i]);
            },
            None => {
                assert forall|j: int| 0 <= j < front.len() implies !is_auth_cookie(
                    #[trigger] cookies[j],
                ) by {
                    assert(front[j] == cookies[j]);
                }
            },
        }
    }
}

/// A position that holds an auth cookie, with none before it, is the first
/// auth cookie.
pub proof fn first_auth_cookie_unique(cookies: Seq<Seq<char>>, i: int)
    requires
        0 <= i < cookies.len(),
        is_auth_cookie(cookies[i]),
        forall|j: int| 0 <= j < i ==> !is_auth_cookie(#[trigger] cookies[j]),
    ensures
        first_auth_cookie(cookies) == Some(i),
        token_among(cookies) == Some(token_of(cookies[i])),
{
    first_auth_cookie_is_first(cookies);
}

/// Cookies that come after the first auth cookie change nothing: first match
/// wins.
pub proof fn later_cookies_do_not_matter(cookies: Seq<Seq<char>>, more: Seq<Seq<char>>)
    requires
        first_auth_cookie(cookies) is Some,
    ensures
        first_auth_cookie(cookies + more) == first_auth_cookie(cookies),
        token_among(cookies + more) == token_among(cookies),
{
    first_auth_cookie_is_first(cookies);
    let i = first_auth_cookie(cookies)->0;
    let all = cookies + more;
    assert(all[i] == cookies[i]);
    assert forall|j: int| 0 <= j < i implies !is_auth_cookie(#[trigger] all[j]) by {
        assert(all[j] == cookies[j]);
    }
    first_auth_cookie_unique(all, i);
}

/// The auth key is the cookie's name followed by `=`, eleven characters in
/// all.
pub proof fn auth_key_text()
    ensures
        COOKIE_AUTH_KEY@ == auth_key(),
        COOKIE_AUTH_KEY@ == COOKIE_AUTH_TOKEN@.push('='),
        auth_key().len() == 11,
{
    reveal_strlit("auth-token=");
    reveal_strlit("auth-token");
    assert(COOKIE_AUTH_KEY@ =~= auth_key());
    assert(COOKIE_AUTH_TOKEN@.push('=') =~= auth_key());
}

/// Whether a cookie's text begins with the auth key.
pub fn has_auth_key(cookie: &str) -> (found: bool)
    ensures
        found == is_auth_cookie(cookie@),
{
    proof {
        auth_key_text();
    }
    let key = COOKIE_AUTH_KEY;
    let key_len = key.unicode_len();
    if cookie.unicode_len() < key_len {
        return false;
    }
    let mut i: usize = 0;
    while i < key_len
        invariant
            key@ == auth_key(),
            key_len == key@.len(),
            key_len <= cookie@.len(),
            i <= key_len,
            forall|j: int| 0 <= j < i ==> cookie@[j] == key@[j],
        decreases key_len - i,
    {
        if cookie.get_char(i) != key.get_char(i) {
            assert(cookie@.subrange(0, key_len as int)[i as int] != key@[i as int]);
            return false;
        }
        i += 1;
    }
    assert(key@ =~= cookie@.subrange(0, key_len as int));
    true
}

/// The token of one cookie: what follows the auth key, where the cookie begins
/// with it.
pub fn token_in(cookie: &str) -> (token: Option<String>)
    ensures
        match token {
            Some(t) => is_auth_cookie(cookie@) && t@ == token_of(cookie@),
            None => !is_auth_cookie(cookie@),
        },
{
    if has_auth_key(cookie) {
        proof {
            auth_key_text();
        }
        let key_len = COOKIE_AUTH_KEY.unicode_len();
        let rest = cookie.substring_char(key_len, cookie.unicode_len());
        Some(rest.to_owned())
    } else {
        None
    }
}

/// The token that the cookies of a request carry. The first cookie that begins
/// with the auth key decides, whatever comes after it; without such a cookie
/// there is no token, which is the ordinary state of an anonymous request.
pub fn extract_token(cookies: &Vec<String>) -> (token: Option<String>)
    ensures
        match token {
            Some(t) => token_among(cookie_texts(cookies@)) == Some(t@),
            None => token_among(cookie_texts(cookies@)) is None,
        },
{
    let ghost texts = cookie_texts(cookies@);
    let mut i: usize = 0;
    while i < cookies.len()
        invariant
            i <= cookies.len(),
            texts == cookie_texts(cookies@),
            forall|j: int| 0 <= j < i ==> !is_auth_cookie(#[trigger] texts[j]),
        decreases cookies.len() - i,
    {
        match token_in(cookies[i].as_str()) {
            Some(t) => {
                proof {
                    first_auth_cookie_unique(texts, i as int);
                }
                return Some(t);
            },
            None => {},
        }
        i += 1;
    }
    proof {
        first_auth_cookie_is_first(texts);
    }
    None
}

} // verus!
