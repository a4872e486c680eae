//! Reading the redirect response: the `code` and `state` query parameters of
//! the URL that the provider sent the user back to.

use vstd::prelude::*;
use vstd::string::StringExecFns;
use crate::error::AuthError;
use crate::error::AuthErrorKind;
use crate::error::AuthFailure;

verus! {

/// The error text of `url::Url::parse` on a text that it refuses, and
/// `None` for a text that it accepts.
pub uninterp spec fn url_parse_fault(text: Seq<char>) -> Option<Seq<char>>;

/// Whether `url::Url::parse` accepts the text as a URL.
pub open spec fn parses_as_url(text: Seq<char>) -> bool {
    url_parse_fault(text) is None
}

/// The query parameters that `url::Url::query_pairs` yields for the URL
/// written as `text`, in the order of the query string and decoded.
pub uninterp spec fn query_pairs_of(text: Seq<char>) -> Seq<(Seq<char>, Seq<char>)>;

/// The names and values of a list of parameters, as texts.
pub open spec fn pairs_view(pairs: Seq<(String, String)>) -> Seq<(Seq<char>, Seq<char>)> {
    Seq::new(pairs.len(), |i: int| (pairs[i].0@, pairs[i].1@))
}

/// Calls `url::Url::parse` and hands out what it objected to, as the
/// error's own text; `None` where it accepted the text. The outcome is the
/// one that `url_parse_fault` stands for.
#[verifier::external_body]
pub(crate) fn parse_fault(text: &str) -> (fault: Option<String>)
    ensures
        fault is Some == url_parse_fault(text@) is Some,
        fault is Some ==> fault->0@ == url_parse_fault(text@)->0,
{
    oauth2::url::Url::parse(text).err().map(|e| e.to_string())
}

/// Calls `url::Url::query_pairs` on the URL written as `text`, and hands
/// out each parameter as a pair of owned strings, in the order in which the
/// iterator gives them. The text must be one that `url::Url::parse`
/// accepts.
#[verifier::external_body]
pub(crate) fn query_pairs(text: &str) -> (r: Vec<(String, String)>)
    requires
        parses_as_url(text@),
    ensures
        pairs_view(r@) == query_pairs_of(text@),
{
    let url = oauth2::url::Url::parse(text).unwrap();
    url.query_pairs().map(|(k, v)| (k.into_owned(), v.into_owned())).collect()
}

/// The value of the last parameter named `key`, if there is one. Where a
/// name occurs more than once, the last occurrence counts.
pub open spec fn last_value(pairs: Seq<(Seq<char>, Seq<char>)>, key: Seq<char>) -> Option<
    Seq<char>,
>
    decreases pairs.len(),
{
    if pairs.len() == 0 {
        None
    } else if pairs.last().0 == key {
        Some(pairs.last().1)
    } else {
        last_value(pairs.drop_last(), key)
    }
}

/// A parameter added at the end decides the value of its name, and leaves
/// the values of other names as they were.
pub proof fn last_value_after_push(
    pairs: Seq<(Seq<char>, Seq<char>)>,
    added: (Seq<char>, Seq<char>),
    key: Seq<char>,
)
    ensures
        last_value(pairs.push(added), key) == (if added.0 == key {
            Some(added.1)
        } else {
            last_value(pairs, key)
        }),
{
    assert(pairs.push(added).last() == added);
    assert(pairs.push(added).drop_last() =~= pairs);
}

/// In two lists put together, the second decides the value of each name
/// that it holds; the first decides the others.
pub proof fn last_value_of_joined(
    first: Seq<(Seq<char>, Seq<char>)>,
    second: Seq<(Seq<char>, Seq<char>)>,
    key: Seq<char>,
)
    ensures
        last_value(first + second, key) == (match last_value(second, key) {
            Some(v) => Some(v),
            None => last_value(first, key),
        }),
    decreases second.len(),
{
    if second.len() == 0 {
        assert(first + second =~= first);
    } else {
        assert(first + second =~= (first + second.drop_last()).push(second.last()));
        last_value_after_push(first + second.drop_last(), second.last(), key);
        last_value_of_joined(first, second.drop_last(), key);
    }
}

/// What a list of query parameters says: the code and the state, or the
/// kind of the first thing that is missing. An empty list is reported
/// first, then a missing code, then a missing state.
pub open spec fn response_reading(pairs: Seq<(Seq<char>, Seq<char>)>) -> Result<
    (Seq<char>, Seq<char>),
    AuthErrorKind,
> {
    if pairs.len() == 0 {
        Err(AuthErrorKind::EmptyResponse)
    } else if last_value(pairs, "code"@) is None {
        Err(AuthErrorKind::MissingCode)
    } else if last_value(pairs, "state"@) is None {
        Err(AuthErrorKind::MissingState)
    } else {
        Ok((last_value(pairs, "code"@)->0, last_value(pairs, "state"@)->0))
    }
}

/// The cause given with each kind of unreadable response.
pub open spec fn response_cause(kind: AuthErrorKind) -> Seq<char> {
    match kind {
        AuthErrorKind::EmptyResponse => "No response is present in the given url!"@,
        AuthErrorKind::MissingCode => "There was no authorization code present in the provided url!"@,
        _ => "There was no state present in the provided url!"@,
    }
}

/// The cause given for a response that is no URL: the text, then a fixed
/// remark.
pub open spec fn malformed_cause(text: Seq<char>) -> Seq<char> {
    text + " is not a valid url."@
}

/// What the redirect response written as `text` says.
pub open spec fn response_of(text: Seq<char>) -> Result<(Seq<char>, Seq<char>), AuthErrorKind> {
    if parses_as_url(text) {
        response_reading(query_pairs_of(text))
    } else {
        Err(AuthErrorKind::MalformedResponse)
    }
}

/// Finds the value of the last parameter named `key`.
pub fn find_last(pairs: &Vec<(String, String)>, key: &str) -> (r: Option<String>)
    ensures
        match r {
            Some(v) => last_value(pairs_view(pairs@), key@) == Some(v@),
            None => last_value(pairs_view(pairs@), key@) is None,
        },
{
    let wanted = String::from_str(key);
    let ghost all = pairs_view(pairs@);
    let mut found: Option<String> = None;
    let mut i: usize = 0;
    proof {
        assert(all.take(0).len() == 0);
    }
    while i < pairs.len()
        invariant
            i <= pairs.len(),
            all == pairs_view(pairs@),
            wanted@ == key@,
            match found {
                Some(v) => last_value(all.take(i as int), key@) == Some(v@),
                None => last_value(all.take(i as int), key@) is None,
            },
        decreases pairs.len() - i,
    {
        proof {
            let next = all.take(i + 1);
            assert(next.drop_last() =~= all.take(i as int));
            assert(next.last() == all[i as int]);
        }
        if pairs[i].0 == wanted {
            found = Some(pairs[i].1.clone());
        }
        i = i + 1;
    }
    proof {
        assert(all.take(i as int) =~= all);
    }
    found
}

/// Reads the code and the state out of a list of query parameters.
///
/// An empty list is an `EmptyResponse`; otherwise a list without `code` is a
/// `MissingCode`; otherwise one without `state` is a `MissingState`. Other
/// parameters are ignored.
pub fn read_response(pairs: &Vec<(String, String)>) -> (r: Result<(String, String), AuthError>)
    ensures
        match r {
            Ok(found) => response_reading(pairs_view(pairs@)) == Ok::<
                (Seq<char>, Seq<char>),
                AuthErrorKind,
            >((found.0@, found.1@)),
            Err(e) => response_reading(pairs_view(pairs@)) == Err::<
                (Seq<char>, Seq<char>),
                AuthErrorKind,
            >(e.kind) && e.cause@ == response_cause(e.kind),
        },
{
    if pairs.len() == 0 {
        return Err(
            AuthError::of(AuthErrorKind::EmptyResponse, "No response is present in the given url!"),
        );
    }
    let code = match find_last(pairs, "code") {
        Some(code) => code,
        None => {
            return Err(
                AuthError::of(
                    AuthErrorKind::MissingCode,
                    "There was no authorization code present in the provided url!",
                ),
            );
        },
    };
    let state = match find_last(pairs, "state") {
        Some(state) => state,
        None => {
            return Err(
                AuthError::of(
                    AuthErrorKind::MissingState,
                    "There was no state present in the provided url!",
                ),
            );
        },
    };
    Ok((code, state))
}

/// The query parameters of a URL, or the error, as contracts speak of it.
pub open spec fn parameters_of(text: Seq<char>) -> Result<Seq<(Seq<char>, Seq<char>)>, AuthFailure> {
    if parses_as_url(text) {
        Ok(query_pairs_of(text))
    } else {
        Err(AuthFailure { kind: AuthErrorKind::MalformedResponse, cause: malformed_cause(text) })
    }
}

/// The query parameters of the URL written as `text`, in their order and
/// decoded. A text that is no URL is a `MalformedResponse`.
pub fn query_parameters(text: &str) -> (r: Result<Vec<(String, String)>, AuthError>)
    ensures
        match r {
            Ok(pairs) => parameters_of(text@) == Ok::<Seq<(Seq<char>, Seq<char>)>, AuthFailure>(
                pairs_view(pairs@),
            ),
            Err(e) => parameters_of(text@) == Err::<Seq<(Seq<char>, Seq<char>)>, AuthFailure>(e@),
        },
{
    if parse_fault(text).is_some() {
        let cause = String::from_str(text).concat(" is not a valid url.");
        return Err(AuthError::new(AuthErrorKind::MalformedResponse, cause));
    }
    Ok(query_pairs(text))
}

/// Reads the code and the state out of the redirect response.
///
/// A text that is no URL is a `MalformedResponse`; a URL is read as its
/// query parameters say.
pub fn parse_response(text: &str) -> (r: Result<(String, String), AuthError>)
    ensures
        match r {
            Ok(found) => response_of(text@) == Ok::<(Seq<char>, Seq<char>), AuthErrorKind>(
                (found.0@, found.1@),
            ),
            Err(e) => response_of(text@) == Err::<(Seq<char>, Seq<char>), AuthErrorKind>(e.kind)
                && e.cause@ == (if e.kind == AuthErrorKind::MalformedResponse {
                malformed_cause(text@)
            } else {
                response_cause(e.kind)
            }),
        },
{
    match query_parameters(text) {
        Ok(pairs) => read_response(&pairs),
        Err(e) => Err(e),
    }
}

} // verus!
