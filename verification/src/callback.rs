use vstd::prelude::*;
use vstd::string::StringExecFns;

verus! {

/// What parsing the text as a URL and reading its query yields: None when
/// the text is not a valid URL, else the decoded (key, value) pairs of its
/// query, in order. A function of the text alone.
pub uninterp spec fn url_query_pairs(s: Seq<char>) -> Option<Seq<(Seq<char>, Seq<char>)>>;

/// Relies on url::Url::parse and url::Url::query_pairs: parsing the text
/// either fails, or yields the query's decoded (key, value) pairs in order;
/// either way the outcome depends on the text alone.
#[verifier::external_body]
fn parse_query_pairs(s: &str) -> (r: Option<Vec<(String, String)>>)
    ensures
        match r {
            Some(pairs) => url_query_pairs(s@) == Some(pairs.deep_view()),
            None => url_query_pairs(s@) is None,
        },
{
    match url::Url::parse(s) {
        Ok(u) => Some(u.query_pairs().map(|(k, v)| (k.into_owned(), v.into_owned())).collect()),
        Err(_) => None,
    }
}

/// The value of the first pair whose key is "code", if any.
pub open spec fn spec_first_code(pairs: Seq<(Seq<char>, Seq<char>)>) -> Option<Seq<char>>
    decreases pairs.len(),
{
    if pairs.len() == 0 {
        None
    } else if pairs[0].0 == "code"@ {
        Some(pairs[0].1)
    } else {
        spec_first_code(pairs.drop_first())
    }
}

/// Picks the value of the first "code" pair of `pairs`.
fn find_code(pairs: &Vec<(String, String)>) -> (r: Option<String>)
    ensures
        match r {
            Some(v) => spec_first_code(pairs.deep_view()) == Some(v@),
            None => spec_first_code(pairs.deep_view()) is None,
        },
{
    let key = String::from_str("code");
    let n = pairs.len();
    let mut i: usize = 0;
    proof {
        assert(pairs.deep_view().skip(0) =~= pairs.deep_view());
    }
    while i < n
        invariant
            key@ == "code"@,
            n == pairs@.len(),
            i <= n,
            spec_first_code(pairs.deep_view()) == spec_first_code(
                pairs.deep_view().skip(i as int),
            ),
        decreases n - i,
    {
        proof {
            assert(pairs.deep_view().skip(i as int)[0] == pairs.deep_view()[i as int]);
            assert(pairs.deep_view().skip(i as int).drop_first() =~= pairs.deep_view().skip(
                i as int + 1,
            ));
        }
        if pairs[i].0.eq(&key) {
            return Some(pairs[i].1.clone());
        }
        i = i + 1;
    }
    proof {
        assert(pairs.deep_view().skip(n as int) =~= Seq::<(Seq<char>, Seq<char>)>::empty());
    }
    None
}

/// Extracts the OAuth authorization code from a callback URL: the value of
/// its first "code" query pair, or None when the URL does not parse or
/// carries no such pair.
pub fn extract_auth_code(callback_url: &str) -> (r: Option<String>)
    ensures
        match url_query_pairs(callback_url@) {
            Some(pairs) => match r {
                Some(v) => spec_first_code(pairs) == Some(v@),
                None => spec_first_code(pairs) is None,
            },
            None => r is None,
        },
{
    match parse_query_pairs(callback_url) {
        Some(pairs) => find_code(&pairs),
        None => None,
    }
}

} // verus!
