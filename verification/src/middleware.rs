//! The security-header middleware, on a model of a response: a status code,
//! header pairs and a body. Setting the five fixed headers changes nothing
//! else about the response.

use vstd::prelude::*;

verus! {

/// A response as the middleware sees it. A later header pair with the same
/// name overrides an earlier one, as `header_value` reads it.
pub struct HttpResponse {
    pub status: u16,
    pub headers: Vec<(String, String)>,
    pub body: Vec<u8>,
}

/// The value the named header ends up with: the last pair with that name.
pub open spec fn header_value(headers: Seq<(String, String)>, name: Seq<char>) -> Option<
    Seq<char>,
>
    decreases headers.len(),
{
    if headers.len() == 0 {
        None
    } else if headers.last().0@ == name {
        Some(headers.last().1@)
    } else {
        header_value(headers.drop_last(), name)
    }
}

/// Appending a pair sets its own name and leaves every other name unchanged.
pub proof fn lemma_header_push(
    headers: Seq<(String, String)>,
    pair: (String, String),
    name: Seq<char>,
)
    ensures
        header_value(headers.push(pair), name) == if pair.0@ == name {
            Some(pair.1@)
        } else {
            header_value(headers, name)
        },
{
    let pushed = headers.push(pair);
    assert(pushed.last() == pair);
    assert(pushed.drop_last() =~= headers);
}

/// The five fixed security header names.
pub open spec fn is_security_header_name(name: Seq<char>) -> bool {
    ||| name == "x-content-type-options"@
    ||| name == "x-frame-options"@
    ||| name == "x-xss-protection"@
    ||| name == "referrer-policy"@
    ||| name == "content-security-policy"@
}

/// Every security header is present with its exact fixed value.
pub open spec fn security_headers_ok(headers: Seq<(String, String)>) -> bool {
    &&& header_value(headers, "x-content-type-options"@) == Some("nosniff"@)
    &&& header_value(headers, "x-frame-options"@) == Some("DENY"@)
    &&& header_value(headers, "x-xss-protection"@) == Some("1; mode=block"@)
    &&& header_value(headers, "referrer-policy"@) == Some(
        "strict-origin-when-cross-origin"@,
    )
    &&& header_value(headers, "content-security-policy"@) == Some("default-src 'self'"@)
}

/// The five fixed header pairs, in the order they are applied.
pub fn security_header_list() -> (r: Vec<(String, String)>)
    ensures
        r@.len() == 5,
        r@[0].0@ == "x-content-type-options"@ && r@[0].1@ == "nosniff"@,
        r@[1].0@ == "x-frame-options"@ && r@[1].1@ == "DENY"@,
        r@[2].0@ == "x-xss-protection"@ && r@[2].1@ == "1; mode=block"@,
        r@[3].0@ == "referrer-policy"@ && r@[3].1@ == "strict-origin-when-cross-origin"@,
        r@[4].0@ == "content-security-policy"@ && r@[4].1@ == "default-src 'self'"@,
{
    let mut list: Vec<(String, String)> = Vec::new();
    list.push(("x-content-type-options".to_string(), "nosniff".to_string()));
    list.push(("x-frame-options".to_string(), "DENY".to_string()));
    list.push(("x-xss-protection".to_string(), "1; mode=block".to_string()));
    list.push(("referrer-policy".to_string(), "strict-origin-when-cross-origin".to_string()));
    list.push(("content-security-policy".to_string(), "default-src 'self'".to_string()));
    list
}

/// Sets the five fixed security headers on a response, overriding any values
/// they had, and changes nothing else: not the status, not the body, and not
/// the value of any other header. This step cannot fail, and it runs on every
/// response.
pub fn security_headers(response: &mut HttpResponse)
    ensures
        final(response).status == old(response).status,
        final(response).body@ == old(response).body@,
        security_headers_ok(final(response).headers@),
        forall|name: Seq<char>|
            !is_security_header_name(name) ==> header_value(final(response).headers@, name)
                == header_value(old(response).headers@, name),
{
    let ghost h0 = response.headers@;
    response.headers.push(("x-content-type-options".to_string(), "nosniff".to_string()));
    let ghost h1 = response.headers@;
    response.headers.push(("x-frame-options".to_string(), "DENY".to_string()));
    let ghost h2 = response.headers@;
    response.headers.push(("x-xss-protection".to_string(), "1; mode=block".to_string()));
    let ghost h3 = response.headers@;
    response.headers.push(
        ("referrer-policy".to_string(), "strict-origin-when-cross-origin".to_string()),
    );
    let ghost h4 = response.headers@;
    response.headers.push(
        ("content-security-policy".to_string(), "default-src 'self'".to_string()),
    );
    let ghost h5 = response.headers@;
    proof {
        reveal_strlit("x-content-type-options");
        reveal_strlit("x-frame-options");
        reveal_strlit("x-xss-protection");
        reveal_strlit("referrer-policy");
        reveal_strlit("content-security-policy");
        // The two names of equal length need a differing position as witness
        // before the solver sees them apart.
        assert("referrer-policy"@[0] == 'r');
        assert("x-frame-options"@[0] == 'x');
        assert("referrer-policy"@ != "x-frame-options"@);
        assert(h1.last().0@ == "x-content-type-options"@);
        assert(h2.last().0@ == "x-frame-options"@);
        assert(h3.last().0@ == "x-xss-protection"@);
        assert(h4.last().0@ == "referrer-policy"@);
        assert(h5.last().0@ == "content-security-policy"@);
        lemma_headers_after_five(h0, h1, h2, h3, h4, h5, "x-content-type-options"@);
        lemma_headers_after_five(h0, h1, h2, h3, h4, h5, "x-frame-options"@);
        lemma_headers_after_five(h0, h1, h2, h3, h4, h5, "x-xss-protection"@);
        lemma_headers_after_five(h0, h1, h2, h3, h4, h5, "referrer-policy"@);
        lemma_headers_after_five(h0, h1, h2, h3, h4, h5, "content-security-policy"@);
        assert forall|name: Seq<char>| !is_security_header_name(name) implies header_value(
            h5,
            name,
        ) == header_value(h0, name) by {
            lemma_headers_after_five(h0, h1, h2, h3, h4, h5, name);
        }
    }
}

/// Walks one header lookup back through five pushes.
proof fn lemma_headers_after_five(
    h0: Seq<(String, String)>,
    h1: Seq<(String, String)>,
    h2: Seq<(String, String)>,
    h3: Seq<(String, String)>,
    h4: Seq<(String, String)>,
    h5: Seq<(String, String)>,
    name: Seq<char>,
)
    requires
        h1 == h0.push(h1.last()),
        h2 == h1.push(h2.last()),
        h3 == h2.push(h3.last()),
        h4 == h3.push(h4.last()),
        h5 == h4.push(h5.last()),
    ensures
        header_value(h5, name) == if h5.last().0@ == name {
            Some(h5.last().1@)
        } else if h4.last().0@ == name {
            Some(h4.last().1@)
        } else if h3.last().0@ == name {
            Some(h3.last().1@)
        } else if h2.last().0@ == name {
            Some(h2.last().1@)
        } else if h1.last().0@ == name {
            Some(h1.last().1@)
        } else {
            header_value(h0, name)
        },
{
    lemma_header_push(h4, h5.last(), name);
    lemma_header_push(h3, h4.last(), name);
    lemma_header_push(h2, h3.last(), name);
    lemma_header_push(h1, h2.last(), name);
    lemma_header_push(h0, h1.last(), name);
}

} // verus!
