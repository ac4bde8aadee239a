//! Query strings of API URLs: optional parameters, form-urlencoded values,
//! `?` before the first and `&` before the others.

use crate::auth::oauth2::pair_views;
use crate::text::{decimal, decimal_string, form_encode, urlencoding};
use vstd::prelude::*;
use vstd::string::StringExecFns;
use vstd::utf8::encode_utf8;

verus! {

/// A value form-urlencoded as a query component.
pub open spec fn enc(v: Seq<char>) -> Seq<char> {
    form_encode(encode_utf8(v))
}

/// One `key=value` component.
pub open spec fn param_text(kv: (Seq<char>, Seq<char>)) -> Seq<char> {
    kv.0 + "="@ + kv.1
}

/// The query string of a parameter list: empty without parameters, else
/// `?` and the components joined by `&`.
pub open spec fn query_of(params: Seq<(Seq<char>, Seq<char>)>) -> Seq<char>
    decreases params.len(),
{
    if params.len() == 0 {
        Seq::empty()
    } else {
        query_of(params.drop_last()) + (if params.len() == 1 {
            "?"@
        } else {
            "&"@
        }) + param_text(params.last())
    }
}

/// A parameter that is present only when its value is.
pub open spec fn opt_param(key: Seq<char>, value: Option<Seq<char>>) -> Seq<(Seq<char>, Seq<char>)> {
    match value {
        Some(v) => seq![(key, v)],
        None => Seq::empty(),
    }
}

/// The encoded value of an optional text.
pub open spec fn enc_opt(value: Option<&str>) -> Option<Seq<char>> {
    match value {
        Some(v) => Some(enc(v@)),
        None => None,
    }
}

/// The decimal text of an optional number.
pub open spec fn num_opt(value: Option<u32>) -> Option<Seq<char>> {
    match value {
        Some(n) => Some(decimal(n as nat)),
        None => None,
    }
}

/// Appends a parameter whose value is already in its final form.
pub fn add_param(params: &mut Vec<(String, String)>, key: &str, value: String)
    ensures
        pair_views(final(params)@) == pair_views(old(params)@).push((key@, value@)),
{
    let ghost before = params@;
    params.push((key.to_owned(), value));
    assert(pair_views(params@) =~= pair_views(before).push((key@, value@)));
}

/// Appends `key` with the form-urlencoded `value`, when there is one.
pub fn add_encoded(params: &mut Vec<(String, String)>, key: &str, value: Option<&str>)
    ensures
        pair_views(final(params)@) == pair_views(old(params)@) + opt_param(key@, enc_opt(value)),
{
    match value {
        Some(v) => add_param(params, key, urlencoding(v)),
        None => {},
    }
    assert(pair_views(params@) =~= pair_views(old(params)@) + opt_param(key@, enc_opt(value)));
}

/// Appends `key` with the decimal `value`, when there is one.
pub fn add_number(params: &mut Vec<(String, String)>, key: &str, value: Option<u32>)
    ensures
        pair_views(final(params)@) == pair_views(old(params)@) + opt_param(key@, num_opt(value)),
{
    match value {
        Some(n) => add_param(params, key, decimal_string(n as u64)),
        None => {},
    }
    assert(pair_views(params@) =~= pair_views(old(params)@) + opt_param(key@, num_opt(value)));
}

/// `base` followed by the query string of `params` (see `query_of`).
pub fn url_with_query(base: &str, params: &Vec<(String, String)>) -> (r: String)
    ensures
        r@ == base@ + query_of(pair_views(params@)),
{
    let ghost ps = pair_views(params@);
    let mut url = base.to_owned();
    let mut i: usize = 0;
    while i < params.len()
        invariant
            i <= params@.len(),
            ps == pair_views(params@),
            url@ == base@ + query_of(ps.take(i as int)),
        decreases params.len() - i,
    {
        assert(ps.take(i + 1).drop_last() =~= ps.take(i as int));
        assert(ps.take(i + 1).last() == ps[i as int]);
        if i == 0 {
            url.append("?");
        } else {
            url.append("&");
        }
        url.append(params[i].0.as_str());
        url.append("=");
        url.append(params[i].1.as_str());
        assert(url@ =~= base@ + query_of(ps.take(i + 1)));
        i = i + 1;
    }
    assert(ps.take(params@.len() as int) =~= ps);
    url
}

/// The paging parameters of a listing: page size, then page token, each
/// when given.
pub open spec fn paging_params(page_size: Option<u32>, page_token: Option<&str>) -> Seq<(Seq<char>, Seq<char>)> {
    opt_param("pageSize"@, num_opt(page_size)) + opt_param("pageToken"@, enc_opt(page_token))
}

/// A listing URL: `base` with the paging parameters (see `paging_params`).
pub fn paged_url(base: &str, page_size: Option<u32>, page_token: Option<&str>) -> (r: String)
    ensures
        r@ == base@ + query_of(paging_params(page_size, page_token)),
{
    let mut params: Vec<(String, String)> = Vec::new();
    assert(pair_views(params@) =~= Seq::<(Seq<char>, Seq<char>)>::empty());
    add_number(&mut params, "pageSize", page_size);
    add_encoded(&mut params, "pageToken", page_token);
    assert(pair_views(params@) =~= paging_params(page_size, page_token));
    url_with_query(base, &params)
}

/// One `key` parameter per value, each value form-urlencoded, in order.
pub open spec fn repeated_param(key: Seq<char>, values: Seq<String>) -> Seq<(Seq<char>, Seq<char>)> {
    values.map_values(|v: String| (key, enc(v@)))
}

/// Appends one `key` parameter per value.
pub fn add_repeated(params: &mut Vec<(String, String)>, key: &str, values: &[String])
    ensures
        pair_views(final(params)@) == pair_views(old(params)@) + repeated_param(key@, values@),
{
    let ghost start = pair_views(params@);
    let mut i: usize = 0;
    while i < values.len()
        invariant
            i <= values@.len(),
            pair_views(params@) == start + repeated_param(key@, values@.take(i as int)),
        decreases values.len() - i,
    {
        add_param(params, key, urlencoding(values[i].as_str()));
        assert(repeated_param(key@, values@.take(i + 1)) =~= repeated_param(key@, values@.take(i as int)).push(
            (key@, enc(values@[i as int]@)),
        ));
        assert(pair_views(params@) =~= start + repeated_param(key@, values@.take(i + 1)));
        i = i + 1;
    }
    assert(values@.take(values@.len() as int) =~= values@);
}

} // verus!
