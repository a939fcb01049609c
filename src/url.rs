use vstd::prelude::*;

verus! {

/// Base of the legacy API, which takes the token as a query parameter.
pub const BASE_URL_V1_1: &'static str = "https://circleci.com/api/v1.1";

/// Base of the current API, which takes the token in a header.
pub const BASE_URL_V2: &'static str = "https://circleci.com/api/v2";

/// The key/value pairs of a query or a body, as characters.
pub open spec fn pairs_view(ps: Seq<(String, String)>) -> Seq<(Seq<char>, Seq<char>)> {
    ps.map_values(|p: (String, String)| (p.0@, p.1@))
}

/// `key=value`, unescaped.
pub open spec fn param_text(p: (Seq<char>, Seq<char>)) -> Seq<char> {
    p.0 + seq!['='] + p.1
}

/// The parameters in order, joined with `&`.
pub open spec fn join_params(ps: Seq<(Seq<char>, Seq<char>)>) -> Seq<char>
    decreases ps.len(),
{
    if ps.len() == 0 {
        Seq::empty()
    } else if ps.len() == 1 {
        param_text(ps[0])
    } else {
        join_params(ps.drop_last()) + seq!['&'] + param_text(ps.last())
    }
}

/// `base` + `path` + `?` + the joined parameters.
pub open spec fn url_of(base: Seq<char>, path: Seq<char>, ps: Seq<(Seq<char>, Seq<char>)>) -> Seq<
    char,
> {
    base + path + seq!['?'] + join_params(ps)
}

/// Putting a parameter in front of others puts its text in front of theirs,
/// with a `&` between where there are others.
pub proof fn lemma_join_prepend(x: (Seq<char>, Seq<char>), ps: Seq<(Seq<char>, Seq<char>)>)
    ensures
        join_params(seq![x] + ps) == if ps.len() == 0 {
            param_text(x)
        } else {
            param_text(x) + seq!['&'] + join_params(ps)
        },
    decreases ps.len(),
{
    let q = seq![x] + ps;
    if ps.len() == 0 {
        assert(q =~= seq![x]);
    } else if ps.len() == 1 {
        assert(q.drop_last() =~= seq![x]);
        assert(q.last() == ps[0]);
        assert(join_params(seq![x]) == param_text(x));
        assert(join_params(ps) == param_text(ps[0]));
        assert(join_params(q) == join_params(q.drop_last()) + seq!['&'] + param_text(q.last()));
    } else {
        assert(q.drop_last() =~= seq![x] + ps.drop_last());
        assert(join_params(q) == join_params(q.drop_last()) + seq!['&'] + param_text(q.last()));
        assert(q.last() == ps.last());
        lemma_join_prepend(x, ps.drop_last());
        assert(join_params(q) =~= param_text(x) + seq!['&'] + join_params(ps));
    }
}

/// Builds a URL from a base, a path and query parameters, kept in the order
/// given; values are not escaped.
pub fn create_url(base_url: &str, path: &str, query_params: &Vec<(String, String)>) -> (r: String)
    ensures
        r@ == url_of(base_url@, path@, pairs_view(query_params@)),
{
    let ghost ps = pairs_view(query_params@);
    let mut r = String::from_str(base_url);
    r.append(path);
    r.append("?");
    proof {
        reveal_strlit("?");
    }
    let mut i: usize = 0;
    while i < query_params.len()
        invariant
            i <= query_params@.len(),
            ps == pairs_view(query_params@),
            r@ == base_url@ + path@ + seq!['?'] + join_params(ps.take(i as int)),
        decreases query_params@.len() - i,
    {
        let p = &query_params[i];
        let ghost before = r@;
        if i > 0 {
            r.append("&");
        }
        r.append(p.0.as_str());
        r.append("=");
        r.append(p.1.as_str());
        proof {
            reveal_strlit("&");
            reveal_strlit("=");
            assert("&"@ =~= seq!['&']);
            assert("="@ =~= seq!['=']);
            let t = ps.take(i + 1);
            assert(t.drop_last() =~= ps.take(i as int));
            assert(t.last() == (p.0@, p.1@));
            let prefix = base_url@ + path@ + seq!['?'];
            if i == 0 {
                assert(t.len() == 1);
                assert(r@ =~= prefix + join_params(t));
            } else {
                assert(join_params(t) == join_params(ps.take(i as int)) + seq!['&'] + param_text(
                    t.last(),
                ));
                assert(r@ =~= prefix + join_params(t));
            }
        }
        i = i + 1;
    }
    assert(ps.take(query_params@.len() as int) =~= ps);
    r
}

} // verus!
