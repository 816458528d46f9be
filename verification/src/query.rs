//! The query builder: validated filter inputs become a single search-query
//! string with a fixed token order (involves, updated, repo, is, state,
//! sort), so the output is reproducible for identical inputs.

use vstd::prelude::*;
use vstd::string::StringExecFns;
use crate::date::{date_seq, lemma_date_seq_round_trip, parse_date, spec_day_of, spec_month_of,
    spec_year_of, valid_date_seq};
use crate::error::ValidationError;
use crate::text::occurs_at;

verus! {

/// The validated filter inputs: a required threshold date and optional
/// repository, type and state tokens, passed through to the remote API
/// unescaped.
#[derive(Debug, Clone)]
pub struct Args {
    /// Only items updated on or after this date (strict `YYYY-MM-DD`).
    pub updated_since: String,
    /// Optional `repo` filter, `owner/name`.
    pub repo: Option<String>,
    /// Optional `is` filter, such as `issue` or `pr`.
    pub type_filter: Option<String>,
    /// Optional `state` filter, such as `open` or `closed`.
    pub state_filter: Option<String>,
}

/// The reformatted date token embedded in the query.
pub open spec fn date_token(a: &Args) -> Seq<char> {
    date_seq(
        spec_year_of(a.updated_since@),
        spec_month_of(a.updated_since@),
        spec_day_of(a.updated_since@),
    )
}

/// The exact query text built from `a`: the fixed-order, single-space-joined
/// tokens, optional ones present exactly when their filter is set.
pub open spec fn query_spec(a: &Args) -> Seq<char> {
    "involves:@me updated:>="@ + date_token(a) + (match a.repo {
        Some(r) => " repo:"@ + r@,
        None => Seq::<char>::empty(),
    }) + (match a.type_filter {
        Some(t) => " is:"@ + t@,
        None => Seq::<char>::empty(),
    }) + (match a.state_filter {
        Some(st) => " state:"@ + st@,
        None => Seq::<char>::empty(),
    }) + " sort:updated-desc"@
}

/// The two filter values are equal, field for field.
pub open spec fn filters_equal(a: &Args, b: &Args) -> bool {
    &&& a.updated_since@ == b.updated_since@
    &&& a.repo.deep_view() == b.repo.deep_view()
    &&& a.type_filter.deep_view() == b.type_filter.deep_view()
    &&& a.state_filter.deep_view() == b.state_filter.deep_view()
}

/// Query determinism: equal filters produce byte-identical query text.
pub proof fn lemma_query_deterministic(a: &Args, b: &Args)
    requires
        filters_equal(a, b),
    ensures
        query_spec(a) == query_spec(b),
{
    match (a.repo, b.repo) {
        (Some(x), Some(y)) => assert(x@ == y@),
        _ => {},
    }
    match (a.type_filter, b.type_filter) {
        (Some(x), Some(y)) => assert(x@ == y@),
        _ => {},
    }
    match (a.state_filter, b.state_filter) {
        (Some(x), Some(y)) => assert(x@ == y@),
        _ => {},
    }
}

/// Token order: with every optional filter set, the query is exactly the six
/// tokens in the fixed order involves, updated, repo, is, state, sort, joined
/// by single spaces.
pub proof fn lemma_query_token_order(a: &Args)
    requires
        a.repo is Some,
        a.type_filter is Some,
        a.state_filter is Some,
    ensures
        query_spec(a) == "involves:@me"@ + " "@ + ("updated:>="@ + date_token(a)) + " "@ + (
        "repo:"@ + a.repo.unwrap()@) + " "@ + ("is:"@ + a.type_filter.unwrap()@) + " "@ + (
        "state:"@ + a.state_filter.unwrap()@) + " "@ + "sort:updated-desc"@,
{
    reveal_strlit("involves:@me updated:>=");
    reveal_strlit("involves:@me");
    reveal_strlit("updated:>=");
    reveal_strlit(" repo:");
    reveal_strlit("repo:");
    reveal_strlit(" is:");
    reveal_strlit("is:");
    reveal_strlit(" state:");
    reveal_strlit("state:");
    reveal_strlit(" sort:updated-desc");
    reveal_strlit("sort:updated-desc");
    reveal_strlit(" ");
    assert(query_spec(a) =~= "involves:@me"@ + " "@ + ("updated:>="@ + date_token(a)) + " "@ + (
    "repo:"@ + a.repo.unwrap()@) + " "@ + ("is:"@ + a.type_filter.unwrap()@) + " "@ + ("state:"@
        + a.state_filter.unwrap()@) + " "@ + "sort:updated-desc"@);
}

/// Token order, seen through substring positions: with every optional filter
/// set, each token keyword occurs at a fixed offset, and the offsets are
/// strictly increasing — involves, updated, repo, is, state, sort.
pub proof fn lemma_query_keyword_positions(a: &Args)
    requires
        a.repo is Some,
        a.type_filter is Some,
        a.state_filter is Some,
    ensures
        occurs_at(query_spec(a), "involves:"@, 0),
        occurs_at(query_spec(a), "updated:"@, 13),
        occurs_at(query_spec(a), "repo:"@, 34),
        occurs_at(query_spec(a), "is:"@, 40 + a.repo.unwrap()@.len() as int),
        occurs_at(
            query_spec(a),
            "state:"@,
            44 + a.repo.unwrap()@.len() as int + a.type_filter.unwrap()@.len() as int,
        ),
        occurs_at(
            query_spec(a),
            "sort:"@,
            51 + a.repo.unwrap()@.len() as int + a.type_filter.unwrap()@.len() as int
                + a.state_filter.unwrap()@.len() as int,
        ),
{
    reveal_strlit("involves:@me updated:>=");
    reveal_strlit(" repo:");
    reveal_strlit(" is:");
    reveal_strlit(" state:");
    reveal_strlit(" sort:updated-desc");
    reveal_strlit("involves:");
    reveal_strlit("updated:");
    reveal_strlit("repo:");
    reveal_strlit("is:");
    reveal_strlit("state:");
    reveal_strlit("sort:");
    let q = query_spec(a);
    let rlen = a.repo.unwrap()@.len() as int;
    let tlen = a.type_filter.unwrap()@.len() as int;
    let slen = a.state_filter.unwrap()@.len() as int;
    assert(q.len() == 68 + rlen + tlen + slen);
    assert(q.subrange(0, 9) =~= "involves:"@);
    assert(q.subrange(13, 21) =~= "updated:"@);
    assert(q.subrange(34, 39) =~= "repo:"@);
    assert(q.subrange(40 + rlen, 43 + rlen) =~= "is:"@);
    assert(q.subrange(44 + rlen + tlen, 50 + rlen + tlen) =~= "state:"@);
    assert(q.subrange(51 + rlen + tlen + slen, 56 + rlen + tlen + slen) =~= "sort:"@);
}

impl Args {
    /// Validate the date and build the query string. Succeeds exactly when
    /// `updated_since` is a strict `YYYY-MM-DD` calendar date; the result is
    /// then the exact fixed-order query text. On failure the error names the
    /// offending input and no query is produced.
    pub fn prepare(&self) -> (r: Result<String, ValidationError>)
        ensures
            r is Ok <==> valid_date_seq(self.updated_since@),
            r matches Ok(q) ==> q@ == query_spec(self),
            r matches Err(e) ==> e.input@ == self.updated_since@,
    {
        let date = match parse_date(self.updated_since.as_str()) {
            Ok(d) => d,
            Err(e) => {
                return Err(e);
            },
        };
        proof {
            lemma_date_seq_round_trip(self.updated_since@);
        }
        let date_text = date.to_iso_string();
        let mut q = String::new();
        q.append("involves:@me updated:>=");
        q.append(date_text.as_str());
        if let Some(repo) = &self.repo {
            q.append(" repo:");
            q.append(repo.as_str());
        }
        if let Some(t) = &self.type_filter {
            q.append(" is:");
            q.append(t.as_str());
        }
        if let Some(st) = &self.state_filter {
            q.append(" state:");
            q.append(st.as_str());
        }
        q.append(" sort:updated-desc");
        proof {
            assert(q@ =~= query_spec(self));
        }
        Ok(q)
    }
}

} // verus!
