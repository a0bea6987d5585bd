//! Semantic search results, as the gateway passes them on from the vector
//! service.
use vstd::prelude::*;
use crate::error::{invalid_field, is_invalid_field, GatewayError};
use crate::ids::Uuid;
use crate::ingest::{is_trim_of, lemma_blank_trim, trim};
use crate::numbers::{parse_i32, spec_parse_i32};
use crate::text::{clone_opt_string, opt_view};

verus! {

/// One hit from the vector service. The relevance score is carried as the
/// bit pattern of its `f32` value (`f32::to_bits`).
#[derive(Debug, Clone)]
pub struct SemanticSearchResult {
    pub score_bits: u32,
    pub title: Option<String>,
    pub snippet: Option<String>,
    pub doc_id: Option<Uuid>,
    pub paragraph_id: Option<String>,
    pub context_id: Option<String>,
}

/// Where a hit was found, for citing it.
#[derive(Debug, Clone)]
pub struct SearchEvidence {
    pub doc_id: Uuid,
    pub paragraph_id: Option<String>,
    pub snippet: Option<String>,
}

/// One search result as the API presents it. `file_id` repeats `doc_id` for
/// older clients; the score is the `f32` bit pattern of the hit's score.
#[derive(Debug, Clone)]
pub struct SearchResult {
    pub context_id: i32,
    pub doc_id: Uuid,
    pub file_id: Uuid,
    pub file_name: Option<String>,
    pub paragraph_id: Option<String>,
    pub snippet: Option<String>,
    pub relevance_score_bits: u32,
    pub evidence: Option<SearchEvidence>,
}

/// A result as plain values: context, document, name, paragraph, snippet,
/// score bits.
pub type ResultModel = (i32, Uuid, Option<Seq<char>>, Option<Seq<char>>, Option<Seq<char>>, u32);

/// The context a hit belongs to: its own, when it names one, else the
/// requested one; `None` when it names one that is not an `i32`.
pub open spec fn hit_context(hit: SemanticSearchResult, request_context_id: i32) -> Option<i32> {
    match hit.context_id {
        Some(raw) => spec_parse_i32(raw@),
        None => Some(request_context_id),
    }
}

/// Some hit names a context that is not an `i32`.
pub open spec fn has_invalid_context(hits: Seq<SemanticSearchResult>, request_context_id: i32) -> bool {
    exists|i: int| 0 <= i < hits.len() && hit_context(hits[i], request_context_id) is None
}

/// The results for the hits that carry a document id, in order.
pub open spec fn result_models(hits: Seq<SemanticSearchResult>, request_context_id: i32) -> Seq<
    ResultModel,
>
    decreases hits.len(),
{
    if hits.len() == 0 {
        seq![]
    } else {
        let h = hits.last();
        let rest = result_models(hits.drop_last(), request_context_id);
        match (h.doc_id, hit_context(h, request_context_id)) {
            (Some(d), Some(c)) => rest.push(
                (c, d, opt_view(h.title), opt_view(h.paragraph_id), opt_view(h.snippet), h.score_bits),
            ),
            _ => rest,
        }
    }
}

/// Search results follow the hits one for one, in order: a hit with a
/// document id and a readable context adds the result for that hit (its
/// context, document, title as the file name, paragraph, snippet and score),
/// and a hit without a document id adds none; no hits give no results.
pub proof fn law_results_follow_hits(hits: Seq<SemanticSearchResult>, h: SemanticSearchResult, request_context_id: i32)
    ensures
        result_models(Seq::<SemanticSearchResult>::empty(), request_context_id).len() == 0,
        h.doc_id is None ==> result_models(hits.push(h), request_context_id) == result_models(
            hits,
            request_context_id,
        ),
        h.doc_id matches Some(doc) ==> (hit_context(h, request_context_id) matches Some(ctx)
            ==> result_models(hits.push(h), request_context_id) == result_models(
            hits,
            request_context_id,
        ).push((ctx, doc, opt_view(h.title), opt_view(h.paragraph_id), opt_view(h.snippet), h.score_bits))),
{
    assert(hits.push(h).drop_last() =~= hits);
}

/// Result `m` is the result for hit `h`: the hit's document and context,
/// its title as the file name, its paragraph, snippet and score.
pub open spec fn is_result_for_hit(m: ResultModel, h: SemanticSearchResult, request_context_id: i32) -> bool {
    &&& h.doc_id == Some(m.1)
    &&& hit_context(h, request_context_id) == Some(m.0)
    &&& m.2 == opt_view(h.title)
    &&& m.3 == opt_view(h.paragraph_id)
    &&& m.4 == opt_view(h.snippet)
    &&& m.5 == h.score_bits
}

/// Every search result comes from a hit: its document, file name (the hit's
/// title), paragraph, snippet and score are that hit's.
pub proof fn law_result_fields_from_hit(hits: Seq<SemanticSearchResult>, request_context_id: i32, k: int)
    requires
        0 <= k < result_models(hits, request_context_id).len(),
    ensures
        exists|i: int|
            0 <= i < hits.len() && is_result_for_hit(
                result_models(hits, request_context_id)[k],
                #[trigger] hits[i],
                request_context_id,
            ),
    decreases hits.len(),
{
    let rest = hits.drop_last();
    let h = hits.last();
    let prev = result_models(rest, request_context_id);
    let all = result_models(hits, request_context_id);
    if k < prev.len() {
        law_result_fields_from_hit(rest, request_context_id, k);
        let i = choose|i: int|
            0 <= i < rest.len() && is_result_for_hit(prev[k], #[trigger] rest[i], request_context_id);
        assert(all[k] == prev[k]);
        assert(hits[i] == rest[i]);
    } else {
        assert(hits[hits.len() - 1] == h);
    }
}

/// The plain-value model of a result.
pub open spec fn result_model(r: SearchResult) -> ResultModel {
    (r.context_id, r.doc_id, opt_view(r.file_name), opt_view(r.paragraph_id), opt_view(r.snippet), r.relevance_score_bits)
}

/// The result's `file_id` and evidence repeat its document, paragraph and
/// snippet.
pub open spec fn well_formed_result(r: SearchResult) -> bool {
    r.file_id == r.doc_id && (r.evidence matches Some(e) && e.doc_id == r.doc_id && e.paragraph_id
        == r.paragraph_id && e.snippet == r.snippet)
}

/// Maps the vector service's hits to search results: hits without a document
/// id are left out, and a hit naming a context that is not a number fails the
/// whole search.
pub fn map_results(results: Vec<SemanticSearchResult>, request_context_id: i32) -> (r: Result<
    Vec<SearchResult>,
    GatewayError,
>)
    ensures
        has_invalid_context(results@, request_context_id) ==> (r matches Err(e) && is_invalid_field(
            e,
            "vector_api.context_id"@,
            "vector search returned invalid context_id"@,
        )),
        !has_invalid_context(results@, request_context_id) ==> (r matches Ok(mapped) && mapped@.map_values(
            |m: SearchResult| result_model(m),
        ) == result_models(results@, request_context_id) && forall|i: int|
            0 <= i < mapped@.len() ==> well_formed_result(#[trigger] mapped@[i])),
{
    let n = results.len();
    let mut mapped: Vec<SearchResult> = Vec::new();
    let mut i: usize = 0;
    while i < n
        invariant
            n == results@.len(),
            i <= n,
            !has_invalid_context(results@.subrange(0, i as int), request_context_id),
            mapped@.map_values(|m: SearchResult| result_model(m)) == result_models(
                results@.subrange(0, i as int),
                request_context_id,
            ),
            forall|j: int| 0 <= j < mapped@.len() ==> well_formed_result(#[trigger] mapped@[j]),
        decreases n - i,
    {
        let item = &results[i];
        let ghost prefix = results@.subrange(0, i + 1);
        assert(prefix.drop_last() =~= results@.subrange(0, i as int));
        assert(prefix.last() == *item);
        let context_id = match &item.context_id {
            Some(raw) => match parse_i32(raw.as_str()) {
                Some(v) => v,
                None => {
                    assert(results@[i as int] == *item);
                    assert(hit_context(results@[i as int], request_context_id) is None);
                    return Err(
                        invalid_field(
                            "vector_api.context_id",
                            "vector search returned invalid context_id",
                        ),
                    );
                },
            },
            None => request_context_id,
        };
        assert(!has_invalid_context(prefix, request_context_id)) by {
            assert forall|j: int| 0 <= j < prefix.len() implies hit_context(
                prefix[j],
                request_context_id,
            ) is Some by {
                if j < i {
                    assert(prefix[j] == results@.subrange(0, i as int)[j]);
                }
            }
        }
        match item.doc_id {
            Some(doc_id) => {
                let paragraph_id = clone_opt_string(&item.paragraph_id);
                let snippet = clone_opt_string(&item.snippet);
                let result = SearchResult {
                    context_id,
                    doc_id,
                    file_id: doc_id,
                    file_name: clone_opt_string(&item.title),
                    paragraph_id: clone_opt_string(&paragraph_id),
                    snippet: clone_opt_string(&snippet),
                    relevance_score_bits: item.score_bits,
                    evidence: Some(SearchEvidence { doc_id, paragraph_id, snippet }),
                };
                let ghost before = mapped@;
                mapped.push(result);
                assert(mapped@.map_values(|m: SearchResult| result_model(m)) =~= before.map_values(
                    |m: SearchResult| result_model(m),
                ).push(result_model(result)));
            },
            None => {},
        }
        i = i + 1;
    }
    assert(results@.subrange(0, n as int) =~= results@);
    proof {
        if has_invalid_context(results@, request_context_id) {
            let j = choose|j: int|
                0 <= j < results@.len() && hit_context(results@[j], request_context_id) is None;
            assert(results@.subrange(0, n as int)[j] == results@[j]);
        }
    }
    Ok(mapped)
}

/// Query parameters of a search request.
#[derive(Debug, Clone)]
pub struct SearchQuery {
    /// The search text.
    pub q: String,
    pub context_id: Option<i32>,
    pub limit: Option<u16>,
}

/// The context a search runs in: the request must name one and carry a query
/// that is not blank.
pub fn search_context(query: &SearchQuery) -> (r: Result<i32, GatewayError>)
    ensures
        query.context_id is None ==> (r matches Err(e) && is_invalid_field(
            e,
            "context_id"@,
            "context_id is required for search"@,
        )),
        query.context_id matches Some(c) ==> (if (exists|t: Seq<char>|
            is_trim_of(query.q@, t) && t.len() == 0) {
            r matches Err(e) && is_invalid_field(e, "q"@, "query cannot be empty"@)
        } else {
            r == Ok::<i32, GatewayError>(c)
        }),
{
    let context_id = match query.context_id {
        Some(c) => c,
        None => return Err(invalid_field("context_id", "context_id is required for search")),
    };
    let t = trim(query.q.as_str());
    if t.unicode_len() == 0 {
        return Err(invalid_field("q", "query cannot be empty"));
    }
    proof {
        lemma_blank_trim(query.q@, t@);
        if exists|u: Seq<char>| is_trim_of(query.q@, u) && u.len() == 0 {
            let u = choose|u: Seq<char>| is_trim_of(query.q@, u) && u.len() == 0;
            lemma_blank_trim(query.q@, u);
        }
    }
    Ok(context_id)
}

/// The number of results a search asks for: 20 by default; 0 is refused.
pub fn search_limit(limit: Option<u16>) -> (r: Result<u16, GatewayError>)
    ensures
        limit == Some(0u16) ==> (r matches Err(e) && is_invalid_field(
            e,
            "limit"@,
            "limit must be greater than zero"@,
        )),
        limit != Some(0u16) ==> r == Ok::<u16, GatewayError>(
            match limit {
                Some(l) => l,
                None => 20,
            },
        ),
{
    let limit = match limit {
        Some(l) => l,
        None => 20,
    };
    if limit == 0 {
        return Err(invalid_field("limit", "limit must be greater than zero"));
    }
    Ok(limit)
}

} // verus!
