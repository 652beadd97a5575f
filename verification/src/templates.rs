//! Template metadata and template search. Fetching, caching and installing
//! template files is the embedding program's step; the matching rule that
//! decides which templates a query finds is decided here.

use vstd::prelude::*;
use crate::external;
use crate::text;

verus! {

/// Metadata describing a shared template.
#[derive(Debug)]
pub struct TemplateMetadata {
    pub name: String,
    pub author: String,
    pub version: String,
    pub description: String,
    pub tags: Vec<String>,
    pub agent_types: Vec<String>,
}

/// Whether a template matches a query: its name, description or one of its
/// tags contains the case-folded query.
pub open spec fn spec_matches(m: TemplateMetadata, q: Seq<char>) -> bool {
    ||| text::contains_seq(external::lower_of(m.name@), external::lower_of(q))
    ||| text::contains_seq(external::lower_of(m.description@), external::lower_of(q))
    ||| exists|i: int|
        0 <= i < m.tags@.len() && text::contains_seq(
            external::lower_of(#[trigger] m.tags@[i]@),
            external::lower_of(q),
        )
}

/// The templates a query matches.
pub open spec fn query_pred(q: Seq<char>) -> spec_fn(TemplateMetadata) -> bool {
    |m: TemplateMetadata| spec_matches(m, q)
}

/// Decide whether one template matches a query.
pub fn search_matches(m: &TemplateMetadata, query: &str) -> (r: bool)
    ensures
        r == spec_matches(*m, query@),
{
    let q = external::to_lowercase(query);
    let name = external::to_lowercase(m.name.as_str());
    if text::str_contains_sub(name.as_str(), q.as_str()) {
        return true;
    }
    let desc = external::to_lowercase(m.description.as_str());
    if text::str_contains_sub(desc.as_str(), q.as_str()) {
        return true;
    }
    let n = m.tags.len();
    let mut i: usize = 0;
    while i < n
        invariant
            i <= n,
            n == m.tags@.len(),
            q@ == external::lower_of(query@),
            forall|j: int|
                0 <= j < i ==> !text::contains_seq(
                    external::lower_of(#[trigger] m.tags@[j]@),
                    external::lower_of(query@),
                ),
        decreases n - i,
    {
        let tag = external::to_lowercase(m.tags[i].as_str());
        if text::str_contains_sub(tag.as_str(), q.as_str()) {
            return true;
        }
        i = i + 1;
    }
    false
}

/// Keep the templates a query matches, in order.
pub fn filter_templates(templates: Vec<TemplateMetadata>, query: &str) -> (r: Vec<
    TemplateMetadata,
>)
    ensures
        r@ == templates@.filter(query_pred(query@)),
{
    let ghost orig = templates@;
    let mut src = templates;
    let total = src.len();
    proof {
        assert(orig.len() == total);
    }
    let mut out: Vec<TemplateMetadata> = Vec::new();
    proof {
        assert(out@ =~= orig.subrange(0, 0).filter(query_pred(query@)));
    }
    let mut taken: usize = 0;
    while src.len() > 0
        invariant
            orig.len() <= usize::MAX,
            taken <= orig.len(),
            src@ =~= orig.subrange(taken as int, orig.len() as int),
            out@ =~= orig.subrange(0, taken as int).filter(query_pred(query@)),
        decreases src.len(),
    {
        let ghost prefix = orig.subrange(0, taken as int);
        let m = src.remove(0);
        let keep = search_matches(&m, query);
        if keep {
            out.push(m);
        }
        proof {
            assert(orig.subrange(0, taken + 1 as int) =~= prefix.push(orig[taken as int]));
            crate::models::lemma_filter_push(prefix, query_pred(query@), orig[taken as int]);
            assert(src@ =~= orig.subrange(taken + 1 as int, orig.len() as int));
        }
        taken = taken + 1;
    }
    proof {
        assert(orig.subrange(0, taken as int) =~= orig);
    }
    out
}

} // verus!
