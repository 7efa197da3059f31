//! L2: the filter of a vector search, as SQL text and parameters.
use vstd::prelude::*;

use crate::text::owned;

verus! {

/// Restricts a search to one entity type and/or one entity.
#[derive(Debug, Clone)]
pub struct EntityFilter {
    pub entity_type: Option<String>,
    pub entity_id: Option<String>,
}

/// The WHERE clause and its parameters for a filter; numbered placeholders follow the
/// parameters.
pub open spec fn filter_clause(filter: Option<EntityFilter>) -> (Seq<char>, Seq<Seq<char>>) {
    match filter {
        None => (Seq::empty(), Seq::empty()),
        Some(f) => match (f.entity_type, f.entity_id) {
            (None, None) => (Seq::empty(), Seq::empty()),
            (Some(t), None) => (" WHERE entity_type = ?1"@, seq![t@]),
            (None, Some(i)) => (" WHERE entity_id = ?1"@, seq![i@]),
            (Some(t), Some(i)) => (" WHERE entity_type = ?1 AND entity_id = ?2"@, seq![t@, i@]),
        },
    }
}

pub fn build_filter_clause(filter: &Option<EntityFilter>) -> (r: (String, Vec<String>))
    ensures
        (r.0@, r.1@.map_values(|s: String| s@)) == filter_clause(*filter),
{
    let mut params: Vec<String> = Vec::new();
    let clause = match filter {
        None => String::new(),
        Some(f) => match (&f.entity_type, &f.entity_id) {
            (None, None) => String::new(),
            (Some(t), None) => {
                params.push(t.clone());
                owned(" WHERE entity_type = ?1")
            },
            (None, Some(i)) => {
                params.push(i.clone());
                owned(" WHERE entity_id = ?1")
            },
            (Some(t), Some(i)) => {
                params.push(t.clone());
                params.push(i.clone());
                owned(" WHERE entity_type = ?1 AND entity_id = ?2")
            },
        },
    };
    assert(params@.map_values(|s: String| s@) =~= filter_clause(*filter).1);
    (clause, params)
}

/// How many nearest neighbours to ask the vector index for: with a filter, 20 times the
/// wanted count and at least 100, so that enough remain after filtering.
pub fn knn_candidates(top_k: usize, filtered: bool) -> (r: usize)
    requires
        filtered ==> top_k * 20 <= usize::MAX,
    ensures
        r == if filtered {
            if top_k * 20 > 100 {
                (top_k * 20) as int
            } else {
                100
            }
        } else {
            top_k as int
        },
{
    if filtered {
        let k = top_k * 20;
        if k > 100 {
            k
        } else {
            100
        }
    } else {
        top_k
    }
}

} // verus!
