//! Queries on a context's knowledge graph: the filters a request gives, and
//! the statistics and entities the graph service returns.
use vstd::prelude::*;
use crate::ingest::{is_trim_of, trim};
use crate::text::{split_once, split_once_char, to_owned_string};

verus! {

/// Query parameters of a graph request.
#[derive(Debug, Clone)]
pub struct GraphQuery {
    pub limit: Option<u32>,
    /// Comma-separated entity types to keep.
    pub entity_types: Option<String>,
}

/// Query parameters of an entity listing.
#[derive(Debug, Clone)]
pub struct EntitiesQuery {
    pub entity_type: Option<String>,
    pub search: Option<String>,
    pub limit: Option<u32>,
}

/// Size of a returned graph; a count the service leaves out is 0.
#[derive(Debug, Clone, Copy, PartialEq, Eq, Structural)]
pub struct GraphStats {
    pub total_nodes: u32,
    pub total_edges: u32,
}

impl GraphStats {
    /// The statistics of a graph for which the service gave none.
    pub fn empty() -> (r: Self)
        ensures
            r.total_nodes == 0 && r.total_edges == 0,
    {
        GraphStats { total_nodes: 0, total_edges: 0 }
    }
}

/// An entity of the knowledge graph.
#[derive(Debug, Clone)]
pub struct EntityEntry {
    pub id: String,
    pub label: String,
    pub entity_type: String,
    pub mention_count: Option<u32>,
}

/// The entities of a context.
#[derive(Debug, Clone)]
pub struct EntitiesResponse {
    pub entities: Vec<EntityEntry>,
}

/// The pieces of `s` between the separators `c`, as `s.split(c)` yields
/// them: always at least one, empty ones included.
pub open spec fn split_pieces(s: Seq<char>, c: char) -> Seq<Seq<char>>
    decreases s.len(),
{
    match split_once_char(s, c) {
        Some((a, b)) => if b.len() < s.len() {
            seq![a] + split_pieces(b, c)
        } else {
            seq![]
        },
        None => seq![s],
    }
}

/// The entity types of a graph request: each comma-separated piece of the
/// parameter, without surrounding white space, in order.
pub fn entity_type_filter(entity_types: Option<&str>) -> (r: Option<Vec<String>>)
    ensures
        match entity_types {
            None => r is None,
            Some(s) => r matches Some(v) && v@.len() == split_pieces(s@, ',').len() && forall|i: int|
                0 <= i < v@.len() ==> is_trim_of(split_pieces(s@, ',')[i], #[trigger] v@[i]@),
        },
{
    let s = match entity_types {
        None => return None,
        Some(s) => s,
    };
    let mut out: Vec<String> = Vec::new();
    let ghost mut done: Seq<Seq<char>> = seq![];
    let mut rest = s;
    loop
        invariant_except_break
            split_pieces(s@, ',') == done + split_pieces(rest@, ','),
            out@.len() == done.len(),
            forall|i: int| 0 <= i < out@.len() ==> is_trim_of(done[i], #[trigger] out@[i]@),
        ensures
            out@.len() == split_pieces(s@, ',').len(),
            forall|i: int|
                0 <= i < out@.len() ==> is_trim_of(split_pieces(s@, ',')[i], #[trigger] out@[i]@),
        decreases rest@.len(),
    {
        match split_once(rest, ',') {
            Some((piece, tail)) => {
                let t = trim(piece);
                let ghost prev_done = done;
                let ghost prev_out = out@;
                out.push(to_owned_string(t));
                proof {
                    done = done.push(piece@);
                    assert(split_pieces(rest@, ',') == seq![piece@] + split_pieces(tail@, ','));
                    assert(prev_done + (seq![piece@] + split_pieces(tail@, ',')) =~= done
                        + split_pieces(tail@, ','));
                    assert forall|i: int| 0 <= i < out@.len() implies is_trim_of(
                        done[i],
                        #[trigger] out@[i]@,
                    ) by {
                        if i < prev_out.len() {
                            assert(out@[i] == prev_out[i]);
                            assert(done[i] == prev_done[i]);
                        }
                    }
                }
                rest = tail;
            },
            None => {
                let t = trim(rest);
                let ghost prev_out = out@;
                out.push(to_owned_string(t));
                proof {
                    assert(split_pieces(rest@, ',') == seq![rest@]);
                    let all = split_pieces(s@, ',');
                    assert(all =~= done.push(rest@));
                    assert forall|i: int| 0 <= i < out@.len() implies is_trim_of(
                        all[i],
                        #[trigger] out@[i]@,
                    ) by {
                        if i < prev_out.len() {
                            assert(out@[i] == prev_out[i]);
                            assert(all[i] == done[i]);
                        }
                    }
                }
                break;
            },
        }
    }
    Some(out)
}

} // verus!
