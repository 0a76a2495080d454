use vstd::prelude::*;

verus! {

/// One scored hit of a search result page: the identifying metadata the
/// engine returns and, when present, the source document as its raw
/// structured text. Ordering among hits is whatever the query's sort
/// clause dictated; this layer never re-sorts.
#[derive(Debug, Clone, PartialEq, Eq)]
pub struct SearchHit {
    pub _index: Option<String>,
    pub _id: Option<String>,
    pub _source: Option<String>,
}

/// The hits container of a result page: the total-hit count the engine
/// reported (reduced to its numeric value) and the ordered hit list.
/// Either level can be absent in a reply, and the decoders must treat
/// every absence the same way, so both stay optional here.
#[derive(Debug, Clone, PartialEq, Eq)]
pub struct HitList {
    pub total: Option<usize>,
    pub hits: Option<Vec<SearchHit>>,
}

/// One page of search results, together with the scroll cursor token
/// when scrolling was requested. The token is a server-side resource
/// with a declared lifetime; this layer holds no cursor state of its
/// own and an expired cursor surfaces as a decode failure on the next
/// page, never as a local error.
#[derive(Debug, Clone, PartialEq, Eq)]
pub struct SearchPage {
    pub _scroll_id: Option<String>,
    pub hits: Option<HitList>,
}

/// A single fetched document: its envelope metadata and, when the
/// engine returned one, the source as its raw structured text.
#[derive(Debug, Clone, PartialEq, Eq)]
pub struct GetDoc {
    pub _index: String,
    pub _type: String,
    pub _id: String,
    pub _source: Option<String>,
}

/// Shard acknowledgment counts surfaced, but not interpreted, by this
/// layer.
#[derive(Debug, Clone, PartialEq, Eq)]
pub struct ShardStats {
    pub total: Option<usize>,
    pub successful: Option<usize>,
    pub failed: Option<usize>,
}

/// The reply of a refresh call: the shard acknowledgment metadata.
#[derive(Debug, Clone, PartialEq, Eq)]
pub struct IndicesRefreshResponse {
    pub _shards: Option<ShardStats>,
}

/// A reply to a document deletion, when a caller wants a marker type.
#[derive(Debug, Clone, PartialEq, Eq)]
pub struct DeleteDocResponse {}

/// The single hit a size-one search yields: absent whenever the hits
/// container, the hit array, or a first element is missing; otherwise
/// the hit the engine put last in the array.
pub open spec fn first_hit_spec(page: SearchPage) -> Option<SearchHit> {
    match page.hits {
        Option::None => Option::None,
        Option::Some(hl) => match hl.hits {
            Option::None => Option::None,
            Option::Some(v) => if v@.len() == 0 {
                Option::None
            } else {
                Option::Some(v@[v@.len() - 1])
            },
        },
    }
}

/// Reduce a page to its single hit. Every way the result envelope can
/// lack a hit — no hits container, no hit array, an empty array — gives
/// `None`; none of them is an error.
pub fn first_hit(page: SearchPage) -> (r: Option<SearchHit>)
    ensures
        r == first_hit_spec(page),
{
    match page.hits {
        None => None,
        Some(hl) => match hl.hits {
            None => None,
            Some(mut v) => v.pop(),
        },
    }
}

/// Whether a page offers no hit at all: the hits container is absent,
/// the hit array is absent, or the hit array is empty.
pub open spec fn page_has_no_hits(page: SearchPage) -> bool {
    match page.hits {
        Option::None => true,
        Option::Some(hl) => match hl.hits {
            Option::None => true,
            Option::Some(v) => v@.len() == 0,
        },
    }
}

/// A page reduces to no hit exactly when it offers none: each way the
/// envelope can lack a hit gives `None`, and a page with hits never
/// does.
pub proof fn lemma_first_hit_none(page: SearchPage)
    ensures
        first_hit_spec(page) is None <==> page_has_no_hits(page),
{
}

/// The reported total-hit count of a page, or zero wherever the reply
/// left it out.
pub open spec fn total_value_spec(page: SearchPage) -> usize {
    match page.hits {
        Option::None => 0,
        Option::Some(hl) => match hl.total {
            Option::None => 0,
            Option::Some(v) => v,
        },
    }
}

impl SearchPage {
    /// The total-hit count the engine reported, or zero if any level of
    /// the envelope was absent.
    pub fn total_value(&self) -> (r: usize)
        ensures
            r == total_value_spec(*self),
    {
        match &self.hits {
            None => 0,
            Some(hl) => match hl.total {
                None => 0,
                Some(v) => v,
            },
        }
    }
}

/// The source texts of a hit sequence, in hit order, keeping only the
/// hits that carried a source.
pub open spec fn sources_of(hits: Seq<SearchHit>) -> Seq<Seq<char>>
    decreases hits.len(),
{
    if hits.len() == 0 {
        Seq::empty()
    } else {
        let rest = sources_of(hits.drop_last());
        match hits.last()._source {
            Option::Some(s) => rest.push(s@),
            Option::None => rest,
        }
    }
}

/// The source texts a whole page offers: those of its hit array, in
/// order, or nothing when any level of the envelope is absent.
pub open spec fn page_sources_spec(page: SearchPage) -> Seq<Seq<char>> {
    match page.hits {
        Option::None => Seq::empty(),
        Option::Some(hl) => match hl.hits {
            Option::None => Seq::empty(),
            Option::Some(v) => sources_of(v@),
        },
    }
}

impl SearchPage {
    /// Collect the source texts of the page's hits, preserving hit
    /// order and skipping hits without a source.
    pub fn sources(&self) -> (r: Vec<String>)
        ensures
            r@.map_values(|s: String| s@) == page_sources_spec(*self),
    {
        let hits = match &self.hits {
            None => {
                let r: Vec<String> = Vec::new();
                assert(r@.map_values(|s: String| s@) =~= Seq::<Seq<char>>::empty());
                return r;
            },
            Some(hl) => match &hl.hits {
                None => {
                    let r: Vec<String> = Vec::new();
                    assert(r@.map_values(|s: String| s@) =~= Seq::<Seq<char>>::empty());
                    return r;
                },
                Some(v) => v,
            },
        };
        let mut out: Vec<String> = Vec::new();
        let mut i: usize = 0;
        while i < hits.len()
            invariant
                i <= hits@.len(),
                out@.map_values(|s: String| s@) == sources_of(hits@.take(i as int)),
            decreases hits@.len() - i,
        {
            proof {
                assert(hits@.take(i + 1).drop_last() =~= hits@.take(i as int));
                assert(hits@.take(i + 1).last() == hits@[i as int]);
            }
            match &hits[i] {
                SearchHit { _source: Some(s), .. } => {
                    let ghost before = out@;
                    out.push(s.clone());
                    proof {
                        assert(out@.map_values(|s: String| s@) =~= before.map_values(
                            |s: String| s@,
                        ).push(hits@[i as int]._source->0@));
                    }
                },
                _ => {},
            }
            i = i + 1;
        }
        proof {
            assert(hits@.take(hits@.len() as int) =~= hits@);
        }
        out
    }
}

} // verus!
