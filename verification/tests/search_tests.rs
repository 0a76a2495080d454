use uiuifree_elastic::decode::{decode_first_search, decode_search_plain, decode_search_scrolled};
use uiuifree_elastic::error::ElasticError;
use uiuifree_elastic::outcome::TransportOutcome;
use uiuifree_elastic::response::{first_hit, HitList, SearchHit, SearchPage};

fn reply(status: u16, body: &str) -> TransportOutcome {
    TransportOutcome::Reply(status, String::from(body))
}

const TWO_HITS: &str = "{\"_scroll_id\":\"cursor-1\",\"took\":3,\"hits\":{\
    \"total\":{\"value\":2,\"relation\":\"eq\"},\"max_score\":1.0,\"hits\":[\
    {\"_index\":\"t\",\"_id\":\"1\",\"_score\":1.0,\"_source\":{\"name\":\"a\"}},\
    {\"_index\":\"t\",\"_id\":\"2\",\"_score\":0.5,\"_source\":{\"name\":\"b\"}}]}}";

const ZERO_HITS: &str = "{\"took\":1,\"hits\":{\"total\":{\"value\":0,\"relation\":\"eq\"},\
    \"max_score\":null,\"hits\":[]}}";

#[test]
fn scrolled_search_decodes_page_and_cursor() {
    let page = decode_search_scrolled(reply(200, TWO_HITS)).unwrap().unwrap();
    assert_eq!(page._scroll_id, Some(String::from("cursor-1")));
    let hits = page.hits.as_ref().unwrap();
    assert_eq!(hits.total, Some(2));
    let list = hits.hits.as_ref().unwrap();
    assert_eq!(list.len(), 2);
    assert_eq!(list[0]._id, Some(String::from("1")));
    assert_eq!(list[0]._source, Some(String::from("{\"name\":\"a\"}")));
    assert_eq!(list[1]._id, Some(String::from("2")));
    assert_eq!(page.total_value(), 2);
    let sources = page.sources();
    assert_eq!(
        sources,
        vec![String::from("{\"name\":\"a\"}"), String::from("{\"name\":\"b\"}")]
    );
}

#[test]
fn search_swallows_transport_failure_into_none() {
    let r = decode_search_plain(TransportOutcome::Failed(String::from("refused")));
    assert_eq!(r, Ok(None));
    let r = decode_search_scrolled(TransportOutcome::Failed(String::from("refused")));
    assert_eq!(r, Ok(None));
    let r = decode_first_search(TransportOutcome::Failed(String::from("refused")));
    assert_eq!(r, Ok(None));
}

#[test]
fn plain_search_gates_on_status() {
    let r = decode_search_plain(reply(500, "boom"));
    assert_eq!(r, Err(ElasticError::Status(500, String::from("boom"))));
}

#[test]
fn plain_search_null_body_is_no_page() {
    let r = decode_search_plain(reply(200, "null"));
    assert_eq!(r, Ok(None));
}

#[test]
fn plain_search_decodes_page() {
    let page = decode_search_plain(reply(200, TWO_HITS)).unwrap().unwrap();
    assert_eq!(page.total_value(), 2);
    assert_eq!(page.sources().len(), 2);
}

#[test]
fn scrolled_search_parse_failure_is_json_parse() {
    let r = decode_search_scrolled(reply(200, "not json"));
    assert!(matches!(r, Err(ElasticError::JsonParse(_))));
}

#[test]
fn scroll_parse_failure_is_json_parse_error() {
    // An expired or unknown cursor surfaces as the engine's error body,
    // which fails the page parse: an error, never a silent empty page.
    let r = decode_search_scrolled(reply(404, "{\"hits\":\"search_context_missing\"}"));
    assert!(matches!(r, Err(ElasticError::JsonParse(_))));
    // A body that is an object with no hits at all still parses as an
    // empty page, so it is not an error.
    let r = decode_search_scrolled(reply(200, "{\"error\":\"x\"}"));
    assert_eq!(
        r,
        Ok(Some(SearchPage { _scroll_id: None, hits: None }))
    );
}

#[test]
fn scroll_decodes_next_page() {
    let page = decode_search_scrolled(reply(200, TWO_HITS)).unwrap().unwrap();
    assert_eq!(page._scroll_id, Some(String::from("cursor-1")));
}

#[test]
fn first_search_zero_hits_is_none_not_error() {
    let r = decode_first_search(reply(200, ZERO_HITS));
    assert_eq!(r, Ok(None));
}

#[test]
fn first_search_missing_envelope_levels_are_none() {
    assert_eq!(decode_first_search(reply(200, "{}")), Ok(None));
    assert_eq!(decode_first_search(reply(200, "{\"hits\":null}")), Ok(None));
    assert_eq!(
        decode_first_search(reply(200, "{\"hits\":{\"total\":null,\"max_score\":null,\"hits\":null}}")),
        Ok(None)
    );
}

#[test]
fn first_search_returns_last_hit_of_the_array() {
    let hit = decode_first_search(reply(200, TWO_HITS)).unwrap().unwrap();
    assert_eq!(hit._id, Some(String::from("2")));
    assert_eq!(hit._source, Some(String::from("{\"name\":\"b\"}")));
}

#[test]
fn first_hit_handles_each_envelope_shape() {
    assert_eq!(first_hit(SearchPage { _scroll_id: None, hits: None }), None);
    assert_eq!(
        first_hit(SearchPage {
            _scroll_id: None,
            hits: Some(HitList { total: Some(0), hits: None }),
        }),
        None
    );
    assert_eq!(
        first_hit(SearchPage {
            _scroll_id: None,
            hits: Some(HitList { total: Some(0), hits: Some(vec![]) }),
        }),
        None
    );
    let hit = SearchHit {
        _index: Some(String::from("t")),
        _id: Some(String::from("9")),
        _source: None,
    };
    assert_eq!(
        first_hit(SearchPage {
            _scroll_id: None,
            hits: Some(HitList { total: Some(1), hits: Some(vec![hit.clone()]) }),
        }),
        Some(hit)
    );
}

#[test]
fn sources_skips_hits_without_source() {
    let with = SearchHit {
        _index: None,
        _id: Some(String::from("1")),
        _source: Some(String::from("{\"name\":\"a\"}")),
    };
    let without = SearchHit { _index: None, _id: Some(String::from("2")), _source: None };
    let page = SearchPage {
        _scroll_id: None,
        hits: Some(HitList { total: Some(3), hits: Some(vec![with.clone(), without, with]) }),
    };
    assert_eq!(
        page.sources(),
        vec![String::from("{\"name\":\"a\"}"), String::from("{\"name\":\"a\"}")]
    );
    assert_eq!(page.total_value(), 3);
}
