use core_api_rs::models::api::prepare_request;
use core_api_rs::models::query_models::filter::Filter;
use core_api_rs::models::query_models::logical_operator::LogicalOperator;
use core_api_rs::models::query_models::query::{create_discovery_body, Query};
use core_api_rs::models::query_models::request_type::QueryRequestType;
use core_api_rs::responses::response_types::ResponseKind;
use core_api_rs::{FilterOperator, SearchQuery};

#[test]
fn predicate_smaller() {
    assert_eq!(FilterOperator::Smaller("year", 2000).parse(), "year<2000");
}

#[test]
fn predicate_bigger() {
    assert_eq!(FilterOperator::Bigger("citationCount", 20).parse(), "citationCount>20");
}

#[test]
fn predicate_eq() {
    assert_eq!(FilterOperator::Eq("publisher", "OJS").parse(), "publisher=OJS");
}

#[test]
fn predicate_smaller_eq() {
    assert_eq!(FilterOperator::SmallerEq("year", -3i64).parse(), "year<=-3");
}

#[test]
fn predicate_bigger_eq() {
    assert_eq!(
        FilterOperator::BiggerEq(String::from("year"), 4000000000u32).parse(),
        "year>=4000000000"
    );
}

#[test]
fn predicate_exists() {
    assert_eq!(FilterOperator::<&str, &str>::Exists("doi").parse(), "_exists_:doi");
}

#[test]
fn predicate_has_value() {
    assert_eq!(FilterOperator::HasValue("type", "JOURNAL").parse(), "type:JOURNAL");
}

#[test]
fn predicate_values_are_not_escaped() {
    assert_eq!(FilterOperator::Eq("a b", "c&d=e").parse(), "a b=c&d=e");
    assert_eq!(FilterOperator::Eq("", "").parse(), "=");
    assert_eq!(FilterOperator::Eq("open", true).parse(), "open=true");
    assert_eq!(FilterOperator::Eq("open", false).parse(), "open=false");
}

#[test]
fn predicate_render_matches_parse() {
    let filter = FilterOperator::HasValue("type", "JOURNAL");
    let rendered = filter.render();
    assert_eq!(rendered, filter.parse());
}

#[test]
fn predicate_to_string() {
    assert_eq!(FilterOperator::Smaller("a", 1).to_string(), "Smaller(a, 1)");
    assert_eq!(FilterOperator::Bigger("a", 1).to_string(), "Bigger(a, 1)");
    assert_eq!(FilterOperator::Eq("publisher", "OJS").to_string(), "Eq(publisher, OJS)");
    assert_eq!(FilterOperator::SmallerEq("a", 1).to_string(), "SmallerEq(a, 1)");
    assert_eq!(FilterOperator::BiggerEq("a", 1).to_string(), "BiggerEq(a, 1)");
    assert_eq!(FilterOperator::<&str, &str>::Exists("doi").to_string(), "Exists(doi)");
    assert_eq!(FilterOperator::HasValue("a", "b").to_string(), "HasValue(a, b)");
}

#[test]
fn connector_tokens() {
    assert_eq!(LogicalOperator::And.parse(), "%20AND%20");
    assert_eq!(LogicalOperator::Or.parse(), "%20OR%20");
    assert_eq!(LogicalOperator::And.to_string(), "And");
    assert_eq!(LogicalOperator::Or.to_string(), "Or");
}

#[test]
fn request_type_names() {
    assert_eq!(QueryRequestType::Get.to_string(), "Get");
    assert_eq!(QueryRequestType::Post.to_string(), "Post");
}

#[test]
fn filter_entry() {
    let filter = Filter {
        logical_operator: LogicalOperator::Or,
        filter_operator: FilterOperator::Eq("publisher", "OJS"),
    };
    assert_eq!(filter.render(), "%20OR%20publisher=OJS");
    assert_eq!(
        filter.to_string(),
        "Filter { logical_operator: Or, filter_operator: Eq(publisher, OJS) }"
    );
    assert_eq!(filter.parse(), "%20OR%20publisher=OJS");
}

#[test]
fn empty_builder() {
    assert_eq!(SearchQuery::<String, String>::default().parse(), "?");
}

#[test]
fn paged_without_filters() {
    assert_eq!(SearchQuery::<String, String>::paged(10, 0).parse(), "?limit=10&offset=0");
}

#[test]
fn paged_with_negative_and_extreme_numbers() {
    assert_eq!(
        SearchQuery::<String, String>::paged(i32::MIN, i32::MAX).parse(),
        "?limit=-2147483648&offset=2147483647"
    );
    assert_eq!(SearchQuery::<String, String>::paged(-1, 105).parse(), "?limit=-1&offset=105");
}

#[test]
fn single_filter() {
    let query = SearchQuery::paged(10, 0).and(FilterOperator::Eq("publisher", "OJS"));
    assert_eq!(query.parse(), "?limit=10&offset=0&q=%20AND%20publisher=OJS");
}

#[test]
fn filters_keep_insertion_order() {
    let query = SearchQuery::paged(10, 0)
        .and(FilterOperator::Eq("a", "1"))
        .or(FilterOperator::Eq("b", "2"));
    assert_eq!(query.parse(), "?limit=10&offset=0&q=%20AND%20a=1%20OR%20b=2");
    let query = SearchQuery::paged(10, 0)
        .or(FilterOperator::Eq("b", "2"))
        .and(FilterOperator::Eq("a", "1"));
    assert_eq!(query.parse(), "?limit=10&offset=0&q=%20OR%20b=2%20AND%20a=1");
}

#[test]
fn three_filters_of_mixed_kinds() {
    let query = SearchQuery::paged(20, 1)
        .and(FilterOperator::Exists("doi"))
        .and(FilterOperator::Bigger("citationCount", 20))
        .or(FilterOperator::HasValue("year", 1999));
    assert_eq!(
        query.parse(),
        "?limit=20&offset=1&q=%20AND%20_exists_:doi%20AND%20citationCount>20%20OR%20year:1999"
    );
}

#[test]
fn filters_without_paging_keep_the_ampersand() {
    let query = SearchQuery::default().and(FilterOperator::Eq("publisher", "OJS"));
    assert_eq!(query.parse(), "?&q=%20AND%20publisher=OJS");
}

#[test]
fn serializing_twice_gives_the_same_string() {
    let query = SearchQuery::paged(10, 0)
        .and(FilterOperator::Eq("publisher", "OJS"))
        .or(FilterOperator::Exists("doi"));
    let first = query.render();
    let second = query.render();
    assert_eq!(first, second);
    let copy = query.clone();
    assert_eq!(copy.parse(), first);
    assert_eq!(query.parse(), second);
}

#[test]
fn fetch_data_provider_request() {
    let (method, path, body) = Query::<&str, &str>::DataProviders("opendoar:300").parse_request();
    assert_eq!(method, QueryRequestType::Get);
    assert_eq!(path, "data-providers/opendoar:300");
    assert_eq!(body, None);
}

#[test]
fn fetch_journal_request() {
    let (method, path, body) = Query::<&str, &str>::Journals("issn:1179-1497").parse_request();
    assert_eq!(method, QueryRequestType::Get);
    assert_eq!(path, "journals/issn:1179-1497");
    assert_eq!(body, None);
}

#[test]
fn fetch_output_request() {
    let (method, path, body) = Query::<i32, &str>::Outputs(0).parse_request();
    assert_eq!(method, QueryRequestType::Get);
    assert_eq!(path, "outputs/0");
    assert_eq!(body, None);
}

#[test]
fn discovery_request() {
    let (method, path, body) =
        Query::<&str, &str>::Discovery("10.1016/0370-2693(96)00910-0").parse_request();
    assert_eq!(method, QueryRequestType::Post);
    assert_eq!(path, "discover");
    assert_eq!(body, Some(String::from("{\"doi\": \"10.1016/0370-2693(96)00910-0\"}")));
}

#[test]
fn discovery_body_inserts_the_doi_as_it_is() {
    assert_eq!(create_discovery_body("a\"b"), "{\"doi\": \"a\"b\"}");
    assert_eq!(create_discovery_body(""), "{\"doi\": \"\"}");
}

#[test]
fn search_requests() {
    let query = || SearchQuery::paged(10, 0).and(FilterOperator::Eq("publisher", "OJS"));
    let tail = "?limit=10&offset=0&q=%20AND%20publisher=OJS";
    let (method, path, body) = Query::SearchWorks(query()).parse_request();
    assert_eq!(method, QueryRequestType::Get);
    assert_eq!(path, format!("search/works/{}", tail));
    assert_eq!(body, None);
    let (method, path, body) = Query::SearchOutputs(query()).parse_request();
    assert_eq!(method, QueryRequestType::Get);
    assert_eq!(path, format!("search/outputs/{}", tail));
    assert_eq!(body, None);
    let (method, path, body) = Query::SearchDataProviders(query()).parse_request();
    assert_eq!(method, QueryRequestType::Get);
    assert_eq!(path, format!("search/data-providers/{}", tail));
    assert_eq!(body, None);
    let (method, path, body) = Query::SearchJournals(query()).parse_request();
    assert_eq!(method, QueryRequestType::Get);
    assert_eq!(path, format!("search/journals/{}", tail));
    assert_eq!(body, None);
}

#[test]
fn search_request_without_anything_set() {
    let (_, path, _) = Query::SearchWorks(SearchQuery::<String, String>::default()).parse_request();
    assert_eq!(path, "search/works/?");
}

#[test]
fn response_kinds_follow_the_query() {
    let search = || SearchQuery::<&str, &str>::paged(1, 0);
    assert_eq!(Query::<&str, &str>::DataProviders("1").response_kind(), ResponseKind::DataProviders);
    assert_eq!(Query::<&str, &str>::Discovery("1").response_kind(), ResponseKind::Discovery);
    assert_eq!(Query::<&str, &str>::Journals("1").response_kind(), ResponseKind::Journals);
    assert_eq!(Query::<&str, &str>::Outputs("1").response_kind(), ResponseKind::Outputs);
    assert_eq!(Query::SearchWorks(search()).response_kind(), ResponseKind::SearchWorks);
    assert_eq!(Query::SearchOutputs(search()).response_kind(), ResponseKind::SearchOutputs);
    assert_eq!(
        Query::SearchDataProviders(search()).response_kind(),
        ResponseKind::SearchDataProviders
    );
    assert_eq!(Query::SearchJournals(search()).response_kind(), ResponseKind::SearchJournals);
}

#[test]
fn prepared_get_request() {
    let query = SearchQuery::paged(10, 0).and(FilterOperator::Eq("publisher", "OJS"));
    let request = prepare_request("secret", Query::SearchJournals(query));
    assert_eq!(request.method, QueryRequestType::Get);
    assert_eq!(
        request.target,
        "https://api.core.ac.uk/v3/search/journals/?limit=10&offset=0&q=%20AND%20publisher=OJS"
    );
    assert_eq!(request.authorization, "Bearer secret");
    assert_eq!(request.body, None);
    assert_eq!(request.kind, ResponseKind::SearchJournals);
}

#[test]
fn prepared_post_request() {
    let request = prepare_request("k", Query::<&str, &str>::Discovery("10.1/x"));
    assert_eq!(request.method, QueryRequestType::Post);
    assert_eq!(request.target, "https://api.core.ac.uk/v3/discover");
    assert_eq!(request.authorization, "Bearer k");
    assert_eq!(request.body, Some(String::from("{\"doi\": \"10.1/x\"}")));
    assert_eq!(request.kind, ResponseKind::Discovery);
}

#[test]
fn scroll_and_stats_follow_the_paging() {
    let query = SearchQuery::<String, String>::paged(10, 0).scroll(true).stats(false);
    assert_eq!(query.parse(), "?limit=10&offset=0&scroll=true&stats=false");
    let query = SearchQuery::default().stats(true).and(FilterOperator::Exists("doi"));
    let query: SearchQuery<&str, &str> = query;
    assert_eq!(query.parse(), "?&stats=true&q=%20AND%20_exists_:doi");
    let query = SearchQuery::<String, String>::default().scroll(false);
    assert_eq!(query.parse(), "?&scroll=false");
}

#[test]
fn prepared_request_keeps_the_path() {
    let request = prepare_request("k", Query::<i32, &str>::Outputs(17));
    assert_eq!(request.path, "outputs/17");
    assert_eq!(request.target, "https://api.core.ac.uk/v3/outputs/17");
}
