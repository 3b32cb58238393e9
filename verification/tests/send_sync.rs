use core_api_rs::models::data_provider_models::data_provider::DataProvider;
use core_api_rs::models::discovery_models::discovery::Discovery;
use core_api_rs::models::journal_models::journal::Journal;
use core_api_rs::models::query_models::query::Query;
use core_api_rs::models::work_models::work::Work;
use core_api_rs::responses::response::ApiResponse;
use core_api_rs::responses::search::SearchResponse;

fn assert_send_sync<T: Send + Sync>() {}

#[test]
fn test_send_sync_discovery() {
    assert_send_sync::<Discovery>();
}

#[test]
fn test_send_sync_data_provider() {
    assert_send_sync::<DataProvider>();
}

#[test]
fn test_send_sync_journal() {
    assert_send_sync::<Journal>();
}

#[test]
fn test_send_sync_query() {
    assert_send_sync::<Query<String, String>>();
}

#[test]
fn test_send_sync_work() {
    assert_send_sync::<Work>();
}

#[test]
fn test_send_sync_api_response() {
    assert_send_sync::<ApiResponse>();
    assert_send_sync::<SearchResponse<Work>>();
}
