use mountix::model::ErrorCode;
use mountix::mountain::{MountainFindException, MountainGetException};
use mountix::search::{
    SearchedMountain, SearchedMountainLocation, SearchedSurroundingMountain,
    SearchedSurroundingMountainLocation, SurroundingMountainSearchQuery,
};
use mountix::surrounding::SurroundingMountainFindException;
use mountix::webmodel::{
    JsonEndpoint, JsonErrorResponse, JsonInformationResponse, JsonMountain,
    JsonSurroundingMountain, MountainError, SurroundingMountainSearchQueryParam,
};

fn create_test_searched_mountain() -> SearchedMountain {
    SearchedMountain {
        id: 1,
        name: "富士山".to_string(),
        name_kana: "ふじさん".to_string(),
        area: "関東地方".to_string(),
        prefectures: vec!["静岡県".to_string(), "山梨県".to_string()],
        elevation: 3776,
        location: SearchedMountainLocation {
            latitude: 35_360_556,
            longitude: 138_727_778,
            gsi_url: "https://maps.gsi.go.jp/fuji".to_string(),
        },
        tags: vec!["百名山".to_string()],
    }
}

fn create_test_searched_surrounding_mountain() -> SearchedSurroundingMountain {
    SearchedSurroundingMountain {
        id: 2,
        name: "周辺の山".to_string(),
        name_kana: "しゅうへんのやま".to_string(),
        area: "関東地方".to_string(),
        prefectures: vec!["静岡県".to_string()],
        elevation: 2500,
        location: SearchedSurroundingMountainLocation {
            latitude: 35_300_000,
            longitude: 138_800_000,
            gsi_url: "https://maps.gsi.go.jp/surrounding".to_string(),
        },
        tags: vec!["二百名山".to_string()],
    }
}

#[test]
fn test_json_endpoint_new() {
    let resource = "mountains".to_string();
    let url = "https://api.example.com/mountains".to_string();
    let endpoint = JsonEndpoint::new(resource.clone(), url.clone());

    assert_eq!(endpoint.resource, resource);
    assert_eq!(endpoint.url, url);
}

#[test]
fn test_json_endpoint_structure() {
    let endpoint = JsonEndpoint {
        resource: "test".to_string(),
        url: "https://test.com".to_string(),
    };

    assert_eq!(endpoint.resource, "test");
    assert_eq!(endpoint.url, "https://test.com");
}

#[test]
fn test_json_endpoint_multiple_resources() {
    let endpoints = vec![
        JsonEndpoint::new(
            "mountains".to_string(),
            "https://api.com/mountains".to_string(),
        ),
        JsonEndpoint::new("health".to_string(), "https://api.com/health".to_string()),
    ];

    assert_eq!(endpoints.len(), 2);
    assert_eq!(endpoints[0].resource, "mountains");
    assert_eq!(endpoints[1].resource, "health");
}

#[test]
fn test_json_information_response_from_urls() {
    let response = JsonInformationResponse::new(
        "https://test.example.com/mountains".to_string(),
        "https://test.example.com/docs".to_string(),
    );

    assert_eq!(response.about, "日本の主な山岳をJSON形式で提供するAPIです。");
    assert_eq!(response.endpoints.len(), 1);
    assert_eq!(response.endpoints[0].resource, "mountains");
    assert_eq!(response.endpoints[0].url, "https://test.example.com/mountains");
    assert_eq!(response.documents, "https://test.example.com/docs");
}

#[test]
fn test_json_mountain_conversion() {
    let searched_mountain = create_test_searched_mountain();
    let json_mountain: JsonMountain = searched_mountain.into();

    assert_eq!(json_mountain.id, 1);
    assert_eq!(json_mountain.name, "富士山");
    assert_eq!(json_mountain.name_kana, "ふじさん");
    assert_eq!(json_mountain.elevation, 3776);
    assert_eq!(json_mountain.location.latitude, 35_360_556);
    assert_eq!(json_mountain.location.longitude, 138_727_778);
}

#[test]
fn test_mountain_get_exception_not_found() {
    let exception = MountainGetException::new(ErrorCode::InvalidId);
    assert_eq!(exception.error_code, ErrorCode::InvalidId);
}

#[test]
fn test_mountain_get_exception_server_error() {
    let exception = MountainGetException::new(ErrorCode::ServerError);
    assert_eq!(exception.error_code, ErrorCode::ServerError);
}

#[test]
fn test_mountain_find_exception_invalid_params() {
    let messages = vec!["Invalid parameter".to_string()];
    let exception = MountainFindException::new(ErrorCode::InvalidQueryParam, messages.clone());
    assert_eq!(exception.error_code, ErrorCode::InvalidQueryParam);
    assert_eq!(exception.messages, messages);
}

#[test]
fn test_mountain_find_exception_with_error_code() {
    let exception = MountainFindException::new_with_error_code(ErrorCode::ServerError);
    assert_eq!(exception.error_code, ErrorCode::ServerError);
    assert!(!exception.messages.is_empty());
}

#[test]
fn test_json_error_response_creation() {
    let messages = vec!["Error message".to_string()];
    let response = JsonErrorResponse::new(messages.clone());
    assert_eq!(response.messages, messages);
}

#[test]
fn test_json_mountains_response_structure() {
    let searched_mountain = create_test_searched_mountain();
    let mountains = vec![searched_mountain];

    let json_mountains: Vec<JsonMountain> = mountains.into_iter().map(|m| m.into()).collect();
    assert_eq!(json_mountains.len(), 1);
    assert_eq!(json_mountains[0].name, "富士山");
}

#[test]
fn test_mountain_error_handling() {
    let invalid_id_error = MountainGetException::new(ErrorCode::InvalidId);
    assert_eq!(invalid_id_error.error_code, ErrorCode::InvalidId);

    let server_error = MountainGetException::new(ErrorCode::ServerError);
    assert_eq!(server_error.error_code, ErrorCode::ServerError);
}

#[test]
fn test_mountain_find_error_handling() {
    let find_error = MountainFindException::new_with_error_code(ErrorCode::ServerError);
    assert_eq!(find_error.error_code, ErrorCode::ServerError);
    assert!(!find_error.messages.is_empty());
}

#[test]
fn test_mountain_error_from_get_exception() {
    let not_found =
        MountainError::from_get_exception(&MountainGetException::new(ErrorCode::InvalidId));
    assert_eq!(not_found, MountainError::NotFound);

    let server_error =
        MountainError::from_get_exception(&MountainGetException::new(ErrorCode::ServerError));
    assert_eq!(server_error, MountainError::ServerError);
}

#[test]
fn test_json_surrounding_mountain_conversion() {
    let searched_surrounding_mountain = create_test_searched_surrounding_mountain();
    let json_mountain: JsonSurroundingMountain = searched_surrounding_mountain.into();

    assert_eq!(json_mountain.id, 2);
    assert_eq!(json_mountain.name, "周辺の山");
    assert_eq!(json_mountain.name_kana, "しゅうへんのやま");
    assert_eq!(json_mountain.elevation, 2500);
    assert_eq!(json_mountain.location.latitude, 35_300_000);
    assert_eq!(json_mountain.location.longitude, 138_800_000);
}

#[test]
fn test_surrounding_mountain_find_exception_server_error() {
    let exception = SurroundingMountainFindException::new_with_error_code(ErrorCode::ServerError);
    assert_eq!(exception.error_code, ErrorCode::ServerError);
    assert!(!exception.messages.is_empty());
}

#[test]
fn test_surrounding_mountain_find_exception_invalid_params() {
    let messages = vec!["Invalid distance parameter".to_string()];
    let exception =
        SurroundingMountainFindException::new(ErrorCode::InvalidQueryParam, messages.clone());
    assert_eq!(exception.error_code, ErrorCode::InvalidQueryParam);
    assert_eq!(exception.messages, messages);
}

#[test]
fn test_json_surrounding_mountain_response_structure() {
    let searched_mountain = create_test_searched_surrounding_mountain();
    let mountains = vec![searched_mountain];

    let json_mountains: Vec<JsonSurroundingMountain> =
        mountains.into_iter().map(|m| m.into()).collect();
    assert_eq!(json_mountains.len(), 1);
    assert_eq!(json_mountains[0].name, "周辺の山");
    assert_eq!(json_mountains[0].elevation, 2500);
}

#[test]
fn test_surrounding_mountain_error_handling() {
    let server_error =
        SurroundingMountainFindException::new_with_error_code(ErrorCode::ServerError);
    assert_eq!(server_error.error_code, ErrorCode::ServerError);

    let param_messages = vec!["Distance out of range".to_string()];
    let param_error = SurroundingMountainFindException::new(
        ErrorCode::InvalidQueryParam,
        param_messages.clone(),
    );
    assert_eq!(param_error.error_code, ErrorCode::InvalidQueryParam);
    assert_eq!(param_error.messages, param_messages);
}

#[test]
fn test_surrounding_mountain_location_json_conversion() {
    let location = SearchedSurroundingMountainLocation {
        latitude: 35_678_000,
        longitude: 139_765_000,
        gsi_url: "https://example.com".to_string(),
    };

    assert_eq!(location.latitude, 35_678_000);
    assert_eq!(location.longitude, 139_765_000);
    assert_eq!(location.gsi_url, "https://example.com");
}

#[test]
fn test_surrounding_mountain_search_query_param_structure() {
    let query_param = SurroundingMountainSearchQueryParam {
        distance: Some("10000".to_string()),
    };
    let search_query: SurroundingMountainSearchQuery = query_param.into();
    assert_eq!(search_query.distance.as_deref(), Some("10000"));
}

#[test]
fn test_surrounding_mountain_error_messages() {
    let exception = SurroundingMountainFindException::new_with_error_code(ErrorCode::ServerError);
    assert!(!exception.messages.is_empty());
    assert!(exception.messages[0].contains("周辺の山岳情報を検索中にエラーが発生しました"));
}

#[test]
fn test_surrounding_mountain_multiple_results() {
    let mountain1 = create_test_searched_surrounding_mountain();
    let mut mountain2 = create_test_searched_surrounding_mountain();
    mountain2.id = 3;
    mountain2.name = "別の周辺の山".to_string();

    let mountains = vec![mountain1, mountain2];
    let json_mountains: Vec<JsonSurroundingMountain> =
        mountains.into_iter().map(|m| m.into()).collect();

    assert_eq!(json_mountains.len(), 2);
    assert_eq!(json_mountains[0].id, 2);
    assert_eq!(json_mountains[1].id, 3);
    assert_eq!(json_mountains[1].name, "別の周辺の山");
}
