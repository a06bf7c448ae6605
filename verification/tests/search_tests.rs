use mountix::command::{Filter, FilterClause, MountainFindCommand};
use mountix::flow::{
    conclude_find, conclude_find_box, conclude_get, conclude_surrounding_find,
    surrounding_id_outcome, surrounding_source_outcome, StorageError,
};
use mountix::model::{invalid_param_error, ErrorCode, Id};
use mountix::mountain::{
    Mountain, MountainBoxSearchCondition, MountainData, MountainLocation, MountainSearchCondition,
};
use mountix::search::{
    MountainBoxSearchQuery, MountainSearchQuery, SurroundingMountainSearchQuery,
};
use mountix::surrounding::{
    DistanceConfig, SurroundingMountain, SurroundingMountainData, SurroundingMountainLocation,
    SurroundingMountainSearchDistance,
};

fn create_test_mountain() -> Mountain {
    let id = Id::new(1);
    let location = MountainLocation::new(35_360_556, 138_727_778, "https://maps.gsi.go.jp".to_string());
    let data = MountainData {
        name: "富士山".to_string(),
        name_kana: "ふじさん".to_string(),
        area: "関東地方".to_string(),
        prefectures: vec!["静岡県".to_string(), "山梨県".to_string()],
        elevation: 3776,
        location,
        tags: vec!["百名山".to_string()],
    };
    Mountain::new(id, data)
}

fn create_test_surrounding_mountain() -> SurroundingMountain {
    let id = Id::new(2);
    let location = SurroundingMountainLocation::new(
        35_300_000,
        138_800_000,
        "https://maps.gsi.go.jp/surrounding".to_string(),
    );
    let data = SurroundingMountainData {
        name: "周辺の山".to_string(),
        name_kana: "しゅうへんのやま".to_string(),
        area: "関東地方".to_string(),
        prefectures: vec!["静岡県".to_string()],
        elevation: 2500,
        location,
        tags: vec!["二百名山".to_string()],
    };
    SurroundingMountain::new(id, data)
}

fn empty_search_query() -> MountainSearchQuery {
    MountainSearchQuery {
        name: None,
        prefecture: None,
        tag: None,
        offset: None,
        limit: None,
        sort: None,
    }
}

#[test]
fn test_search_condition_builder_defaults() {
    let condition = MountainSearchCondition::try_from(empty_search_query()).unwrap();
    assert!(condition.name.is_none());
    assert!(condition.prefecture.is_none());
    assert!(condition.tag.is_none());
    assert_eq!(condition.skip, 0);
    assert_eq!(condition.limit, None);
    assert_eq!(condition.sort.key.to_key(), "_id");
    assert_eq!(condition.sort.order.to_value(), 1);
}

#[test]
fn test_search_condition_builder_all_fields() {
    let query = MountainSearchQuery {
        name: Some("富士".to_string()),
        prefecture: Some("19".to_string()),
        tag: Some("2".to_string()),
        offset: Some("10".to_string()),
        limit: Some("5".to_string()),
        sort: Some("elevation.desc".to_string()),
    };
    let condition = MountainSearchCondition::try_from(query).unwrap();
    assert_eq!(condition.name.as_deref(), Some("富士"));
    assert_eq!(condition.prefecture.as_ref().unwrap().name, "山梨県");
    assert_eq!(condition.tag.as_ref().unwrap().name, "二百名山");
    assert_eq!(condition.skip, 10);
    assert_eq!(condition.limit, Some(5));
    assert_eq!(condition.sort.key.to_key(), "elevation");
    assert_eq!(condition.sort.order.to_value(), -1);
}

#[test]
fn test_search_condition_builder_aggregates_all_errors() {
    let query = MountainSearchQuery {
        name: None,
        prefecture: Some("invalid".to_string()),
        tag: Some("invalid".to_string()),
        offset: None,
        limit: None,
        sort: Some("invalid".to_string()),
    };
    let errors = MountainSearchCondition::try_from(query).unwrap_err();
    assert_eq!(errors.len(), 3);
    assert_eq!(errors[0], invalid_param_error("prefecture (都道府県ID)"));
    assert_eq!(errors[1], invalid_param_error("tag (タグID)"));
    assert_eq!(errors[2], invalid_param_error("sort"));
}

#[test]
fn test_search_condition_builder_negative_limit() {
    let query = MountainSearchQuery {
        name: None,
        prefecture: None,
        tag: None,
        offset: None,
        limit: Some("-1".to_string()),
        sort: None,
    };
    let errors = MountainSearchCondition::try_from(query).unwrap_err();
    assert_eq!(errors, vec![invalid_param_error("limit")]);
}

#[test]
fn test_search_condition_builder_invalid_offset() {
    let query = MountainSearchQuery {
        name: None,
        prefecture: None,
        tag: None,
        offset: Some("ten".to_string()),
        limit: None,
        sort: None,
    };
    let errors = MountainSearchCondition::try_from(query).unwrap_err();
    assert_eq!(errors, vec![invalid_param_error("offset")]);
}

#[test]
fn test_filtered_list_compiles_to_region_clause_only() {
    let query = MountainSearchQuery {
        name: None,
        prefecture: Some("19".to_string()),
        tag: None,
        offset: None,
        limit: None,
        sort: None,
    };
    let condition = MountainSearchCondition::try_from(query).unwrap();
    assert_eq!(condition.skip, 0);
    assert_eq!(condition.limit, None);

    let command = MountainFindCommand::try_from(condition).unwrap();
    match &command.filter {
        Filter::And(clauses) => {
            assert_eq!(clauses.len(), 1);
            match &clauses[0] {
                FilterClause::PrefectureContains(name) => assert_eq!(name, "山梨県"),
                _ => panic!("expected a region-membership clause"),
            }
        },
        _ => panic!("expected a conjunction filter"),
    }
    assert_eq!(command.options.skip, Some(0));
    assert_eq!(command.options.limit, None);
}

#[test]
fn test_box_search_builder_collects_errors() {
    let query = MountainBoxSearchQuery {
        box_coordinates: "invalid_format".to_string(),
        name: None,
        tag: Some("9".to_string()),
        sort: Some("height.asc".to_string()),
    };
    let errors = MountainBoxSearchCondition::try_from(query).unwrap_err();
    assert_eq!(
        errors,
        vec![
            invalid_param_error("box"),
            invalid_param_error("tag (タグID)"),
            invalid_param_error("sort"),
        ]
    );
}

#[test]
fn test_box_search_builder_valid() {
    let query = MountainBoxSearchQuery {
        box_coordinates: "(139.0,35.0),(140.0,36.0)".to_string(),
        name: Some("山".to_string()),
        tag: None,
        sort: None,
    };
    let condition = MountainBoxSearchCondition::try_from(query).unwrap();
    assert_eq!(condition.box_coordinates.bottom_left, (139_000_000, 35_000_000));
    assert_eq!(condition.box_coordinates.upper_right, (140_000_000, 36_000_000));
    assert_eq!(condition.name.as_deref(), Some("山"));
    assert!(condition.tag.is_none());
}

#[test]
fn test_distance_default_applies_when_absent() {
    let config = DistanceConfig::new(5000, 100000);
    let query = SurroundingMountainSearchQuery { distance: None };
    let distance = SurroundingMountainSearchDistance::try_from(query, &config).unwrap();
    assert_eq!(distance.0, 5000);
}

#[test]
fn test_distance_above_maximum_rejected() {
    let config = DistanceConfig::new(5000, 10000);
    let query = SurroundingMountainSearchQuery { distance: Some("50000".to_string()) };
    let errors =
        SurroundingMountainSearchDistance::try_from(query, &config).unwrap_err();
    assert_eq!(errors, vec![invalid_param_error("distance")]);
}

#[test]
fn test_distance_within_maximum_accepted() {
    let config = DistanceConfig::default();
    let query = SurroundingMountainSearchQuery { distance: Some("10000".to_string()) };
    let distance = SurroundingMountainSearchDistance::try_from(query, &config).unwrap();
    assert_eq!(distance.0, 10000);
}

#[test]
fn test_distance_not_numeric_rejected() {
    let config = DistanceConfig::default();
    let query = SurroundingMountainSearchQuery { distance: Some("far".to_string()) };
    let errors =
        SurroundingMountainSearchDistance::try_from(query, &config).unwrap_err();
    assert_eq!(errors, vec![invalid_param_error("distance")]);
}

#[test]
fn test_point_lookup_hit_returns_entity() {
    let fetched = Ok(Some(create_test_mountain()));
    let result = conclude_get(fetched);
    let mountain = result.unwrap().unwrap();
    assert_eq!(mountain.id, 1);
    assert_eq!(mountain.name, "富士山");
}

#[test]
fn test_point_lookup_miss_is_not_an_error() {
    let fetched: Result<Option<Mountain>, StorageError> = Ok(None);
    let result = conclude_get(fetched);
    assert!(result.is_ok());
    assert!(result.unwrap().is_none());
}

#[test]
fn test_point_lookup_storage_failure_is_server_error() {
    let fetched: Result<Option<Mountain>, StorageError> = Err(StorageError);
    let error = conclude_get(fetched).unwrap_err();
    assert_eq!(error.error_code, ErrorCode::ServerError);
}

#[test]
fn test_find_count_failure_degrades_to_zero_total() {
    let result = conclude_find(
        3,
        Some(7),
        Err(StorageError),
        Ok(vec![create_test_mountain()]),
    )
    .unwrap();
    assert_eq!(result.total, 0);
    assert_eq!(result.offset, 3);
    assert_eq!(result.limit, Some(7));
    assert_eq!(result.mountains.len(), 1);
    assert_eq!(result.mountains[0].name, "富士山");
}

#[test]
fn test_find_storage_failure_is_fatal() {
    let error = conclude_find(0, None, Ok(4), Err(StorageError)).unwrap_err();
    assert_eq!(error.error_code, ErrorCode::ServerError);
    assert_eq!(error.messages, vec!["山岳情報を検索中にエラーが発生しました。"]);
}

#[test]
fn test_find_success_carries_count_and_page() {
    let result = conclude_find(0, None, Ok(27), Ok(vec![create_test_mountain()])).unwrap();
    assert_eq!(result.total, 27);
    assert_eq!(result.offset, 0);
    assert_eq!(result.limit, None);
    assert_eq!(result.mountains.len(), 1);
}

#[test]
fn test_find_box_total_is_page_length() {
    let result = conclude_find_box(Ok(vec![create_test_mountain()])).unwrap();
    assert_eq!(result.total, 1);
    assert_eq!(result.mountains.len(), 1);
    assert_eq!(result.mountains[0].name, "富士山");
}

#[test]
fn test_find_box_storage_failure_is_fatal() {
    let error = conclude_find_box(Err(StorageError)).unwrap_err();
    assert_eq!(error.error_code, ErrorCode::ServerError);
}

#[test]
fn test_surrounding_source_must_exist() {
    let missing: Result<Option<Mountain>, StorageError> = Ok(None);
    let error = surrounding_source_outcome(missing).unwrap_err();
    assert_eq!(error.error_code, ErrorCode::NotFound);
    assert_eq!(error.messages, vec!["山岳情報が見つかりませんでした。"]);

    let found = surrounding_source_outcome(Ok(Some(create_test_mountain()))).unwrap();
    assert_eq!(found.id.value, 1);
}

#[test]
fn test_surrounding_source_storage_failure_is_server_error() {
    let failed: Result<Option<Mountain>, StorageError> = Err(StorageError);
    let error = surrounding_source_outcome(failed).unwrap_err();
    assert_eq!(error.error_code, ErrorCode::ServerError);
    assert_eq!(error.messages, vec!["周辺の山岳情報を検索中にエラーが発生しました。"]);
}

#[test]
fn test_surrounding_invalid_id_is_client_error() {
    let error = surrounding_id_outcome("invalid".to_string()).unwrap_err();
    assert_eq!(error.error_code, ErrorCode::InvalidId);
    assert_eq!(error.messages, vec!["山岳情報が見つかりませんでした。"]);

    let id = surrounding_id_outcome("1".to_string()).unwrap();
    assert_eq!(id.value, 1);
}

#[test]
fn test_surrounding_find_returns_mountains_and_distance() {
    let result =
        conclude_surrounding_find(10000, Ok(vec![create_test_surrounding_mountain()])).unwrap();
    assert_eq!(result.distance, 10000);
    assert_eq!(result.mountains.len(), 1);
    assert_eq!(result.mountains[0].name, "周辺の山");
}

#[test]
fn test_surrounding_find_empty_results() {
    let result = conclude_surrounding_find(1000, Ok(vec![])).unwrap();
    assert_eq!(result.distance, 1000);
    assert_eq!(result.mountains.len(), 0);
}

#[test]
fn test_surrounding_find_storage_failure() {
    let error = conclude_surrounding_find(5000, Err(StorageError)).unwrap_err();
    assert_eq!(error.error_code, ErrorCode::ServerError);
}
