use mountix::model::{ErrorCode, Id};
use mountix::mountain::{
    Mountain, MountainBoxCoordinates, MountainData, MountainLocation, MountainPrefecture,
    MountainSortCondition, MountainTag,
};
use mountix::surrounding::{
    SurroundingMountainFindException, SurroundingMountainSearchCondition,
    SurroundingMountainSearchDistance,
};

fn create_test_mountain() -> Mountain {
    let id = Id::new(1);
    let location = MountainLocation::new(35_360_556, 138_727_778, "https://maps.gsi.go.jp".to_string());
    let data = MountainData {
        name: "富士山".to_string(),
        name_kana: "ふじさん".to_string(),
        area: "関東地方".to_string(),
        prefectures: vec!["静岡県".to_string(), "山梨県".to_string()],
        elevation: 3776,
        location,
        tags: vec!["百名山".to_string()],
    };
    Mountain::new(id, data)
}

#[test]
fn test_mountain_prefecture_try_from_valid_id() {
    let result = MountainPrefecture::try_from("1".to_string());
    assert!(result.is_ok());
    let prefecture = result.unwrap();
    assert_eq!(prefecture.id, 1);
    assert_eq!(prefecture.name, "北海道");
}

#[test]
fn test_mountain_prefecture_try_from_valid_tokyo() {
    let result = MountainPrefecture::try_from("13".to_string());
    assert!(result.is_ok());
    let prefecture = result.unwrap();
    assert_eq!(prefecture.id, 13);
    assert_eq!(prefecture.name, "東京都");
}

#[test]
fn test_mountain_prefecture_try_from_invalid_id() {
    let result = MountainPrefecture::try_from("48".to_string());
    assert!(result.is_err());
    assert_eq!(result.unwrap_err().to_string(), "Invalid prefecture value.");
}

#[test]
fn test_mountain_prefecture_try_from_invalid_string() {
    let result = MountainPrefecture::try_from("invalid".to_string());
    assert!(result.is_err());
    assert_eq!(result.unwrap_err().to_string(), "Invalid prefecture value.");
}

#[test]
fn test_mountain_prefecture_try_from_zero() {
    let result = MountainPrefecture::try_from("0".to_string());
    assert!(result.is_err());
    assert_eq!(result.unwrap_err().to_string(), "Invalid prefecture value.");
}

#[test]
fn test_prefecture_table_has_no_duplicate_codes_or_names() {
    let mut codes: Vec<u64> = Vec::new();
    let mut names: Vec<String> = Vec::new();
    for code in 1..=47u64 {
        let prefecture = MountainPrefecture::try_from(code.to_string()).unwrap();
        assert!(!codes.contains(&prefecture.id));
        assert!(!names.contains(&prefecture.name));
        codes.push(prefecture.id);
        names.push(prefecture.name);
    }
    assert_eq!(codes.len(), 47);
    assert_eq!(names.len(), 47);
}

#[test]
fn test_tag_table_has_no_duplicate_codes_or_names() {
    let mut codes: Vec<u64> = Vec::new();
    let mut names: Vec<String> = Vec::new();
    for code in 1..=2u64 {
        let tag = MountainTag::try_from(code.to_string()).unwrap();
        assert!(!codes.contains(&tag.id));
        assert!(!names.contains(&tag.name));
        codes.push(tag.id);
        names.push(tag.name);
    }
    assert_eq!(codes.len(), 2);
    assert_eq!(names.len(), 2);
}

#[test]
fn test_mountain_tag_try_from_valid_hyakumeizan() {
    let result = MountainTag::try_from("1".to_string());
    assert!(result.is_ok());
    let tag = result.unwrap();
    assert_eq!(tag.id, 1);
    assert_eq!(tag.name, "百名山");
}

#[test]
fn test_mountain_tag_try_from_valid_nihyakumeizan() {
    let result = MountainTag::try_from("2".to_string());
    assert!(result.is_ok());
    let tag = result.unwrap();
    assert_eq!(tag.id, 2);
    assert_eq!(tag.name, "二百名山");
}

#[test]
fn test_mountain_tag_try_from_invalid_id() {
    let result = MountainTag::try_from("3".to_string());
    assert!(result.is_err());
    assert_eq!(result.unwrap_err().to_string(), "Invalid tag value.");
}

#[test]
fn test_mountain_tag_try_from_invalid_string() {
    let result = MountainTag::try_from("invalid".to_string());
    assert!(result.is_err());
    assert_eq!(result.unwrap_err().to_string(), "Invalid tag value.");
}

#[test]
fn test_mountain_tag_try_from_zero() {
    let result = MountainTag::try_from("0".to_string());
    assert!(result.is_err());
    assert_eq!(result.unwrap_err().to_string(), "Invalid tag value.");
}

#[test]
fn test_mountain_sort_condition_try_from_id_asc() {
    let result = MountainSortCondition::try_from("id.asc".to_string());
    assert!(result.is_ok());
    let sort = result.unwrap();
    assert_eq!(sort.key.to_key(), "_id");
    assert_eq!(sort.order.to_value(), 1);
}

#[test]
fn test_mountain_sort_condition_try_from_id_desc() {
    let result = MountainSortCondition::try_from("id.desc".to_string());
    assert!(result.is_ok());
    let sort = result.unwrap();
    assert_eq!(sort.key.to_key(), "_id");
    assert_eq!(sort.order.to_value(), -1);
}

#[test]
fn test_mountain_sort_condition_try_from_elevation_asc() {
    let result = MountainSortCondition::try_from("elevation.asc".to_string());
    assert!(result.is_ok());
    let sort = result.unwrap();
    assert_eq!(sort.key.to_key(), "elevation");
    assert_eq!(sort.order.to_value(), 1);
}

#[test]
fn test_mountain_sort_condition_try_from_name_desc() {
    let result = MountainSortCondition::try_from("name.desc".to_string());
    assert!(result.is_ok());
    let sort = result.unwrap();
    assert_eq!(sort.key.to_key(), "name_kana");
    assert_eq!(sort.order.to_value(), -1);
}

#[test]
fn test_mountain_sort_condition_try_from_invalid() {
    let result = MountainSortCondition::try_from("invalid".to_string());
    assert!(result.is_err());
}

#[test]
fn test_mountain_sort_condition_default() {
    let sort = MountainSortCondition::default();
    assert_eq!(sort.key.to_key(), "_id");
    assert_eq!(sort.order.to_value(), 1);
}

#[test]
fn test_mountain_sort_condition_round_trip_tokens() {
    for token in ["id.asc", "id.desc", "elevation.asc", "elevation.desc", "name.asc", "name.desc"]
    {
        let sort = MountainSortCondition::try_from(token.to_string()).unwrap();
        assert_eq!(sort.to_token(), token);
    }
}

#[test]
fn test_mountain_box_coordinates_try_from_valid() {
    let box_param = "(139.0,35.0),(140.0,36.0)".to_string();
    let result = MountainBoxCoordinates::try_from(box_param);
    assert!(result.is_ok());
    let coords = result.unwrap();
    assert_eq!(coords.bottom_left, (139_000_000, 35_000_000));
    assert_eq!(coords.upper_right, (140_000_000, 36_000_000));
}

#[test]
fn test_mountain_box_coordinates_try_from_negative_coords() {
    let box_param = "(-139.5,-35.5),(-138.5,-34.5)".to_string();
    let result = MountainBoxCoordinates::try_from(box_param);
    assert!(result.is_ok());
    let coords = result.unwrap();
    assert_eq!(coords.bottom_left, (-139_500_000, -35_500_000));
    assert_eq!(coords.upper_right, (-138_500_000, -34_500_000));
}

#[test]
fn test_mountain_box_coordinates_try_from_boundary_longitude() {
    let box_param = "(-180.0,35.0),(180.0,36.0)".to_string();
    let result = MountainBoxCoordinates::try_from(box_param);
    assert!(result.is_ok());
    let coords = result.unwrap();
    assert_eq!(coords.bottom_left, (-180_000_000, 35_000_000));
    assert_eq!(coords.upper_right, (180_000_000, 36_000_000));
}

#[test]
fn test_mountain_box_coordinates_try_from_boundary_latitude() {
    let box_param = "(139.0,-90.0),(140.0,90.0)".to_string();
    let result = MountainBoxCoordinates::try_from(box_param);
    assert!(result.is_ok());
    let coords = result.unwrap();
    assert_eq!(coords.bottom_left, (139_000_000, -90_000_000));
    assert_eq!(coords.upper_right, (140_000_000, 90_000_000));
}

#[test]
fn test_mountain_box_coordinates_try_from_invalid_longitude() {
    let box_param = "(181.0,35.0),(140.0,36.0)".to_string();
    let result = MountainBoxCoordinates::try_from(box_param);
    assert!(result.is_err());
    assert_eq!(result.unwrap_err().to_string(), "Invalid bottom left longitude.");
}

#[test]
fn test_mountain_box_coordinates_try_from_invalid_latitude() {
    let box_param = "(139.0,91.0),(140.0,36.0)".to_string();
    let result = MountainBoxCoordinates::try_from(box_param);
    assert!(result.is_err());
    assert_eq!(result.unwrap_err().to_string(), "Invalid bottom left latitude.");
}

#[test]
fn test_mountain_box_coordinates_try_from_invalid_format() {
    let box_param = "invalid_format".to_string();
    let result = MountainBoxCoordinates::try_from(box_param);
    assert!(result.is_err());
    assert_eq!(result.unwrap_err().to_string(), "Invalid box parameter.");
}

#[test]
fn test_mountain_box_coordinates_try_from_missing_coordinates() {
    let box_param = "(139.0,35.0)".to_string();
    let result = MountainBoxCoordinates::try_from(box_param);
    assert!(result.is_err());
    assert_eq!(result.unwrap_err().to_string(), "Invalid box parameter.");
}

#[test]
fn test_mountain_box_coordinates_boundary_acceptance() {
    assert!(MountainBoxCoordinates::try_from("(-180.0,-90.0),(180.0,90.0)".to_string()).is_ok());
    assert!(MountainBoxCoordinates::try_from("(181.0,0.0),(0.0,0.0)".to_string()).is_err());
    assert!(MountainBoxCoordinates::try_from("(0.0,91.0),(0.0,0.0)".to_string()).is_err());
}

#[test]
fn test_mountain_box_coordinates_fraction_over_boundary() {
    let result = MountainBoxCoordinates::try_from("(180.0000001,0.0),(0.0,0.0)".to_string());
    assert!(result.is_err());
    assert_eq!(result.unwrap_err().to_string(), "Invalid bottom left longitude.");
}

#[test]
fn test_mountain_box_coordinates_pattern_within_text() {
    let result = MountainBoxCoordinates::try_from("box=(1.5,2.25),(3.0,4.0) and more".to_string());
    assert!(result.is_ok());
    let coords = result.unwrap();
    assert_eq!(coords.bottom_left, (1_500_000, 2_250_000));
    assert_eq!(coords.upper_right, (3_000_000, 4_000_000));
}

#[test]
fn test_mountain_box_coordinates_upper_right_errors() {
    let result = MountainBoxCoordinates::try_from("(0.0,0.0),(181.0,0.0)".to_string());
    assert_eq!(result.unwrap_err().to_string(), "Invalid upper right longitude.");

    let result = MountainBoxCoordinates::try_from("(0.0,0.0),(0.0,91.0)".to_string());
    assert_eq!(result.unwrap_err().to_string(), "Invalid upper right latitude.");
}

#[test]
fn test_prefecture_accepts_plus_sign_like_std_parse() {
    let prefecture = MountainPrefecture::try_from("+13".to_string()).unwrap();
    assert_eq!(prefecture.id, 13);
}

#[test]
fn test_mountain_box_coordinates_integer_tokens() {
    let coords = MountainBoxCoordinates::try_from("(1,2),(3,4)".to_string()).unwrap();
    assert_eq!(coords.bottom_left, (1_000_000, 2_000_000));
    assert_eq!(coords.upper_right, (3_000_000, 4_000_000));
}

#[test]
fn test_mountain_box_coordinates_skips_failed_starts() {
    let coords = MountainBoxCoordinates::try_from("((1,2),(3,4))".to_string()).unwrap();
    assert_eq!(coords.bottom_left, (1_000_000, 2_000_000));
    assert_eq!(coords.upper_right, (3_000_000, 4_000_000));
}

#[test]
fn test_mountain_box_coordinates_exponent_is_not_a_number() {
    let result = MountainBoxCoordinates::try_from("(1.5e2,35.0),(140.0,36.0)".to_string());
    assert_eq!(result.unwrap_err().to_string(), "Invalid box parameter.");
}

#[test]
fn test_id_try_from_valid_and_invalid() {
    assert_eq!(Id::try_from("42".to_string()).unwrap().value, 42);
    assert_eq!(Id::try_from("-7".to_string()).unwrap().value, -7);
    assert_eq!(Id::try_from("invalid".to_string()).unwrap_err(), ErrorCode::InvalidId);
    assert_eq!(Id::try_from("2147483648".to_string()).unwrap_err(), ErrorCode::InvalidId);
}

#[test]
fn test_surrounding_mountain_search_distance_default() {
    let distance = SurroundingMountainSearchDistance::default();
    assert_eq!(distance.0, 5000);
}

#[test]
fn test_surrounding_mountain_search_condition_new() {
    let mountain = create_test_mountain();
    let distance = SurroundingMountainSearchDistance::new(15000);
    let condition = SurroundingMountainSearchCondition::new(mountain, distance);

    assert_eq!(condition.mountain.id.value, 1);
    assert_eq!(condition.distance.0, 15000);
}

#[test]
fn test_surrounding_mountain_find_exception_new_with_multiple_messages() {
    let messages = vec!["First error".to_string(), "Second error".to_string()];
    let exception =
        SurroundingMountainFindException::new(ErrorCode::InvalidQueryParam, messages.clone());

    assert_eq!(exception.error_code, ErrorCode::InvalidQueryParam);
    assert_eq!(exception.messages.len(), 2);
    assert_eq!(exception.messages[0], "First error");
    assert_eq!(exception.messages[1], "Second error");
}
