use wally::catalog::{
    base_url, count_from_response, count_url, popular_url, wallpapers_from_response, Wallpaper,
    WallpaperCountResponse, WallpapersResponse, BASE_URL, FALLBACK_MESSAGE,
};
use wally::decimal::IntErrorKind;
use wally::error::Error;

fn wallpaper(id: &str) -> Wallpaper {
    Wallpaper {
        id: id.to_string(),
        width: "1920".to_string(),
        height: "1080".to_string(),
        url_image: format!("https://images.example.com/{}.jpg", id),
    }
}

fn counted(success: bool, error: Option<&str>, count: Option<&str>) -> WallpaperCountResponse {
    WallpaperCountResponse {
        success,
        error: error.map(|text| text.to_string()),
        count: count.map(|text| text.to_string()),
    }
}

#[test]
fn endpoint_and_fallback_are_fixed() {
    assert_eq!(BASE_URL, "https://wall.alphacoders.com/api2.0/get.php");
    assert_eq!(FALLBACK_MESSAGE, "API Error");
}

#[test]
fn base_url_holds_key_and_method() {
    assert_eq!(
        base_url("k3y", "popular"),
        "https://wall.alphacoders.com/api2.0/get.php?auth=k3y&method=popular"
    );
    assert_eq!(base_url("", ""), "https://wall.alphacoders.com/api2.0/get.php?auth=&method=");
}

#[test]
fn base_url_puts_the_key_in_as_it_is() {
    assert_eq!(
        base_url("a b&c", "m/1"),
        "https://wall.alphacoders.com/api2.0/get.php?auth=a b&c&method=m/1"
    );
}

#[test]
fn count_url_asks_for_the_count_of_a_size() {
    assert_eq!(
        count_url("k3y", 1920, 1080),
        "https://wall.alphacoders.com/api2.0/get.php?auth=k3y&method=popular_count&width=1920&height=1080"
    );
    assert_eq!(
        count_url("k", 0, u32::MAX),
        "https://wall.alphacoders.com/api2.0/get.php?auth=k&method=popular_count&width=0&height=4294967295"
    );
}

#[test]
fn popular_url_asks_for_one_page_of_a_size() {
    assert_eq!(
        popular_url("k3y", 1920, 1080, 2),
        "https://wall.alphacoders.com/api2.0/get.php?auth=k3y&method=popular&width=1920&height=1080&page=2"
    );
    assert_eq!(
        popular_url("k3y", 2560, 1440, 0),
        "https://wall.alphacoders.com/api2.0/get.php?auth=k3y&method=popular&width=2560&height=1440&page=0"
    );
}

#[test]
fn count_of_a_success_is_the_number_sent() {
    assert!(matches!(count_from_response(counted(true, None, Some("45"))), Ok(45)));
    assert!(matches!(count_from_response(counted(true, None, Some("0"))), Ok(0)));
    assert!(matches!(
        count_from_response(counted(true, None, Some("4294967295"))),
        Ok(u32::MAX)
    ));
    assert!(matches!(count_from_response(counted(true, None, Some("0045"))), Ok(45)));
}

#[test]
fn count_of_a_success_ignores_a_message() {
    assert!(matches!(count_from_response(counted(true, Some("ignored"), Some("12"))), Ok(12)));
}

#[test]
fn count_that_is_no_number_is_a_parse_error() {
    assert!(matches!(
        count_from_response(counted(true, None, Some("many"))),
        Err(Error::IntParse(IntErrorKind::InvalidDigit))
    ));
    assert!(matches!(
        count_from_response(counted(true, None, Some(""))),
        Err(Error::IntParse(IntErrorKind::Empty))
    ));
    assert!(matches!(
        count_from_response(counted(true, None, Some("4294967296"))),
        Err(Error::IntParse(IntErrorKind::PosOverflow))
    ));
    assert!(matches!(
        count_from_response(counted(true, None, Some("-3"))),
        Err(Error::IntParse(IntErrorKind::InvalidDigit))
    ));
}

#[test]
fn count_left_out_of_a_success_is_missing() {
    assert!(matches!(
        count_from_response(counted(true, None, None)),
        Err(Error::MissingPayload)
    ));
}

#[test]
fn failed_count_carries_the_message() {
    match count_from_response(counted(false, Some("Invalid API key"), None)) {
        Err(Error::WallpaperError(message)) => assert_eq!(message, "Invalid API key"),
        other => panic!("{:?}", other),
    }
}

#[test]
fn failed_count_without_message_carries_the_fallback() {
    match count_from_response(counted(false, None, None)) {
        Err(Error::WallpaperError(message)) => assert_eq!(message, "API Error"),
        other => panic!("{:?}", other),
    }
}

#[test]
fn failed_count_ignores_a_count() {
    match count_from_response(counted(false, Some("quota"), Some("45"))) {
        Err(Error::WallpaperError(message)) => assert_eq!(message, "quota"),
        other => panic!("{:?}", other),
    }
}

#[test]
fn list_of_a_success_is_the_list_sent() {
    let response = WallpapersResponse {
        success: true,
        error: None,
        wallpapers: Some(vec![wallpaper("a"), wallpaper("b"), wallpaper("c")]),
    };
    let list = wallpapers_from_response(response).unwrap();
    assert_eq!(list.len(), 3);
    assert_eq!(list[0].id, "a");
    assert_eq!(list[1].id, "b");
    assert_eq!(list[2].id, "c");
    assert_eq!(list[2].width, "1920");
    assert_eq!(list[2].height, "1080");
    assert_eq!(list[2].url_image, "https://images.example.com/c.jpg");
}

#[test]
fn empty_list_of_a_success_is_empty() {
    let response = WallpapersResponse { success: true, error: None, wallpapers: Some(vec![]) };
    assert_eq!(wallpapers_from_response(response).unwrap().len(), 0);
}

#[test]
fn list_left_out_of_a_success_is_missing() {
    let response = WallpapersResponse { success: true, error: None, wallpapers: None };
    assert!(matches!(wallpapers_from_response(response), Err(Error::MissingPayload)));
}

#[test]
fn failed_list_carries_the_message() {
    let response = WallpapersResponse {
        success: false,
        error: Some("No results".to_string()),
        wallpapers: Some(vec![wallpaper("a")]),
    };
    match wallpapers_from_response(response) {
        Err(Error::WallpaperError(message)) => assert_eq!(message, "No results"),
        other => panic!("{:?}", other),
    }
}

#[test]
fn failed_list_without_message_carries_the_fallback() {
    let response = WallpapersResponse { success: false, error: None, wallpapers: None };
    match wallpapers_from_response(response) {
        Err(Error::WallpaperError(message)) => assert_eq!(message, "API Error"),
        other => panic!("{:?}", other),
    }
}
