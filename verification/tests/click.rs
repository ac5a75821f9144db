use sysenix::ai::Point;
use sysenix::click::{check_click, ClickError};

#[test]
fn clicks_only_inside_the_screenshot() {
    assert!(check_click(&Point { x: 0, y: 0 }, 100, 50).is_ok());
    assert!(check_click(&Point { x: 99, y: 49 }, 100, 50).is_ok());
    assert!(matches!(check_click(&Point { x: 100, y: 10 }, 100, 50), Err(ClickError::Outside)));
    assert!(matches!(check_click(&Point { x: 10, y: 50 }, 100, 50), Err(ClickError::Outside)));
    assert!(matches!(check_click(&Point { x: 0, y: 0 }, 0, 0), Err(ClickError::Outside)));
}

#[test]
fn click_errors_have_their_messages() {
    assert_eq!(ClickError::Outside.message(), "Click coordinates are outside the screenshot.");
    assert_eq!(ClickError::NoEvents.message(), "Could not create mouse events.");
    assert_eq!(
        ClickError::DisplayChanged.message(),
        "Display layout changed; take another screenshot before clicking."
    );
}
