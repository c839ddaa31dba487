use levo::colors::{color_from_name, screen_color_from_name, PortalColor, ScreenColor};

#[test]
fn portal_color_names() {
    assert_eq!(color_from_name("white"), PortalColor::White);
    assert_eq!(color_from_name("black"), PortalColor::Black);
    assert_eq!(color_from_name("red"), PortalColor::Red);
    assert_eq!(color_from_name("blue"), PortalColor::Blue);
    assert_eq!(color_from_name("royal_purple"), PortalColor::RoyalPurple);
    assert_eq!(color_from_name("RED"), PortalColor::Black);
    assert_eq!(color_from_name(""), PortalColor::Black);
}

#[test]
fn screen_color_names() {
    assert_eq!(screen_color_from_name("RED"), ScreenColor::Red);
    assert_eq!(screen_color_from_name("BLUE"), ScreenColor::Blue);
    assert_eq!(screen_color_from_name("GREEN"), ScreenColor::Green);
    assert_eq!(screen_color_from_name("YELLOW"), ScreenColor::Yellow);
    assert_eq!(screen_color_from_name("DARKGRAY"), ScreenColor::DarkGray);
    assert_eq!(screen_color_from_name("LIGHTGRAY"), ScreenColor::LightGray);
    assert_eq!(screen_color_from_name("red"), ScreenColor::White);
    assert_eq!(screen_color_from_name("LIGHTGRAYS"), ScreenColor::White);
}
