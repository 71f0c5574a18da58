use yew_bulma::classes::{Color, Size};

#[test]
fn color_names() {
    assert_eq!(Color::White.to_str(), "white");
    assert_eq!(Color::Danger.to_str(), "danger");
    assert_eq!(Color::BlackBis.to_str(), "black-bis");
    assert_eq!(Color::GreyDarker.to_str(), "grey-darker");
    assert_eq!(Color::WhiteBis.to_str(), "white-bis");
}

#[test]
fn color_class_names() {
    assert_eq!(Color::Danger.text_class(), "has-text-danger");
    assert_eq!(Color::GreyLight.background_class(), "has-background-grey-light");
    assert_eq!(Color::Primary.class(), "is-primary");
}

#[test]
fn size_classes() {
    assert_eq!(Size::Small.to_class(), Some("is-small".to_string()));
    assert_eq!(Size::Normal.to_class(), None);
    assert_eq!(Size::Medium.to_class(), Some("is-medium".to_string()));
    assert_eq!(Size::Big.to_class(), Some("is-big".to_string()));
    assert_eq!(Size::default(), Size::Normal);
}

