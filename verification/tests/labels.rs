use mouse_recorder::model::{ClickEdgeMode, ClickTarget, SearchAnchor};

#[test]
fn edge_mode_labels() {
    assert_eq!(ClickEdgeMode::Auto.label(), "single");
    assert_eq!(ClickEdgeMode::Down.label(), "down");
    assert_eq!(ClickEdgeMode::Up.label(), "up");
    assert_eq!(ClickEdgeMode::Double.label(), "double");
}

#[test]
fn click_target_labels() {
    assert_eq!(ClickTarget::Left.label(), "Left click");
    assert_eq!(ClickTarget::Right.label(), "Right click");
    assert_eq!(ClickTarget::Middle.label(), "Middle click");
}

#[test]
fn search_anchor_labels() {
    assert_eq!(SearchAnchor::RecordedClick.label(), "Recorded");
    assert_eq!(SearchAnchor::CurrentMouse.label(), "Mouse");
    assert_eq!(SearchAnchor::LastFound.label(), "Last found");
}
