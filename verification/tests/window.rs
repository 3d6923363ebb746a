use lifecycle_core::window::{toggle_label, ToggleLabel, WindowVisibility};

#[test]
fn label_is_hide_only_for_a_visible_window() {
    assert_eq!(toggle_label(WindowVisibility::Visible), ToggleLabel::Hide);
    assert_eq!(toggle_label(WindowVisibility::Created), ToggleLabel::Show);
    assert_eq!(toggle_label(WindowVisibility::Hidden), ToggleLabel::Show);
    assert_eq!(toggle_label(WindowVisibility::Closed), ToggleLabel::Show);
}

#[test]
fn label_texts() {
    assert_eq!(ToggleLabel::Hide.text(), "Hide");
    assert_eq!(ToggleLabel::Show.text(), "Show");
}
