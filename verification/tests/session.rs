//! Session-name resolution: the fallback order of the session sources.

use fetchit::facts::get_session_name;

#[test]
fn xdg_current() {
    // Only the current-desktop variable is set; the two earlier sources are
    // unavailable, so the chain falls through to it.
    let wm_name = get_session_name(None, None, Some(String::from("Qtile")), None);
    assert_eq!(wm_name, "Qtile");
}

#[test]
fn xdg_session() {
    // Only the session-desktop variable is set; it is the second source and
    // wins over the later ones.
    let wm_name = get_session_name(None, Some(String::from("Testing")), None, None);
    assert_eq!(wm_name, "Testing");
}

#[test]
fn desktop_session_wins_over_later_sources() {
    let wm_name = get_session_name(
        Some(String::from("plasma")),
        Some(String::from("gnome")),
        Some(String::from("Qtile")),
        None,
    );
    assert_eq!(wm_name, "plasma");
}

#[test]
fn empty_variables_fall_through() {
    // An empty value is a failure, not a session name.
    let wm_name = get_session_name(
        Some(String::new()),
        Some(String::new()),
        Some(String::from("KDE")),
        None,
    );
    assert_eq!(wm_name, "KDE");
}

#[test]
fn wm_property_is_last_resort() {
    let xprop = String::from("_NET_WM_NAME(UTF8_STRING) = \"LG3D\"\n");
    let wm_name = get_session_name(None, None, None, Some(xprop));
    assert_eq!(wm_name, "LG3D");
}

#[test]
fn wm_property_without_name_line_fails() {
    let xprop = String::from("WM_CLASS(STRING) = \"root\"\n");
    let wm_name = get_session_name(None, None, None, Some(xprop));
    assert_eq!(wm_name, "Unknown");
}

#[test]
fn session_unknown_when_all_sources_fail() {
    let wm_name = get_session_name(None, None, None, None);
    assert_eq!(wm_name, "Unknown");
}
