use pcmanx_rs::notifier::Notifier;

/// Notifier::new creates without panic.
#[test]
fn notifier_new_does_not_panic() {
    let n = pcmanx_rs::notifier::Notifier::new(5, None);
    let _ = n;
}

#[test]
fn notifier_with_icon_does_not_panic() {
    let n = pcmanx_rs::notifier::Notifier::new(3, Some("/usr/share/icons/hicolor/48x48/apps/pcmanx.png".to_string()));
    let _ = n;
}

#[test]
fn notifier_keeps_settings() {
    let n = Notifier::new(3, Some("icon.png".to_string()));
    assert_eq!(n.timeout_secs(), 3);
    assert_eq!(n.timeout_millis(), 3000);
    assert_eq!(n.icon_path().map(|s| s.as_str()), Some("icon.png"));
    let m = Notifier::new(6, None);
    assert!(m.icon_path().is_none());
}
