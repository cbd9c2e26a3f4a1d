use guest_init::logging::Verbosity;

#[test]
fn debug_setting_is_verbose_whatever_its_case() {
    assert_eq!(Verbosity::from_setting(Some("debug")), Verbosity::Verbose);
    assert_eq!(Verbosity::from_setting(Some("DEBUG")), Verbosity::Verbose);
    assert_eq!(Verbosity::from_setting(Some("Debug")), Verbosity::Verbose);
    assert_eq!(Verbosity::from_setting(Some("dEbUg")), Verbosity::Verbose);
}

#[test]
fn any_other_setting_is_normal() {
    assert_eq!(Verbosity::from_setting(Some("info")), Verbosity::Normal);
    assert_eq!(Verbosity::from_setting(Some("trace")), Verbosity::Normal);
    assert_eq!(Verbosity::from_setting(Some("debug ")), Verbosity::Normal);
    assert_eq!(Verbosity::from_setting(Some("debugging")), Verbosity::Normal);
    assert_eq!(Verbosity::from_setting(Some("")), Verbosity::Normal);
}

#[test]
fn no_setting_is_normal() {
    assert_eq!(Verbosity::from_setting(None), Verbosity::Normal);
}

#[test]
fn lowered_setting_is_compared_as_it_is() {
    assert_eq!(Verbosity::from_lowered(&"debug".to_string()), Verbosity::Verbose);
    assert_eq!(Verbosity::from_lowered(&"DEBUG".to_string()), Verbosity::Normal);
    assert_eq!(Verbosity::from_lowered(&String::new()), Verbosity::Normal);
}
