use gpg_tui::key::KeyDetailLevel;
use gpg_tui::key::KeyType;
use gpg_tui::key::Validity;
use gpg_tui::mode::Mode;

#[test]
fn test_app_mode() {
    let mode = Mode::from_str("normal").unwrap();
    assert_eq!(Mode::Normal, mode);
    assert_eq!(String::from("-- normal --"), mode.display());
    let mode = Mode::from_str("visual").unwrap();
    assert_eq!(Mode::Visual, mode);
    assert_eq!(String::from("-- visual --"), mode.display());
    let mode = Mode::from_str("copy").unwrap();
    assert_eq!(Mode::Copy, mode);
    assert_eq!(String::from("-- copy --"), mode.display());
}

#[test]
fn test_mode_single_letter() {
    assert_eq!(Mode::Visual, Mode::from_str("V").unwrap());
    assert_eq!(String::from("-- visual --"), Mode::from_str("V").unwrap().display());
    assert_eq!(Mode::Normal, Mode::from_str("n").unwrap());
    assert_eq!(Mode::Copy, Mode::from_str("C").unwrap());
}

#[test]
fn test_mode_case_insensitive_round_trip() {
    for (name, m) in [
        ("normal", Mode::Normal),
        ("visual", Mode::Visual),
        ("copy", Mode::Copy),
    ] {
        // the middle token of the rendered form parses back
        let rendered = m.display();
        let body = rendered
            .trim_start_matches("-- ")
            .trim_end_matches(" --");
        assert_eq!(m, Mode::from_str(body).unwrap());
        assert_eq!(name, body);
        // so does the uppercased name and the first letter
        assert_eq!(m, Mode::from_str(&name.to_uppercase()).unwrap());
        assert_eq!(m, Mode::from_str(&name[..1]).unwrap());
    }
}

#[test]
fn test_mode_rejects_unknown() {
    assert!(Mode::from_str("").is_err());
    assert!(Mode::from_str("x").is_err());
    assert!(Mode::from_str("norma").is_err());
    assert!(Mode::from_str("normall").is_err());
    assert!(Mode::from_str("nörmal").is_err());
}

#[test]
fn test_detail_cycle() {
    let mut d = KeyDetailLevel::Minimum;
    d.increase();
    assert_eq!(KeyDetailLevel::Standard, d);
    d.increase();
    assert_eq!(KeyDetailLevel::Full, d);
    d.increase();
    assert_eq!(KeyDetailLevel::Minimum, d);
    let mut s = KeyDetailLevel::Standard;
    s.increase();
    s.increase();
    s.increase();
    assert_eq!(KeyDetailLevel::Standard, s);
    assert_eq!(KeyDetailLevel::Minimum, KeyDetailLevel::default());
}

#[test]
fn test_key_type_short_form() {
    assert_eq!(String::from("pub"), KeyType::Public.short_form());
    assert_eq!(String::from("sec"), KeyType::Secret.short_form());
    assert!(!KeyType::Public.is_secret());
    assert!(KeyType::Secret.is_secret());
}

#[test]
fn test_validity_short_form() {
    assert_eq!(String::from("?"), Validity::Unknown.short_form());
    assert_eq!(String::from("q"), Validity::Undefined.short_form());
    assert_eq!(String::from("n"), Validity::Never.short_form());
    assert_eq!(String::from("m"), Validity::Marginal.short_form());
    assert_eq!(String::from("f"), Validity::Full.short_form());
    assert_eq!(String::from("u"), Validity::Ultimate.short_form());
}
