use gpg_tui::config::EngineInfo;
use gpg_tui::config::GpgConfig;
use gpg_tui::context::GpgContext;
use gpg_tui::error::GpgError;
use gpg_tui::key::GpgKey;
use gpg_tui::key::KeyDetailLevel;
use gpg_tui::key::KeyRecord;
use gpg_tui::key::KeyType;
use gpg_tui::template::render_template;

fn config(armor: bool) -> GpgConfig {
    GpgConfig {
        armor,
        default_key: None,
        home_dir: String::from("/tmp/home"),
        output_file: String::from("{query}-{type}.{ext}"),
        output_dir: String::from("/tmp/out"),
    }
}

fn record(id: &str) -> KeyRecord {
    KeyRecord { id: Some(String::from(id)), subkeys: vec![], user_ids: vec![] }
}

#[test]
fn test_config_new_override() {
    let c = GpgConfig::new(
        Some(String::from("/custom/home")),
        None,
        String::from("{query}.{ext}"),
        true,
        Some(String::from("alice")),
        Some(String::from("/engine/home")),
    )
    .unwrap();
    assert_eq!("/custom/home", c.home_dir);
    assert_eq!("/custom/home/out", c.output_dir);
    assert!(c.armor);
    assert_eq!(Some(String::from("alice")), c.default_key);
}

#[test]
fn test_config_new_engine_default_and_outdir() {
    let c = GpgConfig::new(
        None,
        Some(String::from("/exports")),
        String::from("{query}.{ext}"),
        false,
        None,
        Some(String::from("/engine/home")),
    )
    .unwrap();
    assert_eq!("/engine/home", c.home_dir);
    assert_eq!("/exports", c.output_dir);
}

#[test]
fn test_config_new_no_home() {
    let r = GpgConfig::new(None, None, String::from("f"), false, None, None);
    assert_eq!(GpgError::HomeDirNotFound, r.unwrap_err());
    assert_eq!(String::from("failed to get homedir"), GpgError::HomeDirNotFound.message());
}

#[test]
fn test_config_info_block() {
    let c = config(true);
    let engine = EngineInfo {
        protocol: String::from("OpenPGP"),
        path: Some(String::from("/usr/bin/gpg")),
        version: Some(String::from("2.4.4")),
        required_version: Some(String::from("1.7.0")),
    };
    let info = c
        .get_info("1.23.2", &Some(engine), &Some(String::from("/usr/share/gnupg")))
        .unwrap();
    assert!(info.contains("GPGME version: 1.23.2"));
    assert!(info.contains("GPGME engine: /usr/bin/gpg"));
    assert!(info.contains("GPGME engine version: 2.4.4 (>1.7.0)"));
    assert!(info.contains("GnuPG home directory: /tmp/home"));
    assert!(info.contains("Output directory: /tmp/out"));
    assert!(info.contains("Default signing key: not specified"));
    assert!(info.contains("Armored output: true"));
}

#[test]
fn test_config_info_missing_engine() {
    let c = config(false);
    assert_eq!(Err(GpgError::EngineInfoNotFound), c.get_info("1.23.2", &None, &None));
    assert_eq!(
        String::from("failed to get engine information"),
        GpgError::EngineInfoNotFound.message()
    );
}

#[test]
fn test_config_info_missing_fields() {
    let mut c = config(false);
    c.default_key = Some(String::from("0xABCD"));
    let engine = EngineInfo {
        protocol: String::from("OpenPGP"),
        path: None,
        version: None,
        required_version: None,
    };
    let info = c.get_info("1.23.2", &Some(engine), &None).unwrap();
    assert!(info.contains("GPGME engine: ?"));
    assert!(info.contains("GPGME engine version: ? (>?)"));
    assert!(info.contains("GnuPG data directory: ?"));
    assert!(info.contains("Default signing key: 0xABCD"));
    assert!(info.contains("Armored output: false"));
}

#[test]
fn test_template_rendering() {
    assert_eq!(
        Ok(String::from("alice-pub.pgp")),
        render_template("{query}-{type}.{ext}", "pub", "alice", "pgp")
    );
    assert_eq!(Ok(String::from("plain")), render_template("plain", "pub", "q", "e"));
    assert_eq!(Ok(String::from("")), render_template("", "pub", "q", "e"));
    // unknown and unclosed placeholders fail
    assert_eq!(
        Err(GpgError::TemplateError),
        render_template("{unknown}", "pub", "q", "e")
    );
    assert_eq!(Err(GpgError::TemplateError), render_template("a{", "pub", "q", "e"));
    assert_eq!(Err(GpgError::TemplateError), render_template("{typ}", "pub", "q", "e"));
}

#[test]
fn test_output_file_template_substitution() {
    // armor on, secret key, a single pattern
    let ctx = GpgContext::new(config(true));
    let path = ctx
        .get_output_file(KeyType::Secret, &vec![String::from("0x0")])
        .unwrap();
    assert_eq!("/tmp/out/0x0-sec.asc", path);
    // two patterns render the query as `out`
    let path = ctx
        .get_output_file(
            KeyType::Secret,
            &vec![String::from("a"), String::from("b")],
        )
        .unwrap();
    assert_eq!("/tmp/out/out-sec.asc", path);
    // armor off renders the extension as `pgp`
    let ctx = GpgContext::new(config(false));
    let path = ctx
        .get_output_file(KeyType::Public, &vec![String::from("alice")])
        .unwrap();
    assert_eq!("/tmp/out/alice-pub.pgp", path);
    // a bad template is a template error
    let mut bad = config(false);
    bad.output_file = String::from("{query}-{bad}");
    let ctx = GpgContext::new(bad);
    assert_eq!(
        Err(GpgError::TemplateError),
        ctx.get_output_file(KeyType::Public, &vec![])
    );
}

#[test]
fn test_lenient_listing() {
    let ctx = GpgContext::new(config(false));
    let listed = vec![Some(record("A")), None, Some(record("B")), Some(record("C"))];
    let keys = ctx.get_keys(listed, KeyDetailLevel::Standard);
    assert_eq!(3, keys.len());
    assert_eq!(String::from("0xA"), keys[0].get_id());
    assert_eq!(String::from("0xB"), keys[1].get_id());
    assert_eq!(String::from("0xC"), keys[2].get_id());
    assert!(keys.iter().all(|k| k.detail == KeyDetailLevel::Standard));
}

#[test]
fn test_get_all_keys_default_detail() {
    let ctx = GpgContext::new(config(false));
    let all = ctx.get_all_keys(
        vec![Some(record("P"))],
        vec![Some(record("S")), None],
        None,
    );
    assert_eq!(1, all.public.len());
    assert_eq!(1, all.secret.len());
    assert_eq!(KeyDetailLevel::Minimum, all.public[0].detail);
}

#[test]
fn test_import_count() {
    let ctx = GpgContext::new(config(false));
    assert_eq!(Some(0), ctx.import_keys(&vec![]));
    assert_eq!(Some(6), ctx.import_keys(&vec![1, 2, 3]));
    assert_eq!(None, ctx.import_keys(&vec![u32::MAX, 1]));
}

#[test]
fn test_empty_export() {
    let ctx = GpgContext::new(config(true));
    let r = ctx.get_exported_keys(vec![]);
    assert_eq!(Err(GpgError::NothingExported), r);
    assert_eq!(
        String::from("nothing exported"),
        GpgError::NothingExported.message()
    );
    let r = ctx.get_exported_keys(vec![1, 2, 3]);
    assert_eq!(Ok(vec![1, 2, 3]), r);
}

#[test]
fn test_export_keys_resolution() {
    let ctx = GpgContext::new(config(true));
    // empty exports fail before the path is resolved
    assert_eq!(
        Err(GpgError::NothingExported),
        ctx.export_keys(KeyType::Public, &vec![], vec![])
    );
    let (path, bytes) = ctx
        .export_keys(KeyType::Public, &vec![String::from("alice")], vec![9, 8])
        .unwrap();
    assert_eq!("/tmp/out/alice-pub.asc", path);
    assert_eq!(vec![9, 8], bytes);
}

#[test]
fn test_send_key_selection() {
    let ctx = GpgContext::new(config(false));
    let r = ctx.select_send_key(vec![]);
    assert_eq!(GpgError::KeyNotFound, r.unwrap_err());
    assert_eq!(
        String::from("key not found"),
        GpgError::KeyNotFound.message()
    );
    let key = GpgKey::new(record("AB"), KeyDetailLevel::Minimum);
    let chosen = ctx.select_send_key(vec![key]).unwrap();
    assert_eq!(String::from("AB"), ctx.sent_key_id(&chosen));
    let anon = GpgKey::new(
        KeyRecord { id: None, subkeys: vec![], user_ids: vec![] },
        KeyDetailLevel::Minimum,
    );
    assert_eq!(String::from(""), ctx.sent_key_id(&anon));
}
