use gpg_tui::key::GpgKey;
use gpg_tui::key::KeyDetailLevel;
use gpg_tui::key::KeyRecord;
use gpg_tui::key::SigRecord;
use gpg_tui::key::SubkeyRecord;
use gpg_tui::key::UserRecord;
use gpg_tui::key::Validity;
use gpg_tui::textfmt::format_date;
use gpg_tui::textfmt::u64_to_dec;
use gpg_tui::textfmt::u64_to_dec_pad;
use gpg_tui::textfmt::u64_to_hex;
use gpg_tui::textfmt::Date;

fn subkey(algorithm: &str, id: &str) -> SubkeyRecord {
    SubkeyRecord {
        algorithm_name: Some(String::from(algorithm)),
        id: Some(String::from(id)),
        fingerprint: Some(format!("FP{}", id)),
        can_sign: false,
        can_encrypt: false,
        can_certify: false,
        can_authenticate: false,
        is_disabled: false,
        is_expired: false,
        is_revoked: false,
        creation: Some(Date { year: 2021, month: 3, day: 7 }),
        expiration: None,
    }
}

fn sig(signer: Option<&str>) -> SigRecord {
    SigRecord {
        signer_key_id: signer.map(String::from),
        signer_user_id: Some(String::from("Signer <signer@example.org>")),
        cert_class: 18,
        is_expired: false,
        is_revoked: false,
        creation: Some(Date { year: 2020, month: 1, day: 2 }),
        expiration: None,
    }
}

fn user(email: &str, sigs: Vec<SigRecord>) -> UserRecord {
    UserRecord {
        id: Some(format!("Name <{}>", email)),
        email: Some(String::from(email)),
        validity: Validity::Ultimate,
        signatures: sigs,
    }
}

#[test]
fn test_numeric_rendering() {
    assert_eq!(String::from("0"), u64_to_dec(0));
    assert_eq!(String::from("4096"), u64_to_dec(4096));
    assert_eq!(String::from("12"), u64_to_hex(18));
    assert_eq!(String::from("0"), u64_to_hex(0));
    assert_eq!(String::from("ff"), u64_to_hex(255));
    assert_eq!(String::from("0007"), u64_to_dec_pad(7, 4));
    assert_eq!(String::from("2021"), u64_to_dec_pad(2021, 4));
}

#[test]
fn test_date_from_epoch() {
    assert_eq!(Date { year: 1970, month: 1, day: 1 }, Date::from_unix_days(0));
    assert_eq!(Date { year: 2021, month: 3, day: 7 }, Date::from_unix_days(18693));
    assert_eq!(Date { year: 2020, month: 2, day: 29 }, Date::from_unix_days(18321));
    assert_eq!(Date { year: 1970, month: 1, day: 2 }, Date::from_unix_seconds(86401));
    assert_eq!(Date { year: 1970, month: 12, day: 31 }, Date::from_unix_days(364));
}

#[test]
fn test_date_rendering() {
    let d = Date { year: 2021, month: 3, day: 7 };
    assert_eq!(String::from("2021"), format_date(&d, true));
    assert_eq!(String::from("2021-03-07"), format_date(&d, false));
}

#[test]
fn test_subkey_line_signing_rsa() {
    let mut sk = subkey("rsa4096", "DEADBEEF");
    sk.can_sign = true;
    sk.creation = None;
    let key = GpgKey::new(
        KeyRecord { id: Some(String::from("DEADBEEF")), subkeys: vec![sk], user_ids: vec![] },
        KeyDetailLevel::Minimum,
    );
    let info = key.get_subkey_info(true);
    assert_eq!(vec![String::from("[s] rsa4096/DEADBEEF")], info);
}

#[test]
fn test_subkey_info_levels() {
    let mut first = subkey("rsa4096", "AAAA1111");
    first.can_sign = true;
    first.can_certify = true;
    let mut second = subkey("cv25519", "BBBB2222");
    second.can_encrypt = true;
    second.expiration = Some(Date { year: 2030, month: 12, day: 31 });
    let record = KeyRecord {
        id: Some(String::from("AAAA1111")),
        subkeys: vec![first, second],
        user_ids: vec![],
    };
    let key = GpgKey::new(record.clone(), KeyDetailLevel::Minimum);
    assert_eq!(vec![String::from("[sc] rsa4096/AAAA1111")], key.get_subkey_info(true));
    let key = GpgKey::new(record, KeyDetailLevel::Standard);
    let info = key.get_subkey_info(true);
    assert_eq!(
        vec![
            String::from("[sc] rsa4096/AAAA1111"),
            String::from("|      └─2021"),
            String::from("[e] cv25519/BBBB2222"),
            String::from("       └─2030"),
        ],
        info
    );
    // untruncated: fingerprints and full dates
    let key = GpgKey::new(
        KeyRecord {
            id: None,
            subkeys: vec![subkey("ed25519", "CCCC3333")],
            user_ids: vec![],
        },
        KeyDetailLevel::Standard,
    );
    assert_eq!(
        vec![
            String::from("[] ed25519/FPCCCC3333"),
            String::from("       └─2021-03-07"),
        ],
        key.get_subkey_info(false)
    );
}

#[test]
fn test_subkey_missing_fields_and_marks() {
    let mut sk = subkey("rsa2048", "DDDD4444");
    sk.algorithm_name = None;
    sk.id = None;
    sk.creation = None;
    sk.is_revoked = true;
    let key = GpgKey::new(
        KeyRecord { id: None, subkeys: vec![sk], user_ids: vec![] },
        KeyDetailLevel::Standard,
    );
    assert_eq!(
        vec![String::from("[r] [?]/[?]"), String::from("       └─[rev] [?]")],
        key.get_subkey_info(true)
    );
}

#[test]
fn test_user_info_minimum() {
    let record = KeyRecord {
        id: Some(String::from("AAAA1111")),
        subkeys: vec![],
        user_ids: vec![user("alice@example.org", vec![]), user("bob@example.org", vec![])],
    };
    let key = GpgKey::new(record, KeyDetailLevel::Minimum);
    assert_eq!(vec![String::from("[u] alice@example.org")], key.get_user_info(true));
}

#[test]
fn test_user_info_standard_tree() {
    let record = KeyRecord {
        id: None,
        subkeys: vec![],
        user_ids: vec![
            user("a@x.org", vec![]),
            user("b@x.org", vec![]),
            user("c@x.org", vec![]),
        ],
    };
    let key = GpgKey::new(record, KeyDetailLevel::Standard);
    assert_eq!(
        vec![
            String::from("[u] a@x.org"),
            String::from(" ├─[u] b@x.org"),
            String::from(" └─[u] c@x.org"),
        ],
        key.get_user_info(true)
    );
}

#[test]
fn test_rendering_glyphs_full_detail() {
    // two user ids; three signatures on the second, the middle one a
    // self-signature
    let key_id = "AAAA1111";
    let record = KeyRecord {
        id: Some(String::from(key_id)),
        subkeys: vec![],
        user_ids: vec![
            user("a@x.org", vec![]),
            user(
                "b@x.org",
                vec![sig(Some("EEEE5555")), sig(Some(key_id)), sig(Some("FFFF6666"))],
            ),
        ],
    };
    let key = GpgKey::new(record, KeyDetailLevel::Full);
    let info = key.get_user_info(true);
    assert_eq!(5, info.len());
    assert_eq!("[u] a@x.org", info[0]);
    assert_eq!(" └─[u] b@x.org", info[1]);
    assert!(info[2].starts_with("    ├─"));
    assert!(info[3].starts_with("    ├─"));
    assert!(info[4].starts_with("    └─"));
    assert_eq!("    ├─[12] EEEE5555 2020", info[2]);
    assert_eq!("    ├─[12] selfsig 2020", info[3]);
    assert_eq!("    └─[12] FFFF6666 2020", info[4]);
    // untruncated signature body carries the signer user id
    let info = key.get_user_info(false);
    assert_eq!("    ├─[12] EEEE5555 Signer <signer@example.org> 2020-01-02", info[2]);
}

#[test]
fn test_get_id() {
    let key = GpgKey::new(
        KeyRecord { id: Some(String::from("AB12")), subkeys: vec![], user_ids: vec![] },
        KeyDetailLevel::Minimum,
    );
    assert_eq!(String::from("0xAB12"), key.get_id());
    let key = GpgKey::new(
        KeyRecord { id: None, subkeys: vec![], user_ids: vec![] },
        KeyDetailLevel::Minimum,
    );
    assert_eq!(String::from("[?]"), key.get_id());
}
