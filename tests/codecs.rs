use watchman_client::{
    Clock, ClockSpec, ContentSha1Hex, DecodeError, FatClockData, FileType, SavedStateClockData,
    ScmAwareClockData, SyncTimeout, TimeSpan, Wire,
};

fn s(v: &str) -> Wire {
    Wire::Str(v.to_string())
}

fn obj(entries: Vec<(&str, Wire)>) -> Wire {
    Wire::Object(entries.into_iter().map(|(k, v)| (k.to_string(), v)).collect())
}

const ALL_KINDS: [(FileType, &str); 8] = [
    (FileType::BlockSpecial, "b"),
    (FileType::CharSpecial, "c"),
    (FileType::Directory, "d"),
    (FileType::Regular, "f"),
    (FileType::Fifo, "p"),
    (FileType::Symlink, "l"),
    (FileType::Socket, "s"),
    (FileType::SolarisDoor, "D"),
];

#[test]
fn file_type_tokens_round_trip() {
    for (kind, token) in ALL_KINDS.iter() {
        let text = kind.to_string();
        assert_eq!(text, *token);
        assert_eq!(FileType::from(&text), Ok(*kind));
        assert_eq!(FileType::from_json(&kind.to_json()), Ok(*kind));
    }
}

#[test]
fn file_type_unknown_token_fails() {
    for bad in ["x", "B", "", "ff", "F", "dir"] {
        assert_eq!(FileType::from(&bad.to_string()), Err(DecodeError::UnknownFileType));
    }
    assert_eq!(FileType::from_json(&Wire::Int(1)), Err(DecodeError::InvalidType));
}

#[test]
fn sync_timeout_millis() {
    assert_eq!(SyncTimeout::Default.into(), 60000);
    assert_eq!(SyncTimeout::DisableCookie.into(), 0);
    let d = SyncTimeout::from(TimeSpan { secs: 1, nanos: 500_000_000 });
    assert_eq!(d, SyncTimeout::Duration(TimeSpan { secs: 1, nanos: 500_000_000 }));
    assert_eq!(d.into(), 1500);
    assert_eq!(SyncTimeout::default(), SyncTimeout::Default);
}

#[test]
fn sync_timeout_zero_span_disables_cookie() {
    assert_eq!(SyncTimeout::from(TimeSpan { secs: 0, nanos: 0 }), SyncTimeout::DisableCookie);
    // Under a millisecond counts as zero.
    assert_eq!(SyncTimeout::from(TimeSpan { secs: 0, nanos: 999_999 }), SyncTimeout::DisableCookie);
    assert_eq!(
        SyncTimeout::from(TimeSpan { secs: 0, nanos: 1_000_000 }),
        SyncTimeout::Duration(TimeSpan { secs: 0, nanos: 1_000_000 })
    );
    assert!(SyncTimeout::DisableCookie.is_disabled());
    assert!(!SyncTimeout::Default.is_disabled());
    assert!(SyncTimeout::Default.is_default());
}

#[test]
fn null_clock_token() {
    assert_eq!(ClockSpec::null().to_json(), s("c:0:0"));
    assert_eq!(ClockSpec::default().to_json(), s("c:0:0"));
}

#[test]
fn named_cursor_and_timestamp_tokens() {
    assert_eq!(ClockSpec::named_cursor("mytool").to_json(), s("n:mytool"));
    assert_eq!(ClockSpec::unix_timestamp(1234567890).to_json(), s("1234567890"));
    assert_eq!(ClockSpec::unix_timestamp(0).to_json(), s("0"));
    assert_eq!(ClockSpec::unix_timestamp(-42).to_json(), s("-42"));
    assert_eq!(ClockSpec::unix_timestamp(i64::MIN).to_json(), s("-9223372036854775808"));
    assert_eq!(ClockSpec::unix_timestamp(i64::MAX).to_json(), s("9223372036854775807"));
}

#[test]
fn clock_decodes_bare_token_first() {
    match Clock::from_json(&s("c:123:4")) {
        Ok(Clock::Spec(c)) => assert_eq!(c.to_json(), s("c:123:4")),
        other => panic!("unexpected {:?}", other),
    }
    let fat = obj(vec![("clock", s("c:1:2")), ("scm", obj(vec![("mergebase", s("abc"))]))]);
    match Clock::from_json(&fat) {
        Ok(Clock::ScmAware(d)) => {
            assert_eq!(d.clock.to_json(), s("c:1:2"));
            let scm = d.scm.unwrap();
            assert_eq!(scm.mergebase.as_deref(), Some("abc"));
            assert_eq!(scm.mergebase_with, None);
            assert!(scm.saved_state.is_none());
        }
        other => panic!("unexpected {:?}", other),
    }
    assert!(Clock::from_json(&Wire::Int(3)).is_err());
    assert!(Clock::from_json(&obj(vec![("scm", Wire::Null)])).is_err());
}

#[test]
fn clock_with_metadata_omits_absent_fields() {
    let c = Clock::ScmAware(FatClockData {
        clock: ClockSpec::null(),
        scm: Some(ScmAwareClockData {
            mergebase: None,
            mergebase_with: Some("main".to_string()),
            saved_state: Some(SavedStateClockData {
                storage: Some("manifold".to_string()),
                commit: None,
                config: None,
            }),
        }),
    });
    assert_eq!(
        c.to_json(),
        obj(vec![
            ("clock", s("c:0:0")),
            (
                "scm",
                obj(vec![
                    ("mergebase-with", s("main")),
                    ("saved-state", obj(vec![("storage", s("manifold"))])),
                ])
            ),
        ])
    );
}

#[test]
fn content_hash_shapes() {
    let err = obj(vec![("error", s("no such file"))]);
    match ContentSha1Hex::from_json(&err) {
        Ok(ContentSha1Hex::Error { error }) => assert_eq!(error, "no such file"),
        other => panic!("unexpected {:?}", other),
    }
    let hex = "abc1230000000000000000000000000deadbeef";
    let hex = format!("{}0", hex);
    assert_eq!(hex.len(), 40);
    match ContentSha1Hex::from_json(&s(&hex)) {
        Ok(ContentSha1Hex::Hash(h)) => assert_eq!(h, hex),
        other => panic!("unexpected {:?}", other),
    }
    assert!(ContentSha1Hex::from_json(&obj(vec![("error", Wire::Int(1))])).is_err());
    assert!(ContentSha1Hex::from_json(&Wire::Bool(true)).is_err());
}
