use watchman_client::{
    Clock, ClockRequest, ClockRequestParams, ClockResponse, ClockSpec, DecodeError, FatClockData,
    GetSockNameResponse, PathGeneratorElement, QueryRequest, QueryRequestCommon, QueryResult,
    SavedStateClockData, ScmAwareClockData, SubscribeCommand, SubscribeRequest, SubscribeResponse,
    SyncTimeout, TimeSpan, Unsubscribe, UnsubscribeResponse, WatchProjectRequest, WatchProjectResponse,
    Wire,
};

fn s(v: &str) -> Wire {
    Wire::Str(v.to_string())
}

fn obj(entries: Vec<(&str, Wire)>) -> Wire {
    Wire::Object(entries.into_iter().map(|(k, v)| (k.to_string(), v)).collect())
}

fn keys(w: &Wire) -> Vec<String> {
    match w {
        Wire::Object(e) => e.iter().map(|(k, _)| k.clone()).collect(),
        other => panic!("not an object: {:?}", other),
    }
}

#[test]
fn bare_query_sends_only_fields() {
    let mut q = QueryRequestCommon::default();
    q.fields = vec!["name"];
    assert_eq!(q.to_json(), obj(vec![("fields", Wire::Array(vec![s("name")]))]));
    q.case_sensitive = true;
    assert_eq!(
        q.to_json(),
        obj(vec![("fields", Wire::Array(vec![s("name")])), ("case_sensitive", Wire::Bool(true))])
    );
}

#[test]
fn empty_fields_are_still_sent() {
    let q = QueryRequestCommon::default();
    assert_eq!(q.to_json(), obj(vec![("fields", Wire::Array(vec![]))]));
}

#[test]
fn full_query_key_order() {
    let mut q = QueryRequestCommon::default();
    q.glob = Some(vec!["**/*.rs".to_string()]);
    q.glob_noescape = true;
    q.glob_includedotfiles = true;
    q.path = Some(vec![
        PathGeneratorElement::RecursivePath("src".to_string()),
        PathGeneratorElement::ConstrainedDepth { path: "docs".to_string(), depth: 1 },
    ]);
    q.suffix = Some(vec!["rs".to_string()]);
    q.since = Some(Clock::Spec(ClockSpec::null()));
    q.relative_root = Some("sub".to_string());
    q.expression = Some(Wire::Array(vec![s("true")]));
    q.fields = vec!["name", "type"];
    q.empty_on_fresh_instance = true;
    q.case_sensitive = true;
    q.sync_timeout = SyncTimeout::DisableCookie;
    q.dedup_results = true;
    q.lock_timeout = Some(250);
    q.request_id = Some("r1".to_string());
    let w = q.to_json();
    assert_eq!(
        keys(&w),
        vec![
            "glob", "glob_noescape", "glob_includedotfiles", "path", "suffix", "since",
            "relative_root", "expression", "fields", "empty_on_fresh_instance", "case_sensitive",
            "sync_timeout", "dedup_results", "lock_timeout", "request_id"
        ]
    );
    match &w {
        Wire::Object(e) => {
            assert_eq!(e[3].1, Wire::Array(vec![s("src"), obj(vec![("path", s("docs")), ("depth", Wire::Int(1))])]));
            assert_eq!(e[5].1, s("c:0:0"));
            assert_eq!(e[11].1, Wire::Int(0));
            assert_eq!(e[13].1, Wire::Int(250));
        }
        _ => unreachable!(),
    }
}

#[test]
fn sync_timeout_omission_differs_by_command() {
    // A query leaves out the default timeout and sends a disabled cookie.
    let mut q = QueryRequestCommon::default();
    q.sync_timeout = SyncTimeout::DisableCookie;
    assert_eq!(keys(&q.to_json()), vec!["fields", "sync_timeout"]);
    // The clock command leaves out a disabled cookie and sends the default.
    let p = ClockRequestParams { sync_timeout: SyncTimeout::DisableCookie };
    assert_eq!(p.to_json(), obj(vec![]));
    let p = ClockRequestParams { sync_timeout: SyncTimeout::Default };
    assert_eq!(p.to_json(), obj(vec![("sync_timeout", Wire::Int(60000))]));
    let p = ClockRequestParams {
        sync_timeout: SyncTimeout::from(TimeSpan { secs: 2, nanos: 0 }),
    };
    assert_eq!(p.to_json(), obj(vec![("sync_timeout", Wire::Int(2000))]));
}

#[test]
fn command_envelopes() {
    let c = ClockRequest("clock", "/repo".to_string(), ClockRequestParams { sync_timeout: SyncTimeout::Default });
    assert_eq!(
        c.to_json(),
        Wire::Array(vec![s("clock"), s("/repo"), obj(vec![("sync_timeout", Wire::Int(60000))])])
    );
    let w = WatchProjectRequest("watch-project", "/repo/sub".to_string());
    assert_eq!(w.to_json(), Wire::Array(vec![s("watch-project"), s("/repo/sub")]));
    let q = QueryRequest("query", "/repo".to_string(), QueryRequestCommon::default());
    assert_eq!(
        q.to_json(),
        Wire::Array(vec![s("query"), s("/repo"), obj(vec![("fields", Wire::Array(vec![]))])])
    );
    let sub = SubscribeCommand("subscribe", "/repo".to_string(), "mysub".to_string(), SubscribeRequest::default());
    assert_eq!(
        sub.to_json(),
        Wire::Array(vec![s("subscribe"), s("/repo"), s("mysub"), obj(vec![("fields", Wire::Array(vec![]))])])
    );
    let u = Unsubscribe("unsubscribe", "/repo".to_string(), "mysub".to_string());
    assert_eq!(u.to_json(), Wire::Array(vec![s("unsubscribe"), s("/repo"), s("mysub")]));
}

#[test]
fn subscription_since_clock_round_trip() {
    let since = Clock::ScmAware(FatClockData {
        clock: ClockSpec::named_cursor("tool"),
        scm: Some(ScmAwareClockData {
            mergebase: Some("0123abcd".to_string()),
            mergebase_with: None,
            saved_state: Some(SavedStateClockData {
                storage: None,
                commit: Some("feedface".to_string()),
                config: Some(obj(vec![("project", s("www"))])),
            }),
        }),
    });
    let mut r = SubscribeRequest::default();
    r.since = Some(since);
    r.fields = vec!["name"];
    r.case_sensitive = true;
    let w = r.to_json();
    assert_eq!(keys(&w), vec!["since", "fields", "case_sensitive"]);
    let since_wire = match &w {
        Wire::Object(e) => &e[0].1,
        _ => unreachable!(),
    };
    match Clock::from_json(since_wire) {
        Ok(Clock::ScmAware(d)) => {
            assert_eq!(d.clock.to_json(), s("n:tool"));
            let scm = d.scm.unwrap();
            assert_eq!(scm.mergebase.as_deref(), Some("0123abcd"));
            assert_eq!(scm.mergebase_with, None);
            let ss = scm.saved_state.unwrap();
            assert_eq!(ss.storage, None);
            assert_eq!(ss.commit.as_deref(), Some("feedface"));
            assert_eq!(ss.config, Some(obj(vec![("project", s("www"))])));
        }
        other => panic!("unexpected {:?}", other),
    }
}

fn file_names(r: &QueryResult<Wire>) -> Vec<String> {
    r.files
        .as_ref()
        .map(|fs| fs.iter().map(|f| match f {
            Wire::Object(e) => match &e[0].1 {
                Wire::Str(n) => n.clone(),
                _ => panic!("no name"),
            },
            _ => panic!("not a record"),
        }).collect())
        .unwrap_or_default()
}

#[test]
fn fresh_instance_replaces_baseline() {
    let mut baseline: Vec<String> = vec!["old.rs".to_string(), "kept.rs".to_string()];
    let incremental = obj(vec![
        ("version", s("2024.1")),
        ("files", Wire::Array(vec![obj(vec![("name", s("new.rs"))])])),
    ]);
    let r = QueryResult::<Wire>::from_json(&incremental).unwrap();
    assert!(!r.is_fresh_instance);
    for n in file_names(&r) {
        if !baseline.contains(&n) {
            baseline.push(n);
        }
    }
    assert_eq!(baseline, vec!["old.rs", "kept.rs", "new.rs"]);

    let fresh = obj(vec![
        ("version", s("2024.1")),
        ("is_fresh_instance", Wire::Bool(true)),
        ("files", Wire::Array(vec![obj(vec![("name", s("kept.rs"))]), obj(vec![("name", s("other.rs"))])])),
    ]);
    let r = QueryResult::<Wire>::from_json(&fresh).unwrap();
    assert!(r.is_fresh_instance);
    if r.is_fresh_instance {
        baseline = file_names(&r);
    }
    assert_eq!(baseline, vec!["kept.rs", "other.rs"]);
}

#[test]
fn query_result_defaults_and_markers() {
    let w = obj(vec![
        ("version", s("v")),
        ("canceled", Wire::Bool(true)),
        ("state-enter", s("hg.update")),
        ("unknown-key", Wire::Int(7)),
    ]);
    let r = QueryResult::<Wire>::from_json(&w).unwrap();
    assert_eq!(r.version, "v");
    assert!(!r.is_fresh_instance);
    assert!(r.files.is_none());
    assert!(r.subscription_canceled);
    assert_eq!(r.state_enter.as_deref(), Some("hg.update"));
    assert_eq!(r.state_leave, None);
    let bad = obj(vec![("version", s("v")), ("files", s("nope"))]);
    assert_eq!(QueryResult::<Wire>::from_json(&bad).unwrap_err(), DecodeError::InvalidType);
    let bad = obj(vec![("version", s("v")), ("is_fresh_instance", Wire::Null)]);
    assert_eq!(QueryResult::<Wire>::from_json(&bad).unwrap_err(), DecodeError::InvalidType);
}

#[test]
fn responses_decode() {
    let w = obj(vec![("version", s("v")), ("sockname", s("/tmp/sock"))]);
    let r = GetSockNameResponse::from_json(&w).unwrap();
    assert_eq!(r.sockname.as_deref(), Some("/tmp/sock"));
    assert_eq!(r.error, None);
    let w = obj(vec![("version", s("v")), ("error", s("boom"))]);
    let r = GetSockNameResponse::from_json(&w).unwrap();
    assert_eq!(r.error.as_deref(), Some("boom"));
    assert_eq!(GetSockNameResponse::from_json(&obj(vec![])).unwrap_err(), DecodeError::MissingField);
    assert_eq!(GetSockNameResponse::from_json(&s("v")).unwrap_err(), DecodeError::InvalidType);

    let r = ClockResponse::from_json(&obj(vec![("version", s("v")), ("clock", s("c:1:2"))])).unwrap();
    assert_eq!(r.clock.to_json(), s("c:1:2"));
    assert_eq!(ClockResponse::from_json(&obj(vec![("version", s("v"))])).unwrap_err(), DecodeError::MissingField);

    let r = WatchProjectResponse::from_json(&obj(vec![
        ("version", s("v")),
        ("watch", s("/repo")),
        ("relative_path", s("sub")),
        ("watcher", s("inotify")),
    ]))
    .unwrap();
    assert_eq!(r.watch, "/repo");
    assert_eq!(r.relative_path.as_deref(), Some("sub"));
    assert_eq!(r.watcher.as_deref(), Some("inotify"));

    let r = UnsubscribeResponse::from_json(&obj(vec![("version", s("v")), ("unsubscribe", s("mysub"))])).unwrap();
    assert_eq!(r.unsubscribe, "mysub");

    let r = SubscribeResponse::from_json(&obj(vec![
        ("version", s("v")),
        ("subscribe", s("mysub")),
        ("clock", s("c:9:9")),
        ("asserted-states", Wire::Array(vec![s("hg.update")])),
        ("saved-state-info", obj(vec![("commit", s("abc"))])),
    ]))
    .unwrap();
    assert_eq!(r.subscribe, "mysub");
    assert_eq!(r.clock.to_json(), s("c:9:9"));
    assert_eq!(r.asserted_states, vec!["hg.update".to_string()]);
    assert_eq!(r.saved_state_info, Some(obj(vec![("commit", s("abc"))])));

    let r = SubscribeResponse::from_json(&obj(vec![
        ("version", s("v")),
        ("subscribe", s("mysub")),
        ("clock", s("c:9:9")),
        ("saved-state-info", Wire::Null),
    ]))
    .unwrap();
    assert!(r.asserted_states.is_empty());
    assert_eq!(r.saved_state_info, None);
    let bad = obj(vec![
        ("version", s("v")),
        ("subscribe", s("mysub")),
        ("clock", s("c:9:9")),
        ("asserted-states", Wire::Array(vec![Wire::Int(1)])),
    ]);
    assert_eq!(SubscribeResponse::from_json(&bad).unwrap_err(), DecodeError::InvalidType);
}
