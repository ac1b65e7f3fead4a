use watson::{
    analyzer_endpoint, analyzer_request, build_log_file, decode_analyzer_response,
    decode_upload_response, driver_step, file_endpoint, filter_event, get_filename,
    id_from_member, produce_json_payload, register_outcome, quote_json, upload_outcome, upload_request,
    ChangeEvent, DriverAction, DriverInput, DriverState, JobError, LogFile, NewAnalyzer,
};

fn s(t: &str) -> String {
    t.to_string()
}

#[test]
fn filter_keeps_only_creations() {
    let job = filter_event(ChangeEvent::Created(s("/watched/a.log"))).unwrap();
    assert_eq!(job.absolute_path, "/watched/a.log");
    assert!(filter_event(ChangeEvent::Modified(s("/watched/a.log"))).is_none());
    assert!(filter_event(ChangeEvent::Removed(s("/watched/a.log"))).is_none());
    assert!(filter_event(ChangeEvent::Renamed(s("/watched/a.log"), s("/watched/b.log"))).is_none());
}

#[test]
fn file_name_is_the_last_component() {
    assert_eq!(get_filename("/watched/report.log"), Some(s("report.log")));
    assert_eq!(get_filename("report.log"), Some(s("report.log")));
    assert_eq!(get_filename("/watched/sub/"), Some(s("sub")));
    assert_eq!(get_filename("foo.txt/."), Some(s("foo.txt")));
    assert_eq!(get_filename("./a"), Some(s("a")));
    assert_eq!(get_filename("/wätched/ünï.log"), Some(s("ünï.log")));
}

#[test]
fn paths_without_a_name() {
    assert_eq!(get_filename(""), None);
    assert_eq!(get_filename("/"), None);
    assert_eq!(get_filename("."), None);
    assert_eq!(get_filename("/watched/.."), None);
    assert_eq!(get_filename("//"), None);
}

#[test]
fn payload_of_a_plain_file() {
    assert_eq!(
        produce_json_payload(s("report.log"), s("hello")),
        "{\"content\":\"hello\",\"name\":\"report.log\"}"
    );
}

#[test]
fn payload_escapes_special_characters() {
    assert_eq!(quote_json("a\"b\\c\n\t\r\u{8}\u{c}\u{1}\u{1f}é"), "\"a\\\"b\\\\c\\n\\t\\r\\b\\f\\u0001\\u001fé\"");
    assert_eq!(quote_json(""), "\"\"");
    let doc = LogFile { content: s("line \"one\"\nline two"), name: s("x.log") };
    assert_eq!(doc.to_json(), "{\"content\":\"line \\\"one\\\"\\nline two\",\"name\":\"x.log\"}");
}

#[test]
fn payload_decodes_back_to_the_document() {
    let cases = [("hello", "report.log"), ("", "e"), ("q\"\\\u{0}\u{7f}\n✓", "n a\tme")];
    for (content, name) in cases.iter() {
        let text = produce_json_payload(s(name), s(content));
        let v: serde_json::Value = serde_json::from_str(&text).unwrap();
        assert_eq!(v["content"].as_str(), Some(*content));
        assert_eq!(v["name"].as_str(), Some(*name));
        assert_eq!(v.as_object().unwrap().len(), 2);
    }
}

#[test]
fn analyzer_payload_and_endpoints() {
    let a = NewAnalyzer::new(s("lowercase"));
    assert_eq!(a.analyzer(), "lowercase");
    assert_eq!(a.to_json(), "{\"analyzer\":\"lowercase\"}");
    assert_eq!(file_endpoint("http://localhost:8000"), "http://localhost:8000/file");
    assert_eq!(analyzer_endpoint("http://localhost:8000"), "http://localhost:8000/analyzer");
    let q = analyzer_request(&a, "http://h:1");
    assert_eq!(q.url, "http://h:1/analyzer");
    assert_eq!(q.body, "{\"analyzer\":\"lowercase\"}");
}

#[test]
fn build_names_the_document_by_its_file() {
    let d = build_log_file("/watched/report.log", s("hello")).unwrap();
    assert_eq!(d.name, "report.log");
    assert_eq!(d.content, "hello");
    match build_log_file("/", s("hello")) {
        Err(JobError::MissingFileName(p)) => assert_eq!(p, "/"),
        other => panic!("unexpected {:?}", other),
    }
}

#[test]
fn created_report_is_posted_once() {
    let (st, _) = driver_step(DriverState::Idle, DriverInput::SetupSucceeded);
    assert_eq!(st, DriverState::Watching);
    let (st, act) = driver_step(st, DriverInput::Event(ChangeEvent::Created(s("/watched/report.log"))));
    assert_eq!(st, DriverState::Watching);
    let job = match act {
        DriverAction::Upload(j) => j,
        other => panic!("unexpected {:?}", other),
    };
    let q = upload_request(&job.absolute_path, s("hello"), "http://localhost:8000").unwrap();
    assert_eq!(q.url, "http://localhost:8000/file");
    assert_eq!(q.body, "{\"content\":\"hello\",\"name\":\"report.log\"}");
}

#[test]
fn modifications_alone_upload_nothing() {
    let st = DriverState::Watching;
    let (st, a1) = driver_step(st, DriverInput::Event(ChangeEvent::Modified(s("/watched/report.log"))));
    let (st, a2) = driver_step(st, DriverInput::Event(ChangeEvent::Modified(s("/watched/report.log"))));
    assert_eq!(st, DriverState::Watching);
    assert!(matches!(a1, DriverAction::Wait));
    assert!(matches!(a2, DriverAction::Wait));
}

#[test]
fn failed_job_does_not_stop_later_uploads() {
    let st = DriverState::Watching;
    let (st, act) = driver_step(st, DriverInput::Event(ChangeEvent::Created(s("/watched/gone.log"))));
    assert!(matches!(act, DriverAction::Upload(_)));
    let (st, act) = driver_step(st, DriverInput::JobFinished(Err(JobError::FileRead(s("not found")))));
    assert_eq!(st, DriverState::Watching);
    assert!(matches!(act, DriverAction::Report));
    let (st, act) = driver_step(st, DriverInput::Event(ChangeEvent::Created(s("/watched/next.log"))));
    assert_eq!(st, DriverState::Watching);
    match act {
        DriverAction::Upload(j) => assert_eq!(j.absolute_path, "/watched/next.log"),
        other => panic!("unexpected {:?}", other),
    }
}

#[test]
fn stream_errors_and_setup_failure() {
    let (st, act) = driver_step(DriverState::Watching, DriverInput::StreamError(s("channel")));
    assert_eq!(st, DriverState::Watching);
    assert!(matches!(act, DriverAction::Report));
    let (st, act) = driver_step(DriverState::Idle, DriverInput::SetupFailed(s("no such directory")));
    assert_eq!(st, DriverState::Failed);
    assert!(matches!(act, DriverAction::Stop));
    let (st, act) = driver_step(st, DriverInput::Event(ChangeEvent::Created(s("/w/a"))));
    assert_eq!(st, DriverState::Failed);
    assert!(matches!(act, DriverAction::Stop));
    let (st, act) = driver_step(DriverState::Idle, DriverInput::Event(ChangeEvent::Created(s("/w/a"))));
    assert_eq!(st, DriverState::Idle);
    assert!(matches!(act, DriverAction::Wait));
}

#[test]
fn upload_answer_with_id() {
    let r = decode_upload_response(&b"{\"id\":\"abc123\"}".to_vec());
    assert_eq!(r.unwrap(), "abc123");
    let r = upload_outcome(Ok(b"{\"id\":\"abc123\",\"other\":1}".to_vec()));
    assert_eq!(r.unwrap(), "abc123");
}

#[test]
fn upload_answer_errors() {
    assert!(matches!(decode_upload_response(&b"{\"name\":\"x\"}".to_vec()), Err(JobError::ResponseSchema)));
    assert!(matches!(decode_upload_response(&b"{\"id\":7}".to_vec()), Err(JobError::ResponseSchema)));
    assert!(matches!(decode_upload_response(&b"[\"abc123\"]".to_vec()), Err(JobError::ResponseSchema)));
    assert!(matches!(decode_upload_response(&b"not json".to_vec()), Err(JobError::ResponseParse)));
    assert!(matches!(decode_upload_response(&Vec::new()), Err(JobError::ResponseParse)));
    match upload_outcome(Err(s("connection refused"))) {
        Err(JobError::Transport(m)) => assert_eq!(m, "connection refused"),
        other => panic!("unexpected {:?}", other),
    }
}

#[test]
fn id_member_decides_the_result() {
    assert_eq!(id_from_member(Some(s("abc123"))).unwrap(), "abc123");
    assert!(matches!(id_from_member(None), Err(JobError::ResponseSchema)));
}

#[test]
fn analyzer_answer_is_passed_whole() {
    let v = decode_analyzer_response(&b"{\"ok\": true}".to_vec()).unwrap();
    assert_eq!(v.to_string(), "{\"ok\":true}");
    assert!(matches!(decode_analyzer_response(&b"{".to_vec()), Err(JobError::ResponseParse)));
}

#[test]
fn analyzer_registration_outcomes() {
    let v = register_outcome(Ok(b"{\"analyzer\":\"lowercase\"}".to_vec())).unwrap();
    assert_eq!(v["analyzer"].as_str(), Some("lowercase"));
    assert!(matches!(register_outcome(Ok(b"nope".to_vec())), Err(JobError::ResponseParse)));
    match register_outcome(Err(s("connection refused"))) {
        Err(JobError::Transport(m)) => assert_eq!(m, "connection refused"),
        other => panic!("unexpected {:?}", other),
    }
}
