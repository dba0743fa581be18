use taxonomy_router::identity::{Credentials, User};
use taxonomy_router::payload::{ParseError, Payload};
use taxonomy_router::response::{Fetched, GetterResultMap, Status};
use taxonomy_router::payload::Binary;
use taxonomy_router::route::{find, standard, Method, Operation};
use taxonomy_router::router::{
    create, endpoints, missing, read_tagging, tagging, Call, Reply, Request, Selection, Source,
    Step, Targets, TaxonomyRouter,
};

fn json(text: &str) -> serde_json::Value {
    serde_json::from_str(text).unwrap()
}

fn request(method: Method, path: &[&str], body: &str) -> Request {
    Request {
        method,
        url: format!("http://localhost:3000/{}", path.join("/")),
        path: path.iter().map(|s| s.to_string()).collect(),
        content_type: None,
        credentials: Credentials::Absent,
        body: body.as_bytes().to_vec(),
    }
}

fn call(method: Method, path: &[&str], body: &str) -> Call {
    match TaxonomyRouter::new().handle(&request(method, path, body)) {
        Step::Invoke(call) => call,
        Step::Respond(r) => panic!("unexpected reply: {:?}", r),
    }
}

fn reply(method: Method, path: &[&str], body: &str) -> taxonomy_router::response::Response {
    match TaxonomyRouter::new().handle(&request(method, path, body)) {
        Step::Respond(r) => r,
        Step::Invoke(c) => panic!("unexpected call: {:?}", c),
    }
}

fn segments(path: &[&str]) -> Vec<String> {
    path.iter().map(|s| s.to_string()).collect()
}

#[test]
fn table_has_twelve_rules_in_order() {
    let rules = standard();
    let bound: Vec<Operation> = rules.iter().map(|r| r.operation).collect();
    assert_eq!(
        bound,
        vec![
            Operation::FetchChannel,
            Operation::SendChannel,
            Operation::ListServices,
            Operation::SelectServices,
            Operation::ListChannels,
            Operation::SelectChannels,
            Operation::FetchValues,
            Operation::SendValues,
            Operation::AddServiceTags,
            Operation::AddChannelTags,
            Operation::RemoveServiceTags,
            Operation::RemoveChannelTags,
        ]
    );
}

#[test]
fn find_returns_the_matching_rule() {
    let rules = standard();
    assert_eq!(find(&rules, Method::Get, &segments(&["channel", "x"])), Some(0));
    assert_eq!(find(&rules, Method::Put, &segments(&["channel", "x"])), Some(1));
    assert_eq!(find(&rules, Method::Get, &segments(&["services"])), Some(2));
    assert_eq!(find(&rules, Method::Post, &segments(&["services"])), Some(3));
    assert_eq!(find(&rules, Method::Get, &segments(&["channels"])), Some(4));
    assert_eq!(find(&rules, Method::Post, &segments(&["channels"])), Some(5));
    assert_eq!(find(&rules, Method::Put, &segments(&["channels", "get"])), Some(6));
    assert_eq!(find(&rules, Method::Put, &segments(&["channels", "set"])), Some(7));
    assert_eq!(find(&rules, Method::Post, &segments(&["services", "tags"])), Some(8));
    assert_eq!(find(&rules, Method::Post, &segments(&["channels", "tags"])), Some(9));
    assert_eq!(find(&rules, Method::Delete, &segments(&["services", "tags"])), Some(10));
    assert_eq!(find(&rules, Method::Delete, &segments(&["channels", "tags"])), Some(11));
}

#[test]
fn find_returns_nothing_for_other_requests() {
    let rules = standard();
    assert_eq!(find(&rules, Method::Get, &segments(&["bogus"])), None);
    assert_eq!(find(&rules, Method::Get, &segments(&[])), None);
    assert_eq!(find(&rules, Method::Post, &segments(&["channel", "x"])), None);
    assert_eq!(find(&rules, Method::Get, &segments(&["channel"])), None);
    assert_eq!(find(&rules, Method::Get, &segments(&["channel", "x", "y"])), None);
    assert_eq!(find(&rules, Method::Get, &segments(&["channels", "get"])), None);
    assert_eq!(find(&rules, Method::Put, &segments(&["services", "tags"])), None);
    assert_eq!(find(&rules, Method::Get, &segments(&["Services"])), None);
    assert_eq!(find(&rules, Method::Other, &segments(&["services"])), None);
    assert_eq!(find(&rules, Method::Put, &segments(&["channels", "tags"])), None);
}

#[test]
fn at_most_one_rule_applies() {
    let rules = standard();
    let paths: Vec<Vec<String>> = vec![
        segments(&["channel", "x"]),
        segments(&["channel", "get"]),
        segments(&["services"]),
        segments(&["channels"]),
        segments(&["channels", "get"]),
        segments(&["channels", "set"]),
        segments(&["channels", "tags"]),
        segments(&["services", "tags"]),
        segments(&["bogus"]),
    ];
    for method in [Method::Get, Method::Post, Method::Put, Method::Delete, Method::Other] {
        for path in &paths {
            let n = rules.iter().filter(|r| r.applies(method, path)).count();
            assert!(n <= 1);
        }
    }
}

#[test]
fn unknown_url_is_not_found() {
    let r = reply(Method::Get, &["bogus"], "");
    assert_eq!(r.status, Status::NotFound);
    assert_eq!(r.status.code(), 404);
    assert_eq!(r.body, b"Unknown url: http://localhost:3000/bogus".to_vec());
    let text = String::from_utf8(r.body).unwrap();
    assert!(text.contains("http://localhost:3000/bogus"));
}

#[test]
fn unbound_method_is_not_found() {
    let r = reply(Method::Put, &["services"], "[]");
    assert_eq!(r.status, Status::NotFound);
    assert_eq!(r.body, b"Unknown url: http://localhost:3000/services".to_vec());
    let r = reply(Method::Delete, &["channel", "x"], "");
    assert_eq!(r.status, Status::NotFound);
}

#[test]
fn invalid_token_is_turned_away_first() {
    let mut req = request(Method::Get, &["bogus"], "");
    req.credentials = Credentials::Invalid;
    match TaxonomyRouter::new().handle(&req) {
        Step::Respond(r) => {
            assert_eq!(r.status, Status::Unauthorized);
            assert!(r.body.is_empty());
        }
        other => panic!("unexpected: {:?}", other),
    }
    let mut req = request(Method::Get, &["services"], "");
    req.credentials = Credentials::Invalid;
    assert!(matches!(
        TaxonomyRouter::new().handle(&req),
        Step::Respond(r) if r.status == Status::Unauthorized
    ));
}

#[test]
fn listing_services_needs_no_body() {
    assert!(matches!(call(Method::Get, &["services"], ""), Call::GetServices(Selection::All)));
    assert!(matches!(
        call(Method::Get, &["services"], "not json"),
        Call::GetServices(Selection::All)
    ));
}

#[test]
fn listing_no_services_gives_an_empty_list() {
    let router = TaxonomyRouter::new();
    assert!(matches!(
        router.handle(&request(Method::Get, &["services"], "")),
        Step::Invoke(Call::GetServices(Selection::All))
    ));
    let r = router.respond(&Reply::Done(serde_json::Value::Array(Vec::new())));
    assert_eq!(r.status.code(), 200);
    assert_eq!(r.content_type, Some("application/json".to_string()));
    assert_eq!(r.body, b"[]".to_vec());
}

#[test]
fn listing_channels_needs_no_body() {
    assert!(matches!(call(Method::Get, &["channels"], ""), Call::GetChannels(Selection::All)));
}

#[test]
fn selecting_services_takes_the_body() {
    let body = r#"[{"id":"service:clock@link.mozilla.org"}]"#;
    match call(Method::Post, &["services"], body) {
        Call::GetServices(Selection::Matching(v)) => assert_eq!(v, json(body)),
        other => panic!("unexpected: {:?}", other),
    }
}

#[test]
fn selecting_channels_takes_the_body() {
    let body = r#"[{"id":"getter:interval.clock@link.mozilla.org"}]"#;
    match call(Method::Post, &["channels"], body) {
        Call::GetChannels(Selection::Matching(v)) => assert_eq!(v, json(body)),
        other => panic!("unexpected: {:?}", other),
    }
}

#[test]
fn selecting_with_a_malformed_body_is_a_bad_request() {
    let r = reply(Method::Post, &["services"], "[{");
    assert_eq!(r.status, Status::BadRequest);
    assert_eq!(r.content_type, Some("text/plain; charset=utf-8".to_string()));
    assert_eq!(
        r.body,
        b"invalid JSON: EOF while parsing an object at line 1 column 2".to_vec()
    );
}

#[test]
fn fetching_one_channel_by_its_identifier() {
    let mut req = request(Method::Get, &["channel", "getter:binary@link.mozilla.org"], "");
    req.credentials = Credentials::Valid("alice".to_string());
    match TaxonomyRouter::new().handle(&req) {
        Step::Invoke(Call::FetchValues(Source::Channel(id), User::Id(subject))) => {
            assert_eq!(id, "getter:binary@link.mozilla.org");
            assert_eq!(subject, "alice");
        }
        other => panic!("unexpected: {:?}", other),
    }
}

#[test]
fn fetching_many_channels_takes_the_body() {
    let body = r#"[{"id":"getter:binary@link.mozilla.org", "feature":"x-test/x-binary"}]"#;
    match call(Method::Put, &["channels", "get"], body) {
        Call::FetchValues(Source::Matching(v), User::Anonymous) => assert_eq!(v, json(body)),
        other => panic!("unexpected: {:?}", other),
    }
}

#[test]
fn sending_binary_to_one_channel() {
    let mut req = request(Method::Put, &["channel", "setter:binary@link.mozilla.org"], "ABCDEF");
    req.content_type = Some("image/png".to_string());
    match TaxonomyRouter::new().handle(&req) {
        Step::Invoke(Call::SendValues(
            Targets::Channel(id, Payload::Binary(b)),
            User::Anonymous,
        )) => {
            assert_eq!(id, "setter:binary@link.mozilla.org");
            assert_eq!(b.mimetype, "image/png");
            assert_eq!(b.data.len(), 6);
            assert_eq!(b.data, vec![b'A', b'B', b'C', b'D', b'E', b'F']);
        }
        other => panic!("unexpected: {:?}", other),
    }
}

#[test]
fn sending_without_content_type_is_binary() {
    match call(Method::Put, &["channel", "c"], "{}") {
        Call::SendValues(Targets::Channel(_, Payload::Binary(b)), _) => {
            assert_eq!(b.mimetype, "application/octet-stream");
            assert_eq!(b.data, b"{}".to_vec());
        }
        other => panic!("unexpected: {:?}", other),
    }
}

#[test]
fn sending_json_to_one_channel() {
    let mut req =
        request(Method::Put, &["channel", "setter:json@link.mozilla.org"], r#"{ "json_body": true }"#);
    req.content_type = Some("application/json".to_string());
    match TaxonomyRouter::new().handle(&req) {
        Step::Invoke(Call::SendValues(Targets::Channel(id, Payload::Json(v)), User::Anonymous)) => {
            assert_eq!(id, "setter:json@link.mozilla.org");
            assert_eq!(serde_json::to_string(&v).unwrap(), r#"{"json_body":true}"#);
        }
        other => panic!("unexpected: {:?}", other),
    }
}

#[test]
fn json_sent_to_a_binary_channel_fails_for_that_channel_only() {
    let router = TaxonomyRouter::new();
    let mut req = request(Method::Put, &["channel", "setter:x"], r#"{"a":1}"#);
    req.content_type = Some("application/json".to_string());
    match router.handle(&req) {
        Step::Invoke(Call::SendValues(Targets::Channel(id, Payload::Json(v)), _)) => {
            assert_eq!(id, "setter:x");
            assert_eq!(v, json(r#"{"a":1}"#));
        }
        other => panic!("unexpected: {:?}", other),
    }
    let outcome = json(r#"{"setter:x":{"Error":{"TypeError":"Binary"}}}"#);
    let r = router.respond(&Reply::Done(outcome));
    assert_eq!(r.status, Status::Success);
    assert_eq!(r.content_type, Some("application/json".to_string()));
    assert_eq!(r.body, br#"{"setter:x":{"Error":{"TypeError":"Binary"}}}"#.to_vec());
}

#[test]
fn sending_malformed_json_to_one_channel_is_a_bad_request() {
    let mut req = request(Method::Put, &["channel", "c"], "{");
    req.content_type = Some("application/json".to_string());
    match TaxonomyRouter::new().handle(&req) {
        Step::Respond(r) => {
            assert_eq!(r.status, Status::BadRequest);
            assert_eq!(
                r.body,
                b"invalid JSON: EOF while parsing an object at line 1 column 1".to_vec()
            );
        }
        other => panic!("unexpected: {:?}", other),
    }
}

#[test]
fn structured_body_that_is_not_text_is_a_bad_request() {
    let routes: Vec<(Method, Vec<&str>)> = vec![
        (Method::Post, vec!["services"]),
        (Method::Post, vec!["channels"]),
        (Method::Put, vec!["channels", "get"]),
        (Method::Put, vec!["channels", "set"]),
        (Method::Post, vec!["services", "tags"]),
        (Method::Delete, vec!["services", "tags"]),
        (Method::Post, vec!["channels", "tags"]),
        (Method::Delete, vec!["channels", "tags"]),
    ];
    for (method, path) in routes {
        let mut req = request(method, &path, "");
        req.body = vec![0xff];
        match TaxonomyRouter::new().handle(&req) {
            Step::Respond(r) => {
                assert_eq!(r.status, Status::BadRequest);
                assert_eq!(r.status.code(), 400);
                assert_eq!(r.content_type, Some("text/plain; charset=utf-8".to_string()));
                assert_eq!(r.body, b"invalid value at body: not valid UTF-8".to_vec());
            }
            other => panic!("unexpected: {:?}", other),
        }
    }
    let mut req = request(Method::Put, &["channel", "c"], "");
    req.body = vec![b'{', 0xff, b'}'];
    req.content_type = Some("application/json".to_string());
    match TaxonomyRouter::new().handle(&req) {
        Step::Respond(r) => {
            assert_eq!(r.status, Status::BadRequest);
            assert_eq!(r.body, b"invalid value at body: not valid UTF-8".to_vec());
        }
        other => panic!("unexpected: {:?}", other),
    }
}

#[test]
fn binary_body_that_is_not_text_is_sent_on() {
    let mut req = request(Method::Put, &["channel", "c"], "");
    req.body = vec![0xff, 0x00];
    req.content_type = Some("image/png".to_string());
    assert!(matches!(
        TaxonomyRouter::new().handle(&req),
        Step::Invoke(Call::SendValues(Targets::Channel(_, Payload::Binary(_)), _))
    ));
}

#[test]
fn body_is_wanted_where_the_route_takes_one() {
    let router = TaxonomyRouter::new();
    let wanted: Vec<(Method, Vec<&str>)> = vec![
        (Method::Put, vec!["channel", "c"]),
        (Method::Post, vec!["services"]),
        (Method::Post, vec!["channels"]),
        (Method::Put, vec!["channels", "get"]),
        (Method::Put, vec!["channels", "set"]),
        (Method::Post, vec!["services", "tags"]),
        (Method::Delete, vec!["services", "tags"]),
        (Method::Post, vec!["channels", "tags"]),
        (Method::Delete, vec!["channels", "tags"]),
    ];
    for (method, path) in wanted {
        assert!(router.wants_body(&request(method, &path, "")));
        let mut refused = request(method, &path, "");
        refused.credentials = Credentials::Invalid;
        assert!(!router.wants_body(&refused));
    }
    let unwanted: Vec<(Method, Vec<&str>)> = vec![
        (Method::Get, vec!["channel", "c"]),
        (Method::Get, vec!["services"]),
        (Method::Get, vec!["channels"]),
        (Method::Get, vec!["bogus"]),
        (Method::Put, vec!["services"]),
        (Method::Other, vec!["channels", "get"]),
    ];
    for (method, path) in unwanted {
        assert!(!router.wants_body(&request(method, &path, "{}")));
    }
}

#[test]
fn unwanted_body_changes_nothing() {
    let router = TaxonomyRouter::new();
    let with = router.handle(&request(Method::Get, &["channel", "c"], "\u{0}garbage"));
    let without = router.handle(&request(Method::Get, &["channel", "c"], ""));
    assert_eq!(format!("{:?}", with), format!("{:?}", without));
    let with = router.handle(&request(Method::Get, &["bogus"], "x"));
    let without = router.handle(&request(Method::Get, &["bogus"], ""));
    assert_eq!(format!("{:?}", with), format!("{:?}", without));
}

#[test]
fn sending_to_many_channels_takes_the_body() {
    let body = r#"[{"select":{"id":"c"},"value":{"OnOff":"On"}}]"#;
    match call(Method::Put, &["channels", "set"], body) {
        Call::SendValues(Targets::Pairs(v), User::Anonymous) => assert_eq!(v, json(body)),
        other => panic!("unexpected: {:?}", other),
    }
}

#[test]
fn adding_channel_tags_takes_both_fields() {
    let router = TaxonomyRouter::new();
    let body = r#"{"channels":[{"id":"c1"}],"tags":["t1"]}"#;
    match router.handle(&request(Method::Post, &["channels", "tags"], body)) {
        Step::Invoke(Call::AddChannelTags(t)) => {
            assert_eq!(t.selectors, json(r#"[{"id":"c1"}]"#));
            assert_eq!(t.tags, json(r#"["t1"]"#));
        }
        other => panic!("unexpected: {:?}", other),
    }
    let r = router.respond(&Reply::Done(json(r#"{"c1":1}"#)));
    assert_eq!(r.status, Status::Success);
    assert_eq!(r.body, br#"{"c1":1}"#.to_vec());
    let r = router.respond(&Reply::Done(json(r#"{"c1":0}"#)));
    assert_eq!(r.status, Status::Success);
    assert_eq!(r.body, br#"{"c1":0}"#.to_vec());
}

#[test]
fn tag_routes_lead_to_their_calls() {
    let s = r#"{"services":[{"id":"s"}],"tags":["t"]}"#;
    let c = r#"{"channels":[{"id":"c"}],"tags":["t"]}"#;
    assert!(matches!(call(Method::Post, &["services", "tags"], s), Call::AddServiceTags(_)));
    assert!(matches!(call(Method::Delete, &["services", "tags"], s), Call::RemoveServiceTags(_)));
    assert!(matches!(call(Method::Post, &["channels", "tags"], c), Call::AddChannelTags(_)));
    assert!(matches!(call(Method::Delete, &["channels", "tags"], c), Call::RemoveChannelTags(_)));
    match call(Method::Delete, &["services", "tags"], s) {
        Call::RemoveServiceTags(t) => {
            assert_eq!(t.selectors, json(r#"[{"id":"s"}]"#));
            assert_eq!(t.tags, json(r#"["t"]"#));
        }
        other => panic!("unexpected: {:?}", other),
    }
}

#[test]
fn missing_selectors_are_reported() {
    let r = reply(Method::Post, &["channels", "tags"], r#"{"services":[],"tags":[]}"#);
    assert_eq!(r.status, Status::BadRequest);
    assert_eq!(r.content_type, Some("text/plain; charset=utf-8".to_string()));
    assert_eq!(r.body, b"missing field channels at body.channels".to_vec());
}

#[test]
fn missing_tags_are_reported() {
    let r = reply(Method::Delete, &["services", "tags"], r#"{"services":[]}"#);
    assert_eq!(r.status, Status::BadRequest);
    assert_eq!(r.body, b"missing field tags at body.tags".to_vec());
}

#[test]
fn missing_selectors_are_reported_first() {
    let r = reply(Method::Post, &["services", "tags"], "{}");
    assert_eq!(r.body, b"missing field services at body.services".to_vec());
    let r = reply(Method::Post, &["services", "tags"], "[1, 2]");
    assert_eq!(r.body, b"missing field services at body.services".to_vec());
}

#[test]
fn tagging_reports_the_first_missing_member() {
    let v = json("[]");
    assert!(matches!(
        tagging(None, Some(v.clone()), "services"),
        Err(ParseError::MissingField { ref name, ref at })
            if name == "services" && at == "body.services"
    ));
    assert!(matches!(
        tagging(Some(v.clone()), None, "services"),
        Err(ParseError::MissingField { ref name, ref at })
            if name == "tags" && at == "body.tags"
    ));
    assert!(matches!(
        tagging(None, None, "channels"),
        Err(ParseError::MissingField { ref name, .. }) if name == "channels"
    ));
    match tagging(Some(json("[1]")), Some(json("[2]")), "channels") {
        Ok(t) => {
            assert_eq!(t.selectors, json("[1]"));
            assert_eq!(t.tags, json("[2]"));
        }
        other => panic!("unexpected: {:?}", other),
    }
}

#[test]
fn read_tagging_reports_malformed_bodies() {
    assert!(matches!(read_tagging(&b"{".to_vec(), "services"), Err(ParseError::Json { .. })));
    assert!(matches!(
        read_tagging(&vec![0x80], "services"),
        Err(ParseError::Invalid { ref at, .. }) if at == "body"
    ));
}

#[test]
fn missing_builds_the_error() {
    match missing("tags") {
        ParseError::MissingField { name, at } => {
            assert_eq!(name, "tags");
            assert_eq!(at, "body.tags");
        }
        other => panic!("unexpected: {:?}", other),
    }
}

#[test]
fn rejected_arguments_are_a_bad_request() {
    let router = TaxonomyRouter::new();
    let r = router.respond(&Reply::Rejected(ParseError::Invalid {
        at: "body[0].id".to_string(),
        message: "expected a string".to_string(),
    }));
    assert_eq!(r.status, Status::BadRequest);
    assert_eq!(r.content_type, Some("text/plain; charset=utf-8".to_string()));
    assert_eq!(r.body, b"invalid value at body[0].id: expected a string".to_vec());
}

#[test]
fn failed_conversion_is_an_internal_error() {
    let r = TaxonomyRouter::new().respond(&Reply::Failed);
    assert_eq!(r.status, Status::InternalServerError);
    assert!(r.body.is_empty());
}

#[test]
fn fetched_binary_is_sent_raw() {
    let router = TaxonomyRouter::new();
    let mut map = GetterResultMap::new();
    map.insert(
        "getter:binary@link.mozilla.org".to_string(),
        Fetched::Value(Payload::Binary(Binary {
            mimetype: "image/png".to_string(),
            data: vec![1, 2, 3, 10, 11, 12],
        })),
    );
    let r = router.respond(&Reply::Fetched(map, json("{}")));
    assert_eq!(r.status, Status::Success);
    assert_eq!(r.content_type, Some("image/png".to_string()));
    assert_eq!(r.body, vec![1, 2, 3, 10, 11, 12]);
}

#[test]
fn fetched_binary_without_media_type_has_no_reply() {
    let router = TaxonomyRouter::new();
    let mut map = GetterResultMap::new();
    map.insert(
        "a".to_string(),
        Fetched::Value(Payload::Binary(Binary {
            mimetype: "no media type".to_string(),
            data: vec![1],
        })),
    );
    assert!(router.try_respond(&Reply::Fetched(map, json("{}"))).is_none());

    let mut two = GetterResultMap::new();
    for id in ["a", "b"] {
        two.insert(
            id.to_string(),
            Fetched::Value(Payload::Binary(Binary {
                mimetype: "no media type".to_string(),
                data: vec![1],
            })),
        );
    }
    let r = router.try_respond(&Reply::Fetched(two, json("{}"))).expect("a reply");
    assert_eq!(r.content_type, Some("application/json".to_string()));
    assert_eq!(r.body, b"{}".to_vec());
}

#[test]
fn checked_replies_are_the_replies() {
    let router = TaxonomyRouter::new();
    let r = router.try_respond(&Reply::Done(json("[]"))).expect("a reply");
    assert_eq!(r.status, Status::Success);
    assert_eq!(r.body, b"[]".to_vec());
    let r = router.try_respond(&Reply::Failed).expect("a reply");
    assert_eq!(r.status, Status::InternalServerError);
    let mut map = GetterResultMap::new();
    map.insert(
        "a".to_string(),
        Fetched::Value(Payload::Binary(Binary {
            mimetype: "image/png".to_string(),
            data: vec![1, 2],
        })),
    );
    let r = router.try_respond(&Reply::Fetched(map, json("{}"))).expect("a reply");
    assert_eq!(r.content_type, Some("image/png".to_string()));
    assert_eq!(r.body, vec![1, 2]);
}

#[test]
fn fetched_values_are_sent_as_json() {
    let router = TaxonomyRouter::new();
    let mut map = GetterResultMap::new();
    map.insert("a".to_string(), Fetched::Value(Payload::Json(json("1"))));
    map.insert("b".to_string(), Fetched::Error("no such channel".to_string()));
    let rendered = json(r#"{"a":1,"b":{"Error":"no such channel"}}"#);
    let r = router.respond(&Reply::Fetched(map, rendered));
    assert_eq!(r.status, Status::Success);
    assert_eq!(r.content_type, Some("application/json".to_string()));
    assert_eq!(r.body, br#"{"a":1,"b":{"Error":"no such channel"}}"#.to_vec());
}

#[test]
fn endpoints_are_listed() {
    let list: Vec<(Vec<Method>, String)> =
        endpoints().into_iter().map(|e| (e.methods, e.path)).collect();
    assert_eq!(
        list,
        vec![
            (vec![Method::Get, Method::Post], "services".to_string()),
            (vec![Method::Post, Method::Delete], "services/tags".to_string()),
            (vec![Method::Get, Method::Post], "channels".to_string()),
            (vec![Method::Put], "channels/get".to_string()),
            (vec![Method::Put], "channels/set".to_string()),
            (vec![Method::Post, Method::Delete], "channels/tags".to_string()),
            (vec![Method::Get, Method::Put], "channel/:id".to_string()),
        ]
    );
}

#[test]
fn create_without_authentication_protects_nothing() {
    let (router, endpoints, protected) = create(false);
    assert_eq!(endpoints.len(), 7);
    assert!(protected.is_empty());
    assert!(matches!(
        router.handle(&request(Method::Get, &["channels"], "")),
        Step::Invoke(Call::GetChannels(Selection::All))
    ));
}

#[test]
fn create_with_authentication_protects_every_endpoint() {
    let (_, endpoints, protected) = create(true);
    assert_eq!(protected.len(), 7);
    for (e, p) in endpoints.iter().zip(protected.iter()) {
        assert_eq!(e.methods, p.methods);
        assert_eq!(e.path, p.path);
    }
}

#[test]
fn every_endpoint_is_routed() {
    let rules = standard();
    for e in endpoints() {
        let path: Vec<String> = e
            .path
            .split('/')
            .map(|s| if s == ":id" { "some-id".to_string() } else { s.to_string() })
            .collect();
        for m in &e.methods {
            assert!(find(&rules, *m, &path).is_some());
        }
    }
}
