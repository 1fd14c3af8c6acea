use memora::client::{classify, finish_list_agents, finish_profile, finish_search,
    finish_delete, ApiClient, HttpOutcome};
use memora::error::ErrorKind;
use memora::updates::{directive_update, reflection_update};
use memora::url::{agent_item_path, agent_path, agents_path, push_docs_query};

fn response(status: u16, body: &str) -> HttpOutcome {
    HttpOutcome::Response { status, body: String::from(body) }
}

#[test]
fn non_success_status_captures_status_and_body() {
    let url = String::from("http://h/api/v1/agents/a1/profile");
    let req_body = String::from("");
    let body = "{\"error\":\"not found\"}";
    let err = classify(url.clone(), req_body.clone(), response(404, body))
        .err()
        .expect("a diagnostic error");
    assert_eq!(err.kind, ErrorKind::Status);
    assert_eq!(err.url, url);
    assert_eq!(err.request_body, req_body);
    assert_eq!(err.response_status, Some(404));
    assert_eq!(err.response_body.as_deref(), Some(body));
    assert_eq!(err.error, "API returned error status 404: {\"error\":\"not found\"}");
}

#[test]
fn transport_failure_has_no_status_or_body() {
    let err = classify(
        String::from("http://h/x"),
        String::from("{}"),
        HttpOutcome::Transport { message: String::from("connection refused") },
    )
    .err()
    .expect("a diagnostic error");
    assert_eq!(err.kind, ErrorKind::Transport);
    assert!(err.response_status.is_none());
    assert!(err.response_body.is_none());
    assert_eq!(err.error, "connection refused");
    assert_eq!(err.request_body, "{}");
}

#[test]
fn success_status_with_bad_body_is_a_parse_failure() {
    let err = classify(
        String::from("http://h/x"),
        String::new(),
        response(200, "not json at all"),
    )
    .err()
    .expect("a diagnostic error");
    assert_eq!(err.kind, ErrorKind::Parse);
    assert_eq!(err.response_status, Some(200));
    assert_eq!(err.response_body.as_deref(), Some("not json at all"));
    assert_eq!(err.error, "Failed to parse API response. Response was: not json at all");
}

#[test]
fn success_status_with_good_body_classifies_ok() {
    let c = classify(String::from("u"), String::new(), response(299, "{\"a\":1}"))
        .ok()
        .expect("classified");
    assert_eq!(c.status, 299);
    assert_eq!(c.body, "{\"a\":1}");
    let err = classify(String::from("u"), String::new(), response(199, "{}"))
        .err()
        .expect("status outside the success range");
    assert_eq!(err.kind, ErrorKind::Status);
    let err300 = classify(String::from("u"), String::new(), response(300, "{}"))
        .err()
        .expect("status outside the success range");
    assert_eq!(err300.kind, ErrorKind::Status);
}

#[test]
fn agents_listing_success_shape_lists_agents_in_order() {
    let agents = finish_list_agents(
        String::from("http://h/api/v1/agents"),
        String::new(),
        response(200, "{\"agents\":[\"a1\",\"a2\"]}"),
    )
    .expect("the success shape");
    assert_eq!(agents.len(), 2);
    assert_eq!(agents[0].agent_id, "a1");
    assert_eq!(agents[1].agent_id, "a2");
}

#[test]
fn agents_listing_failure_shape_carries_the_message() {
    let err = finish_list_agents(
        String::from("http://h/api/v1/agents"),
        String::new(),
        response(200, "{\"error\":\"db down\"}"),
    )
    .err()
    .expect("the failure shape");
    assert_eq!(err.kind, ErrorKind::Service);
    assert_eq!(err.error, "Failed to list agents: db down");
    assert_eq!(err.response_status, Some(200));
    assert_eq!(err.response_body.as_deref(), Some("{\"error\":\"db down\"}"));
}

#[test]
fn agents_listing_unknown_shape_is_a_parse_failure_naming_the_endpoint() {
    let err = finish_list_agents(
        String::from("http://h/api/v1/agents"),
        String::new(),
        response(200, "{\"agents\":17}"),
    )
    .err()
    .expect("neither shape");
    assert_eq!(err.kind, ErrorKind::Parse);
    assert!(err.error.contains("agents listing"));
}

#[test]
fn profile_echo_preserves_trait_text_exactly() {
    let echoed = "{\"agent_id\":\"a1\",\"name\":\"Ada\",\"personality\":{\"openness\":0.1,\
                  \"conscientiousness\":0.25,\"extraversion\":0.5,\"agreeableness\":0.75,\
                  \"neuroticism\":0.9,\"bias_strength\":0.33},\"background\":\"b\"}";
    let profile = finish_profile(
        String::from("http://h/api/v1/agents/a1/profile"),
        String::from("{\"personality\":{}}"),
        response(200, echoed),
    )
    .expect("decodes");
    assert_eq!(profile.personality.openness.text, "0.1");
    assert_eq!(profile.personality.conscientiousness.text, "0.25");
    assert_eq!(profile.personality.extraversion.text, "0.5");
    assert_eq!(profile.personality.agreeableness.text, "0.75");
    assert_eq!(profile.personality.neuroticism.text, "0.9");
    assert_eq!(profile.personality.bias_strength.text, "0.33");
}

#[test]
fn search_outcome_decodes_or_reports() {
    let ok = finish_search(
        String::from("u"),
        String::from("{}"),
        response(200, "{\"results\":[{\"text\":\"f1\"}]}"),
    )
    .expect("decodes");
    assert_eq!(ok.results.len(), 1);

    let wrong_shape = finish_search(
        String::from("u"),
        String::from("{}"),
        response(200, "{\"results\":\"nope\"}"),
    )
    .err()
    .expect("a decode failure");
    assert_eq!(wrong_shape.kind, ErrorKind::Parse);
    assert_eq!(wrong_shape.response_body.as_deref(), Some("{\"results\":\"nope\"}"));

    let status = finish_search(String::from("u"), String::from("{}"), response(500, "boom"))
        .err()
        .expect("a status failure");
    assert_eq!(status.kind, ErrorKind::Status);
    assert_eq!(status.error, "API returned error status 500: boom");
}

#[test]
fn delete_outcome_decodes() {
    let ok = finish_delete(
        String::from("u"),
        String::new(),
        response(200, "{\"success\":true,\"message\":\"gone\"}"),
    )
    .expect("decodes");
    assert!(ok.success);
    assert_eq!(ok.message, "gone");
}

#[test]
fn urls_substitute_encoded_components() {
    assert_eq!(agents_path("http://h"), "http://h/api/v1/agents");
    assert_eq!(
        agent_path("http://h", "plain-id_0.~", "/stats"),
        "http://h/api/v1/agents/plain-id_0.~/stats"
    );
    assert_eq!(
        agent_path("http://h", "a b/c?d", "/think"),
        "http://h/api/v1/agents/a%20b%2Fc%3Fd/think"
    );
    assert_eq!(
        agent_item_path("http://h", "a1", "/documents/", "caf\u{e9}"),
        "http://h/api/v1/agents/a1/documents/caf%C3%A9"
    );
}

#[test]
fn documents_query_keeps_only_given_parameters() {
    let mut all = String::from("base");
    push_docs_query(&Some(String::from("a b")), &Some(20), &Some(5), &mut all);
    assert_eq!(all, "base?q=a%20b&limit=20&offset=5");

    let mut none = String::from("base");
    push_docs_query(&None, &None, &None, &mut none);
    assert_eq!(none, "base");

    let mut only_offset = String::from("base");
    push_docs_query(&None, &None, &Some(0), &mut only_offset);
    assert_eq!(only_offset, "base?offset=0");

    let mut q_and_offset = String::from("base");
    push_docs_query(&Some(String::from("x")), &None, &Some(-1), &mut q_and_offset);
    assert_eq!(q_and_offset, "base?q=x&offset=-1");
}

#[test]
fn empty_update_is_rejected_before_any_network_call() {
    let err = directive_update(None, None).err().expect("rejected locally");
    assert_eq!(err.kind, ErrorKind::Validation);
    assert_eq!(err.error, "At least one of --name or --content must be provided");
    assert!(err.url.is_empty() && err.response_status.is_none());

    let ok = directive_update(Some(String::from("n")), None).expect("accepted");
    assert_eq!(ok.name.as_deref(), Some("n"));
    assert!(ok.content.is_none());

    let err2 = reflection_update(None).err().expect("rejected locally");
    assert_eq!(err2.kind, ErrorKind::Validation);
    assert_eq!(err2.error, "--name must be provided");
    assert!(reflection_update(Some(String::from("r"))).is_ok());
}

#[test]
fn unreachable_service_fails_with_a_transport_error_before_the_timeout() {
    let client = ApiClient::new(String::from("http://127.0.0.1:9")).expect("client builds");
    let started = std::time::Instant::now();
    let err = client.get_profile("a1", false).err().expect("no service is listening");
    assert_eq!(err.kind, ErrorKind::Transport);
    assert!(err.response_status.is_none() && err.response_body.is_none());
    assert!(started.elapsed() < std::time::Duration::from_secs(30));
}
