use memora::codec::{decode_add_background, decode_batch_memory_request,
    decode_batch_memory_response, decode_document, decode_document_details, decode_fact,
    decode_memory_item, decode_operation, decode_personality, decode_profile,
    decode_search_request, decode_search_response, decode_stats, decode_think_request,
    decode_think_response, decode_update_personality, decode_delete_response,
    decode_documents_response, decode_operations_response, decode_background_response,
    discriminate_agents, encode_add_background, encode_batch_memory_request,
    encode_memory_item, encode_personality, encode_search_request, encode_think_request,
    encode_update_personality};
use memora::domain::{AddBackgroundRequest, AgentsResponse, BatchMemoryRequest, MemoryItem,
    NumberText, PersonalityTraits, SearchRequest, ThinkRequest, UpdatePersonalityRequest};
use memora::parse::json_parse;
use memora::render::json_render;

fn num(text: &str) -> NumberText {
    NumberText::new(String::from(text)).expect("a number lexeme")
}

fn traits() -> PersonalityTraits {
    PersonalityTraits {
        openness: num("0.1"),
        conscientiousness: num("0.25"),
        extraversion: num("0.5"),
        agreeableness: num("0.75"),
        neuroticism: num("0.9"),
        bias_strength: num("0.33"),
    }
}

#[test]
fn search_request_rendered_text_round_trips() {
    let req = SearchRequest {
        query: String::from("what happened?"),
        fact_type: vec![String::from("world"), String::from("opinion")],
        thinking_budget: 3,
        max_tokens: 2048,
        trace: true,
    };
    let text = json_render(&encode_search_request(&req));
    assert_eq!(
        text,
        "{\"query\":\"what happened?\",\"fact_type\":[\"world\",\"opinion\"],\
         \"thinking_budget\":3,\"max_tokens\":2048,\"trace\":true}"
    );
    let back = decode_search_request(&json_parse(&text).expect("parses")).expect("decodes");
    assert_eq!(back, req);
}

#[test]
fn think_request_rendered_text_round_trips() {
    let with_ctx = ThinkRequest {
        query: String::from("why?"),
        thinking_budget: 1,
        context: Some(String::from("a ctx")),
    };
    let text = json_render(&encode_think_request(&with_ctx));
    assert_eq!(text, "{\"query\":\"why?\",\"thinking_budget\":1,\"context\":\"a ctx\"}");
    let back = decode_think_request(&json_parse(&text).expect("parses")).expect("decodes");
    assert_eq!(back, with_ctx);

    let without = ThinkRequest { query: String::from("why?"), thinking_budget: 1, context: None };
    let text2 = json_render(&encode_think_request(&without));
    assert_eq!(text2, "{\"query\":\"why?\",\"thinking_budget\":1}");
    let back2 = decode_think_request(&json_parse(&text2).expect("parses")).expect("decodes");
    assert_eq!(back2, without);
}

#[test]
fn batch_memory_request_rendered_text_round_trips() {
    let req = BatchMemoryRequest {
        items: vec![
            MemoryItem { content: String::from("one"), context: Some(String::from("ctx")) },
            MemoryItem { content: String::from("two"), context: None },
        ],
        document_id: None,
    };
    let text = json_render(&encode_batch_memory_request(&req));
    assert_eq!(
        text,
        "{\"items\":[{\"content\":\"one\",\"context\":\"ctx\"},\
         {\"content\":\"two\",\"context\":null}],\"document_id\":null}"
    );
    let back = decode_batch_memory_request(&json_parse(&text).expect("parses")).expect("decodes");
    assert_eq!(back, req);

    let item = MemoryItem { content: String::from("solo"), context: None };
    let t = json_render(&encode_memory_item(&item));
    let b = decode_memory_item(&json_parse(&t).expect("parses")).expect("decodes");
    assert_eq!(b, item);
}

#[test]
fn update_personality_request_rendered_text_round_trips() {
    let req = UpdatePersonalityRequest { personality: traits() };
    let text = json_render(&encode_update_personality(&req));
    assert_eq!(
        text,
        "{\"personality\":{\"openness\":0.1,\"conscientiousness\":0.25,\"extraversion\":0.5,\
         \"agreeableness\":0.75,\"neuroticism\":0.9,\"bias_strength\":0.33}}"
    );
    let back = decode_update_personality(&json_parse(&text).expect("parses")).expect("decodes");
    assert_eq!(back, req);
}

#[test]
fn personality_values_survive_exactly() {
    let t = traits();
    let text = json_render(&encode_personality(&t));
    let back = decode_personality(&json_parse(&text).expect("parses")).expect("decodes");
    assert_eq!(back.openness.text, "0.1");
    assert_eq!(back.conscientiousness.text, "0.25");
    assert_eq!(back.extraversion.text, "0.5");
    assert_eq!(back.agreeableness.text, "0.75");
    assert_eq!(back.neuroticism.text, "0.9");
    assert_eq!(back.bias_strength.text, "0.33");
}

#[test]
fn add_background_request_rendered_text_round_trips() {
    let req = AddBackgroundRequest {
        content: String::from("born in a small town"),
        update_personality: false,
    };
    let text = json_render(&encode_add_background(&req));
    assert_eq!(
        text,
        "{\"content\":\"born in a small town\",\"update_personality\":false}"
    );
    let back = decode_add_background(&json_parse(&text).expect("parses")).expect("decodes");
    assert_eq!(back, req);
}

#[test]
fn fact_decodes_with_and_without_optionals() {
    let full = json_parse(
        "{\"id\":\"f1\",\"text\":\"sky is blue\",\"type\":\"world\",\"activation\":0.87,\
         \"context\":\"seen\",\"event_date\":\"2024-01-01\"}",
    )
    .expect("parses");
    let f = decode_fact(&full).expect("decodes");
    assert_eq!(f.id.as_deref(), Some("f1"));
    assert_eq!(f.text, "sky is blue");
    assert_eq!(f.fact_type.as_deref(), Some("world"));
    assert_eq!(f.activation.as_ref().map(|n| n.text.as_str()), Some("0.87"));
    assert_eq!(f.context.as_deref(), Some("seen"));
    assert_eq!(f.event_date.as_deref(), Some("2024-01-01"));

    let bare = json_parse("{\"text\":\"only text\"}").expect("parses");
    let g = decode_fact(&bare).expect("decodes");
    assert_eq!(g.text, "only text");
    assert!(g.id.is_none() && g.fact_type.is_none() && g.activation.is_none());
    assert!(g.context.is_none() && g.event_date.is_none());

    let nulls = json_parse("{\"text\":\"t\",\"id\":null,\"activation\":null}").expect("parses");
    let h = decode_fact(&nulls).expect("decodes");
    assert!(h.id.is_none() && h.activation.is_none());

    assert!(decode_fact(&json_parse("{\"id\":\"f1\"}").unwrap()).is_none());
    assert!(decode_fact(&json_parse("{\"text\":7}").unwrap()).is_none());
    assert!(decode_fact(&json_parse("[]").unwrap()).is_none());
}

#[test]
fn search_response_decodes() {
    let doc = json_parse(
        "{\"results\":[{\"text\":\"a\"},{\"text\":\"b\",\"activation\":1.5}],\
         \"trace\":{\"total_time\":0.25,\"activation_count\":17}}",
    )
    .expect("parses");
    let r = decode_search_response(&doc).expect("decodes");
    assert_eq!(r.results.len(), 2);
    assert_eq!(r.results[0].text, "a");
    assert_eq!(r.results[1].activation.as_ref().unwrap().text, "1.5");
    let trace = r.trace.expect("trace present");
    assert_eq!(trace.total_time.unwrap().text, "0.25");
    assert_eq!(trace.activation_count, Some(17));

    let no_trace = json_parse("{\"results\":[]}").expect("parses");
    let r2 = decode_search_response(&no_trace).expect("decodes");
    assert!(r2.results.is_empty() && r2.trace.is_none());

    assert!(decode_search_response(&json_parse("{\"trace\":null}").unwrap()).is_none());
    assert!(decode_search_response(&json_parse("{\"results\":[3]}").unwrap()).is_none());
}

#[test]
fn think_response_decodes() {
    let doc = json_parse(
        "{\"text\":\"because\",\"based_on\":[{\"text\":\"f\"}],\"new_opinions\":[\"o1\"]}",
    )
    .expect("parses");
    let r = decode_think_response(&doc).expect("decodes");
    assert_eq!(r.text, "because");
    assert_eq!(r.based_on.len(), 1);
    assert_eq!(r.new_opinions, vec![String::from("o1")]);

    let empty_based = json_parse(
        "{\"text\":\"t\",\"based_on\":[],\"new_opinions\":[]}",
    ).expect("parses");
    assert!(decode_think_response(&empty_based).is_some());

    assert!(decode_think_response(
        &json_parse("{\"text\":\"t\",\"based_on\":[]}").unwrap()
    ).is_none());
}

#[test]
fn batch_memory_response_decodes() {
    let full = json_parse(
        "{\"success\":true,\"stored_count\":3,\"error\":null,\"job_id\":\"j9\"}",
    ).expect("parses");
    let r = decode_batch_memory_response(&full).expect("decodes");
    assert!(r.success);
    assert_eq!(r.stored_count, Some(3));
    assert!(r.error.is_none());
    assert_eq!(r.job_id.as_deref(), Some("j9"));

    let bare = json_parse("{\"success\":false}").expect("parses");
    let r2 = decode_batch_memory_response(&bare).expect("decodes");
    assert!(!r2.success && r2.stored_count.is_none() && r2.job_id.is_none());

    assert!(decode_batch_memory_response(&json_parse("{\"stored_count\":3}").unwrap()).is_none());
}

#[test]
fn agents_payloads_discriminate_in_priority_order() {
    let ok = json_parse("{\"agents\":[\"a1\",\"a2\"]}").expect("parses");
    match discriminate_agents(&ok).expect("a known shape") {
        AgentsResponse::Success { agents } => {
            assert_eq!(agents, vec![String::from("a1"), String::from("a2")]);
        },
        AgentsResponse::Error { .. } => panic!("read as failure"),
    }

    let failing = json_parse("{\"error\":\"db down\"}").expect("parses");
    match discriminate_agents(&failing).expect("a known shape") {
        AgentsResponse::Error { error } => assert_eq!(error, "db down"),
        AgentsResponse::Success { .. } => panic!("read as success"),
    }

    let both = json_parse("{\"agents\":[\"a\"],\"error\":\"x\"}").expect("parses");
    assert!(matches!(discriminate_agents(&both), Some(AgentsResponse::Success { .. })));

    assert!(discriminate_agents(&json_parse("{\"agents\":\"a\"}").unwrap()).is_none());
    assert!(discriminate_agents(&json_parse("{\"other\":1}").unwrap()).is_none());
}

#[test]
fn profile_and_background_decode() {
    let doc = json_parse(
        "{\"agent_id\":\"a1\",\"name\":\"Ada\",\"personality\":{\"openness\":0.1,\
         \"conscientiousness\":0.25,\"extraversion\":0.5,\"agreeableness\":0.75,\
         \"neuroticism\":0.9,\"bias_strength\":0.33},\"background\":\"maths\"}",
    )
    .expect("parses");
    let p = decode_profile(&doc).expect("decodes");
    assert_eq!(p.agent_id, "a1");
    assert_eq!(p.name, "Ada");
    assert_eq!(p.personality, traits());
    assert_eq!(p.background, "maths");

    assert!(decode_profile(&json_parse("{\"agent_id\":\"a1\",\"name\":\"n\",\
        \"background\":\"b\"}").unwrap()).is_none());

    let bg = json_parse("{\"background\":\"story\"}").expect("parses");
    let b = decode_background_response(&bg).expect("decodes");
    assert_eq!(b.background, "story");
    assert!(b.personality.is_none());
}

#[test]
fn stats_decode_keeps_breakdowns_in_order() {
    let doc = json_parse(
        "{\"agent_id\":\"a1\",\"total_nodes\":5,\"total_links\":9,\"total_documents\":2,\
         \"nodes_by_fact_type\":{\"world\":3,\"opinion\":2},\
         \"links_by_link_type\":{},\"links_by_fact_type\":{\"world\":9},\
         \"links_breakdown\":{\"world\":{\"causal\":4,\"temporal\":5}},\
         \"pending_operations\":1,\"failed_operations\":0}",
    )
    .expect("parses");
    let s = decode_stats(&doc).expect("decodes");
    assert_eq!(s.total_nodes, 5);
    assert_eq!(s.nodes_by_fact_type.len(), 2);
    assert_eq!(s.nodes_by_fact_type[0].key, "world");
    assert_eq!(s.nodes_by_fact_type[0].count, 3);
    assert_eq!(s.nodes_by_fact_type[1].key, "opinion");
    assert!(s.links_by_link_type.is_empty());
    assert_eq!(s.links_breakdown[0].key, "world");
    assert_eq!(s.links_breakdown[0].counts[1].count, 5);

    assert!(decode_stats(&json_parse("{\"agent_id\":\"a1\"}").unwrap()).is_none());
}

#[test]
fn documents_and_operations_decode() {
    let doc = json_parse(
        "{\"items\":[{\"id\":\"d1\",\"agent_id\":\"a1\",\"content_hash\":null,\
         \"created_at\":\"t0\",\"updated_at\":\"t1\",\"text_length\":10,\
         \"memory_unit_count\":2}],\"total\":1,\"limit\":20,\"offset\":0}",
    )
    .expect("parses");
    let d = decode_documents_response(&doc).expect("decodes");
    assert_eq!(d.items.len(), 1);
    assert_eq!(d.items[0].id, "d1");
    assert!(d.items[0].content_hash.is_none());
    assert_eq!(d.total, 1);

    let details = json_parse(
        "{\"id\":\"d1\",\"agent_id\":\"a1\",\"original_text\":\"full text\",\
         \"content_hash\":\"h\",\"created_at\":\"t0\",\"updated_at\":\"t1\",\
         \"memory_unit_count\":2}",
    )
    .expect("parses");
    let dd = decode_document_details(&details).expect("decodes");
    assert_eq!(dd.original_text, "full text");

    let missing_text = json_parse(
        "{\"id\":\"d1\",\"agent_id\":\"a1\",\"content_hash\":\"h\",\"created_at\":\"t0\",\
         \"updated_at\":\"t1\",\"memory_unit_count\":2}",
    ).unwrap();
    assert!(decode_document_details(&missing_text).is_none());
    assert!(decode_document(&missing_text).is_none());

    let ops = json_parse(
        "{\"agent_id\":\"a1\",\"operations\":[{\"id\":\"o1\",\"task_type\":\"ingest\",\
         \"items_count\":4,\"document_id\":null,\"created_at\":\"t\",\"status\":\"running\",\
         \"error_message\":null}]}",
    )
    .expect("parses");
    let o = decode_operations_response(&ops).expect("decodes");
    assert_eq!(o.operations[0].status, "running");
    assert!(o.operations[0].error_message.is_none());

    let op_missing_status = json_parse(
        "{\"id\":\"o1\",\"task_type\":\"t\",\"items_count\":1,\"created_at\":\"c\"}",
    ).unwrap();
    assert!(decode_operation(&op_missing_status).is_none());

    let del = json_parse("{\"success\":true,\"message\":\"gone\"}").unwrap();
    let dr = decode_delete_response(&del).expect("decodes");
    assert!(dr.success);
    assert_eq!(dr.message, "gone");
    assert!(decode_delete_response(&json_parse("{\"success\":true}").unwrap()).is_none());
}
