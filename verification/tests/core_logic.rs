use llm_council::aggregate::{format_initial_responses, format_ranking_responses};
use llm_council::config::{get_council_chairman, get_council_members, get_document_store_url};
use llm_council::docs::{
    classify_get, document_key, prefixed_title, read_url, sort_members_by_id, write_body,
    write_url,
};
use llm_council::errors::CouncilError;
use llm_council::fanout::{
    evaluate_fanout, plan_chairman_call, plan_initial_calls, plan_ranking_calls,
    post_call_followup, CallOutcome,
};
use llm_council::gate::{check_semaphore, set_semaphore, Gate};
use llm_council::health::{build_health_report, health_url, plan_health_calls};
use llm_council::prompts::{
    build_chairman_message, build_chairman_prompt, build_member_message, build_ranking_message,
    build_ranking_prompt,
};
use llm_council::routes::{
    completion_response, error_message, health_response, is_alive_body, not_found_response,
    route_request, str_equal, Route,
};
use llm_council::schema::{ConfigStore, CouncilMember, Parameters, ResponseObject};
use llm_council::text::{debug_quote, str_contains, usize_to_decimal};

fn member(id: usize, name: &str, url: &str, model: &str) -> CouncilMember {
    CouncilMember {
        id,
        name: name.to_string(),
        url: url.to_string(),
        model: model.to_string(),
    }
}

#[test]
fn gate_admits_exactly_one_of_two_requests() {
    let mut gate = Gate::new();
    assert!(!check_semaphore(&gate));
    let first = gate.try_acquire();
    let second = gate.try_acquire();
    assert!(first);
    assert!(!second);
    gate.release();
    assert!(gate.try_acquire());
    set_semaphore(&mut gate, false);
    assert!(!check_semaphore(&gate));
}

#[test]
fn labeling_is_deterministic_and_ascending() {
    let records = vec![
        ("Alpha".to_string(), "ta".to_string()),
        ("Beta".to_string(), "tb".to_string()),
        ("Gamma".to_string(), "tc".to_string()),
    ];
    let (merged1, mapping1) = format_initial_responses(&records);
    let (merged2, mapping2) = format_initial_responses(&records);
    assert_eq!(merged1, merged2);
    assert_eq!(mapping1, mapping2);
    assert_eq!(merged1, "Response A:taResponse B:tbResponse C:tc");
    assert_eq!(
        mapping1,
        vec![
            ("Alpha".to_string(), "Response A".to_string()),
            ("Beta".to_string(), "Response B".to_string()),
            ("Gamma".to_string(), "Response C".to_string()),
        ]
    );
    assert_eq!(format_ranking_responses(&records), merged1);
    let empty: Vec<(String, String)> = Vec::new();
    let (merged_empty, mapping_empty) = format_initial_responses(&empty);
    assert_eq!(merged_empty, "");
    assert!(mapping_empty.is_empty());
}

#[test]
fn decimal_rendering_is_exact() {
    assert_eq!(usize_to_decimal(0), "0");
    assert_eq!(usize_to_decimal(7), "7");
    assert_eq!(usize_to_decimal(100), "100");
    assert_eq!(usize_to_decimal(16384), "16384");
    assert_eq!(usize_to_decimal(4294967295), "4294967295");
}

#[test]
fn debug_quote_wraps_and_escapes() {
    assert_eq!(debug_quote("Q"), "\"Q\"");
    assert_eq!(debug_quote("a\"b"), "\"a\\\"b\"");
    assert_eq!(debug_quote("line\nbreak"), "\"line\\nbreak\"");
}

#[test]
fn substring_search_matches_std() {
    assert!(str_contains("/api/v1/chat/completions", "/v1/chat/completions"));
    assert!(!str_contains("/v1/chat", "/v1/chat/completions"));
    assert!(str_contains("abc", ""));
    assert!(!str_contains("", "a"));
    assert!(str_equal("POST", "POST"));
    assert!(!str_equal("POST", "GET"));
}

#[test]
fn member_message_is_exact() {
    assert_eq!(
        build_member_message("m1", "Q", 100),
        "{ \"model\": \"m1\", \"messages\": [{\"role\": \"user\", \"content\": \"Q\" }], \"max_tokens\": 100 }"
    );
}

#[test]
fn ranking_message_is_exact() {
    assert_eq!(
        build_ranking_message("m1", "SP"),
        "{ \"model\": \"m1\", \"messages\": [{\"role\": \"user\", \"content\": \"SP\" }], \"max_tokens\": 16384 }"
    );
}

#[test]
fn chairman_message_omits_token_budget() {
    let msg = build_chairman_message("m9", "SP");
    assert_eq!(
        msg,
        "{ \"model\": \"m9\", \"messages\": [{\"role\": \"user\", \"content\": \"SP\" }] }"
    );
    assert!(!msg.contains("max_tokens"));
}

#[test]
fn ranking_prompt_embeds_question_and_responses() {
    let p = build_ranking_prompt("Q", "Response A:ta");
    assert!(p.contains("You are evaluating different responses to the following question:"));
    assert!(p.contains("Question \"Q\""));
    assert!(p.contains("\"Response A:ta\""));
    assert!(p.contains("FINAL RANKING:"));
    assert!(p.ends_with("Now provide your evaluation and ranking:\n        "));
}

#[test]
fn chairman_prompt_embeds_all_three_texts() {
    let p = build_chairman_prompt("Q", "IM", "RM");
    assert!(p.contains("You are the Chairman of an LLM Council."));
    assert!(p.contains("Original Question \"Q\""));
    assert!(p.contains("STAGE 1 - Individual Responses:\n        \"IM\""));
    assert!(p.contains("STAGE 2 - Peer Rankings:\n        \"RM\""));
}

#[test]
fn document_names_and_urls_are_exact() {
    assert_eq!(document_key("Alpha", "initial-t1"), "Alpha-initial-t1.md");
    assert_eq!(prefixed_title("initial", "t1"), "initial-t1");
    assert_eq!(prefixed_title("chairman-summary", "t1"), "chairman-summary-t1");
    assert_eq!(
        read_url("http://docs", "Alpha", "initial-t1"),
        "http://docs/read?document=Alpha-initial-t1.md"
    );
    assert_eq!(write_url("http://docs"), "http://docs/write");
    assert_eq!(
        write_body("Alpha", "initial-t1", "body text"),
        "{ \"document\": \"Alpha-initial-t1.md\", \"content\" : body text }"
    );
}

#[test]
fn classify_get_requires_success_status() {
    assert_eq!(classify_get(200, "text".to_string()), Ok("text".to_string()));
    match classify_get(404, "gone".to_string()) {
        Err(CouncilError::PersistenceFailure { detail }) => {
            assert_eq!(detail, "error status code 404");
        }
        other => panic!("unexpected outcome {:?}", other.is_ok()),
    }
}

#[test]
fn members_sort_ascending_by_id() {
    let members = vec![
        member(3, "Gamma", "u3", "m3"),
        member(1, "Alpha", "u1", "m1"),
        member(2, "Beta", "u2", "m2"),
    ];
    let sorted = sort_members_by_id(members);
    let names: Vec<&str> = sorted.iter().map(|m| m.name.as_str()).collect();
    assert_eq!(names, vec!["Alpha", "Beta", "Gamma"]);
}

#[test]
fn config_accessors_report_missing_configuration() {
    let empty = ConfigStore { params: None };
    assert!(matches!(
        get_council_members(&empty),
        Err(CouncilError::ConfigurationMissing { .. })
    ));
    assert!(matches!(
        get_council_chairman(&empty),
        Err(CouncilError::ConfigurationMissing { .. })
    ));
    assert!(matches!(
        get_document_store_url(&empty),
        Err(CouncilError::ConfigurationMissing { .. })
    ));
    let store = ConfigStore {
        params: Some(Parameters {
            council_members: vec![member(1, "Alpha", "u1", "m1")],
            council_chairman: member(1, "Alpha", "u1", "m1"),
            document_service_url: "http://docs".to_string(),
            server_port: 8080,
            log_level: "info".to_string(),
        }),
    };
    assert_eq!(get_council_members(&store).unwrap().len(), 1);
    assert_eq!(get_council_chairman(&store).unwrap().name, "Alpha");
    assert_eq!(get_document_store_url(&store).unwrap(), "http://docs");
}

#[test]
fn initial_plan_covers_every_member() {
    let members = vec![member(1, "Alpha", "u1", "m1"), member(2, "Beta", "u2", "m2")];
    let plan = plan_initial_calls(&members, "/v1/chat/completions", "t1", "Q", 100);
    assert_eq!(plan.len(), 2);
    assert_eq!(plan[0].member_name, "Alpha");
    assert_eq!(plan[0].url, "u1/v1/chat/completions");
    assert_eq!(plan[0].doc_title, "initial-t1");
    assert_eq!(plan[0].body, build_member_message("m1", "Q", 100));
    assert_eq!(plan[1].member_name, "Beta");
    assert_eq!(plan[1].body, build_member_message("m2", "Q", 100));
}

#[test]
fn ranking_plan_uses_fixed_token_budget() {
    let members = vec![member(1, "Alpha", "u1", "m1")];
    let plan = plan_ranking_calls(&members, "/v1/chat/completions", "t1", "SP");
    assert_eq!(plan.len(), 1);
    assert_eq!(plan[0].doc_title, "ranking-t1");
    assert_eq!(plan[0].body, build_ranking_message("m1", "SP"));
}

#[test]
fn chairman_plan_targets_the_chairman() {
    let chairman = member(9, "Omega", "u9", "m9");
    let plan = plan_chairman_call(&chairman, "/v1/chat/completions", "t1", "SP");
    assert_eq!(plan.member_name, "Omega");
    assert_eq!(plan.url, "u9/v1/chat/completions");
    assert_eq!(plan.doc_title, "chairman-summary-t1");
    assert_eq!(plan.body, build_chairman_message("m9", "SP"));
}

#[test]
fn followup_persists_only_success() {
    let write = post_call_followup("Alpha", "http://docs", "initial-t1", 200, "body text");
    assert_eq!(
        write,
        Some((
            "http://docs/write".to_string(),
            "{ \"document\": \"Alpha-initial-t1.md\", \"content\" : body text }".to_string()
        ))
    );
    assert_eq!(post_call_followup("Beta", "http://docs", "initial-t1", 500, "oops"), None);
}

#[test]
fn fanout_failure_surfaces_first_bad_member() {
    let outcomes = vec![
        CallOutcome::Completed(ResponseObject {
            contents: "ok".to_string(),
            process_name: "Alpha".to_string(),
            status_code: 200,
        }),
        CallOutcome::Completed(ResponseObject {
            contents: "overloaded".to_string(),
            process_name: "Beta".to_string(),
            status_code: 503,
        }),
        CallOutcome::Completed(ResponseObject {
            contents: "ok".to_string(),
            process_name: "Gamma".to_string(),
            status_code: 200,
        }),
    ];
    match evaluate_fanout(&outcomes) {
        Err(CouncilError::RemoteCallFailure { member, status, detail }) => {
            assert_eq!(member, "Beta");
            assert_eq!(status, 503);
            assert_eq!(detail, "overloaded");
        }
        _ => panic!("expected a remote-call failure"),
    }
    let all_good = vec![CallOutcome::Completed(ResponseObject {
        contents: "ok".to_string(),
        process_name: "Alpha".to_string(),
        status_code: 200,
    })];
    assert!(evaluate_fanout(&all_good).is_ok());
    let transport = vec![CallOutcome::Transport {
        member: "Alpha".to_string(),
        detail: "connection refused".to_string(),
    }];
    match evaluate_fanout(&transport) {
        Err(CouncilError::RemoteCallFailure { member, status, detail }) => {
            assert_eq!(member, "Alpha");
            assert_eq!(status, 0);
            assert_eq!(detail, "connection refused");
        }
        _ => panic!("expected a remote-call failure"),
    }
}

#[test]
fn health_probe_report_is_exhaustive() {
    let members = vec![member(1, "Alpha", "u1", "m1"), member(2, "Beta", "u2", "m2")];
    let plan = plan_health_calls(&members);
    assert_eq!(plan.len(), 2);
    assert_eq!(plan[0], ("Alpha".to_string(), "u1/v1/health".to_string()));
    assert_eq!(health_url("http://host"), "http://host/v1/health");
    let entries = vec![
        ("Alpha".to_string(), "{\"status\":\"ok\"}".to_string()),
        ("Beta".to_string(), "connection refused".to_string()),
    ];
    let report = build_health_report(&entries);
    assert_eq!(report, "Alpha: {\"status\":\"ok\"}Beta: connection refused");
    assert!(report.contains("Alpha"));
    assert!(report.contains("{\"status\":\"ok\"}"));
    assert!(report.contains("Beta"));
    assert!(report.contains("connection refused"));
}

#[test]
fn routing_matches_the_endpoint_table() {
    assert_eq!(route_request("POST", "/v1/chat/completions"), Route::ChatCompletions);
    assert_eq!(route_request("POST", "/other"), Route::NotFound);
    assert_eq!(route_request("GET", "/v1/health"), Route::Health);
    assert_eq!(route_request("GET", "/v1/is-alive"), Route::IsAlive);
    assert_eq!(route_request("GET", "/other"), Route::NotFound);
    assert_eq!(route_request("DELETE", "/v1/health"), Route::NotFound);
}

#[test]
fn responses_carry_the_owed_status_codes() {
    let (ok_status, ok_body) = completion_response(Ok(()));
    assert_eq!(ok_status, 200);
    assert_eq!(ok_body, "[endpoints] flow_control completed\n");
    let (busy_status, busy_body) = completion_response(Err(CouncilError::GateBusy));
    assert_eq!(busy_status, 503);
    assert_eq!(busy_body, "[endpoints] still processing - try again later\n");
    let (err_status, err_body) = completion_response(Err(CouncilError::PersistenceFailure {
        detail: "boom".to_string(),
    }));
    assert_eq!(err_status, 500);
    assert_eq!(err_body, "[endpoints] error : persistence failure: boom\n");
    let (h_status, h_body) = health_response(Ok("Alpha: ok".to_string()));
    assert_eq!(h_status, 200);
    assert_eq!(h_body, "[endpoints] all_health\nAlpha: ok");
    let (nf_status, nf_body) = not_found_response();
    assert_eq!(nf_status, 404);
    assert_eq!(nf_body, "[endpoints] method/endpoint not implmented\n");
    assert_eq!(
        is_alive_body("council", "0.1.0"),
        "{ \"status\":\"ok\", \"application\": \"council\", \"version\": \"0.1.0\" }"
    );
}

#[test]
fn error_kinds_map_to_status_and_message() {
    assert_eq!(CouncilError::GateBusy.http_status(), 503);
    assert!(CouncilError::GateBusy.is_gate_busy());
    let remote = CouncilError::RemoteCallFailure {
        member: "Beta".to_string(),
        status: 503,
        detail: "overloaded".to_string(),
    };
    assert_eq!(remote.http_status(), 500);
    assert!(!remote.is_gate_busy());
    assert_eq!(error_message(&remote), "remote call failure Beta status 503: overloaded");
    let missing = CouncilError::ConfigurationMissing {
        parameter: "council_members".to_string(),
    };
    assert_eq!(missing.http_status(), 500);
    assert_eq!(error_message(&missing), "missing configuration parameter council_members");
}
