use teams_webhook_adapter::adaptive_card::AdaptiveCardData;
use teams_webhook_adapter::buildkite::{Build, BuildData, BuildState, Pipeline};
use teams_webhook_adapter::dispatch::{
    build_app_state, handle_health_check, handle_webhook, handle_webhook_dms, handle_webhookb2,
    outbound_body, receive_webhook, receive_webhook_dms, receive_webhookb2, AppState, Handled,
    Outbound, PostData, QueryParams, Reply, WebhookData, STATUS_BAD_REQUEST, STATUS_FORBIDDEN,
    STATUS_OK,
};
use teams_webhook_adapter::json::JsonValue;
use teams_webhook_adapter::registry::{
    channels_from_json, channels_from_secret, derive_whitelist, get_webhook_url, resolve,
    teams_urls_to_array, StartupError, TeamsChannelUrl, BASE_URL,
};
use teams_webhook_adapter::snitch::{DmsData, SnitchData, SnitchSubData, SnitchType};

const BASE: &str = "https://x/webhookb2/";

const BUILD_BODY: &str = "{\"pipeline\":{\"name\":\"web\",\"web_url\":\"https://buildkite.com/org/web\",\"repository\":\"git@github.com:org/web.git\"},\"build\":{\"number\":\"42\",\"commit\":\"abc123\",\"created_at\":\"2024-04-30T05:25:37Z\",\"state\":\"running\"},\"sender_name\":\"Ada\",\"creator_avatar\":\"https://a/x.png\"}";

const SNITCH_BODY: &str = "{\"type\":\"snitch.reporting\",\"timestamp\":\"2024-04-30T05:25:37.166Z\",\"data\":{\"snitch\":{\"token\":\"c2354d53d2\",\"name\":\"Critical System Reports\",\"notes\":\"Useful notes for dealing with the situation\",\"tags\":[\"critical\",\"reports\"],\"status\":\"healthy\",\"previous_status\":\"missing\"}}}";

fn channel(name: &str, url: &str) -> TeamsChannelUrl {
    TeamsChannelUrl { name: name.to_string(), url: url.to_string() }
}

fn sample_state() -> AppState {
    build_app_state(
        vec![channel("ops", "https://x/webhookb2/ABC123"), channel("dev", "https://x/webhookb2/DEF/456")],
        BASE.to_string(),
        "secret".to_string(),
    )
    .unwrap()
}

fn params(api_key: Option<&str>, channel: Option<&str>) -> QueryParams {
    QueryParams { api_key: api_key.map(String::from), channel: channel.map(String::from) }
}

fn sample_build() -> BuildData {
    BuildData {
        pipeline: Pipeline {
            name: "web".to_string(),
            web_url: "https://buildkite.com/org/web".to_string(),
            repository: "git@github.com:org/web.git".to_string(),
        },
        build: Build {
            number: "42".to_string(),
            commit: "abc123".to_string(),
            created_at: "2024-04-30T05:25:37Z".to_string(),
            state: BuildState::Running,
        },
        sender_name: "Ada".to_string(),
        creator_avatar: "https://a/x.png".to_string(),
    }
}

fn sample_snitch() -> DmsData {
    DmsData {
        snitch_type: SnitchType::Reporting,
        timestamp: "2024-04-30T05:25:37.166Z".to_string(),
        data: SnitchData {
            snitch: SnitchSubData {
                token: "c2354d53d2".to_string(),
                name: "Critical System Reports".to_string(),
                notes: String::new(),
                tags: vec![],
                status: "healthy".to_string(),
                previous_status: "missing".to_string(),
            },
        },
    }
}

fn card_text() -> String {
    AdaptiveCardData::from(sample_build()).to_json().to_text()
}

fn processed(outbound: Option<Outbound>) -> Handled {
    Handled {
        reply: Reply { status: 200, body: "Webhook processed\n".to_string() },
        outbound,
        channel_not_found: None,
    }
}

fn undeliverable(name: &str) -> Handled {
    Handled {
        reply: Reply { status: 200, body: "Webhook processed\n".to_string() },
        outbound: None,
        channel_not_found: Some(name.to_string()),
    }
}

fn turned_away(status: u16, body: &str) -> Handled {
    Handled { reply: Reply { status, body: body.to_string() }, outbound: None, channel_not_found: None }
}

#[test]
fn whitelist_holds_the_suffix_of_each_url() {
    let channels = vec![channel("ops", "https://x/webhookb2/ABC123")];
    assert_eq!(derive_whitelist(&channels, BASE), Ok(vec!["ABC123".to_string()]));
}

#[test]
fn whitelist_has_one_entry_for_each_channel() {
    let state = sample_state();
    assert_eq!(state.whitelist, vec!["ABC123".to_string(), "DEF/456".to_string()]);
    assert_eq!(state.whitelist.len(), state.channels.len());
    for (entry, channel) in state.whitelist.iter().zip(state.channels.iter()) {
        assert_eq!(format!("{}{}", state.base_url, entry), channel.url);
    }
    assert_eq!(derive_whitelist(&[], BASE), Ok(vec![]));
}

#[test]
fn whitelist_fails_on_a_url_outside_the_prefix() {
    let channels = vec![channel("ops", "https://x/webhookb2/ABC123"), channel("bad", "https://y/hook/1")];
    assert_eq!(derive_whitelist(&channels, BASE), Err(StartupError::ForeignUrl));
    assert_eq!(
        build_app_state(channels, BASE.to_string(), "k".to_string()),
        Err(StartupError::ForeignUrl)
    );
    let short = vec![channel("s", "https://x/")];
    assert_eq!(derive_whitelist(&short, BASE), Err(StartupError::ForeignUrl));
}

#[test]
fn builtin_prefix_is_stripped() {
    let url = format!("{}team/one", BASE_URL);
    let channels = vec![channel("one", &url)];
    assert_eq!(teams_urls_to_array(&channels), vec!["team/one".to_string()]);
    assert_eq!(BASE_URL, "https://<yoursite>.webhook.office.com/webhookb2/");
}

#[test]
fn channels_resolve_by_exact_name() {
    let state = sample_state();
    assert_eq!(resolve(&state.channels, "ops"), Some("https://x/webhookb2/ABC123"));
    assert_eq!(resolve(&state.channels, "dev"), Some("https://x/webhookb2/DEF/456"));
    assert_eq!(resolve(&state.channels, "Ops"), None);
    assert_eq!(resolve(&state.channels, "op"), None);
    assert_eq!(resolve(&[], "ops"), None);
    let twice = vec![channel("a", "u1"), channel("a", "u2")];
    assert_eq!(resolve(&twice, "a"), Some("u1"));
}

#[test]
fn unknown_channel_has_no_url() {
    let state = sample_state();
    assert_eq!(
        get_webhook_url(state.channels.clone(), "ops".to_string()),
        Some("https://x/webhookb2/ABC123".to_string())
    );
    assert_eq!(get_webhook_url(state.channels.clone(), "nowhere".to_string()), None);
    assert_eq!(get_webhook_url(vec![], "none".to_string()), None);
    assert_eq!(get_webhook_url(vec![], String::new()), None);
}

#[test]
fn neither_case_nor_prefix_makes_a_match() {
    let channels = vec![
        channel("Ops", "https://x/webhookb2/ABC123"),
        channel("ops-prod", "https://x/webhookb2/DEF456"),
    ];
    assert_eq!(get_webhook_url(channels.clone(), "ops".to_string()), None);
    assert_eq!(resolve(&channels, "ops"), None);
    assert_eq!(
        get_webhook_url(channels.clone(), "ops-prod".to_string()),
        Some("https://x/webhookb2/DEF456".to_string())
    );
    assert_eq!(
        get_webhook_url(channels, "Ops".to_string()),
        Some("https://x/webhookb2/ABC123".to_string())
    );
}

#[test]
fn channels_are_read_from_the_secret() {
    let channels = channels_from_secret("{\"ops\":\"https://x/webhookb2/ABC123\",\"dev\":\"https://x/webhookb2/DEF\"}").unwrap();
    assert_eq!(channels.len(), 2);
    assert_eq!(resolve(&channels, "ops"), Some("https://x/webhookb2/ABC123"));
    assert_eq!(resolve(&channels, "dev"), Some("https://x/webhookb2/DEF"));
    assert_eq!(channels_from_secret("{}"), Ok(vec![]));
}

#[test]
fn malformed_secret_is_refused() {
    assert_eq!(channels_from_secret("not json"), Err(StartupError::MalformedSecret));
    assert_eq!(channels_from_secret("[]"), Err(StartupError::MalformedSecret));
    assert_eq!(channels_from_secret("{\"ops\":5}"), Err(StartupError::MalformedSecret));
    assert_eq!(channels_from_secret("{\"ops\":null}"), Err(StartupError::MalformedSecret));
    assert_eq!(channels_from_secret("{\"ops\":{\"url\":\"u\"}}"), Err(StartupError::MalformedSecret));
    assert_eq!(channels_from_secret("\"ops\""), Err(StartupError::MalformedSecret));
}

#[test]
fn channels_with_one_name_twice_are_refused() {
    let twice = JsonValue::Object(vec![
        teams_webhook_adapter::json::Member { key: "a".to_string(), value: JsonValue::Text("u1".to_string()) },
        teams_webhook_adapter::json::Member { key: "b".to_string(), value: JsonValue::Text("u2".to_string()) },
        teams_webhook_adapter::json::Member { key: "a".to_string(), value: JsonValue::Text("u3".to_string()) },
    ]);
    assert_eq!(channels_from_json(&twice), Err(StartupError::MalformedSecret));
    let once = JsonValue::Object(vec![
        teams_webhook_adapter::json::Member { key: "a".to_string(), value: JsonValue::Text("u1".to_string()) },
        teams_webhook_adapter::json::Member { key: "b".to_string(), value: JsonValue::Text("u2".to_string()) },
    ]);
    assert_eq!(channels_from_json(&once), Ok(vec![channel("a", "u1"), channel("b", "u2")]));
}

#[test]
fn wrong_key_is_forbidden_and_posts_nothing() {
    let state = sample_state();
    let handled = receive_webhook(params(Some("wrong"), Some("ops")), &state, BUILD_BODY);
    assert_eq!(handled, turned_away(403, "API Key Mismatch\n"));
    assert_eq!(handled.reply.status, STATUS_FORBIDDEN);
    let handled = receive_webhook(params(Some("wrong"), Some("ops")), &state, "{\"text\":\"hello\"}");
    assert_eq!(handled, turned_away(403, "API Key Mismatch\n"));
    let handled = handle_webhook(params(None, Some("ops")), &state, WebhookData::TypeA(sample_build()));
    assert_eq!(handled, turned_away(403, "API Key Mismatch\n"));
    let handled = receive_webhook_dms(&state, params(Some("wrong"), None), "x/ops".to_string(), SNITCH_BODY);
    assert_eq!(handled, turned_away(403, "API Key mismatch\n"));
    let handled = handle_webhook_dms(&state, params(None, None), "x/ops".to_string(), sample_snitch());
    assert_eq!(handled, turned_away(403, "API Key mismatch\n"));
}

#[test]
fn missing_key_counts_as_none() {
    let mut state = sample_state();
    state.api_key = "none".to_string();
    let handled = handle_webhook(params(None, Some("ops")), &state, WebhookData::TypeA(sample_build()));
    assert_eq!(handled.reply.status, STATUS_OK);
    assert!(handled.outbound.is_some());
}

#[test]
fn build_event_goes_to_the_named_channel_as_a_card() {
    let state = sample_state();
    let handled = receive_webhook(params(Some("secret"), Some("dev")), &state, BUILD_BODY);
    assert_eq!(
        handled,
        processed(Some(Outbound {
            url: "https://x/webhookb2/DEF/456".to_string(),
            body: card_text()
        }))
    );
}

#[test]
fn key_gated_route_takes_build_events_only() {
    let state = sample_state();
    let handled = receive_webhook(params(Some("secret"), Some("ops")), &state, "{\"text\":\"hello\"}");
    assert_eq!(handled, turned_away(400, "Invalid unsupported data type."));
    assert_eq!(handled.reply.status, STATUS_BAD_REQUEST);
    let handled = handle_webhook(
        params(Some("secret"), Some("ops")),
        &state,
        WebhookData::TypeB(PostData { text: "hello".to_string() }),
    );
    assert_eq!(handled, turned_away(400, "Invalid unsupported data type."));
}

#[test]
fn unknown_channel_posts_nothing_and_is_reported() {
    let state = sample_state();
    let handled = receive_webhook(params(Some("secret"), Some("nowhere")), &state, BUILD_BODY);
    assert_eq!(handled, undeliverable("nowhere"));
    assert_eq!(handled.outbound, None);
    assert_eq!(handled.channel_not_found, Some("nowhere".to_string()));
    assert_eq!(handled.reply.status, STATUS_OK);
    let handled = receive_webhook(params(Some("secret"), None), &state, BUILD_BODY);
    assert_eq!(handled, undeliverable("none"));
    let handled = handle_webhook(
        params(Some("secret"), Some("Ops")),
        &state,
        WebhookData::TypeA(sample_build()),
    );
    assert_eq!(handled, undeliverable("Ops"));
    let handled =
        receive_webhook_dms(&state, params(Some("secret"), None), "hooks/nowhere".to_string(), SNITCH_BODY);
    assert_eq!(handled, undeliverable("nowhere"));
}

#[test]
fn known_channel_is_not_reported() {
    let state = sample_state();
    let handled = receive_webhook(params(Some("secret"), Some("ops")), &state, BUILD_BODY);
    assert_eq!(handled.channel_not_found, None);
    assert_eq!(handled.outbound.unwrap().url, "https://x/webhookb2/ABC123");
    let handled = receive_webhook(params(Some("wrong"), Some("nowhere")), &state, BUILD_BODY);
    assert_eq!(handled.channel_not_found, None);
    let handled = receive_webhook(params(Some("secret"), Some("nowhere")), &state, "{\"text\":\"hi\"}");
    assert_eq!(handled, turned_away(400, "Invalid unsupported data type."));
}

#[test]
fn unrecognized_body_is_a_bad_request() {
    let state = sample_state();
    let expected = turned_away(400, "Unrecognized payload.\n");
    assert_eq!(receive_webhook(params(Some("secret"), Some("ops")), &state, "{}"), expected);
    assert_eq!(receive_webhook(params(Some("secret"), Some("ops")), &state, "junk"), expected);
    assert_eq!(receive_webhookb2(&state, "ABC123".to_string(), "{\"msg\":1}"), expected);
    assert_eq!(receive_webhookb2(&state, "ABC123".to_string(), "{\"foo\":1}"), expected);
    assert_eq!(
        receive_webhook_dms(&state, params(Some("secret"), None), "x/ops".to_string(), "{\"type\":\"snitch.gone\"}"),
        expected
    );
}

#[test]
fn the_key_is_judged_before_the_body() {
    let state = sample_state();
    for body in ["junk", "{}", "{\"text\":\"hello\"}", BUILD_BODY, SNITCH_BODY, ""] {
        assert_eq!(
            receive_webhook(params(Some("wrong"), Some("ops")), &state, body),
            turned_away(403, "API Key Mismatch\n")
        );
        assert_eq!(
            receive_webhook(params(None, None), &state, body),
            turned_away(403, "API Key Mismatch\n")
        );
        assert_eq!(
            receive_webhook_dms(&state, params(Some("wrong"), None), "x/ops".to_string(), body),
            turned_away(403, "API Key mismatch\n")
        );
    }
}

#[test]
fn the_path_is_judged_before_the_body() {
    let state = sample_state();
    for body in ["junk", "{}", "{\"text\":\"hello\"}", BUILD_BODY, ""] {
        assert_eq!(receive_webhookb2(&state, "elsewhere".to_string(), body), processed(None));
        assert_eq!(receive_webhookb2(&state, "".to_string(), body), processed(None));
    }
}

#[test]
fn whitelisted_path_posts_plain_text() {
    let state = sample_state();
    let handled = receive_webhookb2(&state, "ABC123".to_string(), "{\"text\":\"hello\"}");
    assert_eq!(
        handled,
        processed(Some(Outbound {
            url: "https://x/webhookb2/ABC123".to_string(),
            body: "{\"text\":\"hello\"}".to_string()
        }))
    );
}

#[test]
fn whitelisted_path_posts_build_events_as_cards() {
    let state = sample_state();
    let handled = receive_webhookb2(&state, "DEF/456".to_string(), BUILD_BODY);
    assert_eq!(
        handled,
        processed(Some(Outbound {
            url: "https://x/webhookb2/DEF/456".to_string(),
            body: card_text()
        }))
    );
    assert_eq!(outbound_body(WebhookData::TypeA(sample_build())), card_text());
}

#[test]
fn other_paths_are_taken_and_skipped() {
    let state = sample_state();
    for path in ["ABC12", "ABC1234", "abc123", "", "DEF", "ops"] {
        let handled = receive_webhookb2(&state, path.to_string(), "{\"text\":\"hello\"}");
        assert_eq!(handled, processed(None));
        let handled = handle_webhookb2(&state, path.to_string(), WebhookData::TypeA(sample_build()));
        assert_eq!(handled, processed(None));
    }
}

#[test]
fn snitch_event_goes_to_the_channel_of_the_last_segment() {
    let state = sample_state();
    let handled = receive_webhook_dms(&state, params(Some("secret"), None), "hooks/ops".to_string(), SNITCH_BODY);
    assert_eq!(
        handled,
        processed(Some(Outbound {
            url: "https://x/webhookb2/ABC123".to_string(),
            body: "{\"text\":\"\u{2713} <a href=\\\"https://deadmanssnitch.com/snitches/c2354d53d2,\\\">Critical System Reports</a>  is reporting.\"}".to_string()
        }))
    );
    let parsed: serde_json::Value = serde_json::from_str(&handled.outbound.unwrap().body).unwrap();
    assert_eq!(
        parsed["text"],
        "\u{2713} <a href=\"https://deadmanssnitch.com/snitches/c2354d53d2,\">Critical System Reports</a>  is reporting."
    );
}

#[test]
fn snitch_path_without_a_slash_names_the_channel() {
    let state = sample_state();
    let handled = handle_webhook_dms(&state, params(Some("secret"), None), "dev".to_string(), sample_snitch());
    assert_eq!(handled.reply.status, STATUS_OK);
    assert_eq!(handled.outbound.unwrap().url, "https://x/webhookb2/DEF/456");
    let handled = handle_webhook_dms(&state, params(Some("secret"), None), "a/b/".to_string(), sample_snitch());
    assert_eq!(handled, undeliverable(""));
}

#[test]
fn test_health_check() {
    let state = build_app_state(vec![], "127.0.0.1".to_string(), "k".to_string()).unwrap();
    let health = handle_health_check(&state);
    assert_eq!(health.status, "success");
    assert_eq!(health.url_count, "0");
    assert_eq!(health.to_json().to_text(), "{\"status\":\"success\",\"url_count\":\"0\"}");
}

#[test]
fn health_check_counts_the_whitelist() {
    let state = sample_state();
    let health = handle_health_check(&state);
    assert_eq!(health.status, "success");
    assert_eq!(health.url_count, "2");
    let mut many = sample_state();
    many.whitelist = (0..12).map(|i| format!("p{}", i)).collect();
    let health = handle_health_check(&many);
    assert_eq!(health.url_count, "12");
    assert_eq!(health.to_json().to_text(), "{\"status\":\"success\",\"url_count\":\"12\"}");
}
