use teams_webhook_adapter::adaptive_card::{
    color_is_blank, font_is_set, spacing_is_blank, weight_is_normal, AdaptiveCardData, BodyItem,
    ColumnItem, TextBlock,
};
use teams_webhook_adapter::buildkite::{Build, BuildData, BuildState, Pipeline};
use teams_webhook_adapter::json::JsonValue;

fn sample_build(state: BuildState) -> BuildData {
    BuildData {
        pipeline: Pipeline {
            name: "web".to_string(),
            web_url: "https://buildkite.com/org/web".to_string(),
            repository: "git@github.com:org/web.git".to_string(),
        },
        build: Build {
            number: "42".to_string(),
            commit: "abc123".to_string(),
            created_at: "2024-04-30T05:25:37Z".to_string(),
            state,
        },
        sender_name: "Ada".to_string(),
        creator_avatar: "https://a/x.png".to_string(),
    }
}

const SAMPLE_CARD: &str = "{\"type\":\"message\",\"attachments\":[{\"contentType\":\"application/vnd.microsoft.card.adaptive\",\"contentUrl\":\"none\",\"content\":{\"type\":\"AdaptiveCard\",\"$schema\":\"http://adaptivecards.io/schemas/adaptive-card.json\",\"version\":\"1.5\",\"body\":[{\"type\":\"TextBlock\",\"size\":\"medium\",\"weight\":\"Bolder\",\"color\":\"Good\",\"text\":\"web #42 Running\",\"isSubtle\":false},{\"type\":\"ColumnSet\",\"columns\":[{\"type\":\"Column\",\"items\":[{\"type\":\"Image\",\"style\":\"person\",\"url\":\"https://a/x.png\",\"altText\":\"Ada\",\"size\":\"small\"}],\"width\":\"auto\"},{\"type\":\"Column\",\"items\":[{\"type\":\"TextBlock\",\"weight\":\"Bolder\",\"text\":\"Ada\",\"isSubtle\":false,\"wrap\":true},{\"type\":\"TextBlock\",\"text\":\"Created 2024-04-30T05:25:37Z\",\"spacing\":\"none\",\"isSubtle\":true,\"wrap\":true}],\"width\":\"stretch\"}]},{\"type\":\"TextBlock\",\"size\":\"small\",\"text\":\"Repository: git@github.com:org/web.git\",\"isSubtle\":true,\"fontType\":\"Monospace\",\"wrap\":true},{\"type\":\"TextBlock\",\"size\":\"small\",\"text\":\"Commit: abc123\",\"isSubtle\":true,\"fontType\":\"Monospace\",\"wrap\":true}],\"actions\":[{\"type\":\"Action.OpenUrl\",\"title\":\"View in Buildkite\",\"url\":\"https://buildkite.com/org/web/builds/42\"}]}}]}";

#[test]
fn rich_card_is_written_byte_for_byte() {
    let card = AdaptiveCardData::from(sample_build(BuildState::Running));
    assert_eq!(card.to_json().to_text(), SAMPLE_CARD);
}

#[test]
fn rich_card_is_valid_json_for_the_outside_parser() {
    let card = AdaptiveCardData::from(sample_build(BuildState::Running));
    let ours: serde_json::Value = serde_json::from_str(&card.to_json().to_text()).unwrap();
    let expected: serde_json::Value = serde_json::from_str(SAMPLE_CARD).unwrap();
    assert_eq!(ours, expected);
    assert_eq!(ours["attachments"][0]["content"]["body"][0]["text"], "web #42 Running");
}

#[test]
fn rich_card_is_deterministic() {
    let first = AdaptiveCardData::from(sample_build(BuildState::Failed));
    let second = AdaptiveCardData::from(sample_build(BuildState::Failed));
    assert_eq!(first, second);
    assert_eq!(first.to_json().to_text(), second.to_json().to_text());
}

#[test]
fn title_shows_the_label_of_each_state() {
    let cases = [
        (BuildState::Failing, "web #42 Failing"),
        (BuildState::Scheduled, "web #42 Scheduled"),
        (BuildState::Running, "web #42 Running"),
        (BuildState::Failed, "web #42 Failed"),
        (BuildState::Canceled, "web #42 Canceled"),
    ];
    for (state, title) in cases {
        let card = AdaptiveCardData::from(sample_build(state));
        match &card.attachments[0].content.body[0] {
            BodyItem::TextBlock(block) => assert_eq!(block.text, title),
            BodyItem::ColumnSet(_) => panic!("the first item is the title"),
        }
    }
}

#[test]
fn card_fields_follow_the_build_event() {
    let card = AdaptiveCardData::from(sample_build(BuildState::Running));
    assert_eq!(card.data_type, "message");
    assert_eq!(card.attachments.len(), 1);
    let content = &card.attachments[0].content;
    assert_eq!(content.body.len(), 4);
    assert_eq!(content.actions.len(), 1);
    assert_eq!(content.actions[0].title, "View in Buildkite");
    assert_eq!(content.actions[0].url, "https://buildkite.com/org/web/builds/42");
    match &content.body[1] {
        BodyItem::ColumnSet(set) => {
            assert_eq!(set.columns.len(), 2);
            assert_eq!(set.columns[0].width, "auto");
            assert_eq!(set.columns[1].width, "stretch");
            match &set.columns[0].items[0] {
                ColumnItem::Image(image) => {
                    assert_eq!(image.style, "person");
                    assert_eq!(image.url, "https://a/x.png");
                    assert_eq!(image.alt_text, "Ada");
                },
                ColumnItem::TextBlock(_) => panic!("the left column holds the avatar"),
            }
            match &set.columns[1].items[1] {
                ColumnItem::TextBlock(block) => {
                    assert_eq!(block.text, "Created 2024-04-30T05:25:37Z");
                    assert_eq!(block.spacing, "none");
                    assert_eq!(block.is_subtle, Some(true));
                },
                ColumnItem::Image(_) => panic!("the right column holds text"),
            }
        },
        BodyItem::TextBlock(_) => panic!("the second item is the identity block"),
    }
}

#[test]
fn default_text_block_omits_default_attributes() {
    let block = TextBlock::default();
    assert_eq!(
        block.to_json().to_text(),
        "{\"type\":\"TextBlock\",\"text\":\"\",\"isSubtle\":false,\"wrap\":false}"
    );
    let json = block.to_json();
    assert!(json.get("weight").is_none());
    assert!(json.get("color").is_none());
    assert!(json.get("spacing").is_none());
    assert!(json.get("fontType").is_none());
    assert!(json.get("size").is_none());
}

#[test]
fn text_block_writes_attributes_that_differ_from_defaults() {
    let block = TextBlock {
        size: Some("large".to_string()),
        weight: "Bolder".to_string(),
        color: "Attention".to_string(),
        text: "hi".to_string(),
        spacing: "small".to_string(),
        is_subtle: None,
        font_type: "Monospace".to_string(),
        wrap: None,
    };
    assert_eq!(
        block.to_json().to_text(),
        "{\"type\":\"TextBlock\",\"size\":\"large\",\"weight\":\"Bolder\",\"color\":\"Attention\",\"text\":\"hi\",\"spacing\":\"small\",\"fontType\":\"Monospace\"}"
    );
    let json = block.to_json();
    assert_eq!(json.get_text("weight"), Some("Bolder"));
    assert_eq!(json.get_text("color"), Some("Attention"));
    assert_eq!(json.get_text("spacing"), Some("small"));
    assert_eq!(json.get_text("fontType"), Some("Monospace"));
    assert!(json.get("isSubtle").is_none());
    assert!(json.get("wrap").is_none());
}

#[test]
fn text_block_members_come_without_the_kind() {
    let mut fields = Vec::new();
    TextBlock::default().push_members(&mut fields);
    let keys: Vec<&str> = fields.iter().map(|m| m.key.as_str()).collect();
    assert_eq!(keys, vec!["text", "isSubtle", "wrap"]);
    assert_eq!(fields[1].value, JsonValue::Bool(false));
}

#[test]
fn attribute_predicates_know_the_defaults() {
    assert!(weight_is_normal(&"normal".to_string()));
    assert!(!weight_is_normal(&"Bolder".to_string()));
    assert!(!weight_is_normal(&"Normal".to_string()));
    assert!(font_is_set(&"default".to_string()));
    assert!(!font_is_set(&"Monospace".to_string()));
    assert!(spacing_is_blank(&String::new()));
    assert!(!spacing_is_blank(&"none".to_string()));
    assert!(color_is_blank(&String::new()));
    assert!(!color_is_blank(&"Good".to_string()));
}

#[test]
fn detail_line_is_small_subtle_and_monospace() {
    let block = TextBlock::detail("Commit: abc".to_string());
    assert_eq!(block.size, Some("small".to_string()));
    assert_eq!(block.font_type, "Monospace");
    assert_eq!(block.is_subtle, Some(true));
    assert_eq!(block.wrap, Some(true));
    assert_eq!(block.weight, "normal");
    assert_eq!(block.text, "Commit: abc");
}

#[test]
fn card_text_escapes_what_json_must() {
    let mut data = sample_build(BuildState::Running);
    data.sender_name = "A \"quoted\" \\ name\n".to_string();
    let card = AdaptiveCardData::from(data);
    let text = card.to_json().to_text();
    assert!(text.contains("\"altText\":\"A \\\"quoted\\\" \\\\ name\\n\""));
    let parsed: serde_json::Value = serde_json::from_str(&text).unwrap();
    assert_eq!(
        parsed["attachments"][0]["content"]["body"][1]["columns"][0]["items"][0]["altText"],
        "A \"quoted\" \\ name\n"
    );
}
