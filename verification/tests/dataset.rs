use power_test::binary64::Real;
use power_test::config::{estimate_tokens, DatasetSpec, RequestStrategy};
use power_test::dataset::builtin::builtin_pool;
use power_test::dataset::custom::{
    detect_format, detect_mode, jsonl_rows, load, load_with_mode, CustomFile, CustomFormat, ProfileItem,
    ProfileMessage,
};
use power_test::dataset::pool::PoolDataset;
use power_test::dataset::sharegpt::{Conversation, Turn, MAX_PROMPTS};
use power_test::dataset::simple::SimpleDataset;
use power_test::dataset::{
    build, build_with_distribution, ensure_exists, sharegpt, BuiltDataset, Dataset, DatasetFiles,
    DatasetItem, DatasetMode, OwnedChatMessage,
};
use power_test::error::Error;

fn text_of(v: &toml::Value, key: &str) -> Option<String> {
    v.get(key).and_then(|x| x.as_str()).map(|s| s.to_string())
}

fn texts_of(v: &toml::Value, key: &str) -> Vec<String> {
    match v.get(key).and_then(|x| x.as_array()) {
        Some(a) => a.iter().map(|x| x.as_str().unwrap().to_string()).collect(),
        None => Vec::new(),
    }
}

fn profile(body: &str) -> Result<Vec<ProfileItem>, String> {
    let table: toml::Table = body.parse().map_err(|e: toml::de::Error| e.to_string())?;
    let raw = table.get("prompt").or_else(|| table.get("items"));
    let items = raw.and_then(|v| v.as_array()).cloned().unwrap_or_default();
    Ok(items
        .iter()
        .map(|v| ProfileItem {
            name: text_of(v, "name"),
            text: text_of(v, "text"),
            messages: v.get("messages").and_then(|m| m.as_array()).map(|a| {
                a.iter()
                    .map(|m| ProfileMessage {
                        role: text_of(m, "role").unwrap(),
                        content: text_of(m, "content").unwrap(),
                    })
                    .collect()
            }),
            follow_ups: texts_of(v, "follow_ups"),
            weight: v
                .get("weight")
                .and_then(|w| w.as_integer())
                .map(|w| Real { bits: (w as f64).to_bits() }),
            tags: texts_of(v, "tags"),
        })
        .collect())
}

fn prompt_of(text: &str) -> Result<String, String> {
    let v: serde_json::Value = serde_json::from_str(text).map_err(|e| e.to_string())?;
    match v.get("prompt").and_then(|p| p.as_str()) {
        Some(p) => Ok(p.to_string()),
        None => Err("missing field `prompt`".to_string()),
    }
}

/// What a file of the given name with the given contents holds.
fn file(name: &str, body: &str) -> (String, Option<CustomFile>) {
    let extension = name.rsplit('.').next().map(|e| e.to_string());
    let held = match detect_format(&extension, body) {
        CustomFormat::Toml => CustomFile::Toml(profile(body)),
        CustomFormat::JsonArray => CustomFile::JsonArray(
            serde_json::from_str::<Vec<serde_json::Value>>(body)
                .map_err(|e| e.to_string())
                .and_then(|rows| rows.iter().map(|r| prompt_of(&r.to_string())).collect()),
        ),
        CustomFormat::JsonLines => {
            CustomFile::JsonLines(jsonl_rows(body).iter().map(|(_, row)| prompt_of(row)).collect())
        }
    };
    (name.to_string(), Some(held))
}

fn refused(name: &str, body: &str) -> String {
    let (p, f) = file(name, body);
    load_with_mode(&p, &f).unwrap_err().message()
}

#[test]
fn parses_json_array() {
    let body = r#"[{"prompt": "a"}, {"prompt": "longer prompt here"}]"#;
    let (p, f) = file("a.json", body);
    let items = load(&p, &f).unwrap();
    assert_eq!(items.len(), 2);
    assert_eq!(items[0].prompt, "a");
    assert_eq!(items[1].prompt, "longer prompt here");
    let (_, mode) = load_with_mode(&p, &f).unwrap();
    assert_eq!(mode, DatasetMode::Single);
}

#[test]
fn parses_jsonl() {
    let body = r#"{"prompt": "one"}
{"prompt": "two"}
{"prompt": "three"}"#;
    let (p, f) = file("a.jsonl", body);
    let items = load(&p, &f).unwrap();
    assert_eq!(items.len(), 3);
    assert_eq!(items[2].prompt, "three");
}

#[test]
fn jsonl_skips_blank_lines() {
    let body = "{\"prompt\":\"a\"}\n\n   \n{\"prompt\":\"b\"}\n";
    let (p, f) = file("a.jsonl", body);
    let items = load(&p, &f).unwrap();
    assert_eq!(items.len(), 2);
}

#[test]
fn jsonl_skips_bad_lines_with_warning() {
    let body = "{\"prompt\":\"a\"}\nnot json at all\n{\"prompt\":\"b\"}\n";
    let (p, f) = file("a.jsonl", body);
    let items = load(&p, &f).unwrap();
    assert_eq!(items.len(), 2);
}

#[test]
fn jsonl_all_bad_errors() {
    let body = "not json\nalso not json\n";
    let (p, f) = file("a.jsonl", body);
    let err = load(&p, &f).unwrap_err();
    assert!(matches!(err, Error::InvalidConfig(_)));
}

#[test]
fn custom_missing_file_errors() {
    let err = load("/no/such/file.jsonl", &None).unwrap_err();
    assert!(matches!(err, Error::InvalidConfig(_)));
}

#[test]
fn malformed_json_array_errors() {
    let body = "[{\"prompt\": \"x\"";
    let (p, f) = file("a.json", body);
    let err = load(&p, &f).unwrap_err();
    assert!(matches!(err, Error::InvalidConfig(_)));
}

#[test]
fn rows_keep_their_line_numbers() {
    let rows = jsonl_rows("a\n\n  b  \r\n\nc");
    assert_eq!(rows.len(), 3);
    assert_eq!(rows[0].1, "a");
    assert_eq!(rows[1].1.trim(), "b");
    assert_eq!(rows[2].1, "c");
    assert_eq!(rows[2].0 - rows[0].0, 4);
}

#[test]
fn parses_toml_single_turn() {
    let body = r#"
[[prompt]]
text = "Hello"

[[prompt]]
name = "q2"
text = "World"
weight = 3
tags = ["smoke"]
"#;
    let (p, f) = file("a.toml", body);
    let (items, mode) = load_with_mode(&p, &f).unwrap();
    assert_eq!(mode, DatasetMode::Single);
    assert_eq!(items.len(), 2);
    assert_eq!(items[0].prompt, "Hello");
    assert_eq!(items[1].name.as_deref(), Some("q2"));
    assert_eq!(items[1].weight.map(|w| f64::from_bits(w.bits)), Some(3.0));
    assert_eq!(items[1].tags, vec!["smoke".to_string()]);
}

#[test]
fn parses_toml_static_multi_turn() {
    let body = r#"
[[prompt]]
name = "few-shot"
messages = [
  { role = "system", content = "Be terse." },
  { role = "user", content = "What is 2+2?" },
  { role = "assistant", content = "4." },
  { role = "user", content = "And 3+3?" },
]
tags = ["qa"]
"#;
    let (p, f) = file("a.toml", body);
    let (items, mode) = load_with_mode(&p, &f).unwrap();
    assert_eq!(mode, DatasetMode::StaticMulti);
    assert_eq!(items.len(), 1);
    let msgs = items[0].messages.as_ref().unwrap();
    assert_eq!(msgs.len(), 4);
    assert_eq!(msgs[0].role, "system");
    assert_eq!(msgs[3].role, "user");
    assert!(items[0].follow_ups.is_empty());
}

#[test]
fn parses_toml_dynamic_multi_turn() {
    let body = r#"
[[prompt]]
name = "long-qa"
messages = [
  { role = "system", content = "You are an analyst." },
  { role = "user", content = "Summarize the Q3 report." },
]
follow_ups = [
  "Now compare to Q2.",
  "What were the top 3 risks?",
]
"#;
    let (p, f) = file("a.toml", body);
    let (items, mode) = load_with_mode(&p, &f).unwrap();
    assert_eq!(mode, DatasetMode::DynamicMulti);
    assert_eq!(items.len(), 1);
    assert_eq!(items[0].follow_ups.len(), 2);
    assert_eq!(items[0].follow_ups[0], "Now compare to Q2.");
}

#[test]
fn toml_items_alias_accepted() {
    let body = r#"
[[items]]
name = "via-items-alias"
messages = [
  { role = "user", content = "hi" },
]
follow_ups = [
  "follow up",
]
"#;
    let (p, f) = file("b.toml", body);
    let (items, mode) = load_with_mode(&p, &f).unwrap();
    assert_eq!(mode, DatasetMode::DynamicMulti);
    assert_eq!(items.len(), 1);
    assert_eq!(items[0].name.as_deref(), Some("via-items-alias"));
    assert_eq!(items[0].follow_ups.len(), 1);
}

#[test]
fn toml_mixed_modes_errors() {
    let msg = refused(
        "a.toml",
        r#"
[[prompt]]
text = "single"

[[prompt]]
messages = [{ role = "user", content = "multi" }]
"#,
    );
    assert!(msg.contains("mixes modes"), "got: {msg}");
}

#[test]
fn toml_both_text_and_messages_errors() {
    let msg = refused(
        "a.toml",
        r#"
[[prompt]]
text = "single"
messages = [{ role = "user", content = "multi" }]
"#,
    );
    assert!(msg.contains("text") && msg.contains("messages"), "got: {msg}");
}

#[test]
fn toml_neither_text_nor_messages_errors() {
    let msg = refused(
        "a.toml",
        r#"
[[prompt]]
name = "empty"
"#,
    );
    assert!(msg.contains("text") && msg.contains("messages"), "got: {msg}");
}

#[test]
fn toml_follow_ups_without_messages_errors() {
    let msg = refused(
        "a.toml",
        r#"
[[prompt]]
text = "single"
follow_ups = ["more"]
"#,
    );
    assert!(msg.contains("follow_ups"), "got: {msg}");
}

#[test]
fn toml_invalid_role_errors() {
    let msg = refused(
        "a.toml",
        r#"
[[prompt]]
messages = [{ role = "admin", content = "go" }]
"#,
    );
    assert!(msg.contains("admin"), "got: {msg}");
}

#[test]
fn toml_weight_zero_skipped() {
    let body = r#"
[[prompt]]
text = "kept"
weight = 1

[[prompt]]
text = "skipped"
weight = 0
"#;
    let (p, f) = file("a.toml", body);
    let (items, _) = load_with_mode(&p, &f).unwrap();
    assert_eq!(items.len(), 1);
    assert_eq!(items[0].prompt, "kept");
}

#[test]
fn toml_malformed_errors() {
    let body = "not valid toml = [[[";
    let (p, f) = file("a.toml", body);
    let err = load(&p, &f).unwrap_err();
    assert!(matches!(err, Error::InvalidConfig(_)));
}

#[test]
fn formats_are_told_by_extension_and_first_character() {
    let ext = |e: &str| Some(e.to_string());
    assert!(matches!(detect_format(&ext("TOML"), ""), CustomFormat::Toml));
    assert!(matches!(detect_format(&ext("txt"), "  [1]"), CustomFormat::JsonArray));
    assert!(matches!(detect_format(&ext("txt"), "{}"), CustomFormat::JsonLines));
    assert!(matches!(detect_format(&None, ""), CustomFormat::JsonLines));
}

#[test]
fn pool_has_mixed_sizes() {
    let pool = builtin_pool();
    assert!(pool.len() >= 10, "expected at least 10 prompts, got {}", pool.len());
    let tokens: Vec<u32> = pool.iter().map(|i| i.estimated_prompt_tokens).collect();
    let min = *tokens.iter().min().unwrap();
    let max = *tokens.iter().max().unwrap();
    assert!(min <= 5, "min tokens should be tiny, got {min}");
    assert!(max >= 100, "max tokens should be large, got {max}");
}

#[test]
fn pool_contains_chinese() {
    let pool = builtin_pool();
    let has_cjk = pool.iter().any(|i| i.prompt.chars().any(|c| c as u32 > 0x4E00));
    assert!(has_cjk, "expected at least one Chinese prompt");
}

fn items(n: usize) -> Vec<DatasetItem> {
    (0..n).map(|i| DatasetItem::from_prompt(format!("prompt-{i}"))).collect()
}

#[test]
fn round_robin_visits_all_in_order() {
    let mut d = PoolDataset::new(items(3), RequestStrategy::RoundRobin, DatasetMode::Single);
    let seen: Vec<String> = (0..4).map(|_| d.next().prompt).collect();
    assert_eq!(seen, vec!["prompt-0", "prompt-1", "prompt-2", "prompt-0"]);
}

#[test]
fn random_eventually_visits_all() {
    let mut d = PoolDataset::new(items(4), RequestStrategy::Random, DatasetMode::Single);
    let mut seen = [false; 4];
    for _ in 0..200 {
        let p = d.next().prompt;
        let idx: usize = p.trim_start_matches("prompt-").parse().unwrap();
        seen[idx] = true;
    }
    assert!(seen.iter().all(|x| *x), "expected all 4 items in 200 draws, got {seen:?}");
}

#[test]
fn equal_seeds_draw_alike() {
    let mut a = PoolDataset::with_seed(items(9), RequestStrategy::Random, DatasetMode::Single, 7);
    let mut b = PoolDataset::with_seed(items(9), RequestStrategy::Random, DatasetMode::Single, 7);
    for _ in 0..50 {
        assert_eq!(a.pick().prompt, b.pick().prompt);
    }
}

#[test]
fn empty_pool_returns_fallback() {
    let mut d = PoolDataset::new(vec![], RequestStrategy::Random, DatasetMode::Single);
    assert!(!d.next().prompt.is_empty());
}

#[test]
fn mode_is_forwarded() {
    let d = PoolDataset::new(items(1), RequestStrategy::RoundRobin, DatasetMode::DynamicMulti);
    assert_eq!(d.mode(), DatasetMode::DynamicMulti);
}

#[test]
fn literal_dataset_returns_same_prompt() {
    let mut d = SimpleDataset::new_literal("hello world".to_string());
    let a = d.next();
    let b = d.next();
    assert_eq!(a.prompt, "hello world");
    assert_eq!(b.prompt, "hello world");
    assert!(a.estimated_prompt_tokens >= 2);
    assert_eq!(d.mode(), DatasetMode::Single);
}

fn conversations(body: &str) -> Option<Result<Vec<Conversation>, String>> {
    let parsed: Result<Vec<serde_json::Value>, String> =
        serde_json::from_str(body).map_err(|e| e.to_string());
    Some(parsed.map(|rows| {
        rows.iter()
            .map(|row| Conversation {
                conversations: row["conversations"]
                    .as_array()
                    .unwrap()
                    .iter()
                    .map(|t| Turn {
                        from: t["from"].as_str().map(|s| s.to_string()),
                        value: t["value"].as_str().map(|s| s.to_string()),
                    })
                    .collect(),
            })
            .collect()
    }))
}

#[test]
fn parses_first_human_turn() {
    let body = r#"[
          {"conversations": [
            {"from": "human", "value": "What is the capital of France?"},
            {"from": "gpt", "value": "Paris."}
          ]},
          {"conversations": [
            {"from": "user", "value": "Translate hi to German."},
            {"from": "assistant", "value": "Hallo."}
          ]}
        ]"#;
    let items = sharegpt::load("x.json", &conversations(body)).unwrap();
    assert_eq!(items.len(), 2);
    assert_eq!(items[0].prompt, "What is the capital of France?");
    assert_eq!(items[1].prompt, "Translate hi to German.");
}

#[test]
fn skips_conversations_with_no_human_turn() {
    let body = r#"[{"conversations": [{"from": "gpt", "value": "no human here"}]}]"#;
    let err = sharegpt::load("x.json", &conversations(body)).unwrap_err();
    assert!(matches!(err, Error::InvalidConfig(_)));
}

#[test]
fn sharegpt_missing_file_errors() {
    let err = sharegpt::load("/no/such/file.json", &None).unwrap_err();
    assert!(matches!(err, Error::InvalidConfig(_)));
}

#[test]
fn malformed_json_errors() {
    let err = sharegpt::load("x.json", &conversations("not json at all")).unwrap_err();
    assert!(matches!(err, Error::InvalidConfig(_)));
}

#[test]
fn caps_at_max_prompts() {
    let mut s = String::from("[");
    for i in 0..1500 {
        if i > 0 {
            s.push(',');
        }
        s.push_str(&format!(r#"{{"conversations":[{{"from":"human","value":"q-{i}"}}]}}"#));
    }
    s.push(']');
    let items = sharegpt::load("x.json", &conversations(&s)).unwrap();
    assert_eq!(items.len(), MAX_PROMPTS);
}

#[test]
fn datasets_are_built_from_their_specs() {
    let none = DatasetFiles { sharegpt: None, custom: None };
    let (d, dist) = build_with_distribution(
        &DatasetSpec::Literal { text: "hello world".to_string() },
        RequestStrategy::Random,
        &none,
    )
    .unwrap();
    assert!(matches!(d, BuiltDataset::Simple(_)));
    assert_eq!(dist.count, 1);
    assert_eq!(dist.min, estimate_tokens("hello world"));
    let (d, dist) =
        build_with_distribution(&DatasetSpec::Builtin, RequestStrategy::RoundRobin, &none)
            .unwrap();
    assert!(matches!(d, BuiltDataset::Pool(_)));
    assert_eq!(dist.count, builtin_pool().len());
    let err = build(
        &DatasetSpec::Custom { path: "gone.json".to_string() },
        RequestStrategy::Random,
        &none,
    )
    .unwrap_err();
    assert!(err.message().contains("gone.json"));
}

#[test]
fn a_dataset_file_has_to_exist() {
    assert!(ensure_exists("/x", true).is_ok());
    let msg = ensure_exists("/x", false).unwrap_err().message();
    assert_eq!(msg, "invalid configuration: dataset file not found: /x");
}

#[test]
fn a_mixed_file_is_refused_by_the_name_and_place_of_its_item() {
    let body = r#"
[[prompt]]
text = "single"

[[prompt]]
name = "few-shot"
messages = [{ role = "user", content = "multi" }]
"#;
    let msg = refused("a.toml", body);
    assert!(
        msg.contains("mixes modes (Single and StaticMulti at item `few-shot`, number 2)"),
        "got: {msg}"
    );
    let (p, f) = file("a.toml", body);
    assert_eq!(load(&p, &f).unwrap_err().message(), msg);

    let items = vec![
        DatasetItem::from_prompt("a".to_string()),
        DatasetItem {
            messages: Some(vec![OwnedChatMessage::new("user", "b")]),
            ..DatasetItem::from_prompt("b".to_string())
        },
    ];
    let msg = detect_mode(&items, "x.toml").unwrap_err().message();
    assert!(msg.contains("at item `item-1`, number 2"), "got: {msg}");
}

#[test]
fn both_loaders_give_the_same_items() {
    let body = "{\"prompt\": \"one\"}\n{\"prompt\": \"  \"}\n{\"prompt\": \"two\"}\n";
    let (p, f) = file("a.jsonl", body);
    let items = load(&p, &f).unwrap();
    let (same, mode) = load_with_mode(&p, &f).unwrap();
    assert_eq!(mode, DatasetMode::Single);
    let prompts = |v: &[DatasetItem]| v.iter().map(|i| i.prompt.clone()).collect::<Vec<_>>();
    assert_eq!(prompts(&items), prompts(&same));
    assert_eq!(prompts(&items), vec!["one", "two"]);
    assert!(items.iter().all(|i| i.estimated_prompt_tokens == estimate_tokens(&i.prompt)));
}
