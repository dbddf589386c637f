use ollama_desk::catalog::{
    best_model_index, CatalogEntry, InfoField, ModelInfo, ModelPicker, RequestInfoType,
    SelectedModel,
};
use ollama_desk::modified::modified_ago;
use ollama_desk::sessions::{stopped_signals, SessionTab, Sessions, SpeechMonitor};
use ollama_desk::settings::{
    edit_numeric, edit_stop, EditAction, GenerationOptions, Mirostat, ModelSettings, StopAction,
    DEFAULT_NUM_CTX, DEFAULT_TEMPERATURE, F32_MAX_BITS, F32_MIN_BITS,
};
use ollama_desk::short_name::make_short_name;

fn entry(name: &str, size: u64) -> CatalogEntry {
    CatalogEntry {
        name: name.to_string(),
        modified_at: "2024-01-01T00:00:00Z".to_string(),
        modified_ago: "1 month ago".to_string(),
        size,
    }
}

fn info(license: &str) -> ModelInfo {
    ModelInfo {
        license: license.to_string(),
        modelfile: String::new(),
        parameters: "stop <eos>".to_string(),
        template: String::new(),
    }
}

#[test]
fn short_names_of_known_models() {
    assert_eq!(make_short_name("nous-hermes2:latest"), "Nous");
    assert_eq!(make_short_name("gemma:latest"), "Gemma");
    assert_eq!(make_short_name("starling-lm:7b-beta-q5_K_M"), "Starling");
}

#[test]
fn short_name_placeholder_for_leading_symbol() {
    assert_eq!(make_short_name("-odd"), "Llama");
    assert_eq!(make_short_name(""), "Llama");
    assert!(!make_short_name(":x").is_empty());
}

#[test]
fn short_name_uppercases_non_ascii_first_letter() {
    assert_eq!(make_short_name("éclair:1b"), "Éclair");
}

#[test]
fn mirostat_codes_and_names() {
    assert_eq!(Mirostat::Disabled.to_u8(), 0);
    assert_eq!(Mirostat::Mirostat.to_u8(), 1);
    assert_eq!(Mirostat::Mirostat2.to_u8(), 2);
    assert_eq!(Mirostat::Mirostat2.name(), "Mirostat 2.0");
    assert_eq!(Mirostat::Disabled.name(), "Disabled");
}

#[test]
fn conversion_omits_unset_parameters() {
    let o = GenerationOptions::from(ModelSettings::default());
    assert!(o.mirostat.is_none());
    assert!(o.temperature.is_none());
    assert!(o.stop.is_none());
    assert!(o.num_ctx.is_none());
    assert!(o.top_p.is_none());
}

#[test]
fn conversion_copies_each_set_parameter() {
    let mut s = ModelSettings::new();
    s.mirostat = Some(Mirostat::Mirostat2);
    s.temperature = Some(0.8f32.to_bits());
    s.num_ctx = Some(4096);
    s.seed = Some(-7);
    s.stop = Some(vec!["</s>".to_string()]);
    let o = GenerationOptions::from(s);
    assert_eq!(o.mirostat, Some(2));
    assert_eq!(o.temperature.map(f32::from_bits), Some(0.8f32));
    assert_eq!(o.num_ctx, Some(4096));
    assert_eq!(o.seed, Some(-7));
    assert_eq!(o.stop, Some(vec!["</s>".to_string()]));
    assert!(o.top_k.is_none());
    assert!(o.repeat_last_n.is_none());

    let mut t = ModelSettings::new();
    t.num_ctx = Some(4096);
    let p = GenerationOptions::from(t);
    assert_eq!(p.num_ctx, Some(4096));
    assert!(p.seed.is_none());
}

#[test]
fn float_defaults_match_their_values() {
    assert_eq!(f32::from_bits(DEFAULT_TEMPERATURE), 0.8f32);
    assert_eq!(f32::from_bits(F32_MAX_BITS), f32::MAX);
    assert_eq!(f32::from_bits(F32_MIN_BITS), f32::MIN);
}

#[test]
fn numeric_editor_toggles_and_snaps() {
    let mut v: Option<u32> = None;
    edit_numeric(&mut v, EditAction::SetValue(5), DEFAULT_NUM_CTX, u32::MAX, u32::MIN);
    assert_eq!(v, None);
    edit_numeric(&mut v, EditAction::Enable, DEFAULT_NUM_CTX, u32::MAX, u32::MIN);
    assert_eq!(v, Some(2048));
    edit_numeric(&mut v, EditAction::SetValue(5), DEFAULT_NUM_CTX, u32::MAX, u32::MIN);
    assert_eq!(v, Some(5));
    edit_numeric(&mut v, EditAction::Enable, DEFAULT_NUM_CTX, u32::MAX, u32::MIN);
    assert_eq!(v, Some(5));
    edit_numeric(&mut v, EditAction::SnapMax, DEFAULT_NUM_CTX, u32::MAX, u32::MIN);
    assert_eq!(v, Some(u32::MAX));
    edit_numeric(&mut v, EditAction::SnapMin, DEFAULT_NUM_CTX, u32::MAX, u32::MIN);
    assert_eq!(v, Some(0));
    edit_numeric(&mut v, EditAction::Reset, DEFAULT_NUM_CTX, u32::MAX, u32::MIN);
    assert_eq!(v, None);
    edit_numeric(&mut v, EditAction::Enable, DEFAULT_NUM_CTX, u32::MAX, u32::MIN);
    edit_numeric(&mut v, EditAction::Disable, DEFAULT_NUM_CTX, u32::MAX, u32::MIN);
    assert_eq!(v, None);
}

#[test]
fn stop_editor_adds_edits_removes_and_clears() {
    let mut stop: Option<Vec<String>> = None;
    edit_stop(&mut stop, StopAction::Add);
    assert_eq!(stop, None);
    edit_stop(&mut stop, StopAction::Enable);
    assert_eq!(stop, Some(vec![]));
    edit_stop(&mut stop, StopAction::Add);
    edit_stop(&mut stop, StopAction::Add);
    edit_stop(&mut stop, StopAction::Edit(1, "END".to_string()));
    assert_eq!(stop, Some(vec![String::new(), "END".to_string()]));
    edit_stop(&mut stop, StopAction::Remove(0));
    assert_eq!(stop, Some(vec!["END".to_string()]));
    edit_stop(&mut stop, StopAction::Remove(9));
    assert_eq!(stop, Some(vec!["END".to_string()]));
    edit_stop(&mut stop, StopAction::Clear);
    assert_eq!(stop, Some(vec![]));
    edit_stop(&mut stop, StopAction::Disable);
    assert_eq!(stop, None);
}

#[test]
fn speech_edges_fire_once_per_episode() {
    let r = stopped_signals(&vec![true, true, false, false, true, false]);
    assert_eq!(r, vec![false, false, true, false, false, true]);
}

#[test]
fn speech_read_failure_counts_as_silence() {
    let mut m = SpeechMonitor::new();
    let t = m.tick(Some(true));
    assert!(!t.stopped && t.repaint);
    let t = m.tick(None);
    assert!(t.stopped && !t.repaint);
    let t = m.tick(None);
    assert!(!t.stopped && !t.repaint);
}

#[test]
fn selecting_a_model_fills_the_selection() {
    let s = SelectedModel::from_entry(&entry("gemma:latest", 42));
    assert_eq!(s.name, "gemma:latest");
    assert_eq!(s.short_name, "Gemma");
    assert_eq!(s.modified_ago, "1 month ago");
    assert_eq!(s.size, 42);
}

#[test]
fn reselecting_the_same_model_clears_info() {
    let mut p = ModelPicker::new();
    let a = entry("a:latest", 1);
    p.select_model(&a);
    p.on_new_model_info("a:latest", &info("MIT"));
    assert!(p.info.is_some());
    p.select_model(&a);
    assert!(p.info.is_none());
}

#[test]
fn stale_info_is_discarded() {
    let mut p = ModelPicker::new();
    p.select_model(&entry("y", 1));
    p.on_new_model_info("y", &info("Y license"));
    p.on_new_model_info("x", &info("X license"));
    assert_eq!(p.info.as_ref().map(|i| i.license.clone()), Some("Y license".to_string()));
}

#[test]
fn best_model_is_first_of_the_largest() {
    let models = vec![entry("a", 10), entry("b", 50), entry("c", 50)];
    assert_eq!(best_model_index(&models), Some(1));
    let mut p = ModelPicker::new();
    p.select_best_model(&models);
    assert_eq!(p.selected.name, "b");
    assert!(p.has_selection());
}

#[test]
fn best_model_of_empty_catalog_changes_nothing() {
    let mut p = ModelPicker::new();
    p.select_best_model(&[]);
    assert!(!p.has_selection());
    assert_eq!(best_model_index(&[]), None);
}

#[test]
fn metadata_is_requested_until_it_arrives() {
    let mut p = ModelPicker::new();
    assert!(p.pending_request().is_none());
    p.select_model(&entry("m", 3));
    for _ in 0..3 {
        assert!(matches!(p.pending_request(), Some(RequestInfoType::ModelInfo("m"))));
    }
    p.on_new_model_info("m", &info(""));
    assert!(p.pending_request().is_none());
}

#[test]
fn only_non_empty_info_fields_are_shown() {
    let i = info("MIT");
    let s = i.sections();
    assert_eq!(s.len(), 2);
    assert!(matches!(s[0].0, InfoField::License));
    assert_eq!(s[0].1, "MIT");
    assert!(matches!(s[1].0, InfoField::Parameters));
    assert!(info("").clone().sections().len() == 1);
}

#[test]
fn new_sessions_keep_the_active_one() {
    let mut d = Sessions::new();
    d.new_session();
    d.new_session();
    assert_eq!(d.chats.len(), 3);
    assert_eq!(d.get_selected_chat(), Some(0));
    d.select_session(2);
    assert_eq!(d.get_selected_chat(), Some(2));
}

#[test]
fn empty_sessions_get_a_placeholder_label() {
    let mut d = Sessions::default();
    assert_eq!(d.label(0), "Empty session");
    d.chats[0].summary = "Trip plans".to_string();
    assert_eq!(d.label(0), "Trip plans");
}

#[test]
fn tick_hands_the_edge_to_the_active_session() {
    let mut d = Sessions::new();
    let t = d.tick(Some(true));
    assert!(t.repaint && !t.stopped_speaking);
    assert_eq!(t.active, Some(0));
    let t = d.tick(Some(false));
    assert!(t.stopped_speaking && !t.repaint);
    let t = d.tick(Some(false));
    assert!(!t.stopped_speaking);
}

#[test]
fn sizes_are_written_for_people() {
    let e = entry("big", 1_500_000_000);
    assert_eq!(e.size_text(), "1.5 GB");
    assert_eq!(SelectedModel::from_entry(&entry("s", 512)).size_text(), "512 B");
}

#[test]
fn valid_timestamp_keeps_the_relative_text() {
    let r = modified_ago("2024-02-20T10:15:00+01:00", "3 weeks ago".to_string());
    assert_eq!(r, "3 weeks ago");
}

#[test]
fn unparsable_timestamp_shows_the_parse_error() {
    let r = modified_ago("yesterday", "3 weeks ago".to_string());
    assert_ne!(r, "3 weeks ago");
    assert!(!r.is_empty());
    let e = CatalogEntry::new("m".to_string(), "yesterday".to_string(), 7, String::new());
    assert_eq!(e.modified_ago, r);
    assert_eq!(e.modified_at, "yesterday");
    assert_eq!(e.size, 7);
}

#[test]
fn startup_directory_has_one_empty_active_session() {
    let d = Sessions::default();
    assert_eq!(d.chats.len(), 1);
    assert!(d.chats[0].summary.is_empty());
    assert_eq!(d.selected_chat, Some(0));
    assert!(d.tab == SessionTab::Chats);
    assert!(!d.speech.is_speaking);
}
