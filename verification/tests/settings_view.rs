use plan_settings::selection::AppEvent;
use plan_settings::selection::FooterHint;
use plan_settings::selection::SelectionItem;
use plan_settings::selection::SelectionViewParams;
use plan_settings::settings_data::SchemaNode;
use plan_settings::settings_data::SchemaNodeKind;
use plan_settings::settings_data::SettingItemData;
use plan_settings::settings_data::SettingsRootItemData;
use plan_settings::settings_data::SettingsRootItemKind;
use plan_settings::settings_data::SettingsScope;
use plan_settings::settings_data::SettingsScreen;
use plan_settings::settings_data::SettingsScreenData;
use plan_settings::settings_data::SettingsSectionItemData;
use plan_settings::settings_data::SettingsSectionViewData;
use plan_settings::settings_view::build_settings_scope_picker_params;
use plan_settings::settings_view::build_settings_view_params;
use plan_settings::settings_view::editor_context_label;
use plan_settings::settings_view::editor_placeholder;
use plan_settings::settings_view::empty_section_selection_item;
use plan_settings::settings_view::root_selection_item;
use plan_settings::settings_view::scope_selection_item;
use plan_settings::settings_view::setting_selection_item;
use plan_settings::settings_view::settings_subtitle;
use plan_settings::settings_view::settings_title;
use plan_settings::settings_view::settings_view_id;
use ratatui::style::Stylize;
use ratatui::text::Line;

fn scope_picker_summary(params: &SelectionViewParams) -> String {
    let mut lines = vec![
        format!("title: {}", params.title.as_deref().unwrap_or_default()),
        format!("subtitle: {}", params.subtitle.as_deref().unwrap_or_default()),
    ];
    for item in &params.items {
        lines.push(format!("item: {}", item.name));
        lines.push(format!("  description: {}", item.description.as_deref().unwrap_or_default()));
        lines.push(format!("  current: {}", item.is_current));
        lines.push(format!("  disabled: {}", item.is_disabled));
        lines.push(format!(
            "  disabled_reason: {}",
            item.disabled_reason.as_deref().unwrap_or_default()
        ));
    }
    lines.join("\n")
}

fn setting(key_path: &str, label: &str, kind: SchemaNodeKind) -> SettingItemData {
    SettingItemData {
        node: SchemaNode { key_path: key_path.to_string(), kind, enum_values: Vec::new() },
        label: label.to_string(),
        description: Some(format!("About {label}")),
        selected_description: None,
        search_value: format!("{label} {key_path}"),
        disabled_reason: None,
        category_tag: None,
        editor_value: String::new(),
    }
}

fn section_entry(key: &str, kind: SchemaNodeKind) -> SettingsSectionItemData {
    let label = key.rsplit('.').next().unwrap().to_string();
    SettingsSectionItemData { item_key: key.to_string(), setting: setting(key, &label, kind) }
}

fn root_section(key: &str) -> SettingsRootItemData {
    SettingsRootItemData {
        item_key: key.to_string(),
        label: key.to_string(),
        description: Some(format!("Settings under {key}")),
        selected_description: None,
        search_value: key.to_string(),
        disabled_reason: None,
        kind: SettingsRootItemKind::Section { section_key: key.to_string() },
    }
}

fn root_setting(key: &str) -> SettingsRootItemData {
    SettingsRootItemData {
        item_key: key.to_string(),
        label: key.to_string(),
        description: None,
        selected_description: None,
        search_value: key.to_string(),
        disabled_reason: None,
        kind: SettingsRootItemKind::Setting(setting(key, key, SchemaNodeKind::String)),
    }
}

fn section_screen(key: &str) -> SettingsScreen {
    SettingsScreen::Section { section_key: key.to_string() }
}

#[test]
fn settings_scope_picker_disables_missing_profile() {
    let params = build_settings_scope_picker_params(SettingsScope::Global, SettingsScreen::Root, None);
    assert_eq!(params.items.len(), 2);
    assert!(params.items[1].is_disabled);
}

#[test]
fn settings_scope_picker_snapshot() {
    let params = build_settings_scope_picker_params(
        SettingsScope::ActiveProfile,
        SettingsScreen::Root,
        Some("project"),
    );
    assert_eq!(
        scope_picker_summary(&params),
        "title: Write scope\n\
subtitle: Choose where /settings saves changes.\n\
item: User config\n  description: Write to your top-level config.toml.\n  current: false\n  disabled: false\n  disabled_reason: \n\
item: Active profile\n  description: Write under [profiles.project].\n  current: true\n  disabled: false\n  disabled_reason: "
    );
}

#[test]
fn scope_picker_rows_and_actions() {
    let params = build_settings_scope_picker_params(SettingsScope::ActiveProfile, section_screen("tools"), None);
    assert_eq!(params.view_id, Some("settings.scope"));
    assert_eq!(params.footer_hint, Some(FooterHint::StandardPopupHint));
    assert_eq!(params.footer_note, None);
    assert!(!params.is_searchable);
    assert_eq!(params.initial_selected_idx, None);
    let user = &params.items[0];
    assert!(user.is_current);
    assert!(user.dismiss_on_select);
    assert_eq!(user.search_value.as_deref(), Some("user config global"));
    assert_eq!(
        user.actions,
        vec![AppEvent::OpenSettings {
            scope: SettingsScope::Global,
            screen: section_screen("tools"),
            selected_item_key: None
        }]
    );
    let profile = &params.items[1];
    assert!(!profile.is_current);
    assert_eq!(profile.description.as_deref(), Some("No active profile is selected."));
    assert_eq!(profile.selected_description, None);
    assert_eq!(profile.search_value, None);
    assert_eq!(profile.disabled_reason.as_deref(), Some("No active profile is available."));
    assert_eq!(profile.actions.len(), 1);

    let with_profile = build_settings_scope_picker_params(SettingsScope::Global, SettingsScreen::Root, Some("dev"));
    let profile = &with_profile.items[1];
    assert_eq!(
        profile.selected_description.as_deref(),
        Some("Writes the selected key under [profiles.dev] so only that profile changes.")
    );
    assert_eq!(profile.search_value.as_deref(), Some("profile dev"));
    assert!(with_profile.items[0].is_current);
    assert!(!profile.is_current);
}

#[test]
fn normalized_scope_needs_active_profile() {
    assert_eq!(SettingsScope::ActiveProfile.normalized(None), SettingsScope::Global);
    assert_eq!(SettingsScope::ActiveProfile.normalized(Some("dev")), SettingsScope::ActiveProfile);
    assert_eq!(SettingsScope::Global.normalized(Some("dev")), SettingsScope::Global);
    let once = SettingsScope::ActiveProfile.normalized(None);
    assert_eq!(once.normalized(None), once);
}

#[test]
fn view_ids_and_titles() {
    assert_eq!(settings_view_id(&SettingsScreen::Root), "settings.root");
    assert_eq!(settings_view_id(&section_screen("audio")), "settings.section");
    assert_eq!(settings_title(&SettingsScreen::Root), "Settings");
    assert_eq!(settings_title(&section_screen("audio")), "Settings / audio");
}

#[test]
fn subtitles_for_each_scope() {
    let root = SettingsScreen::Root;
    let tools = section_screen("tools");
    assert_eq!(
        settings_subtitle(&root, SettingsScope::Global, Some("dev")),
        "Browse settings sections and edit your user config.toml."
    );
    assert_eq!(
        settings_subtitle(&root, SettingsScope::ActiveProfile, Some("dev")),
        "Browse settings sections for the active profile `dev`."
    );
    assert_eq!(
        settings_subtitle(&root, SettingsScope::ActiveProfile, None),
        "Browse settings sections and edit your user config.toml."
    );
    assert_eq!(
        settings_subtitle(&tools, SettingsScope::Global, None),
        "Browse and edit settings under `tools` in user config.toml."
    );
    assert_eq!(
        settings_subtitle(&tools, SettingsScope::ActiveProfile, Some("dev")),
        "Browse and edit `tools` for the active profile `dev`."
    );
    assert_eq!(
        settings_subtitle(&tools, SettingsScope::ActiveProfile, None),
        "Browse and edit settings under `tools` in user config.toml."
    );
}

#[test]
fn scope_row_describes_scope() {
    let item = scope_selection_item(SettingsScope::ActiveProfile, SettingsScreen::Root, Some("dev"));
    assert_eq!(item.name, "Write scope");
    assert_eq!(item.description.as_deref(), Some("Currently writing to [profiles.dev]."));
    assert_eq!(
        item.selected_description.as_deref(),
        Some("Switch between user config.toml and the active profile without leaving /settings.")
    );
    assert_eq!(item.search_value.as_deref(), Some("write scope global profile"));
    assert!(!item.dismiss_on_select);
    assert_eq!(
        item.actions,
        vec![AppEvent::OpenSettingsScopePicker {
            current_scope: SettingsScope::ActiveProfile,
            current_screen: SettingsScreen::Root
        }]
    );
    let global = scope_selection_item(SettingsScope::Global, SettingsScreen::Root, Some("dev"));
    assert_eq!(global.description.as_deref(), Some("Currently writing to user config.toml."));
    let missing = scope_selection_item(SettingsScope::ActiveProfile, SettingsScreen::Root, None);
    assert_eq!(
        missing.description.as_deref(),
        Some("No active profile is available; using user config.toml.")
    );
}

#[test]
fn empty_section_row_is_disabled() {
    let item = empty_section_selection_item("voice");
    assert_eq!(item.name, "No settings available");
    assert_eq!(
        item.description.as_deref(),
        Some("No configurable keys under `voice` are available in this scope.")
    );
    assert!(item.is_disabled);
    assert_eq!(item.disabled_reason.as_deref(), Some("Try another scope or go back."));
    assert_eq!(item.search_value.as_deref(), Some("empty voice"));
    assert!(item.actions.is_empty());
}

#[test]
fn root_rows_open_section_or_editor() {
    let section = root_selection_item(&root_section("audio"), SettingsScope::Global);
    assert_eq!(section.name, "audio");
    assert_eq!(section.search_value.as_deref(), Some("audio"));
    assert_eq!(
        section.actions,
        vec![AppEvent::OpenSettings {
            scope: SettingsScope::Global,
            screen: section_screen("audio"),
            selected_item_key: None
        }]
    );
    let model = root_selection_item(&root_setting("model"), SettingsScope::ActiveProfile);
    assert_eq!(
        model.actions,
        vec![AppEvent::OpenSettingEditor {
            key_path: "model".to_string(),
            scope: SettingsScope::ActiveProfile,
            screen: SettingsScreen::Root
        }]
    );
    let mut disabled = root_setting("model");
    disabled.disabled_reason = Some("Managed by policy.".to_string());
    let item = root_selection_item(&disabled, SettingsScope::Global);
    assert!(item.actions.is_empty());
    assert!(!item.is_disabled);
    assert_eq!(item.disabled_reason.as_deref(), Some("Managed by policy."));
}

#[test]
fn setting_rows_open_editor() {
    let data = setting("audio.microphone", "microphone", SchemaNodeKind::String);
    let item = setting_selection_item(&data, SettingsScope::Global, section_screen("audio"));
    assert_eq!(item.name, "microphone");
    assert_eq!(item.description.as_deref(), Some("About microphone"));
    assert_eq!(
        item.actions,
        vec![AppEvent::OpenSettingEditor {
            key_path: "audio.microphone".to_string(),
            scope: SettingsScope::Global,
            screen: section_screen("audio")
        }]
    );
    let mut disabled = data.clone();
    disabled.disabled_reason = Some("Not in this scope.".to_string());
    let item: SelectionItem = setting_selection_item(&disabled, SettingsScope::Global, SettingsScreen::Root);
    assert!(item.actions.is_empty());
}

#[test]
fn editor_context_labels() {
    let mut item = setting("model", "model", SchemaNodeKind::String);
    assert_eq!(
        editor_context_label(&item, SettingsScope::Global, Some("dev")),
        "Scope: user config | Source: default"
    );
    item.category_tag = Some("user".to_string());
    assert_eq!(
        editor_context_label(&item, SettingsScope::ActiveProfile, Some("dev")),
        "Scope: profile `dev` | Source: user"
    );
    assert_eq!(
        editor_context_label(&item, SettingsScope::ActiveProfile, None),
        "Scope: user config | Source: user"
    );
}

#[test]
fn editor_placeholders_by_kind() {
    let cases = [
        (SchemaNodeKind::Boolean, "Enter true or false."),
        (SchemaNodeKind::Integer, "Enter an integer."),
        (SchemaNodeKind::Number, "Enter a number."),
        (SchemaNodeKind::String, "Enter a string value."),
        (SchemaNodeKind::Array, "Enter a TOML value or table fragment."),
        (SchemaNodeKind::Object, "Enter a TOML value or table fragment."),
        (SchemaNodeKind::Unknown, "Enter a TOML value or table fragment."),
    ];
    for (kind, prompt) in cases {
        let item = setting("k", "k", kind);
        assert_eq!(
            editor_placeholder(&item),
            format!("{prompt} Type __clear__ to clear this override.")
        );
    }
    let mut item = setting("service_tier", "service_tier", SchemaNodeKind::String);
    item.node.enum_values = vec!["flex".to_string(), "fast".to_string()];
    assert_eq!(
        editor_placeholder(&item),
        "Enter a string value. Options: flex, fast. Type __clear__ to clear this override."
    );
    item.node.enum_values = vec!["only".to_string()];
    assert_eq!(
        editor_placeholder(&item),
        "Enter a string value. Options: only. Type __clear__ to clear this override."
    );
}

#[test]
fn root_view_lists_rows_after_scope_row() {
    let data = SettingsScreenData::Root {
        items: vec![root_section("audio"), root_setting("model"), root_section("tools")],
    };
    let params = build_settings_view_params(SettingsScope::Global, &data, None, Some("model"));
    assert_eq!(params.view_id, Some("settings.root"));
    assert_eq!(params.title.as_deref(), Some("Settings"));
    assert_eq!(
        params.subtitle.as_deref(),
        Some("Browse settings sections and edit your user config.toml.")
    );
    let names: Vec<&str> = params.items.iter().map(|i| i.name.as_str()).collect();
    assert_eq!(names, vec!["Write scope", "audio", "model", "tools"]);
    assert_eq!(params.initial_selected_idx, Some(2));
    assert!(params.is_searchable);
    assert_eq!(params.search_placeholder.as_deref(), Some("Type to filter settings"));
    assert_eq!(params.footer_hint, Some(FooterHint::StandardPopupHint));
    assert_eq!(
        params.footer_note,
        Some(Line::from("Type __clear__ in an editor to clear a saved override.".to_string()).dim())
    );
    let missing = build_settings_view_params(SettingsScope::Global, &data, None, Some("nothing"));
    assert_eq!(missing.initial_selected_idx, None);
    let none = build_settings_view_params(SettingsScope::Global, &data, None, None);
    assert_eq!(none.initial_selected_idx, None);
}

#[test]
fn profile_view_normalizes_scope() {
    let data = SettingsScreenData::Root { items: vec![root_setting("model")] };
    let params = build_settings_view_params(SettingsScope::ActiveProfile, &data, Some("dev"), None);
    assert_eq!(
        params.subtitle.as_deref(),
        Some("Browse settings sections for the active profile `dev`.")
    );
    assert_eq!(
        params.items[1].actions,
        vec![AppEvent::OpenSettingEditor {
            key_path: "model".to_string(),
            scope: SettingsScope::ActiveProfile,
            screen: SettingsScreen::Root
        }]
    );
    let fallback = build_settings_view_params(SettingsScope::ActiveProfile, &data, None, None);
    assert_eq!(
        fallback.subtitle.as_deref(),
        Some("Browse settings sections and edit your user config.toml.")
    );
    assert_eq!(
        fallback.items[0].actions,
        vec![AppEvent::OpenSettingsScopePicker {
            current_scope: SettingsScope::Global,
            current_screen: SettingsScreen::Root
        }]
    );
}

#[test]
fn section_view_lists_section_row_first() {
    let data = SettingsScreenData::Section {
        section_key: "audio".to_string(),
        view: SettingsSectionViewData {
            section_item: Some(SettingsSectionItemData {
                item_key: "audio".to_string(),
                setting: setting("audio", "Edit this section", SchemaNodeKind::Object),
            }),
            items: vec![
                section_entry("audio.microphone", SchemaNodeKind::String),
                section_entry("audio.speaker", SchemaNodeKind::String),
            ],
        },
    };
    let params = build_settings_view_params(SettingsScope::Global, &data, None, Some("audio.speaker"));
    assert_eq!(params.view_id, Some("settings.section"));
    assert_eq!(params.title.as_deref(), Some("Settings / audio"));
    assert_eq!(
        params.subtitle.as_deref(),
        Some("Browse and edit settings under `audio` in user config.toml.")
    );
    let names: Vec<&str> = params.items.iter().map(|i| i.name.as_str()).collect();
    assert_eq!(names, vec!["Write scope", "Edit this section", "microphone", "speaker"]);
    assert_eq!(params.initial_selected_idx, Some(3));
    assert_eq!(
        params.items[2].actions,
        vec![AppEvent::OpenSettingEditor {
            key_path: "audio.microphone".to_string(),
            scope: SettingsScope::Global,
            screen: section_screen("audio")
        }]
    );
    let first = build_settings_view_params(SettingsScope::Global, &data, None, Some("audio"));
    assert_eq!(first.initial_selected_idx, Some(1));
}

#[test]
fn empty_section_view_says_so() {
    let data = SettingsScreenData::Section {
        section_key: "voice".to_string(),
        view: SettingsSectionViewData { section_item: None, items: vec![] },
    };
    let params = build_settings_view_params(SettingsScope::ActiveProfile, &data, Some("dev"), Some("voice"));
    assert_eq!(
        params.subtitle.as_deref(),
        Some("Browse and edit `voice` for the active profile `dev`.")
    );
    assert_eq!(params.items.len(), 2);
    assert_eq!(params.items[1], empty_section_selection_item("voice"));
    assert_eq!(params.initial_selected_idx, None);
}

#[test]
fn rows_have_an_action_unless_disabled() {
    let mut disabled = root_setting("notify");
    disabled.disabled_reason = Some("Edit in a file.".to_string());
    let data = SettingsScreenData::Root { items: vec![root_section("tui"), disabled] };
    let params = build_settings_view_params(SettingsScope::Global, &data, None, None);
    for item in &params.items {
        let expected = if item.disabled_reason.is_some() { 0 } else { 1 };
        assert_eq!(item.actions.len(), expected);
    }
}

#[test]
fn selection_highlights_first_matching_entry() {
    let data = SettingsScreenData::Root {
        items: vec![root_section("tools"), root_setting("model"), root_setting("model")],
    };
    let params = build_settings_view_params(SettingsScope::Global, &data, None, Some("model"));
    assert_eq!(params.initial_selected_idx, Some(2));
    assert_eq!(params.items[2].name, "model");
}
