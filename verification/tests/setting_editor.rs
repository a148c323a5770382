use plan_settings::setting_editor::build_setting_editor_view;
use plan_settings::setting_editor::editor_input_parser;
use plan_settings::setting_editor::editor_submission;
use plan_settings::setting_editor::EditorInputParser;
use plan_settings::setting_editor::EditorSubmission;
use plan_settings::setting_editor::SettingsViewError;
use plan_settings::settings_data::SchemaNode;
use plan_settings::settings_data::SchemaNodeKind;
use plan_settings::settings_data::SettingItemData;
use plan_settings::settings_data::SettingsScope;
use plan_settings::settings_data::SettingsScreen;

fn setting(key_path: &str, kind: SchemaNodeKind, editor_value: &str) -> SettingItemData {
    SettingItemData {
        node: SchemaNode { key_path: key_path.to_string(), kind, enum_values: Vec::new() },
        label: key_path.to_string(),
        description: None,
        selected_description: None,
        search_value: key_path.to_string(),
        disabled_reason: None,
        category_tag: Some("user".to_string()),
        editor_value: editor_value.to_string(),
    }
}

#[test]
fn editor_view_for_found_setting() {
    let items = vec![
        setting("model", SchemaNodeKind::String, "gpt-5"),
        setting("audio.microphone", SchemaNodeKind::String, "Desk Mic"),
        setting("model", SchemaNodeKind::Integer, "later duplicate"),
    ];
    let view = build_setting_editor_view(
        &items,
        "model",
        SettingsScope::ActiveProfile,
        SettingsScreen::Root,
        Some("dev"),
    )
    .unwrap();
    assert_eq!(view.title, "Edit model");
    assert_eq!(view.placeholder, "Enter a string value. Type __clear__ to clear this override.");
    assert_eq!(view.context_label.as_deref(), Some("Scope: profile `dev` | Source: user"));
    assert_eq!(view.initial_text, "gpt-5");
    assert_eq!(view.key_path, "model");
    assert_eq!(view.kind, SchemaNodeKind::String);
    assert_eq!(view.scope, SettingsScope::ActiveProfile);
    assert_eq!(view.screen, SettingsScreen::Root);

    let fallback =
        build_setting_editor_view(&items, "audio.microphone", SettingsScope::ActiveProfile, SettingsScreen::Root, None)
            .unwrap();
    assert_eq!(fallback.scope, SettingsScope::Global);
    assert_eq!(fallback.context_label.as_deref(), Some("Scope: user config | Source: user"));
}

#[test]
fn editor_view_for_missing_setting() {
    let items = vec![setting("model", SchemaNodeKind::String, "")];
    let err = build_setting_editor_view(&items, "nope", SettingsScope::Global, SettingsScreen::Root, None)
        .unwrap_err();
    assert_eq!(err, SettingsViewError::SettingNotFound("nope".to_string()));
    assert_eq!(err.message(), "setting `nope` not found");
}

#[test]
fn input_parsers_by_kind() {
    for kind in [
        SchemaNodeKind::Boolean,
        SchemaNodeKind::Integer,
        SchemaNodeKind::Number,
        SchemaNodeKind::String,
    ] {
        assert_eq!(editor_input_parser(kind), EditorInputParser::Scalar(kind));
    }
    for kind in [SchemaNodeKind::Array, SchemaNodeKind::Object, SchemaNodeKind::Unknown] {
        assert_eq!(editor_input_parser(kind), EditorInputParser::TomlFragment);
    }
}

#[test]
fn clear_text_clears_even_with_white_space() {
    for input in ["__clear__", "  __clear__", "__clear__\n", "\t __clear__ \u{3000}"] {
        assert_eq!(editor_submission(SchemaNodeKind::String, input), EditorSubmission::ClearOverride);
        assert_eq!(input.trim(), "__clear__");
    }
}

#[test]
fn other_input_is_parsed() {
    assert_eq!(
        editor_submission(SchemaNodeKind::Integer, "42"),
        EditorSubmission::SaveParsed(EditorInputParser::Scalar(SchemaNodeKind::Integer))
    );
    assert_eq!(
        editor_submission(SchemaNodeKind::Object, "__clear__x"),
        EditorSubmission::SaveParsed(EditorInputParser::TomlFragment)
    );
    assert_eq!(
        editor_submission(SchemaNodeKind::Boolean, "_ _clear__"),
        EditorSubmission::SaveParsed(EditorInputParser::Scalar(SchemaNodeKind::Boolean))
    );
    assert_eq!(
        editor_submission(SchemaNodeKind::String, ""),
        EditorSubmission::SaveParsed(EditorInputParser::Scalar(SchemaNodeKind::String))
    );
}
