//! Builds the rows and popups of the settings view.
use vstd::prelude::*;

use crate::selection::AppEvent;
use crate::selection::SelectionItem;
use crate::selection::SelectionItemModel;
use crate::selection::AppEventModel;
use crate::settings_data::opt_str_view;
use crate::settings_data::opt_string_view;
use crate::settings_data::clone_opt_string;
use crate::settings_data::ScreenModel;
use crate::settings_data::SettingsScope;
use crate::settings_data::SettingsScreen;
use crate::text::cat2;
use crate::text::cat3;
use crate::text::cat5;
use crate::text::first_position;
use crate::text::position_of;
use crate::text::lemma_map_take_push;
use crate::selection::dimmed_line;
use crate::selection::dimmed_line_of;
use crate::settings_data::SettingsScreenData;
use crate::settings_data::SettingsSectionItemData;
use crate::selection::FooterHint;
use crate::selection::SelectionViewModel;
use crate::selection::SelectionViewParams;
use crate::selection::items_view;
use crate::settings_data::normalized_scope;
use crate::text::join_strings;
use crate::text::seq_join;
use crate::text::strings_view;
use crate::text::join_offset;
use crate::text::total_len;
use crate::text::lemma_seq_join_layout;
use crate::settings_data::SchemaNodeKind;
use crate::selection::events_view;
use crate::settings_data::SettingItemData;
use crate::settings_data::SettingsRootItemData;
use crate::settings_data::SettingsRootItemKind;

verus! {

/// The text that, typed in an editor, clears a saved override.
pub open spec fn clear_sentinel() -> Seq<char> {
    "__clear__"@
}

/// The text that, typed in an editor, clears a saved override.
pub fn clear_sentinel_str() -> (r: &'static str)
    ensures
        r@ == clear_sentinel(),
{
    "__clear__"
}

/// The identifier of the root settings popup.
pub open spec fn root_view_id() -> Seq<char> {
    "settings.root"@
}

/// The identifier of a section settings popup.
pub open spec fn section_view_id() -> Seq<char> {
    "settings.section"@
}

/// The identifier of the scope picker popup.
pub open spec fn scope_view_id() -> Seq<char> {
    "settings.scope"@
}

/// The identifier of the popup that shows a screen.
pub open spec fn view_id_of(screen: ScreenModel) -> Seq<char> {
    match screen {
        ScreenModel::Root => root_view_id(),
        ScreenModel::Section(_) => section_view_id(),
    }
}

/// The identifier of the popup that shows a screen.
pub fn settings_view_id(screen: &SettingsScreen) -> (r: &'static str)
    ensures
        r@ == view_id_of(screen@),
{
    match screen {
        SettingsScreen::Root => "settings.root",
        SettingsScreen::Section { .. } => "settings.section",
    }
}

/// The title of the popup that shows a screen.
pub open spec fn title_text(screen: ScreenModel) -> Seq<char> {
    match screen {
        ScreenModel::Root => "Settings"@,
        ScreenModel::Section(key) => "Settings / "@ + key,
    }
}

/// The title of the popup that shows a screen.
pub fn settings_title(screen: &SettingsScreen) -> (r: String)
    ensures
        r@ == title_text(screen@),
{
    match screen {
        SettingsScreen::Root => String::from_str("Settings"),
        SettingsScreen::Section { section_key } => cat2("Settings / ", section_key.as_str()),
    }
}

/// The subtitle of the popup that shows a screen; the active profile is named
/// only when the scope is the active profile and one is selected.
pub open spec fn subtitle_text(screen: ScreenModel, scope: SettingsScope, profile: Option<Seq<char>>) -> Seq<char> {
    match screen {
        ScreenModel::Root => match (scope, profile) {
            (SettingsScope::ActiveProfile, Some(p)) => "Browse settings sections for the active profile `"@ + p
                + "`."@,
            _ => "Browse settings sections and edit your user config.toml."@,
        },
        ScreenModel::Section(key) => match (scope, profile) {
            (SettingsScope::ActiveProfile, Some(p)) => "Browse and edit `"@ + key + "` for the active profile `"@
                + p + "`."@,
            _ => "Browse and edit settings under `"@ + key + "` in user config.toml."@,
        },
    }
}

/// The subtitle of the popup that shows a screen.
pub fn settings_subtitle(screen: &SettingsScreen, scope: SettingsScope, active_profile: Option<&str>) -> (r: String)
    ensures
        r@ == subtitle_text(screen@, scope, opt_str_view(active_profile)),
{
    match screen {
        SettingsScreen::Root => match scope {
            SettingsScope::Global => String::from_str(
                "Browse settings sections and edit your user config.toml.",
            ),
            SettingsScope::ActiveProfile => match active_profile {
                Some(profile) => cat3("Browse settings sections for the active profile `", profile, "`."),
                None => String::from_str("Browse settings sections and edit your user config.toml."),
            },
        },
        SettingsScreen::Section { section_key } => match scope {
            SettingsScope::Global => cat3(
                "Browse and edit settings under `",
                section_key.as_str(),
                "` in user config.toml.",
            ),
            SettingsScope::ActiveProfile => match active_profile {
                Some(profile) => cat5(
                    "Browse and edit `",
                    section_key.as_str(),
                    "` for the active profile `",
                    profile,
                    "`.",
                ),
                None => cat3(
                    "Browse and edit settings under `",
                    section_key.as_str(),
                    "` in user config.toml.",
                ),
            },
        },
    }
}

/// The description of the row that shows the write scope.
pub open spec fn scope_description_text(scope: SettingsScope, profile: Option<Seq<char>>) -> Seq<char> {
    match (scope, profile) {
        (SettingsScope::Global, _) => "Currently writing to user config.toml."@,
        (SettingsScope::ActiveProfile, Some(p)) => "Currently writing to [profiles."@ + p + "]."@,
        (SettingsScope::ActiveProfile, None) => "No active profile is available; using user config.toml."@,
    }
}

/// The row, first in every settings popup, that shows the write scope and opens
/// the scope picker.
pub open spec fn scope_item_model(scope: SettingsScope, screen: ScreenModel, profile: Option<Seq<char>>) -> SelectionItemModel {
    SelectionItemModel {
        name: "Write scope"@,
        description: Some(scope_description_text(scope, profile)),
        selected_description: Some(
            "Switch between user config.toml and the active profile without leaving /settings."@,
        ),
        is_current: false,
        is_disabled: false,
        actions: seq![AppEventModel::OpenSettingsScopePicker { current_scope: scope, current_screen: screen }],
        dismiss_on_select: false,
        search_value: Some("write scope global profile"@),
        disabled_reason: None,
    }
}

/// The row that shows the write scope and opens the scope picker.
pub fn scope_selection_item(scope: SettingsScope, screen: SettingsScreen, active_profile: Option<&str>) -> (r: SelectionItem)
    ensures
        r@ == scope_item_model(scope, screen@, opt_str_view(active_profile)),
{
    let description = match scope {
        SettingsScope::Global => String::from_str("Currently writing to user config.toml."),
        SettingsScope::ActiveProfile => match active_profile {
            Some(profile) => cat3("Currently writing to [profiles.", profile, "]."),
            None => String::from_str("No active profile is available; using user config.toml."),
        },
    };
    let actions = vec![AppEvent::OpenSettingsScopePicker { current_scope: scope, current_screen: screen }];
    let r = SelectionItem {
        name: String::from_str("Write scope"),
        description: Some(description),
        selected_description: Some(
            String::from_str("Switch between user config.toml and the active profile without leaving /settings."),
        ),
        is_current: false,
        is_disabled: false,
        actions,
        dismiss_on_select: false,
        search_value: Some(String::from_str("write scope global profile")),
        disabled_reason: None,
    };
    assert(r@.actions =~= scope_item_model(scope, screen@, opt_str_view(active_profile)).actions);
    r
}

/// The disabled row shown when a section has nothing to edit in this scope.
pub open spec fn empty_section_item_model(section_key: Seq<char>) -> SelectionItemModel {
    SelectionItemModel {
        name: "No settings available"@,
        description: Some("No configurable keys under `"@ + section_key + "` are available in this scope."@),
        selected_description: None,
        is_current: false,
        is_disabled: true,
        actions: Seq::empty(),
        dismiss_on_select: false,
        search_value: Some("empty "@ + section_key),
        disabled_reason: Some("Try another scope or go back."@),
    }
}

/// The disabled row shown when a section has nothing to edit in this scope.
pub fn empty_section_selection_item(section_key: &str) -> (r: SelectionItem)
    ensures
        r@ == empty_section_item_model(section_key@),
{
    let r = SelectionItem {
        name: String::from_str("No settings available"),
        description: Some(cat3("No configurable keys under `", section_key, "` are available in this scope.")),
        selected_description: None,
        is_current: false,
        is_disabled: true,
        actions: Vec::new(),
        dismiss_on_select: false,
        search_value: Some(cat2("empty ", section_key)),
        disabled_reason: Some(String::from_str("Try another scope or go back.")),
    };
    assert(r@.actions =~= Seq::<AppEventModel>::empty());
    r
}

/// The events a root row sends: none while it is disabled, otherwise one that
/// opens its section or the editor of its setting.
pub open spec fn root_item_actions(item: SettingsRootItemData, scope: SettingsScope) -> Seq<AppEventModel> {
    if item.disabled_reason is Some {
        Seq::empty()
    } else {
        match item.kind {
            SettingsRootItemKind::Section { section_key } => seq![AppEventModel::OpenSettings {
                scope: scope,
                screen: ScreenModel::Section(section_key@),
                selected_item_key: None,
            }],
            SettingsRootItemKind::Setting(setting) => seq![AppEventModel::OpenSettingEditor {
                key_path: setting.node.key_path@,
                scope: scope,
                screen: ScreenModel::Root,
            }],
        }
    }
}

/// The row that shows one entry of the root screen.
pub open spec fn root_item_model(item: SettingsRootItemData, scope: SettingsScope) -> SelectionItemModel {
    SelectionItemModel {
        name: item.label@,
        description: opt_string_view(item.description),
        selected_description: opt_string_view(item.selected_description),
        is_current: false,
        is_disabled: false,
        actions: root_item_actions(item, scope),
        dismiss_on_select: false,
        search_value: Some(item.search_value@),
        disabled_reason: opt_string_view(item.disabled_reason),
    }
}

/// The row that shows one entry of the root screen.
pub fn root_selection_item(item: &SettingsRootItemData, scope: SettingsScope) -> (r: SelectionItem)
    ensures
        r@ == root_item_model(*item, scope),
{
    let actions: Vec<AppEvent> = if item.disabled_reason.is_some() {
        Vec::new()
    } else {
        match &item.kind {
            SettingsRootItemKind::Section { section_key } => vec![AppEvent::OpenSettings {
                scope,
                screen: SettingsScreen::Section { section_key: section_key.clone() },
                selected_item_key: None,
            }],
            SettingsRootItemKind::Setting(setting) => vec![AppEvent::OpenSettingEditor {
                key_path: setting.node.key_path.clone(),
                scope,
                screen: SettingsScreen::Root,
            }],
        }
    };
    assert(events_view(actions@) =~= root_item_actions(*item, scope));
    SelectionItem {
        name: item.label.clone(),
        description: clone_opt_string(&item.description),
        selected_description: clone_opt_string(&item.selected_description),
        is_current: false,
        is_disabled: false,
        actions,
        dismiss_on_select: false,
        search_value: Some(item.search_value.clone()),
        disabled_reason: clone_opt_string(&item.disabled_reason),
    }
}

/// The events a setting row sends: none while it is disabled, otherwise one that
/// opens the setting's editor.
pub open spec fn setting_item_actions(item: SettingItemData, scope: SettingsScope, screen: ScreenModel) -> Seq<AppEventModel> {
    if item.disabled_reason is Some {
        Seq::empty()
    } else {
        seq![AppEventModel::OpenSettingEditor { key_path: item.node.key_path@, scope: scope, screen: screen }]
    }
}

/// The row that shows one setting.
pub open spec fn setting_item_model(item: SettingItemData, scope: SettingsScope, screen: ScreenModel) -> SelectionItemModel {
    SelectionItemModel {
        name: item.label@,
        description: opt_string_view(item.description),
        selected_description: opt_string_view(item.selected_description),
        is_current: false,
        is_disabled: false,
        actions: setting_item_actions(item, scope, screen),
        dismiss_on_select: false,
        search_value: Some(item.search_value@),
        disabled_reason: opt_string_view(item.disabled_reason),
    }
}

/// The row that shows one setting.
pub fn setting_selection_item(item: &SettingItemData, scope: SettingsScope, screen: SettingsScreen) -> (r: SelectionItem)
    ensures
        r@ == setting_item_model(*item, scope, screen@),
{
    let key_path = item.node.key_path.clone();
    let actions: Vec<AppEvent> = if item.disabled_reason.is_some() {
        Vec::new()
    } else {
        vec![AppEvent::OpenSettingEditor { key_path, scope, screen }]
    };
    assert(events_view(actions@) =~= setting_item_actions(*item, scope, screen@));
    SelectionItem {
        name: item.label.clone(),
        description: clone_opt_string(&item.description),
        selected_description: clone_opt_string(&item.selected_description),
        is_current: false,
        is_disabled: false,
        actions,
        dismiss_on_select: false,
        search_value: Some(item.search_value.clone()),
        disabled_reason: clone_opt_string(&item.disabled_reason),
    }
}

/// The first part of an editor's label: where the value will be written.
pub open spec fn scope_label_text(scope: SettingsScope, profile: Option<Seq<char>>) -> Seq<char> {
    match (scope, profile) {
        (SettingsScope::ActiveProfile, Some(p)) => "Scope: profile `"@ + p + "`"@,
        _ => "Scope: user config"@,
    }
}

/// The second part of an editor's label: where the current value comes from.
pub open spec fn source_label_text(category_tag: Option<Seq<char>>) -> Seq<char> {
    match category_tag {
        Some(source) => "Source: "@ + source,
        None => "Source: default"@,
    }
}

/// The label shown above a setting's editor.
pub open spec fn context_label_text(item: SettingItemData, scope: SettingsScope, profile: Option<Seq<char>>) -> Seq<char> {
    scope_label_text(scope, profile) + " | "@ + source_label_text(opt_string_view(item.category_tag))
}

/// The label shown above a setting's editor: its write scope and its source.
pub fn editor_context_label(item: &SettingItemData, scope: SettingsScope, active_profile: Option<&str>) -> (r: String)
    ensures
        r@ == context_label_text(*item, scope, opt_str_view(active_profile)),
{
    let scope_label = match scope {
        SettingsScope::Global => String::from_str("Scope: user config"),
        SettingsScope::ActiveProfile => match active_profile {
            Some(profile) => cat3("Scope: profile `", profile, "`"),
            None => String::from_str("Scope: user config"),
        },
    };
    let source_label = match &item.category_tag {
        Some(source) => cat2("Source: ", source.as_str()),
        None => String::from_str("Source: default"),
    };
    cat3(scope_label.as_str(), " | ", source_label.as_str())
}

/// What an editor asks for, by the kind of value.
pub open spec fn kind_prompt_text(kind: SchemaNodeKind) -> Seq<char> {
    match kind {
        SchemaNodeKind::Boolean => "Enter true or false."@,
        SchemaNodeKind::Integer => "Enter an integer."@,
        SchemaNodeKind::Number => "Enter a number."@,
        SchemaNodeKind::String => "Enter a string value."@,
        _ => "Enter a TOML value or table fragment."@,
    }
}

/// The placeholder of a setting's editor: what to enter, the allowed values when
/// the schema lists them, and how to clear the override; separated by spaces.
pub open spec fn placeholder_text(item: SettingItemData) -> Seq<char> {
    let options = strings_view(item.node.enum_values@);
    kind_prompt_text(item.node.kind) + " "@ + (if options.len() == 0 {
        Seq::empty()
    } else {
        "Options: "@ + seq_join(options, ", "@) + "."@ + " "@
    }) + "Type "@ + clear_sentinel() + " to clear this override."@
}

/// The placeholder names every value the schema allows, in the schema's order,
/// separated by ", " and closed by "."; without listed values it has no options part.
pub proof fn lemma_placeholder_lists_all_options(item: SettingItemData)
    ensures
        ({
            let values = strings_view(item.node.enum_values@);
            let head = kind_prompt_text(item.node.kind) + " Options: "@;
            let tail = ". Type "@ + clear_sentinel() + " to clear this override."@;
            &&& values.len() == 0 ==> placeholder_text(item) == kind_prompt_text(item.node.kind) + " Type "@
                + clear_sentinel() + " to clear this override."@
            &&& values.len() > 0 ==> placeholder_text(item) == head + seq_join(values, ", "@) + tail
            &&& values.len() > 0 ==> forall|i: int|
                0 <= i < values.len() ==> #[trigger] placeholder_text(item).subrange(
                    head.len() + join_offset(values, ", "@, i),
                    head.len() + join_offset(values, ", "@, i) + values[i].len(),
                ) == item.node.enum_values@[i]@
            &&& values.len() > 0 ==> placeholder_text(item).subrange(
                head.len() + total_len(values) + (values.len() - 1) * 2,
                placeholder_text(item).len() as int,
            ) == tail
        }),
{
    let values = strings_view(item.node.enum_values@);
    let head = kind_prompt_text(item.node.kind) + " Options: "@;
    let tail = ". Type "@ + clear_sentinel() + " to clear this override."@;
    reveal_strlit(", ");
    assert(", "@.len() == 2);
    if values.len() == 0 {
        assert(placeholder_text(item) =~= kind_prompt_text(item.node.kind) + " Type "@ + clear_sentinel()
            + " to clear this override."@) by {
            reveal_strlit(" ");
            reveal_strlit(" Type ");
            reveal_strlit("Type ");
        }
    } else {
        let joined = seq_join(values, ", "@);
        assert(placeholder_text(item) =~= head + joined + tail) by {
            reveal_strlit(" ");
            reveal_strlit(" Options: ");
            reveal_strlit("Options: ");
            reveal_strlit(".");
            reveal_strlit(". Type ");
            reveal_strlit("Type ");
        }
        lemma_seq_join_layout(values, ", "@);
        let whole = head + joined + tail;
        assert forall|i: int| 0 <= i < values.len() implies #[trigger] placeholder_text(item).subrange(
            head.len() + join_offset(values, ", "@, i),
            head.len() + join_offset(values, ", "@, i) + values[i].len(),
        ) == item.node.enum_values@[i]@ by {
            let a = join_offset(values, ", "@, i);
            assert(joined.subrange(a, a + values[i].len()) == values[i]);
            assert(whole.subrange(head.len() + a, head.len() + a + values[i].len()) =~= joined.subrange(
                a,
                a + values[i].len(),
            ));
        }
        assert(whole.subrange((head.len() + joined.len()) as int, whole.len() as int) =~= tail);
    }
}

/// The placeholder of a setting's editor.
pub fn editor_placeholder(item: &SettingItemData) -> (r: String)
    ensures
        r@ == placeholder_text(*item),
        item.node.enum_values@.len() == 0 ==> r@ == kind_prompt_text(item.node.kind) + " Type "@ + clear_sentinel()
            + " to clear this override."@,
        item.node.enum_values@.len() > 0 ==> r@ == kind_prompt_text(item.node.kind) + " Options: "@ + seq_join(
            strings_view(item.node.enum_values@),
            ", "@,
        ) + ". Type "@ + clear_sentinel() + " to clear this override."@,
{
    let mut text = match item.node.kind {
        SchemaNodeKind::Boolean => String::from_str("Enter true or false."),
        SchemaNodeKind::Integer => String::from_str("Enter an integer."),
        SchemaNodeKind::Number => String::from_str("Enter a number."),
        SchemaNodeKind::String => String::from_str("Enter a string value."),
        SchemaNodeKind::Array | SchemaNodeKind::Object | SchemaNodeKind::Unknown => String::from_str(
            "Enter a TOML value or table fragment.",
        ),
    };
    text.append(" ");
    let ghost head = text@;
    if item.node.enum_values.len() != 0 {
        let options = join_strings(&item.node.enum_values, ", ");
        text.append("Options: ");
        text.append(options.as_str());
        text.append(".");
        text.append(" ");
    }
    text.append("Type ");
    text.append(clear_sentinel_str());
    text.append(" to clear this override.");
    proof {
        lemma_placeholder_lists_all_options(*item);
        let options = strings_view(item.node.enum_values@);
        assert(options.len() == item.node.enum_values@.len());
        if options.len() == 0 {
            assert(text@ =~= placeholder_text(*item));
        } else {
            assert(text@ =~= placeholder_text(*item));
        }
    }
    text
}

/// The row of the scope picker that writes to the user config.
pub open spec fn user_config_choice_model(scope: SettingsScope, screen: ScreenModel) -> SelectionItemModel {
    SelectionItemModel {
        name: "User config"@,
        description: Some("Write to your top-level config.toml."@),
        selected_description: Some(
            "Writes the selected key to your user config.toml and applies everywhere unless a profile override wins."@,
        ),
        is_current: scope == SettingsScope::Global,
        is_disabled: false,
        actions: seq![AppEventModel::OpenSettings { scope: SettingsScope::Global, screen: screen, selected_item_key: None }],
        dismiss_on_select: true,
        search_value: Some("user config global"@),
        disabled_reason: None,
    }
}

/// The row of the scope picker that writes to the active profile; it is disabled
/// while no profile is active.
pub open spec fn profile_choice_model(scope: SettingsScope, screen: ScreenModel, profile: Option<Seq<char>>) -> SelectionItemModel {
    SelectionItemModel {
        name: "Active profile"@,
        description: Some(
            match profile {
                Some(p) => "Write under [profiles."@ + p + "]."@,
                None => "No active profile is selected."@,
            },
        ),
        selected_description: match profile {
            Some(p) => Some("Writes the selected key under [profiles."@ + p + "] so only that profile changes."@),
            None => None,
        },
        is_current: scope == SettingsScope::ActiveProfile,
        is_disabled: profile is None,
        actions: seq![AppEventModel::OpenSettings { scope: SettingsScope::ActiveProfile, screen: screen, selected_item_key: None }],
        dismiss_on_select: true,
        search_value: match profile {
            Some(p) => Some("profile "@ + p),
            None => None,
        },
        disabled_reason: match profile {
            Some(_) => None,
            None => Some("No active profile is available."@),
        },
    }
}

/// The scope picker: the user config and the active profile, the one in use marked
/// current, for the given scope once it is normalized.
pub open spec fn scope_picker_model(scope: SettingsScope, screen: ScreenModel, profile: Option<Seq<char>>) -> SelectionViewModel {
    let scope = normalized_scope(scope, profile is Some);
    SelectionViewModel {
        view_id: Some(scope_view_id()),
        title: Some("Write scope"@),
        subtitle: Some("Choose where /settings saves changes."@),
        footer_note: None,
        footer_hint: Some(FooterHint::StandardPopupHint),
        items: seq![user_config_choice_model(scope, screen), profile_choice_model(scope, screen, profile)],
        is_searchable: false,
        search_placeholder: None,
        initial_selected_idx: None,
    }
}

/// Builds the popup that chooses where the settings popup writes.
pub fn build_settings_scope_picker_params(
    current_scope: SettingsScope,
    current_screen: SettingsScreen,
    active_profile: Option<&str>,
) -> (r: SelectionViewParams)
    ensures
        r@ == scope_picker_model(current_scope, current_screen@, opt_str_view(active_profile)),
{
    let write_scope = current_scope.normalized(active_profile);
    let global_screen = current_screen.clone();
    let global_actions = vec![AppEvent::OpenSettings {
        scope: SettingsScope::Global,
        screen: global_screen,
        selected_item_key: None,
    }];
    let user_item = SelectionItem {
        name: String::from_str("User config"),
        description: Some(String::from_str("Write to your top-level config.toml.")),
        selected_description: Some(
            String::from_str(
                "Writes the selected key to your user config.toml and applies everywhere unless a profile override wins.",
            ),
        ),
        is_current: write_scope == SettingsScope::Global,
        is_disabled: false,
        actions: global_actions,
        dismiss_on_select: true,
        search_value: Some(String::from_str("user config global")),
        disabled_reason: None,
    };
    let ghost screen_model = current_screen@;
    let profile_actions = vec![AppEvent::OpenSettings {
        scope: SettingsScope::ActiveProfile,
        screen: current_screen,
        selected_item_key: None,
    }];
    let profile_item = SelectionItem {
        name: String::from_str("Active profile"),
        description: Some(
            match active_profile {
                Some(profile) => cat3("Write under [profiles.", profile, "]."),
                None => String::from_str("No active profile is selected."),
            },
        ),
        selected_description: match active_profile {
            Some(profile) => Some(
                cat3("Writes the selected key under [profiles.", profile, "] so only that profile changes."),
            ),
            None => None,
        },
        is_current: write_scope == SettingsScope::ActiveProfile,
        is_disabled: active_profile.is_none(),
        actions: profile_actions,
        dismiss_on_select: true,
        search_value: match active_profile {
            Some(profile) => Some(cat2("profile ", profile)),
            None => None,
        },
        disabled_reason: match active_profile {
            Some(_) => None,
            None => Some(String::from_str("No active profile is available.")),
        },
    };
    assert(user_item@.actions =~= user_config_choice_model(write_scope, screen_model).actions);
    assert(profile_item@.actions =~= profile_choice_model(write_scope, screen_model, opt_str_view(active_profile)).actions);
    let items = vec![user_item, profile_item];
    let r = SelectionViewParams {
        view_id: Some("settings.scope"),
        title: Some(String::from_str("Write scope")),
        subtitle: Some(String::from_str("Choose where /settings saves changes.")),
        footer_note: None,
        footer_hint: Some(FooterHint::StandardPopupHint),
        items,
        is_searchable: false,
        search_placeholder: None,
        initial_selected_idx: None,
    };
    assert(r@.items =~= scope_picker_model(current_scope, screen_model, opt_str_view(active_profile)).items);
    r
}

/// The note under every settings popup that explains how to clear an override.
pub open spec fn footer_note_text() -> Seq<char> {
    "Type "@ + clear_sentinel() + " in an editor to clear a saved override."@
}

/// The keys of the entries a screen shows, in order: for a section, the section's
/// own entry first when there is one.
pub open spec fn content_keys(data: SettingsScreenData) -> Seq<Seq<char>> {
    match data {
        SettingsScreenData::Root { items } => items@.map_values(|it: SettingsRootItemData| it.item_key@),
        SettingsScreenData::Section { view, .. } => (match view.section_item {
            Some(si) => seq![si.item_key@],
            None => Seq::empty(),
        }) + view.items@.map_values(|it: SettingsSectionItemData| it.item_key@),
    }
}

/// The rows that show a screen's entries, in the order of `content_keys`; a section
/// with no entries shows the row that says so instead.
pub open spec fn content_rows(data: SettingsScreenData, scope: SettingsScope) -> Seq<SelectionItemModel> {
    match data {
        SettingsScreenData::Root { items } => items@.map_values(|it: SettingsRootItemData| root_item_model(it, scope)),
        SettingsScreenData::Section { section_key, view } => {
            let screen = ScreenModel::Section(section_key@);
            (match view.section_item {
                Some(si) => seq![setting_item_model(si.setting, scope, screen)],
                None => Seq::empty(),
            }) + view.items@.map_values(|it: SettingsSectionItemData| setting_item_model(it.setting, scope, screen))
                + (if view.section_item is None && view.items@.len() == 0 {
                seq![empty_section_item_model(section_key@)]
            } else {
                Seq::empty()
            })
        },
    }
}

/// The row highlighted when the popup opens: the entry whose key was selected
/// (its first occurrence), counted after the write scope row.
pub open spec fn initial_selection(data: SettingsScreenData, selected: Option<Seq<char>>) -> Option<int> {
    match selected {
        Some(key) => match first_position(content_keys(data), key) {
            Some(i) => Some(i + 1),
            None => None,
        },
        None => None,
    }
}

/// A settings popup: the write scope row, then the rows of the screen's entries;
/// the scope is normalized first.
pub open spec fn settings_view_model(
    scope: SettingsScope,
    data: SettingsScreenData,
    profile: Option<Seq<char>>,
    selected: Option<Seq<char>>,
) -> SelectionViewModel {
    let scope = normalized_scope(scope, profile is Some);
    let screen = data.screen_model();
    SelectionViewModel {
        view_id: Some(view_id_of(screen)),
        title: Some(title_text(screen)),
        subtitle: Some(subtitle_text(screen, scope, profile)),
        footer_note: Some(dimmed_line_of(footer_note_text())),
        footer_hint: Some(FooterHint::StandardPopupHint),
        items: seq![scope_item_model(scope, screen, profile)] + content_rows(data, scope),
        is_searchable: true,
        search_placeholder: Some("Type to filter settings"@),
        initial_selected_idx: initial_selection(data, selected),
    }
}

/// The keys of the entries a screen shows.
fn content_item_keys(data: &SettingsScreenData) -> (r: Vec<String>)
    ensures
        strings_view(r@) == content_keys(*data),
{
    let mut keys: Vec<String> = Vec::new();
    match data {
        SettingsScreenData::Root { items } => {
            let n = items.len();
            let mut i: usize = 0;
            while i < n
                invariant
                    n == items@.len(),
                    i <= n,
                    strings_view(keys@) =~= items@.take(i as int).map_values(|it: SettingsRootItemData| it.item_key@),
                decreases n - i,
            {
                let ghost old_keys = keys@;
                keys.push(items[i].item_key.clone());
                proof {
                    assert(strings_view(keys@) =~= strings_view(old_keys).push(items@[i as int].item_key@));
                    lemma_map_take_push(items@, |it: SettingsRootItemData| it.item_key@, i as int);
                }
                i = i + 1;
            }
            assert(items@.take(n as int) =~= items@);
        },
        SettingsScreenData::Section { view, .. } => {
            if let Some(si) = &view.section_item {
                keys.push(si.item_key.clone());
            }
            let ghost head = strings_view(keys@);
            let items = &view.items;
            let n = items.len();
            let mut i: usize = 0;
            while i < n
                invariant
                    n == items@.len(),
                    i <= n,
                    strings_view(keys@) =~= head + items@.take(i as int).map_values(|it: SettingsSectionItemData| it.item_key@),
                decreases n - i,
            {
                let ghost old_keys = keys@;
                keys.push(items[i].item_key.clone());
                proof {
                    assert(strings_view(keys@) =~= strings_view(old_keys).push(items@[i as int].item_key@));
                    lemma_map_take_push(items@, |it: SettingsSectionItemData| it.item_key@, i as int);
                }
                i = i + 1;
            }
            assert(items@.take(n as int) =~= items@);
        },
    }
    keys
}

/// Builds the settings popup for a screen from the entries it shows, highlighting
/// the entry whose key is `selected_item_key`.
pub fn build_settings_view_params(
    scope: SettingsScope,
    data: &SettingsScreenData,
    active_profile: Option<&str>,
    selected_item_key: Option<&str>,
) -> (r: SelectionViewParams)
    ensures
        r@ == settings_view_model(scope, *data, opt_str_view(active_profile), opt_str_view(selected_item_key)),
{
    let write_scope = scope.normalized(active_profile);
    let screen = data.screen();
    let ghost screen_model = screen@;
    let mut items: Vec<SelectionItem> = vec![scope_selection_item(write_scope, screen.clone(), active_profile)];
    let ghost head = items_view(items@);
    match data {
        SettingsScreenData::Root { items: root_items } => {
            let n = root_items.len();
            let mut i: usize = 0;
            while i < n
                invariant
                    n == root_items@.len(),
                    i <= n,
                    items_view(items@) =~= head + root_items@.take(i as int).map_values(
                        |it: SettingsRootItemData| root_item_model(it, write_scope),
                    ),
                decreases n - i,
            {
                let ghost old_items = items@;
                items.push(root_selection_item(&root_items[i], write_scope));
                proof {
                    assert(items_view(items@) =~= items_view(old_items).push(root_item_model(root_items@[i as int], write_scope)));
                    lemma_map_take_push(root_items@, |it: SettingsRootItemData| root_item_model(it, write_scope), i as int);
                }
                i = i + 1;
            }
            assert(root_items@.take(n as int) =~= root_items@);
            assert(items_view(items@) =~= head + content_rows(*data, write_scope));
        },
        SettingsScreenData::Section { section_key, view } => {
            assert(screen_model == ScreenModel::Section(section_key@));
            if let Some(si) = &view.section_item {
                items.push(setting_selection_item(&si.setting, write_scope, screen.clone()));
            }
            let ghost mid = items_view(items@);
            let ghost section_rows = match &view.section_item {
                Some(si) => seq![setting_item_model(si.setting, write_scope, screen_model)],
                None => Seq::<SelectionItemModel>::empty(),
            };
            assert(mid =~= head + section_rows);
            let entries = &view.items;
            let n = entries.len();
            let mut i: usize = 0;
            while i < n
                invariant
                    n == entries@.len(),
                    i <= n,
                    screen@ == screen_model,
                    items_view(items@) =~= mid + entries@.take(i as int).map_values(
                        |it: SettingsSectionItemData| setting_item_model(it.setting, write_scope, screen_model),
                    ),
                decreases n - i,
            {
                let ghost old_items = items@;
                items.push(setting_selection_item(&entries[i].setting, write_scope, screen.clone()));
                proof {
                    assert(items_view(items@) =~= items_view(old_items).push(
                        setting_item_model(entries@[i as int].setting, write_scope, screen_model),
                    ));
                    lemma_map_take_push(
                        entries@,
                        |it: SettingsSectionItemData| setting_item_model(it.setting, write_scope, screen_model),
                        i as int,
                    );
                }
                i = i + 1;
            }
            assert(entries@.take(n as int) =~= entries@);
            let ghost before_empty = items_view(items@);
            if view.section_item.is_none() && entries.len() == 0 {
                items.push(empty_section_selection_item(section_key.as_str()));
                assert(items_view(items@) =~= before_empty.push(empty_section_item_model(section_key@)));
            }
            assert(items_view(items@) =~= head + content_rows(*data, write_scope));
        },
    }
    proof {
        assert(items_view(items@) =~= seq![scope_item_model(write_scope, screen_model, opt_str_view(active_profile))]
            + content_rows(*data, write_scope));
    }
    let initial_selected_idx = match selected_item_key {
        Some(key) => {
            let keys = content_item_keys(data);
            match position_of(&keys, key) {
                Some(idx) => Some(idx + 1),
                None => None,
            }
        },
        None => None,
    };
    let footer = cat3("Type ", clear_sentinel_str(), " in an editor to clear a saved override.");
    SelectionViewParams {
        view_id: Some(settings_view_id(&screen)),
        title: Some(settings_title(&screen)),
        subtitle: Some(settings_subtitle(&screen, write_scope, active_profile)),
        footer_note: Some(dimmed_line(footer)),
        footer_hint: Some(FooterHint::StandardPopupHint),
        items,
        is_searchable: true,
        search_placeholder: Some(String::from_str("Type to filter settings")),
        initial_selected_idx,
    }
}

} // verus!
