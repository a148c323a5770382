//! Properties that hold of every settings popup the library builds.
use vstd::prelude::*;

use crate::selection::AppEventModel;
use crate::selection::SelectionItemModel;
use crate::settings_data::normalized_scope;
use crate::settings_data::ScreenModel;
use crate::settings_data::SettingsRootItemData;
use crate::settings_data::SettingsScope;
use crate::settings_data::SettingsScreenData;
use crate::settings_data::SettingsSectionItemData;
use crate::settings_data::SettingsSectionViewData;
use crate::settings_view::content_keys;
use crate::settings_view::content_rows;
use crate::settings_view::empty_section_item_model;
use crate::settings_view::root_item_model;
use crate::settings_view::scope_item_model;
use crate::settings_view::scope_label_text;
use crate::settings_view::scope_picker_model;
use crate::settings_view::setting_item_model;
use crate::settings_view::settings_view_model;
use crate::settings_view::subtitle_text;
use crate::text::first_position;
use crate::text::is_first_position;
use crate::settings_data::SettingsRootItemKind;
use crate::settings_data::opt_string_view;
use crate::settings_view::scope_description_text;
use crate::settings_view::source_label_text;
use crate::settings_view::title_text;
use crate::settings_view::view_id_of;
use crate::settings_view::clear_sentinel;
use crate::settings_view::footer_note_text;
use crate::settings_view::kind_prompt_text;
use crate::settings_data::SchemaNodeKind;

verus! {

/// The entries of a section screen in the order they are shown.
pub open spec fn section_entries(view: SettingsSectionViewData) -> Seq<SettingsSectionItemData> {
    (match view.section_item {
        Some(si) => seq![si],
        None => Seq::empty(),
    }) + view.items@
}

/// The key of the `k`-th entry a screen shows.
pub open spec fn entry_key(data: SettingsScreenData, k: int) -> Seq<char> {
    match data {
        SettingsScreenData::Root { items } => items@[k].item_key@,
        SettingsScreenData::Section { view, .. } => section_entries(view)[k].item_key@,
    }
}

/// The row that shows the `k`-th entry of a screen.
pub open spec fn entry_row(data: SettingsScreenData, scope: SettingsScope, k: int) -> SelectionItemModel {
    match data {
        SettingsScreenData::Root { items } => root_item_model(items@[k], scope),
        SettingsScreenData::Section { section_key, view } => setting_item_model(
            section_entries(view)[k].setting,
            scope,
            ScreenModel::Section(section_key@),
        ),
    }
}

/// The number of entries a screen shows.
pub open spec fn entry_count(data: SettingsScreenData) -> int {
    match data {
        SettingsScreenData::Root { items } => items@.len() as int,
        SettingsScreenData::Section { view, .. } => section_entries(view).len() as int,
    }
}

/// Asking for the active profile scope twice is asking once; the active profile is
/// the scope in use only while a profile is active.
pub proof fn lemma_normalized_scope(scope: SettingsScope, has_profile: bool)
    ensures
        normalized_scope(normalized_scope(scope, has_profile), has_profile) == normalized_scope(scope, has_profile),
        normalized_scope(scope, has_profile) == SettingsScope::ActiveProfile ==> has_profile,
        has_profile ==> normalized_scope(scope, has_profile) == scope,
{
}

/// Without an active profile, the active profile scope reads exactly as the user
/// config scope in the subtitle and in the editor's label.
pub proof fn lemma_missing_profile_reads_as_user_config(screen: ScreenModel)
    ensures
        subtitle_text(screen, SettingsScope::ActiveProfile, None) == subtitle_text(screen, SettingsScope::Global, None),
        scope_label_text(SettingsScope::ActiveProfile, None) == scope_label_text(SettingsScope::Global, None),
{
}

/// The scope picker has two rows and exactly one of them is marked current; the
/// profile row is disabled, with a reason, exactly when no profile is active.
pub proof fn lemma_scope_picker_marks_one_current(scope: SettingsScope, screen: ScreenModel, profile: Option<Seq<char>>)
    ensures
        ({
            let m = scope_picker_model(scope, screen, profile);
            &&& m.items.len() == 2
            &&& m.items[0].is_current != m.items[1].is_current
            &&& m.items[1].is_current ==> profile is Some
            &&& !m.items[0].is_disabled
            &&& m.items[1].is_disabled <==> profile is None
            &&& m.items[1].disabled_reason is Some <==> profile is None
        }),
{
}

/// The entries' rows follow the entries' keys one for one; a section with no
/// entries shows one row that says so, and the write scope row comes first.
pub proof fn lemma_rows_follow_entries(
    scope: SettingsScope,
    data: SettingsScreenData,
    profile: Option<Seq<char>>,
    selected: Option<Seq<char>>,
)
    ensures
        ({
            let m = settings_view_model(scope, data, profile, selected);
            let s = normalized_scope(scope, profile is Some);
            &&& content_keys(data).len() == entry_count(data)
            &&& forall|k: int| 0 <= k < entry_count(data) ==> #[trigger] content_keys(data)[k] == entry_key(data, k)
            &&& m.items[0] == scope_item_model(s, data.screen_model(), profile)
            &&& forall|k: int| 0 <= k < entry_count(data) ==> #[trigger] m.items[k + 1] == entry_row(data, s, k)
            &&& m.items.len() == 1 + entry_count(data) + (if entry_count(data) == 0 && data is Section { 1int } else { 0 })
            &&& entry_count(data) == 0 ==> (data matches SettingsScreenData::Section { section_key, .. } ==> m.items[1]
                == empty_section_item_model(section_key@))
        }),
{
    let s = normalized_scope(scope, profile is Some);
    let m = settings_view_model(scope, data, profile, selected);
    match data {
        SettingsScreenData::Root { items } => {
            assert(m.items =~= seq![scope_item_model(s, data.screen_model(), profile)] + content_rows(data, s));
        },
        SettingsScreenData::Section { section_key, view } => {
            let entries = section_entries(view);
            assert(content_keys(data) =~= entries.map_values(|it: SettingsSectionItemData| it.item_key@));
            let screen = ScreenModel::Section(section_key@);
            let rows = entries.map_values(|it: SettingsSectionItemData| setting_item_model(it.setting, s, screen));
            assert((match view.section_item {
                Some(si) => seq![setting_item_model(si.setting, s, screen)],
                None => Seq::<SelectionItemModel>::empty(),
            }) + view.items@.map_values(|it: SettingsSectionItemData| setting_item_model(it.setting, s, screen))
                =~= rows);
        },
    }
}

/// When the popup opens with a row highlighted, that row shows the first entry
/// whose key was selected; nothing is highlighted when no entry has that key.
pub proof fn lemma_initial_selection_shows_selected_entry(
    scope: SettingsScope,
    data: SettingsScreenData,
    profile: Option<Seq<char>>,
    selected: Option<Seq<char>>,
)
    ensures
        ({
            let m = settings_view_model(scope, data, profile, selected);
            let s = normalized_scope(scope, profile is Some);
            match m.initial_selected_idx {
                Some(i) => {
                    &&& selected matches Some(key)
                    &&& 1 <= i < m.items.len()
                    &&& entry_key(data, i - 1) == key
                    &&& forall|k: int| 0 <= k < i - 1 ==> entry_key(data, k) != key
                    &&& m.items[i as int] == entry_row(data, s, i - 1)
                },
                None => selected matches Some(key) ==> forall|k: int|
                    0 <= k < entry_count(data) ==> entry_key(data, k) != key,
            }
        }),
{
    let m = settings_view_model(scope, data, profile, selected);
    lemma_rows_follow_entries(scope, data, profile, selected);
    let keys = content_keys(data);
    if let Some(key) = selected {
        if let Some(p) = first_position(keys, key) {
            assert(is_first_position(keys, key, p));
            assert(keys[p] == entry_key(data, p));
            assert forall|k: int| 0 <= k < p implies entry_key(data, k) != key by {
                assert(keys[k] == entry_key(data, k));
            }
        } else {
            assert forall|k: int| 0 <= k < entry_count(data) implies entry_key(data, k) != key by {
                assert(keys[k] == entry_key(data, k));
                if keys[k] == key {
                    crate::text::lemma_first_position_exists(keys, key, k);
                }
            }
        }
    }
}

/// In a settings popup, a row offers its one action exactly when it gives no
/// reason for being disabled.
pub proof fn lemma_enabled_rows_have_one_action(
    scope: SettingsScope,
    data: SettingsScreenData,
    profile: Option<Seq<char>>,
    selected: Option<Seq<char>>,
)
    ensures
        ({
            let m = settings_view_model(scope, data, profile, selected);
            forall|i: int|
                0 <= i < m.items.len() ==> #[trigger] m.items[i].actions.len() == (if m.items[i].disabled_reason is Some {
                    0int
                } else {
                    1int
                })
        }),
{
    lemma_rows_follow_entries(scope, data, profile, selected);
}

/// The write scope an event carries.
pub open spec fn event_scope(e: AppEventModel) -> SettingsScope {
    match e {
        AppEventModel::OpenSettings { scope, .. } => scope,
        AppEventModel::OpenSettingEditor { scope, .. } => scope,
        AppEventModel::OpenSettingsScopePicker { current_scope, .. } => current_scope,
    }
}

/// Every event that a row of a settings popup sends keeps the popup's write scope:
/// opening a section, an editor or the scope picker never changes where changes go.
pub proof fn lemma_events_keep_write_scope(
    scope: SettingsScope,
    data: SettingsScreenData,
    profile: Option<Seq<char>>,
    selected: Option<Seq<char>>,
)
    ensures
        ({
            let m = settings_view_model(scope, data, profile, selected);
            forall|i: int, j: int|
                0 <= i < m.items.len() && 0 <= j < m.items[i].actions.len() ==> event_scope(
                    #[trigger] m.items[i].actions[j],
                ) == normalized_scope(scope, profile is Some)
        }),
{
    lemma_rows_follow_entries(scope, data, profile, selected);
    let m = settings_view_model(scope, data, profile, selected);
    assert forall|i: int, j: int|
        0 <= i < m.items.len() && 0 <= j < m.items[i].actions.len() implies event_scope(
            #[trigger] m.items[i].actions[j],
        ) == normalized_scope(scope, profile is Some) by {
        if 1 <= i <= entry_count(data) {
            assert(m.items[i] == entry_row(data, normalized_scope(scope, profile is Some), i - 1));
        }
    }
}

/// What each row of a settings popup sends, in terms of the entry it shows: the
/// write scope row opens the scope picker for this scope and screen; an enabled
/// root section opens that section, an enabled root setting opens its editor from
/// the root, and an enabled setting of a section opens its editor from the section,
/// all in the popup's write scope; a row with a disabled reason sends nothing.
pub proof fn lemma_row_actions(
    scope: SettingsScope,
    data: SettingsScreenData,
    profile: Option<Seq<char>>,
    selected: Option<Seq<char>>,
)
    ensures
        ({
            let m = settings_view_model(scope, data, profile, selected);
            let s = normalized_scope(scope, profile is Some);
            &&& m.items[0].actions == seq![
                AppEventModel::OpenSettingsScopePicker { current_scope: s, current_screen: data.screen_model() },
            ]
            &&& data matches SettingsScreenData::Root { items } ==> forall|k: int|
                0 <= k < items@.len() ==> #[trigger] m.items[k + 1].actions == if items@[k].disabled_reason is Some {
                    Seq::empty()
                } else {
                    match items@[k].kind {
                        SettingsRootItemKind::Section { section_key } => seq![
                            AppEventModel::OpenSettings {
                                scope: s,
                                screen: ScreenModel::Section(section_key@),
                                selected_item_key: None,
                            },
                        ],
                        SettingsRootItemKind::Setting(setting) => seq![
                            AppEventModel::OpenSettingEditor {
                                key_path: setting.node.key_path@,
                                scope: s,
                                screen: ScreenModel::Root,
                            },
                        ],
                    }
                }
            &&& data matches SettingsScreenData::Section { section_key, view } ==> forall|k: int|
                0 <= k < section_entries(view).len() ==> #[trigger] m.items[k + 1].actions == if section_entries(
                    view,
                )[k].setting.disabled_reason is Some {
                    Seq::empty()
                } else {
                    seq![
                        AppEventModel::OpenSettingEditor {
                            key_path: section_entries(view)[k].setting.node.key_path@,
                            scope: s,
                            screen: ScreenModel::Section(section_key@),
                        },
                    ]
                }
        }),
{
    lemma_rows_follow_entries(scope, data, profile, selected);
    let m = settings_view_model(scope, data, profile, selected);
    let s = normalized_scope(scope, profile is Some);
    match data {
        SettingsScreenData::Root { items } => {
            assert forall|k: int| 0 <= k < items@.len() implies #[trigger] m.items[k + 1].actions == if items@[k].disabled_reason is Some {
                Seq::empty()
            } else {
                match items@[k].kind {
                    SettingsRootItemKind::Section { section_key } => seq![
                        AppEventModel::OpenSettings {
                            scope: s,
                            screen: ScreenModel::Section(section_key@),
                            selected_item_key: None,
                        },
                    ],
                    SettingsRootItemKind::Setting(setting) => seq![
                        AppEventModel::OpenSettingEditor {
                            key_path: setting.node.key_path@,
                            scope: s,
                            screen: ScreenModel::Root,
                        },
                    ],
                }
            } by {
                assert(m.items[k + 1] == entry_row(data, s, k));
            }
        },
        SettingsScreenData::Section { section_key, view } => {
            assert forall|k: int| 0 <= k < section_entries(view).len() implies #[trigger] m.items[k + 1].actions
                == if section_entries(view)[k].setting.disabled_reason is Some {
                Seq::empty()
            } else {
                seq![
                    AppEventModel::OpenSettingEditor {
                        key_path: section_entries(view)[k].setting.node.key_path@,
                        scope: s,
                        screen: ScreenModel::Section(section_key@),
                    },
                ]
            } by {
                assert(m.items[k + 1] == entry_row(data, s, k));
            }
        },
    }
}

/// In the scope picker, choosing the user config row reopens the settings writing to
/// the user config, choosing the profile row reopens them writing to the active
/// profile, both on the current screen; the row marked current is exactly the one
/// whose choice keeps the scope in use.
pub proof fn lemma_scope_picker_actions(scope: SettingsScope, screen: ScreenModel, profile: Option<Seq<char>>)
    ensures
        ({
            let m = scope_picker_model(scope, screen, profile);
            let s = normalized_scope(scope, profile is Some);
            &&& m.items[0].actions == seq![
                AppEventModel::OpenSettings { scope: SettingsScope::Global, screen: screen, selected_item_key: None },
            ]
            &&& m.items[1].actions == seq![
                AppEventModel::OpenSettings {
                    scope: SettingsScope::ActiveProfile,
                    screen: screen,
                    selected_item_key: None,
                },
            ]
            &&& event_scope(m.items[0].actions[0]) != event_scope(m.items[1].actions[0])
            &&& forall|i: int| 0 <= i < 2 ==> (#[trigger] m.items[i].is_current <==> event_scope(m.items[i].actions[0]) == s)
        }),
{
    let m = scope_picker_model(scope, screen, profile);
    assert(m.items.len() == 2);
}

/// The subtitle names the active profile only for the active profile scope: under
/// the user config scope it reads the same whether or not a profile is active, and
/// under either scope without a profile it reads as the user config one.
pub proof fn lemma_subtitle_names_profile_only_in_profile_scope(screen: ScreenModel, p: Seq<char>)
    ensures
        subtitle_text(screen, SettingsScope::Global, Some(p)) == subtitle_text(screen, SettingsScope::Global, None),
        subtitle_text(screen, SettingsScope::ActiveProfile, None) == subtitle_text(screen, SettingsScope::Global, None),
        match screen {
            ScreenModel::Root => subtitle_text(screen, SettingsScope::ActiveProfile, Some(p))
                == "Browse settings sections for the active profile `"@ + p + "`."@,
            ScreenModel::Section(key) => subtitle_text(screen, SettingsScope::ActiveProfile, Some(p))
                == "Browse and edit `"@ + key + "` for the active profile `"@ + p + "`."@,
        },
{
}

/// Every entry's row shows the entry's own label, descriptions, search text and
/// disabled reason; the row is never marked current nor closes the popup.
pub proof fn lemma_rows_show_their_entries(
    scope: SettingsScope,
    data: SettingsScreenData,
    profile: Option<Seq<char>>,
    selected: Option<Seq<char>>,
)
    ensures
        ({
            let m = settings_view_model(scope, data, profile, selected);
            &&& data matches SettingsScreenData::Root { items } ==> forall|k: int|
                0 <= k < items@.len() ==> {
                    &&& #[trigger] m.items[k + 1].name == items@[k].label@
                    &&& m.items[k + 1].description == opt_string_view(items@[k].description)
                    &&& m.items[k + 1].selected_description == opt_string_view(items@[k].selected_description)
                    &&& m.items[k + 1].search_value == Some(items@[k].search_value@)
                    &&& m.items[k + 1].disabled_reason == opt_string_view(items@[k].disabled_reason)
                    &&& !m.items[k + 1].is_current && !m.items[k + 1].dismiss_on_select
                }
            &&& data matches SettingsScreenData::Section { view, .. } ==> forall|k: int|
                0 <= k < section_entries(view).len() ==> {
                    let e = section_entries(view)[k].setting;
                    &&& #[trigger] m.items[k + 1].name == e.label@
                    &&& m.items[k + 1].description == opt_string_view(e.description)
                    &&& m.items[k + 1].selected_description == opt_string_view(e.selected_description)
                    &&& m.items[k + 1].search_value == Some(e.search_value@)
                    &&& m.items[k + 1].disabled_reason == opt_string_view(e.disabled_reason)
                    &&& !m.items[k + 1].is_current && !m.items[k + 1].dismiss_on_select
                }
        }),
{
    lemma_rows_follow_entries(scope, data, profile, selected);
    let m = settings_view_model(scope, data, profile, selected);
    let s = normalized_scope(scope, profile is Some);
    match data {
        SettingsScreenData::Root { items } => {
            assert forall|k: int| 0 <= k < items@.len() implies {
                &&& #[trigger] m.items[k + 1].name == items@[k].label@
                &&& m.items[k + 1].description == opt_string_view(items@[k].description)
                &&& m.items[k + 1].selected_description == opt_string_view(items@[k].selected_description)
                &&& m.items[k + 1].search_value == Some(items@[k].search_value@)
                &&& m.items[k + 1].disabled_reason == opt_string_view(items@[k].disabled_reason)
                &&& !m.items[k + 1].is_current && !m.items[k + 1].dismiss_on_select
            } by {
                assert(m.items[k + 1] == entry_row(data, s, k));
            }
        },
        SettingsScreenData::Section { view, .. } => {
            assert forall|k: int| 0 <= k < section_entries(view).len() implies {
                let e = section_entries(view)[k].setting;
                &&& #[trigger] m.items[k + 1].name == e.label@
                &&& m.items[k + 1].description == opt_string_view(e.description)
                &&& m.items[k + 1].selected_description == opt_string_view(e.selected_description)
                &&& m.items[k + 1].search_value == Some(e.search_value@)
                &&& m.items[k + 1].disabled_reason == opt_string_view(e.disabled_reason)
                &&& !m.items[k + 1].is_current && !m.items[k + 1].dismiss_on_select
            } by {
                assert(m.items[k + 1] == entry_row(data, s, k));
            }
        },
    }
}

/// The row shown for a section with no entries is disabled, gives a reason, sends
/// nothing, and names the section.
pub proof fn lemma_empty_section_row(section_key: Seq<char>)
    ensures
        empty_section_item_model(section_key).is_disabled,
        empty_section_item_model(section_key).disabled_reason is Some,
        empty_section_item_model(section_key).actions.len() == 0,
        empty_section_item_model(section_key).search_value == Some("empty "@ + section_key),
{
}

/// Titles and popup identifiers tell screens apart: the root and a section never
/// share them, and two sections share a title only when they are the same section.
pub proof fn lemma_titles_tell_screens_apart(a: Seq<char>, b: Seq<char>)
    ensures
        title_text(ScreenModel::Section(a)) == title_text(ScreenModel::Section(b)) ==> a == b,
        title_text(ScreenModel::Section(a)) == "Settings / "@ + a,
        title_text(ScreenModel::Root) != title_text(ScreenModel::Section(a)),
        view_id_of(ScreenModel::Root) != view_id_of(ScreenModel::Section(a)),
{
    reveal_strlit("Settings / ");
    reveal_strlit("Settings");
    reveal_strlit("settings.root");
    reveal_strlit("settings.section");
    let pa = "Settings / "@ + a;
    let pb = "Settings / "@ + b;
    if pa == pb {
        assert(a =~= pa.subrange(11, pa.len() as int));
        assert(b =~= pb.subrange(11, pb.len() as int));
    }
    assert("Settings"@.len() == 8);
    assert(pa[8] == ' ');
    assert("settings.root"@.len() != "settings.section"@.len());
}

/// The write scope row and the editor's label name the active profile only under
/// the active profile scope; the source label names the value's source when there
/// is one, and distinct sources give distinct labels.
pub proof fn lemma_labels_name_profile_only_in_profile_scope(p: Seq<char>, t: Seq<char>, u: Seq<char>)
    ensures
        scope_description_text(SettingsScope::Global, Some(p)) == scope_description_text(SettingsScope::Global, None),
        scope_description_text(SettingsScope::ActiveProfile, Some(p)) == "Currently writing to [profiles."@ + p
            + "]."@,
        scope_label_text(SettingsScope::Global, Some(p)) == scope_label_text(SettingsScope::Global, None),
        scope_label_text(SettingsScope::ActiveProfile, Some(p)) == "Scope: profile `"@ + p + "`"@,
        source_label_text(Some(t)) == "Source: "@ + t,
        source_label_text(Some(t)) == source_label_text(Some(u)) ==> t == u,
{
    reveal_strlit("Source: ");
    let lt = "Source: "@ + t;
    let lu = "Source: "@ + u;
    if lt == lu {
        assert(t =~= lt.subrange(8, lt.len() as int));
        assert(u =~= lu.subrange(8, lu.len() as int));
    }
}

/// The footer of every settings popup tells the same clear text that editors accept,
/// and each kind of setting asks for its own kind of value.
pub proof fn lemma_prompts()
    ensures
        footer_note_text().subrange(5, 5 + clear_sentinel().len() as int) == clear_sentinel(),
        kind_prompt_text(SchemaNodeKind::Boolean) == "Enter true or false."@,
        kind_prompt_text(SchemaNodeKind::Integer) == "Enter an integer."@,
        kind_prompt_text(SchemaNodeKind::Number) == "Enter a number."@,
        kind_prompt_text(SchemaNodeKind::String) == "Enter a string value."@,
        kind_prompt_text(SchemaNodeKind::Array) == "Enter a TOML value or table fragment."@,
        kind_prompt_text(SchemaNodeKind::Object) == "Enter a TOML value or table fragment."@,
        kind_prompt_text(SchemaNodeKind::Unknown) == "Enter a TOML value or table fragment."@,
{
    reveal_strlit("Type ");
    assert("Type "@.len() == 5);
    assert(footer_note_text().subrange(5, 5 + clear_sentinel().len() as int) =~= clear_sentinel());
}

/// The scope picker's profile row names the active profile in its description,
/// its highlighted description and its search text, and says so when none is active.
pub proof fn lemma_scope_picker_profile_texts(scope: SettingsScope, screen: ScreenModel, profile: Option<Seq<char>>)
    ensures
        ({
            let m = scope_picker_model(scope, screen, profile);
            match profile {
                Some(p) => {
                    &&& m.items[1].description == Some("Write under [profiles."@ + p + "]."@)
                    &&& m.items[1].selected_description == Some(
                        "Writes the selected key under [profiles."@ + p + "] so only that profile changes."@,
                    )
                    &&& m.items[1].search_value == Some("profile "@ + p)
                    &&& m.items[1].disabled_reason is None
                },
                None => {
                    &&& m.items[1].description == Some("No active profile is selected."@)
                    &&& m.items[1].selected_description is None
                    &&& m.items[1].search_value is None
                    &&& m.items[1].disabled_reason == Some("No active profile is available."@)
                },
            }
        }),
{
}

} // verus!
