//! The editor of one setting: what it shows, and what a submitted input asks for.
use vstd::prelude::*;

use crate::settings_data::normalized_scope;
use crate::settings_data::opt_str_view;
use crate::settings_data::ScreenModel;
use crate::settings_data::SchemaNodeKind;
use crate::settings_data::SettingItemData;
use crate::settings_data::SettingsScope;
use crate::settings_data::SettingsScreen;
use crate::settings_view::clear_sentinel;
use crate::settings_view::clear_sentinel_str;
use crate::settings_view::context_label_text;
use crate::settings_view::editor_context_label;
use crate::settings_view::editor_placeholder;
use crate::settings_view::placeholder_text;
use crate::text::cat2;
use crate::text::str_equal;
use crate::text::trim_white_space;
use crate::text::trimmed;
use crate::text::is_white_space;
use crate::text::lemma_trimmed_surrounded;

verus! {

/// Errors met while opening a setting's editor.
#[derive(Debug, Clone, PartialEq, Eq)]
pub enum SettingsViewError {
    /// No setting has the requested key path.
    SettingNotFound(String),
}

impl SettingsViewError {
    /// The message shown for the error.
    pub fn message(&self) -> (r: String)
        ensures
            match self {
                SettingsViewError::SettingNotFound(key) => r@ == "setting `"@ + key@ + "` not found"@,
            },
    {
        match self {
            SettingsViewError::SettingNotFound(key) => crate::text::cat3("setting `", key.as_str(), "` not found"),
        }
    }
}

/// How the text typed into an editor is read, by the kind of the setting.
#[derive(Debug, Clone, Copy, PartialEq, Eq, Structural)]
pub enum EditorInputParser {
    /// Read as a single value of the given kind.
    Scalar(SchemaNodeKind),
    /// Read as a TOML value or table fragment.
    TomlFragment,
}

/// How input for a setting of the given kind is read.
pub open spec fn input_parser_for(kind: SchemaNodeKind) -> EditorInputParser {
    match kind {
        SchemaNodeKind::Boolean | SchemaNodeKind::Integer | SchemaNodeKind::Number | SchemaNodeKind::String =>
            EditorInputParser::Scalar(kind),
        _ => EditorInputParser::TomlFragment,
    }
}

/// How input for a setting of the given kind is read: scalars as one value,
/// lists, tables and unknown kinds as a TOML fragment.
pub fn editor_input_parser(kind: SchemaNodeKind) -> (r: EditorInputParser)
    ensures
        r == input_parser_for(kind),
{
    match kind {
        SchemaNodeKind::Boolean | SchemaNodeKind::Integer | SchemaNodeKind::Number | SchemaNodeKind::String =>
            EditorInputParser::Scalar(kind),
        SchemaNodeKind::Array | SchemaNodeKind::Object | SchemaNodeKind::Unknown => EditorInputParser::TomlFragment,
    }
}

/// What a submitted input asks for.
#[derive(Debug, Clone, Copy, PartialEq, Eq, Structural)]
pub enum EditorSubmission {
    /// Remove the saved override of the setting.
    ClearOverride,
    /// Read the whole input with the given parser and save the value.
    SaveParsed(EditorInputParser),
}

/// What a submitted input asks for: the clear text, once surrounding white space is
/// dropped, clears the override; anything else is read by the setting's parser.
pub open spec fn submission_for(kind: SchemaNodeKind, input: Seq<char>) -> EditorSubmission {
    if trimmed(input) == clear_sentinel() {
        EditorSubmission::ClearOverride
    } else {
        EditorSubmission::SaveParsed(input_parser_for(kind))
    }
}

/// Typing the clear text, with or without white space around it, clears the
/// override whatever the kind of the setting.
pub proof fn lemma_clear_text_clears(kind: SchemaNodeKind, before: Seq<char>, after: Seq<char>)
    requires
        forall|i: int| 0 <= i < before.len() ==> is_white_space(#[trigger] before[i]),
        forall|i: int| 0 <= i < after.len() ==> is_white_space(#[trigger] after[i]),
    ensures
        clear_sentinel() == "__clear__"@,
        submission_for(kind, before + clear_sentinel() + after) == EditorSubmission::ClearOverride,
{
    reveal_strlit("__clear__");
    lemma_trimmed_surrounded(before, clear_sentinel(), after);
}

/// Any input that is not the clear text once trimmed is read by the parser that
/// the setting's kind calls for, whatever else the input holds; scalar kinds are
/// read as one value of that same kind, lists, tables and unknown kinds as TOML.
pub proof fn lemma_other_input_is_parsed_by_kind(kind: SchemaNodeKind, input: Seq<char>)
    ensures
        trimmed(input) != clear_sentinel() ==> submission_for(kind, input) == EditorSubmission::SaveParsed(
            input_parser_for(kind),
        ),
        trimmed(input) == clear_sentinel() ==> submission_for(kind, input) == EditorSubmission::ClearOverride,
        input_parser_for(kind) == EditorInputParser::TomlFragment <==> (kind == SchemaNodeKind::Array || kind
            == SchemaNodeKind::Object || kind == SchemaNodeKind::Unknown),
        input_parser_for(kind) != EditorInputParser::TomlFragment ==> input_parser_for(kind)
            == EditorInputParser::Scalar(kind),
{
}

/// Decides what a submitted input asks for.
pub fn editor_submission(kind: SchemaNodeKind, input: &str) -> (r: EditorSubmission)
    ensures
        r == submission_for(kind, input@),
{
    let trimmed_input = trim_white_space(input);
    if str_equal(trimmed_input, clear_sentinel_str()) {
        EditorSubmission::ClearOverride
    } else {
        EditorSubmission::SaveParsed(editor_input_parser(kind))
    }
}

/// The editor of one setting.
#[derive(Debug, Clone, PartialEq, Eq)]
pub struct SettingEditorView {
    pub title: String,
    pub placeholder: String,
    pub context_label: Option<String>,
    /// The text the editor starts with.
    pub initial_text: String,
    /// The setting that a submission saves.
    pub key_path: String,
    pub kind: SchemaNodeKind,
    /// The scope that a submission writes to.
    pub scope: SettingsScope,
    /// The screen that a submission returns to.
    pub screen: SettingsScreen,
}

/// Whether `i` is the first setting whose key path is `key_path`.
pub open spec fn is_first_setting(items: Seq<SettingItemData>, key_path: Seq<char>, i: int) -> bool {
    &&& 0 <= i < items.len()
    &&& items[i].node.key_path@ == key_path
    &&& forall|j: int| 0 <= j < i ==> items[j].node.key_path@ != key_path
}

/// Whether some setting has the key path.
pub open spec fn has_setting(items: Seq<SettingItemData>, key_path: Seq<char>) -> bool {
    exists|i: int| 0 <= i < items.len() && items[i].node.key_path@ == key_path
}

/// Whether `e` is the editor of `item` opened for a scope (normalized) and screen.
pub open spec fn is_editor_of(
    e: SettingEditorView,
    item: SettingItemData,
    scope: SettingsScope,
    screen: ScreenModel,
    profile: Option<Seq<char>>,
) -> bool {
    let scope = normalized_scope(scope, profile is Some);
    &&& e.title@ == "Edit "@ + item.node.key_path@
    &&& e.placeholder@ == placeholder_text(item)
    &&& e.context_label matches Some(label) && label@ == context_label_text(item, scope, profile)
    &&& e.initial_text@ == item.editor_value@
    &&& e.key_path@ == item.node.key_path@
    &&& e.kind == item.node.kind
    &&& e.scope == scope
    &&& e.screen@ == screen
}

/// Opens the editor of the first setting whose key path is `key_path`.
pub fn build_setting_editor_view(
    items: &Vec<SettingItemData>,
    key_path: &str,
    scope: SettingsScope,
    screen: SettingsScreen,
    active_profile: Option<&str>,
) -> (r: Result<SettingEditorView, SettingsViewError>)
    ensures
        match r {
            Ok(e) => exists|i: int|
                is_first_setting(items@, key_path@, i) && is_editor_of(
                    e,
                    #[trigger] items@[i],
                    scope,
                    screen@,
                    opt_str_view(active_profile),
                ),
            Err(SettingsViewError::SettingNotFound(k)) => !has_setting(items@, key_path@) && k@ == key_path@,
        },
        r matches Ok(e) ==> {
            &&& has_setting(items@, key_path@)
            &&& e.key_path@ == key_path@
            &&& e.title@ == "Edit "@ + key_path@
            &&& e.scope == normalized_scope(scope, active_profile is Some)
            &&& e.screen@ == screen@
        },
{
    let ghost screen_model = screen@;
    let write_scope = scope.normalized(active_profile);
    let n = items.len();
    let mut i: usize = 0;
    while i < n
        invariant
            n == items@.len(),
            i <= n,
            forall|j: int| 0 <= j < i ==> items@[j].node.key_path@ != key_path@,
            write_scope == normalized_scope(scope, active_profile is Some),
            screen@ == screen_model,
        decreases n - i,
    {
        let item = &items[i];
        if str_equal(item.node.key_path.as_str(), key_path) {
            let e = SettingEditorView {
                title: cat2("Edit ", item.node.key_path.as_str()),
                placeholder: editor_placeholder(item),
                context_label: Some(editor_context_label(item, write_scope, active_profile)),
                initial_text: item.editor_value.clone(),
                key_path: item.node.key_path.clone(),
                kind: item.node.kind,
                scope: write_scope,
                screen,
            };
            assert(is_first_setting(items@, key_path@, i as int));
            assert(is_editor_of(e, items@[i as int], scope, screen_model, opt_str_view(active_profile)));

            return Ok(e);
        }
        i = i + 1;
    }
    Err(SettingsViewError::SettingNotFound(String::from_str(key_path)))
}

} // verus!
