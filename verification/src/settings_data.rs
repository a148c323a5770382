//! The settings data that the popup is built from: where changes are written,
//! which screen is shown, and the rows that describe settings and sections.
use vstd::prelude::*;

verus! {

/// Where the settings popup writes changes.
#[derive(Debug, Clone, Copy, PartialEq, Eq, Structural)]
pub enum SettingsScope {
    /// The top-level user config.toml.
    Global,
    /// The table of the active profile in config.toml.
    ActiveProfile,
}

/// The scope actually used: the active profile only while one is selected.
pub open spec fn normalized_scope(scope: SettingsScope, has_profile: bool) -> SettingsScope {
    match scope {
        SettingsScope::ActiveProfile if !has_profile => SettingsScope::Global,
        _ => scope,
    }
}

/// The text of an optional borrowed string.
pub open spec fn opt_str_view(o: Option<&str>) -> Option<Seq<char>> {
    match o {
        Some(s) => Some(s@),
        None => None,
    }
}

/// The text of an optional owned string.
pub open spec fn opt_string_view(o: Option<String>) -> Option<Seq<char>> {
    match o {
        Some(s) => Some(s@),
        None => None,
    }
}

/// Copies an optional string.
pub fn clone_opt_string(o: &Option<String>) -> (r: Option<String>)
    ensures
        r == *o,
{
    match o {
        Some(s) => Some(s.clone()),
        None => None,
    }
}

impl SettingsScope {
    /// Falls back to the user config when the active profile scope is asked for
    /// but no profile is active.
    pub fn normalized(self, active_profile: Option<&str>) -> (r: SettingsScope)
        ensures
            r == normalized_scope(self, active_profile is Some),
    {
        match self {
            SettingsScope::ActiveProfile => {
                if active_profile.is_some() {
                    SettingsScope::ActiveProfile
                } else {
                    SettingsScope::Global
                }
            },
            SettingsScope::Global => SettingsScope::Global,
        }
    }
}

/// Which page of the settings popup is shown.
#[derive(Debug, PartialEq, Eq)]
pub enum SettingsScreen {
    /// The list of sections and top-level settings.
    Root,
    /// The settings under one section.
    Section { section_key: String },
}

/// The mathematical value of a screen.
pub enum ScreenModel {
    Root,
    Section(Seq<char>),
}

impl View for SettingsScreen {
    type V = ScreenModel;

    open spec fn view(&self) -> ScreenModel {
        match self {
            SettingsScreen::Root => ScreenModel::Root,
            SettingsScreen::Section { section_key } => ScreenModel::Section(section_key@),
        }
    }
}

impl Clone for SettingsScreen {
    fn clone(&self) -> (r: Self)
        ensures
            r == *self,
    {
        match self {
            SettingsScreen::Root => SettingsScreen::Root,
            SettingsScreen::Section { section_key } => SettingsScreen::Section {
                section_key: section_key.clone(),
            },
        }
    }
}

/// The kind of value a setting holds, as its schema describes it.
#[derive(Debug, Clone, Copy, PartialEq, Eq, Structural)]
pub enum SchemaNodeKind {
    Boolean,
    Integer,
    Number,
    String,
    Array,
    Object,
    Unknown,
}

/// The schema entry of one setting.
#[derive(Debug, Clone, PartialEq, Eq)]
pub struct SchemaNode {
    /// The dotted path of the setting in config.toml.
    pub key_path: String,
    pub kind: SchemaNodeKind,
    /// The values the schema allows, when it lists them.
    pub enum_values: Vec<String>,
}

/// One editable setting as the popup shows it.
#[derive(Debug, Clone, PartialEq, Eq)]
pub struct SettingItemData {
    pub node: SchemaNode,
    pub label: String,
    pub description: Option<String>,
    pub selected_description: Option<String>,
    pub search_value: String,
    /// Why the setting cannot be edited in this scope, if it cannot.
    pub disabled_reason: Option<String>,
    /// Where the current value comes from, if it is not the default.
    pub category_tag: Option<String>,
    /// The current value as the editor first shows it.
    pub editor_value: String,
}

/// What a row of the root screen opens.
#[derive(Debug, Clone, PartialEq, Eq)]
pub enum SettingsRootItemKind {
    Section { section_key: String },
    Setting(SettingItemData),
}

/// One row of the root screen.
#[derive(Debug, Clone, PartialEq, Eq)]
pub struct SettingsRootItemData {
    pub item_key: String,
    pub label: String,
    pub description: Option<String>,
    pub selected_description: Option<String>,
    pub search_value: String,
    pub disabled_reason: Option<String>,
    pub kind: SettingsRootItemKind,
}

/// One row of a section screen.
#[derive(Debug, Clone, PartialEq, Eq)]
pub struct SettingsSectionItemData {
    pub item_key: String,
    pub setting: SettingItemData,
}

/// The rows of a section screen: the section's own value, if it can be edited
/// as a whole, then the settings under it.
#[derive(Debug, Clone, PartialEq, Eq)]
pub struct SettingsSectionViewData {
    pub section_item: Option<SettingsSectionItemData>,
    pub items: Vec<SettingsSectionItemData>,
}

/// A screen together with the rows it shows.
#[derive(Debug, Clone, PartialEq, Eq)]
pub enum SettingsScreenData {
    Root { items: Vec<SettingsRootItemData> },
    Section { section_key: String, view: SettingsSectionViewData },
}

impl SettingsScreenData {
    /// The screen these rows belong to.
    pub open spec fn screen_model(self) -> ScreenModel {
        match self {
            SettingsScreenData::Root { .. } => ScreenModel::Root,
            SettingsScreenData::Section { section_key, .. } => ScreenModel::Section(section_key@),
        }
    }

    /// The screen these rows belong to.
    pub fn screen(&self) -> (r: SettingsScreen)
        ensures
            r@ == self.screen_model(),
    {
        match self {
            SettingsScreenData::Root { .. } => SettingsScreen::Root,
            SettingsScreenData::Section { section_key, .. } => SettingsScreen::Section {
                section_key: section_key.clone(),
            },
        }
    }
}

} // verus!
