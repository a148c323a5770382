//! The selection popup model: rows, what choosing a row sends, and the popup itself.
use ratatui::style::Stylize;
use ratatui::text::Line;
use vstd::prelude::*;

use crate::settings_data::opt_string_view;
use crate::settings_data::ScreenModel;
use crate::settings_data::SettingsScope;
use crate::settings_data::SettingsScreen;


verus! {

/// A styled line of terminal text, as ratatui represents it.
#[verifier::external_type_specification]
#[verifier::external_body]
pub struct ExLine<'a>(Line<'a>);

/// The line that ratatui builds from `text` with the dim modifier added.
pub uninterp spec fn dimmed_line_of(text: Seq<char>) -> Line<'static>;

/// Calls ratatui's `Line::from(text).dim()`. The contract claims only that the
/// line is a function of the text; its spans and style are left unsaid.
#[verifier::external_body]
pub(crate) fn dimmed_line(text: String) -> (r: Line<'static>)
    ensures
        r == dimmed_line_of(text@),
{
    Line::from(text).dim()
}

/// What choosing a row asks the application to do.
#[derive(Debug, Clone, PartialEq, Eq)]
pub enum AppEvent {
    /// Show the settings popup for a scope and screen.
    OpenSettings { scope: SettingsScope, screen: SettingsScreen, selected_item_key: Option<String> },
    /// Open the editor of one setting.
    OpenSettingEditor { key_path: String, scope: SettingsScope, screen: SettingsScreen },
    /// Show the picker of the write scope.
    OpenSettingsScopePicker { current_scope: SettingsScope, current_screen: SettingsScreen },
}

/// The mathematical value of an event.
pub enum AppEventModel {
    OpenSettings { scope: SettingsScope, screen: ScreenModel, selected_item_key: Option<Seq<char>> },
    OpenSettingEditor { key_path: Seq<char>, scope: SettingsScope, screen: ScreenModel },
    OpenSettingsScopePicker { current_scope: SettingsScope, current_screen: ScreenModel },
}

impl View for AppEvent {
    type V = AppEventModel;

    open spec fn view(&self) -> AppEventModel {
        match self {
            AppEvent::OpenSettings { scope, screen, selected_item_key } => AppEventModel::OpenSettings {
                scope: *scope,
                screen: screen@,
                selected_item_key: opt_string_view(*selected_item_key),
            },
            AppEvent::OpenSettingEditor { key_path, scope, screen } => AppEventModel::OpenSettingEditor {
                key_path: key_path@,
                scope: *scope,
                screen: screen@,
            },
            AppEvent::OpenSettingsScopePicker { current_scope, current_screen } =>
                AppEventModel::OpenSettingsScopePicker {
                current_scope: *current_scope,
                current_screen: current_screen@,
            },
        }
    }
}

/// One row of a selection popup.
#[derive(Debug, Clone, PartialEq, Eq)]
pub struct SelectionItem {
    pub name: String,
    pub description: Option<String>,
    /// The description shown while the row is highlighted.
    pub selected_description: Option<String>,
    /// Whether the row stands for the value currently in use.
    pub is_current: bool,
    pub is_disabled: bool,
    /// The events sent, in order, when the row is chosen.
    pub actions: Vec<AppEvent>,
    /// Whether choosing the row closes the popup.
    pub dismiss_on_select: bool,
    /// The text that filtering matches against.
    pub search_value: Option<String>,
    pub disabled_reason: Option<String>,
}

/// The mathematical value of a row.
pub struct SelectionItemModel {
    pub name: Seq<char>,
    pub description: Option<Seq<char>>,
    pub selected_description: Option<Seq<char>>,
    pub is_current: bool,
    pub is_disabled: bool,
    pub actions: Seq<AppEventModel>,
    pub dismiss_on_select: bool,
    pub search_value: Option<Seq<char>>,
    pub disabled_reason: Option<Seq<char>>,
}

/// The mathematical values of a list of events.
pub open spec fn events_view(events: Seq<AppEvent>) -> Seq<AppEventModel> {
    events.map_values(|e: AppEvent| e@)
}

impl View for SelectionItem {
    type V = SelectionItemModel;

    open spec fn view(&self) -> SelectionItemModel {
        SelectionItemModel {
            name: self.name@,
            description: opt_string_view(self.description),
            selected_description: opt_string_view(self.selected_description),
            is_current: self.is_current,
            is_disabled: self.is_disabled,
            actions: events_view(self.actions@),
            dismiss_on_select: self.dismiss_on_select,
            search_value: opt_string_view(self.search_value),
            disabled_reason: opt_string_view(self.disabled_reason),
        }
    }
}

/// The mathematical values of a list of rows.
pub open spec fn items_view(items: Seq<SelectionItem>) -> Seq<SelectionItemModel> {
    items.map_values(|i: SelectionItem| i@)
}

/// The hint line shown under a popup.
#[derive(Debug, Clone, Copy, PartialEq, Eq, Structural)]
pub enum FooterHint {
    /// The hint line shared by the standard popups.
    StandardPopupHint,
}

/// A selection popup.
#[derive(Debug)]
pub struct SelectionViewParams {
    pub view_id: Option<&'static str>,
    pub title: Option<String>,
    pub subtitle: Option<String>,
    pub footer_note: Option<Line<'static>>,
    pub footer_hint: Option<FooterHint>,
    pub items: Vec<SelectionItem>,
    /// Whether typing filters the rows.
    pub is_searchable: bool,
    pub search_placeholder: Option<String>,
    /// The row highlighted when the popup opens.
    pub initial_selected_idx: Option<usize>,
}

/// The mathematical value of a selection popup.
pub struct SelectionViewModel {
    pub view_id: Option<Seq<char>>,
    pub title: Option<Seq<char>>,
    pub subtitle: Option<Seq<char>>,
    pub footer_note: Option<Line<'static>>,
    pub footer_hint: Option<FooterHint>,
    pub items: Seq<SelectionItemModel>,
    pub is_searchable: bool,
    pub search_placeholder: Option<Seq<char>>,
    pub initial_selected_idx: Option<int>,
}

impl View for SelectionViewParams {
    type V = SelectionViewModel;

    open spec fn view(&self) -> SelectionViewModel {
        SelectionViewModel {
            view_id: match self.view_id {
                Some(v) => Some(v@),
                None => None,
            },
            title: opt_string_view(self.title),
            subtitle: opt_string_view(self.subtitle),
            footer_note: self.footer_note,
            footer_hint: self.footer_hint,
            items: items_view(self.items@),
            is_searchable: self.is_searchable,
            search_placeholder: opt_string_view(self.search_placeholder),
            initial_selected_idx: match self.initial_selected_idx {
                Some(i) => Some(i as int),
                None => None,
            },
        }
    }
}

} // verus!
