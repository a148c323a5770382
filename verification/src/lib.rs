//! Thread plan records and the settings popup model.
pub mod text;
pub mod settings_data;
pub mod selection;
pub mod settings_view;
pub mod setting_editor;
pub mod settings_laws;
pub mod thread_plan;
