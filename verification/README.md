# plan_settings

A verified library for two parts of a coding assistant:

- thread plans (`src/thread_plan.rs`): the status of a plan step and its stored
  text, the plan records, and reading a stored snapshot whose times are seconds
  since the Unix epoch;
- the `/settings` popup (`src/settings_data.rs`, `src/selection.rs`,
  `src/settings_view.rs`, `src/setting_editor.rs`): the rows, titles, subtitles
  and actions of the settings screens and of the write-scope picker, and the
  editor of one setting.

`src/settings_laws.rs` states properties of every popup built, `src/text.rs`
holds the string helpers. `app/` holds the glue that needs the database layer,
chrono dates and `anyhow` errors.
