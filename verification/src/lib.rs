//! A project manager's logic: project templates and how they are filled in
//! for a project, the projects it keeps track of, its settings, and the
//! decisions behind creating, importing, editing, restoring, updating and
//! removing projects.

pub mod app_state;
pub mod config;
pub mod error;
pub mod license;
pub mod path;
pub mod project;
pub mod repo;
pub mod template;
pub mod templates;
pub mod text;
pub mod ui;
