pub mod text;
pub mod version_diff;
pub mod template;
pub mod progress;
pub mod exclusions;
pub mod apt_changes;
pub mod apt_packages;
pub mod selection;
pub mod tray;
pub mod main_window;
pub mod protocol;
pub mod flatpak;
pub mod flatpakref;
pub mod sources;
