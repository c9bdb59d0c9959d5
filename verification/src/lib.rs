//! YoYoPod device logic: validation checks, media catalog, audio routing,
//! Bluetooth and Wi-Fi management decisions, onboarding, UI state helpers.
pub mod accessibility;
pub mod animation;
pub mod audio;
pub mod bluetooth;
pub mod checks;
pub mod clock;
pub mod correlation;
pub mod dispatch;
pub mod cloud;
pub mod cloud_events;
pub mod home;
pub mod intents;
pub mod ipv4;
pub mod json;
pub mod library;
pub mod outbox;
pub mod overlay;
pub mod profile;
pub mod provisioning;
pub mod report;
pub mod snapshot;
pub mod stages;
pub mod status;
pub mod text;
pub mod tracking;
pub mod ui_host;
pub mod ui_state;
pub mod wifi;
pub mod worker;
pub mod worker_loop;
pub mod yaml;
