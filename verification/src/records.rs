//! The persisted row shapes the engine reads and writes: profile, hotkey,
//! chat history, cached calendar events and integrations.

use vstd::prelude::*;

verus! {

/// The user's profile row.
pub struct UserProfile {
    pub display_name: String,
    pub location: Option<String>,
    pub theme: String,
    pub created_at: String,
    pub updated_at: String,
}

/// The global-hotkey configuration row.
pub struct HotkeyConfig {
    pub modifier_keys: Vec<String>,
    pub key: String,
    pub enabled: bool,
}

/// One chat message row.
pub struct ChatMessage {
    pub id: Option<i64>,
    pub role: String,
    pub content: String,
    pub image_data: Option<String>,
    pub created_at: String,
    pub session_id: Option<String>,
}

/// One cached calendar event row.
pub struct CalendarEvent {
    pub id: String,
    pub title: String,
    pub description: Option<String>,
    pub start_time: String,
    pub end_time: String,
    pub location: Option<String>,
    pub all_day: bool,
}

/// One integration row: a provider with its enablement, configuration and
/// status.
pub struct Integration {
    pub name: String,
    pub enabled: bool,
    pub config: Option<String>,
    pub last_sync: Option<String>,
    pub status: String,
}

} // verus!
