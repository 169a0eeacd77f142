//! The setup wizard's surface: the request and response shapes of the
//! first-run flow, and the status an integration gets when saved.

use vstd::prelude::*;
use crate::records::Integration;

verus! {

/// Whether setup has run, and the stored profile when it has.
pub struct SetupStatusResponse {
    pub setup_complete: bool,
    pub user_profile: Option<UserProfileResponse>,
}

/// A profile as the setup wizard shows it.
pub struct UserProfileResponse {
    pub display_name: String,
    pub location: Option<String>,
    pub theme: String,
}

/// A request to save the profile during setup.
pub struct SaveProfileRequest {
    pub display_name: String,
    pub location: Option<String>,
    pub theme: String,
}

/// A request to save the hotkey during setup.
pub struct SaveHotkeyRequest {
    pub modifier_keys: Vec<String>,
    pub key: String,
}

/// A request to save an API key during setup.
pub struct SaveApiKeyRequest {
    pub provider: String,
    pub api_key: String,
}

/// A request to save an integration during setup.
pub struct SaveIntegrationRequest {
    pub name: String,
    pub enabled: bool,
    pub config: Option<String>,
}

/// Builds the integration row a setup save produces: enabled rows are
/// `connected`, disabled ones `disconnected`, and the sync marker starts
/// empty.
pub fn integration_from_request(request: SaveIntegrationRequest) -> (r: Integration)
    ensures
        r.name == request.name,
        r.enabled == request.enabled,
        r.config == request.config,
        r.last_sync is None,
        r.status@ == if request.enabled {
            "connected"@
        } else {
            "disconnected"@
        },
{
    let status = if request.enabled {
        "connected".to_owned()
    } else {
        "disconnected".to_owned()
    };
    Integration {
        name: request.name,
        enabled: request.enabled,
        config: request.config,
        last_sync: None,
        status,
    }
}

} // verus!
