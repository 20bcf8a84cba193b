//! Meeting auto-detection settings and the state reported to the UI.

use vstd::prelude::*;

verus! {

/// Settings of the meeting auto-detection monitor.
#[derive(Debug, Clone)]
pub struct DetectionConfig {
    /// Whether the monitor is switched on.
    pub enabled: bool,
    /// Bundle identifiers of the meeting applications that are watched.
    pub meeting_app_bundles: Vec<String>,
    /// Seconds of silence after which an automatic recording stops.
    pub silence_timeout_seconds: u64,
}

/// What the detection monitor reports to the UI.
#[derive(Debug, Clone)]
pub struct DetectionState {
    pub is_monitoring: bool,
    pub meeting_detected: bool,
    pub detection_reason: Option<String>,
    pub auto_recording_active: bool,
}

/// The state reported for a configuration: monitoring follows `enabled`,
/// and nothing has been detected or recorded yet.
pub open spec fn spec_detection_state(config: DetectionConfig) -> DetectionState {
    DetectionState {
        is_monitoring: config.enabled,
        meeting_detected: false,
        detection_reason: None,
        auto_recording_active: false,
    }
}

/// Enables or disables meeting auto-detection.
pub fn set_meeting_detection(config: &mut DetectionConfig, enabled: bool)
    ensures
        *final(config) == (DetectionConfig { enabled, ..*old(config) }),
{
    config.enabled = enabled;
}

/// Replaces the bundle identifiers of the watched meeting applications.
pub fn set_meeting_apps(config: &mut DetectionConfig, bundle_ids: Vec<String>)
    ensures
        *final(config) == (DetectionConfig { meeting_app_bundles: bundle_ids, ..*old(config) }),
{
    config.meeting_app_bundles = bundle_ids;
}

/// Sets the silence timeout, in seconds, after which recording stops.
pub fn set_silence_timeout(config: &mut DetectionConfig, seconds: u64)
    ensures
        *final(config) == (DetectionConfig { silence_timeout_seconds: seconds, ..*old(config) }),
{
    config.silence_timeout_seconds = seconds;
}

/// The detection state for the current configuration.
pub fn get_detection_state(config: &DetectionConfig) -> (state: DetectionState)
    ensures
        state == spec_detection_state(*config),
        state.is_monitoring == config.enabled,
        !state.meeting_detected,
        state.detection_reason is None,
        !state.auto_recording_active,
{
    DetectionState {
        is_monitoring: config.enabled,
        meeting_detected: false,
        detection_reason: None,
        auto_recording_active: false,
    }
}

/// Whatever the settings, the reported state says that no meeting has been
/// detected, gives no reason, and reports no automatic recording; only
/// `is_monitoring` follows the settings.
pub proof fn lemma_detection_state_reports_no_activity(config: DetectionConfig)
    ensures
        spec_detection_state(config).is_monitoring == config.enabled,
        !spec_detection_state(config).meeting_detected,
        spec_detection_state(config).detection_reason is None,
        !spec_detection_state(config).auto_recording_active,
{
}

/// After detection is switched on or off, the reported state says that the
/// monitor runs exactly when it was switched on.
pub proof fn lemma_detection_state_follows_switch(config: DetectionConfig, enabled: bool)
    ensures
        spec_detection_state(DetectionConfig { enabled, ..config }).is_monitoring == enabled,
{
}

/// Changing the watched applications or the silence timeout does not change
/// the reported detection state.
pub proof fn lemma_detection_state_ignores_other_settings(
    config: DetectionConfig,
    apps: Vec<String>,
    seconds: u64,
)
    ensures
        spec_detection_state(
            DetectionConfig { meeting_app_bundles: apps, silence_timeout_seconds: seconds, ..config },
        ) == spec_detection_state(config),
{
}

} // verus!
