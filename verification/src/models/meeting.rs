//! A video meeting found in an event's text.
use vstd::prelude::*;

verus! {

/// A video meeting link and what is known of it.
#[derive(Debug, Clone)]
pub struct VideoMeetingInfo {
    /// Label of the platform ("Zoom", "Google Meet", ...).
    pub platform: String,
    /// The link as it stood in the text.
    pub url: String,
    /// The meeting's identifier, where the link's shape gives one.
    pub meeting_id: Option<String>,
    /// The meeting's password, where one is known.
    pub password: Option<String>,
}

impl VideoMeetingInfo {
    /// A meeting on `platform` at `url`, with no identifier and no password.
    pub fn new(platform: String, url: String) -> (info: Self)
        ensures
            info.platform == platform,
            info.url == url,
            info.meeting_id is None,
            info.password is None,
    {
        Self { platform, url, meeting_id: None, password: None }
    }
}

} // verus!
