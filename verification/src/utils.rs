//! Text mining on events: video links, passwords, keywords.
use vstd::prelude::*;
use crate::clock::{hours_between, whole_hours_between};
use crate::models::event::opt_text;
use crate::models::meeting::VideoMeetingInfo;
use crate::text::{
    contains_chars, has_substring, lowercase, to_chars, trim, trimmed, unicode_lowercase,
};

pub mod circuit_breaker;
pub mod logging;
pub mod retry;

verus! {

/// A match of a pattern in a text.
#[derive(Debug, Clone)]
pub struct PatternMatch {
    /// The part of the text that the whole pattern matched.
    pub text: String,
    /// The part that the pattern's first group matched, if it took part.
    pub group: Option<String>,
}

/// A match of a pattern in a text, as a plain value.
pub struct PatternMatchView {
    pub text: Seq<char>,
    pub group: Option<Seq<char>>,
}

impl View for PatternMatch {
    type V = PatternMatchView;

    open spec fn view(&self) -> PatternMatchView {
        PatternMatchView { text: self.text@, group: opt_text(self.group) }
    }
}

/// The leftmost match of the regular expression `pattern` in `text`, with
/// what its first group matched; `None` where there is no match or `pattern`
/// is no valid expression. The regular-expression language is not spelled
/// out here.
pub uninterp spec fn first_match(pattern: Seq<char>, text: Seq<char>) -> Option<PatternMatchView>;

/// `regex::Regex::new` on `pattern`, then `captures` on `text`, and `get(0)`
/// and `get(1)` on what was captured. The outcome is a function of the two
/// texts alone, and the matched part is a part of `text`.
#[verifier::external_body]
pub(crate) fn find_pattern(pattern: &str, text: &str) -> (r: Option<PatternMatch>)
    ensures
        match r {
            Some(m) => first_match(pattern@, text@) == Some(m@) && has_substring(text@, m.text@),
            None => first_match(pattern@, text@) is None,
        },
{
    let captures = regex::Regex::new(pattern).ok()?.captures(text)?;
    Some(PatternMatch {
        text: captures.get(0)?.as_str().to_string(),
        group: captures.get(1).map(|m| m.as_str().to_string()),
    })
}

/// The link shapes that are tried, in order, each with the label of its
/// platform. Earlier shapes win over later ones; the last three are
/// catch-alls.
pub const VIDEO_PATTERNS: [(&'static str, &'static str); 26] = [
    (r"https://.*zoom\.us/j/(\d+)", "Zoom"),
    (r"https://.*zoom\.us/my/([^\\s]+)", "Zoom"),
    (r"https://.*zoom\.us/s/([^\\s]+)", "Zoom"),
    (r"https://meet\.google\.com/([a-z-]+)", "Google Meet"),
    (r"https://teams\.microsoft\.com/l/meetup-join/([^\\s]+)", "Teams"),
    (r"https://teams\.live\.com/([^\\s]+)", "Teams"),
    (r"https://.*webex\.com/([^\\s]+)", "Webex"),
    (r"https://.*webex\.com/join/([^\\s]+)", "Webex"),
    (r"https://join\.skype\.com/([^\\s]+)", "Skype"),
    (r"https://.*gotomeeting\.com/([^\\s]+)", "GoToMeeting"),
    (r"https://.*bluejeans\.com/([^\\s]+)", "BlueJeans"),
    (r"https://.*ringcentral\.com/([^\\s]+)", "RingCentral"),
    (r"https://.*whereby\.com/([^\\s]+)", "Whereby"),
    (r"https://.*jitsi\.org/([^\\s]+)", "Jitsi"),
    (r"https://meet\.jit\.si/([^\\s]+)", "Jitsi"),
    (r"https://discord\.gg/([^\\s]+)", "Discord"),
    (r"https://.*discord\.com/channels/([^\\s]+)", "Discord"),
    (r"https://.*slack\.com/archives/([^\\s]+)", "Slack"),
    (r"https://app\.slack\.com/meet/([^\\s]+)", "Slack"),
    (r"facetime://([^\\s]+)", "FaceTime"),
    (r"facetime-audio://([^\\s]+)", "FaceTime"),
    (r"zoom\.us/j/(\d+)", "Zoom"),
    (r"zoom\.us/my/([^\\s]+)", "Zoom"),
    (r"https://([^\\s]*meet[^\\s]*)", "Meeting"),
    (r"https://([^\\s]*call[^\\s]*)", "Meeting"),
    (r"https://([^\\s]*video[^\\s]*)", "Meeting"),
];

/// The shapes in which a meeting password is announced, in the order tried.
pub const PASSWORD_PATTERNS: [&'static str; 5] = [
    r"password[:\s]+([A-Za-z0-9]+)",
    r"pwd[:\s]+([A-Za-z0-9]+)",
    r"pass[:\s]+([A-Za-z0-9]+)",
    r"code[:\s]+([A-Za-z0-9]+)",
    r"pin[:\s]+([A-Za-z0-9]+)",
];

/// The words that mark an event as a meeting.
pub const MEETING_KEYWORDS: [&'static str; 27] = [
    "meeting",
    "call",
    "conference",
    "sync",
    "standup",
    "review",
    "demo",
    "presentation",
    "interview",
    "check-in",
    "checkin",
    "retrospective",
    "retro",
    "planning",
    "grooming",
    "refinement",
    "kickoff",
    "kick-off",
    "training",
    "workshop",
    "webinar",
    "all-hands",
    "all hands",
    "townhall",
    "town hall",
    "q&a",
    "qa",
];

/// A video meeting as a plain value.
pub struct VideoMeetingView {
    pub platform: Seq<char>,
    pub url: Seq<char>,
    pub meeting_id: Option<Seq<char>>,
    pub password: Option<Seq<char>>,
}

impl View for VideoMeetingInfo {
    type V = VideoMeetingView;

    open spec fn view(&self) -> VideoMeetingView {
        VideoMeetingView {
            platform: self.platform@,
            url: self.url@,
            meeting_id: opt_text(self.meeting_id),
            password: opt_text(self.password),
        }
    }
}

/// The view of an optional meeting.
pub open spec fn opt_meeting(value: Option<VideoMeetingInfo>) -> Option<VideoMeetingView> {
    match value {
        Some(info) => Some(info@),
        None => None,
    }
}

/// The text in which links are looked for: the description, a space, the
/// location; a missing part counts as empty.
pub open spec fn combined_text(description: Option<Seq<char>>, location: Option<Seq<char>>) -> Seq<
    char,
> {
    let d = match description {
        Some(text) => text,
        None => Seq::empty(),
    };
    let l = match location {
        Some(text) => text,
        None => Seq::empty(),
    };
    d + seq![' '] + l
}

/// The meeting that the first of the link shapes from position `from` on
/// finds in `text`.
pub open spec fn video_link_from(text: Seq<char>, from: int) -> Option<VideoMeetingView>
    decreases VIDEO_PATTERNS@.len() - from,
{
    if from < 0 || from >= VIDEO_PATTERNS@.len() {
        None
    } else {
        match first_match(VIDEO_PATTERNS@[from].0@, text) {
            Some(found) => Some(
                VideoMeetingView {
                    platform: VIDEO_PATTERNS@[from].1@,
                    url: found.text,
                    meeting_id: found.group,
                    password: None,
                },
            ),
            None => video_link_from(text, from + 1),
        }
    }
}

/// The meeting found in `text`: the link shapes are tried in order, and the
/// first that matches wins.
pub open spec fn video_link_in(text: Seq<char>) -> Option<VideoMeetingView> {
    video_link_from(text, 0)
}

/// Looks for a video meeting link in `text`.
pub fn find_video_link(text: &str) -> (r: Option<VideoMeetingInfo>)
    ensures
        opt_meeting(r) == video_link_in(text@),
        r matches Some(info) ==> has_substring(text@, info.url@),
{
    let mut i: usize = 0;
    while i < 26
        invariant
            i <= 26,
            VIDEO_PATTERNS@.len() == 26,
            video_link_in(text@) == video_link_from(text@, i as int),
        decreases 26 - i,
    {
        let (pattern, platform) = VIDEO_PATTERNS[i];
        match find_pattern(pattern, text) {
            Some(found) => {
                return Some(
                    VideoMeetingInfo {
                        platform: String::from_str(platform),
                        url: found.text,
                        meeting_id: found.group,
                        password: None,
                    },
                );
            },
            None => {},
        }
        i += 1;
    }
    None
}

/// Looks for a video meeting link in an event's description and location.
///
/// The two are joined by a space, and the link shapes are tried on the
/// joined text in order; the first that matches gives the link (the part of
/// the text that matched), the platform's label and the meeting identifier
/// (what the shape's group matched).
pub fn extract_video_link(description: Option<&str>, location: Option<&str>) -> (r: Option<
    VideoMeetingInfo,
>)
    ensures
        opt_meeting(r) == video_link_in(
            combined_text(
                match description {
                    Some(d) => Some(d@),
                    None => None,
                },
                match location {
                    Some(l) => Some(l@),
                    None => None,
                },
            ),
        ),
{
    let mut text = String::new();
    match description {
        Some(d) => text.append(d),
        None => {},
    }
    proof {
        reveal_strlit(" ");
    }
    text.append(" ");
    match location {
        Some(l) => text.append(l),
        None => {},
    }
    proof {
        let d = match description {
            Some(d) => Some(d@),
            None => None,
        };
        let l = match location {
            Some(l) => Some(l@),
            None => None,
        };
        assert(" "@ =~= seq![' ']);
        assert(text@ =~= combined_text(d, l));
    }
    find_video_link(text.as_str())
}

/// The password that the first of the shapes from position `from` on finds
/// in `text`.
pub open spec fn password_from(text: Seq<char>, from: int) -> Option<Seq<char>>
    decreases PASSWORD_PATTERNS@.len() - from,
{
    if from < 0 || from >= PASSWORD_PATTERNS@.len() {
        None
    } else {
        match first_match(PASSWORD_PATTERNS@[from]@, text) {
            Some(PatternMatchView { group: Some(password), .. }) => Some(password),
            _ => password_from(text, from + 1),
        }
    }
}

/// Looks for a meeting password in `text`: the word that follows
/// `password`, `pwd`, `pass`, `code` or `pin`, tried in this order.
pub fn extract_meeting_password(text: &str) -> (r: Option<String>)
    ensures
        opt_text(r) == password_from(text@, 0),
{
    let mut i: usize = 0;
    while i < 5
        invariant
            i <= 5,
            PASSWORD_PATTERNS@.len() == 5,
            password_from(text@, 0) == password_from(text@, i as int),
        decreases 5 - i,
    {
        match find_pattern(PASSWORD_PATTERNS[i], text) {
            Some(found) => {
                match found.group {
                    Some(password) => {
                        return Some(password);
                    },
                    None => {},
                }
            },
            None => {},
        }
        i += 1;
    }
    None
}

/// Whether an event that runs from `start_time` to `end_time` lasts a day
/// or longer.
pub fn is_all_day_event(start_time: i64, end_time: i64) -> (b: bool)
    ensures
        b == (hours_between(start_time as int, end_time as int) >= 24),
{
    whole_hours_between(start_time, end_time) >= 24
}

/// A title without its leading and trailing white space.
pub fn normalize_title(title: &str) -> (r: String)
    ensures
        r@ == trimmed(title@),
{
    trim(title)
}

/// The texts of a list of strings.
pub open spec fn texts(list: Seq<String>) -> Seq<Seq<char>> {
    list.map_values(|s: String| s@)
}

/// Those of the first `n` meeting keywords that stand in `lowered`, in the
/// order of the list.
pub open spec fn keywords_among(lowered: Seq<char>, n: int) -> Seq<Seq<char>>
    decreases n,
{
    if n <= 0 || n > MEETING_KEYWORDS@.len() {
        Seq::empty()
    } else if has_substring(lowered, MEETING_KEYWORDS@[n - 1]@) {
        keywords_among(lowered, n - 1).push(MEETING_KEYWORDS@[n - 1]@)
    } else {
        keywords_among(lowered, n - 1)
    }
}

/// The meeting keywords that stand in `lowered`, in the order of the list.
pub open spec fn keywords_in(lowered: Seq<char>) -> Seq<Seq<char>> {
    keywords_among(lowered, MEETING_KEYWORDS@.len() as int)
}

/// The meeting keywords that stand in `lowered`, a text already in lower
/// case.
pub fn keywords_of_lowercase(lowered: &str) -> (r: Vec<String>)
    ensures
        texts(r@) == keywords_in(lowered@),
{
    let hay = to_chars(lowered);
    let mut found: Vec<String> = Vec::new();
    let mut i: usize = 0;
    while i < 27
        invariant
            i <= 27,
            MEETING_KEYWORDS@.len() == 27,
            hay@ == lowered@,
            texts(found@) == keywords_among(lowered@, i as int),
        decreases 27 - i,
    {
        let keyword = MEETING_KEYWORDS[i];
        let needle = to_chars(keyword);
        if contains_chars(&hay, &needle) {
            let ghost before = found@;
            found.push(String::from_str(keyword));
            assert(texts(found@) =~= texts(before).push(keyword@));
        }
        i += 1;
    }
    found
}

/// The meeting keywords that stand in an event's title or description,
/// whatever their case. The two are joined by a space and lower-cased
/// before the search.
pub fn extract_meeting_keywords(title: &str, description: Option<&str>) -> (r: Vec<String>)
    ensures
        texts(r@) == keywords_in(
            unicode_lowercase(
                combined_text(
                    Some(title@),
                    match description {
                        Some(d) => Some(d@),
                        None => None,
                    },
                ),
            ),
        ),
{
    let mut text = String::from_str(title);
    proof {
        reveal_strlit(" ");
    }
    text.append(" ");
    match description {
        Some(d) => text.append(d),
        None => {},
    }
    proof {
        let d = match description {
            Some(d) => Some(d@),
            None => None,
        };
        assert(" "@ =~= seq![' ']);
        assert(text@ =~= combined_text(Some(title@), d));
    }
    let lowered = lowercase(text.as_str());
    keywords_of_lowercase(lowered.as_str())
}

} // verus!
