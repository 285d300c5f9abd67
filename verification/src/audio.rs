//! Which sound an alert plays. Playing it is left to the caller.
use vstd::prelude::*;
pub use crate::models::alert::AlertType;

verus! {

/// The paths of the sound files, one for each kind of sound.
#[derive(Debug, Clone)]
pub struct SoundFiles {
    pub meeting_alert: String,
    pub video_meeting_alert: String,
    pub test_sound: String,
    pub alert_30m: String,
    pub alert_10m: String,
    pub alert_5m: String,
    pub alert_1m: String,
}

/// The paths of the sound files as plain values.
pub struct SoundFilesView {
    pub meeting_alert: Seq<char>,
    pub video_meeting_alert: Seq<char>,
    pub test_sound: Seq<char>,
    pub alert_30m: Seq<char>,
    pub alert_10m: Seq<char>,
    pub alert_5m: Seq<char>,
    pub alert_1m: Seq<char>,
}

impl View for SoundFiles {
    type V = SoundFilesView;

    open spec fn view(&self) -> SoundFilesView {
        SoundFilesView {
            meeting_alert: self.meeting_alert@,
            video_meeting_alert: self.video_meeting_alert@,
            test_sound: self.test_sound@,
            alert_30m: self.alert_30m@,
            alert_10m: self.alert_10m@,
            alert_5m: self.alert_5m@,
            alert_1m: self.alert_1m@,
        }
    }
}

/// The path of the file `name` in the directory `dir`.
pub open spec fn file_in(dir: Seq<char>, name: Seq<char>) -> Seq<char> {
    dir + "/"@ + name
}

/// The directory of the sound files below the user's data directory.
pub open spec fn sounds_dir_below(data_dir: Seq<char>) -> Seq<char> {
    data_dir + "/openchime/sounds"@
}

/// The sound files with their usual names in the directory `dir`.
pub open spec fn sound_files_in(dir: Seq<char>) -> SoundFilesView {
    SoundFilesView {
        meeting_alert: file_in(dir, "meeting_alert.wav"@),
        video_meeting_alert: file_in(dir, "video_meeting_alert.wav"@),
        test_sound: file_in(dir, "test_sound.wav"@),
        alert_30m: file_in(dir, "30m.mp3"@),
        alert_10m: file_in(dir, "10m.mp3"@),
        alert_5m: file_in(dir, "5m.mp3"@),
        alert_1m: file_in(dir, "1m.mp3"@),
    }
}

/// The path of the sound that an alert plays. A snooze reminder sounds
/// like a meeting.
pub open spec fn sound_path(files: SoundFilesView, alert_type: AlertType) -> Seq<char> {
    match alert_type {
        AlertType::Meeting => files.meeting_alert,
        AlertType::VideoMeeting => files.video_meeting_alert,
        AlertType::SnoozeReminder => files.meeting_alert,
        AlertType::Test => files.test_sound,
        AlertType::Warning30m => files.alert_30m,
        AlertType::Warning10m => files.alert_10m,
        AlertType::Warning5m => files.alert_5m,
        AlertType::Warning1m => files.alert_1m,
    }
}

/// `dirs::data_dir`: the directory for the user's data, if the machine
/// names one. The result depends on the machine and the user, so nothing is
/// claimed of it.
#[verifier::external_body]
pub(crate) fn user_data_dir() -> Option<String> {
    dirs::data_dir().map(|path| path.to_string_lossy().into_owned())
}

/// The path of the file `name` in the directory `dir`.
pub fn join_path(dir: &str, name: &str) -> (path: String)
    ensures
        path@ == file_in(dir@, name@),
{
    let mut path = String::from_str(dir);
    path.append("/");
    path.append(name);
    path
}

impl SoundFiles {
    /// The sound files with their usual names in the directory `dir`.
    pub fn in_directory(dir: &str) -> (files: Self)
        ensures
            files@ == sound_files_in(dir@),
    {
        Self {
            meeting_alert: join_path(dir, "meeting_alert.wav"),
            video_meeting_alert: join_path(dir, "video_meeting_alert.wav"),
            test_sound: join_path(dir, "test_sound.wav"),
            alert_30m: join_path(dir, "30m.mp3"),
            alert_10m: join_path(dir, "10m.mp3"),
            alert_5m: join_path(dir, "5m.mp3"),
            alert_1m: join_path(dir, "1m.mp3"),
        }
    }

    /// The sound files with their usual names in the sounds directory below
    /// the data directory `data_dir`.
    pub fn below_data_dir(data_dir: &str) -> (files: Self)
        ensures
            files@ == sound_files_in(sounds_dir_below(data_dir@)),
    {
        let mut dir = String::from_str(data_dir);
        dir.append("/openchime/sounds");
        Self::in_directory(dir.as_str())
    }

    /// Files without paths, for a machine without sound.
    pub fn silent() -> (files: Self)
        ensures
            forall|alert_type: AlertType| #[trigger] sound_path(files@, alert_type).len() == 0,
    {
        Self {
            meeting_alert: String::new(),
            video_meeting_alert: String::new(),
            test_sound: String::new(),
            alert_30m: String::new(),
            alert_10m: String::new(),
            alert_5m: String::new(),
            alert_1m: String::new(),
        }
    }

    /// The path of the sound that an alert plays.
    pub fn sound_for(&self, alert_type: AlertType) -> (path: &String)
        ensures
            path@ == sound_path(self@, alert_type),
    {
        match alert_type {
            AlertType::Meeting => &self.meeting_alert,
            AlertType::VideoMeeting => &self.video_meeting_alert,
            AlertType::SnoozeReminder => &self.meeting_alert,
            AlertType::Test => &self.test_sound,
            AlertType::Warning30m => &self.alert_30m,
            AlertType::Warning10m => &self.alert_10m,
            AlertType::Warning5m => &self.alert_5m,
            AlertType::Warning1m => &self.alert_1m,
        }
    }
}

impl Default for SoundFiles {
    /// The sound files below the user's data directory, or below the
    /// current directory on a machine that names none.
    fn default() -> (files: Self)
        ensures
            exists|data_dir: Seq<char>| files@ == sound_files_in(sounds_dir_below(data_dir)),
    {
        match user_data_dir() {
            Some(dir) => Self::below_data_dir(dir.as_str()),
            None => Self::below_data_dir("."),
        }
    }
}

/// The file that is played for a sound: the development copy where there
/// is one, else the installed file.
pub fn resolve_sound(dev_copy_exists: bool, sounds_dir: &str, name: &str, dev_name: &str) -> (path: String)
    ensures
        path@ == if dev_copy_exists {
            file_in("alarms"@, dev_name@)
        } else {
            file_in(sounds_dir@, name@)
        },
{
    if dev_copy_exists {
        join_path("alarms", dev_name)
    } else {
        join_path(sounds_dir, name)
    }
}

/// A volume held between 0 and 100.
pub open spec fn clamped_volume(percent: int) -> u8 {
    if percent < 0 {
        0
    } else if percent > 100 {
        100
    } else {
        percent as u8
    }
}

/// Holds a volume between 0 and 100.
pub fn clamp_volume(percent: i64) -> (volume: u8)
    ensures
        volume == clamped_volume(percent as int),
{
    if percent < 0 {
        0
    } else if percent > 100 {
        100
    } else {
        percent as u8
    }
}

} // verus!
