//! Media player status and the replies about it.
use vstd::prelude::*;
use vstd::string::*;

use crate::text::{all_whitespace, eq_str, trim, trim_str};

verus! {

/// The track a media player reports.
#[derive(Debug, PartialEq, Clone)]
pub struct TrackInfo {
    pub title: Option<String>,
    pub artist: Option<String>,
    pub album: Option<String>,
}

/// What a media player is doing.
#[derive(Debug)]
pub enum MediaPlayingStatus {
    /// Media is currently playing.
    Playing(TrackInfo),
    /// Media is currently paused.
    Paused(TrackInfo),
    /// Media is currently stopped.
    Stopped,
    /// Maybe media is currently destroyed.
    Unknown,
}

/// `label` followed by the value, or nothing when there is no value.
pub open spec fn labelled(label: Seq<char>, v: Option<String>) -> Seq<char> {
    match v {
        Some(s) => label + s@,
        None => Seq::empty(),
    }
}

/// The value, or the empty text.
pub open spec fn or_empty(v: Option<String>) -> Seq<char> {
    match v {
        Some(s) => s@,
        None => Seq::empty(),
    }
}

/// The plain description of a track: `artist: …`, `album: …`, `title: …`
/// for the fields that are known, run together.
pub open spec fn track_text(t: TrackInfo) -> Seq<char> {
    labelled("artist: "@, t.artist) + labelled("album: "@, t.album) + labelled("title: "@, t.title)
}

/// The chat-ready description of a track.
pub open spec fn track_beautified(t: TrackInfo) -> Seq<char> {
    "🎧 <b>Сейчас играет:</b>\n\n"@ + or_empty(t.artist) + " — "@ + or_empty(t.title) + match t.album {
        Some(a) => "\nАльбом: "@ + a@,
        None => Seq::empty(),
    }
}

/// The status a trimmed `playerctl status` output names.
pub open spec fn status_of(output: Seq<char>, track: TrackInfo) -> MediaPlayingStatus {
    let t = trim(output);
    if t == "Playing"@ {
        MediaPlayingStatus::Playing(track)
    } else if t == "Paused"@ {
        MediaPlayingStatus::Paused(track)
    } else if t == "Stopped"@ {
        MediaPlayingStatus::Stopped
    } else {
        MediaPlayingStatus::Unknown
    }
}

fn append_labelled(out: &mut String, label: &str, v: &Option<String>)
    ensures
        final(out)@ == old(out)@ + labelled(label@, *v),
{
    match v {
        Some(s) => {
            out.append(label);
            out.append(s.as_str());
        },
        None => {
            assert(old(out)@ + Seq::<char>::empty() =~= old(out)@);
        },
    }
}

fn append_or_empty(out: &mut String, v: &Option<String>)
    ensures
        final(out)@ == old(out)@ + or_empty(*v),
{
    match v {
        Some(s) => {
            out.append(s.as_str());
        },
        None => {
            assert(old(out)@ + Seq::<char>::empty() =~= old(out)@);
        },
    }
}

impl TrackInfo {
    /// The plain description of the track (its `Display` form).
    pub fn to_string(&self) -> (r: String)
        ensures
            r@ == track_text(*self),
    {
        let mut out = String::new();
        append_labelled(&mut out, "artist: ", &self.artist);
        append_labelled(&mut out, "album: ", &self.album);
        append_labelled(&mut out, "title: ", &self.title);
        assert(out@ =~= track_text(*self));
        out
    }

    /// The chat-ready description of the track.
    pub fn beautiful_out(&self) -> (r: String)
        ensures
            r@ == track_beautified(*self),
    {
        let mut out = "🎧 <b>Сейчас играет:</b>\n\n".to_owned();
        append_or_empty(&mut out, &self.artist);
        out.append(" — ");
        append_or_empty(&mut out, &self.title);
        match &self.album {
            Some(album) => {
                out.append("\nАльбом: ");
                out.append(album.as_str());
            },
            None => {},
        }
        assert(out@ =~= track_beautified(*self));
        out
    }
}

impl MediaPlayingStatus {
    /// The status's `Display` form: the track's description while one is
    /// playing or paused, the empty text otherwise.
    pub fn to_string(&self) -> (r: String)
        ensures
            r@ == match self {
                MediaPlayingStatus::Playing(t) | MediaPlayingStatus::Paused(t) => track_text(*t),
                _ => Seq::empty(),
            },
    {
        match self {
            MediaPlayingStatus::Playing(t) | MediaPlayingStatus::Paused(t) => t.to_string(),
            _ => String::new(),
        }
    }
}

/// The player's status from the output of `playerctl status` and the
/// track's metadata: `Playing`, `Paused` and `Stopped` (whitespace around
/// them ignored) name the status; any other output means `Unknown`.
pub fn get_status(
    status_output: &str,
    title: Option<String>,
    artist: Option<String>,
    album: Option<String>,
) -> (r: MediaPlayingStatus)
    ensures
        r == status_of(status_output@, TrackInfo { title, artist, album }),
{
    let track_info = TrackInfo { title, artist, album };
    let status = trim_str(status_output);
    if eq_str(status.as_str(), "Playing") {
        MediaPlayingStatus::Playing(track_info)
    } else if eq_str(status.as_str(), "Paused") {
        MediaPlayingStatus::Paused(track_info)
    } else if eq_str(status.as_str(), "Stopped") {
        MediaPlayingStatus::Stopped
    } else {
        MediaPlayingStatus::Unknown
    }
}

/// One metadata property from the output of `playerctl metadata`: none
/// when the output is blank, else the output as it is.
pub fn pctl_metadat_prop(prop_output: String) -> (r: Option<String>)
    ensures
        match r {
            Some(s) => s == prop_output && !all_whitespace(prop_output@),
            None => all_whitespace(prop_output@),
        },
{
    let trimmed = trim_str(prop_output.as_str());
    proof {
        crate::text::lemma_trim_empty(prop_output@);
    }
    if trimmed.as_str().is_empty() {
        None
    } else {
        Some(prop_output)
    }
}

/// The `playerctl` arguments that print one metadata property.
pub fn pctl_metadata_args(prop: &str) -> (r: Vec<String>)
    ensures
        crate::text::views(r@) == seq!["playerctl"@, "metadata"@, "--format"@, "{{"@ + prop@ + "}}"@],
{
    let mut format = "{{".to_owned();
    format.append(prop);
    format.append("}}");
    let mut r: Vec<String> = Vec::new();
    r.push("playerctl".to_owned());
    r.push("metadata".to_owned());
    r.push("--format".to_owned());
    r.push(format);
    assert(crate::text::views(r@) =~= seq!["playerctl"@, "metadata"@, "--format"@, "{{"@ + prop@ + "}}"@]);
    r
}

/// What a music command asks for.
#[derive(Debug, PartialEq, Eq, Structural)]
pub enum MusicCommand {
    /// `pause` or `resume`: toggle playback.
    Toggle,
    /// `status`: tell what is playing.
    Status,
    /// Anything else.
    Unrecognized,
}

/// The answer to a music command.
#[derive(Debug)]
pub enum MusicReply {
    /// The lexicon entry with this key.
    Lexicon(&'static str),
    /// Ask the language model with the prompt at `prompt_path`, its
    /// `{command}` filled with the user's message; fall back to the lexicon
    /// entry `fallback_key`.
    AskAboutToggle { prompt_path: &'static str, fallback_key: &'static str },
    /// Ask the language model with the status prompt, its `{status}` filled
    /// with the track and `{message}` with the user's message; fall back to
    /// `fallback`.
    AskAboutStatus { track: TrackInfo, fallback: String },
}

/// The kind of a music command.
pub fn music_command_kind(command: &str) -> (r: MusicCommand)
    ensures
        r == (if command@ == "pause"@ || command@ == "resume"@ {
            MusicCommand::Toggle
        } else if command@ == "status"@ {
            MusicCommand::Status
        } else {
            MusicCommand::Unrecognized
        }),
{
    if eq_str(command, "pause") || eq_str(command, "resume") {
        MusicCommand::Toggle
    } else if eq_str(command, "status") {
        MusicCommand::Status
    } else {
        MusicCommand::Unrecognized
    }
}

/// The reply to `pause`/`resume`, given the status before the toggle.
pub open spec fn toggle_reply_of(status: MediaPlayingStatus) -> MusicReply {
    match status {
        MediaPlayingStatus::Paused(_) => MusicReply::AskAboutToggle {
            prompt_path: "/telegram/music/resume",
            fallback_key: "music_resume",
        },
        MediaPlayingStatus::Playing(_) => MusicReply::AskAboutToggle {
            prompt_path: "/telegram/music/pause",
            fallback_key: "music_pause",
        },
        _ => MusicReply::Lexicon("music_stopped"),
    }
}

/// `r` is the reply to `status`: while a track is playing or paused, ask
/// the model about that track with its chat-ready description as fallback;
/// otherwise the lexicon's `music_stopped`.
pub open spec fn is_status_reply(status: MediaPlayingStatus, r: MusicReply) -> bool {
    match status {
        MediaPlayingStatus::Paused(t) | MediaPlayingStatus::Playing(t) => match r {
            MusicReply::AskAboutStatus { track, fallback } => track == t && fallback@ == track_beautified(t),
            _ => false,
        },
        _ => r == MusicReply::Lexicon("music_stopped"),
    }
}

/// `pause` and `resume` toggle playback.
pub open spec fn is_toggle_command(command: Seq<char>) -> bool {
    command == "pause"@ || command == "resume"@
}

/// The commands that read the player's status first: `pause`, `resume`
/// and `status`.
pub open spec fn reads_status(command: Seq<char>) -> bool {
    is_toggle_command(command) || command == "status"@
}

/// `r` is the reply to `command`, given the status read before anything
/// else was done.
pub open spec fn is_music_reply(command: Seq<char>, status: Option<MediaPlayingStatus>, r: MusicReply) -> bool {
    if is_toggle_command(command) {
        status matches Some(s) && r == toggle_reply_of(s)
    } else if command == "status"@ {
        status matches Some(s) && is_status_reply(s, r)
    } else {
        r == MusicReply::Lexicon("error")
    }
}

/// The reply to `pause`/`resume`, given the status before the toggle.
pub fn toggle_reply(status: &MediaPlayingStatus) -> (r: MusicReply)
    ensures
        r == toggle_reply_of(*status),
{
    match status {
        MediaPlayingStatus::Paused(_) => MusicReply::AskAboutToggle {
            prompt_path: "/telegram/music/resume",
            fallback_key: "music_resume",
        },
        MediaPlayingStatus::Playing(_) => MusicReply::AskAboutToggle {
            prompt_path: "/telegram/music/pause",
            fallback_key: "music_pause",
        },
        _ => MusicReply::Lexicon("music_stopped"),
    }
}

/// The reply to `status`.
pub fn status_reply(status: MediaPlayingStatus) -> (r: MusicReply)
    ensures
        is_status_reply(status, r),
{
    match status {
        MediaPlayingStatus::Paused(t) | MediaPlayingStatus::Playing(t) => {
            let fallback = t.beautiful_out();
            MusicReply::AskAboutStatus { track: t, fallback }
        },
        _ => MusicReply::Lexicon("music_stopped"),
    }
}

/// The reply to an unrecognized command.
pub fn unrecognized_reply() -> (r: MusicReply)
    ensures
        r == MusicReply::Lexicon("error"),
{
    MusicReply::Lexicon("error")
}

/// The answer to a music command. `status` is the player's status, read
/// before anything is done when the command is `pause`, `resume` or
/// `status` (and not read for other commands). Returns whether playback is
/// then toggled, which it is for `pause` and `resume` only, and the reply.
pub fn music_reply(command: &str, status: Option<MediaPlayingStatus>) -> (r: (bool, MusicReply))
    requires
        reads_status(command@) ==> status is Some,
    ensures
        r.0 == is_toggle_command(command@),
        is_music_reply(command@, status, r.1),
{
    match music_command_kind(command) {
        MusicCommand::Toggle => match status {
            Some(s) => (true, toggle_reply(&s)),
            None => {
                assert(false);
                (true, unrecognized_reply())
            },
        },
        MusicCommand::Status => match status {
            Some(s) => (false, status_reply(s)),
            None => {
                assert(false);
                (false, unrecognized_reply())
            },
        },
        MusicCommand::Unrecognized => (false, unrecognized_reply()),
    }
}

/// The path of the prompt the reply asks the model with, if it asks.
pub fn prompt_path(reply: &MusicReply) -> (r: Option<&'static str>)
    ensures
        match reply {
            MusicReply::Lexicon(_) => r is None,
            MusicReply::AskAboutToggle { prompt_path, .. } => r == Some(*prompt_path),
            MusicReply::AskAboutStatus { .. } => r matches Some(p) && p@ == "/telegram/music/status"@,
        },
{
    match reply {
        MusicReply::Lexicon(_) => None,
        MusicReply::AskAboutToggle { prompt_path, .. } => Some(*prompt_path),
        MusicReply::AskAboutStatus { .. } => Some("/telegram/music/status"),
    }
}

/// The request sent to the model, if the reply asks it: for a toggle, the
/// prompt with `{command}` replaced by the user's message; for a status,
/// the prompt with `{status}` replaced by the track's description
/// `track_debug`, then `{message}` by the user's message.
pub fn model_request(reply: &MusicReply, prompt: &str, message: &str, track_debug: &str) -> (r: Option<String>)
    ensures
        match reply {
            MusicReply::Lexicon(_) => r is None,
            MusicReply::AskAboutToggle { .. } => r matches Some(q) && q@ == crate::text::replace_all(
                prompt@,
                "{command}"@,
                message@,
            ),
            MusicReply::AskAboutStatus { .. } => r matches Some(q) && q@ == crate::text::replace_all(
                crate::text::replace_all(prompt@, "{status}"@, track_debug@),
                "{message}"@,
                message@,
            ),
        },
{
    match reply {
        MusicReply::Lexicon(_) => None,
        MusicReply::AskAboutToggle { .. } => Some(fill_placeholder(prompt, "{command}", message)),
        MusicReply::AskAboutStatus { .. } => {
            let with_status = fill_placeholder(prompt, "{status}", track_debug);
            Some(fill_placeholder(with_status.as_str(), "{message}", message))
        },
    }
}

/// The lexicon entry the reply falls back on: the entry it names, or the
/// one a toggle answer falls back to; none for a status answer, which
/// carries its own fallback.
pub fn lexicon_key(reply: &MusicReply) -> (r: Option<&'static str>)
    ensures
        match reply {
            MusicReply::Lexicon(key) => r == Some(*key),
            MusicReply::AskAboutToggle { fallback_key, .. } => r == Some(*fallback_key),
            MusicReply::AskAboutStatus { .. } => r is None,
        },
{
    match reply {
        MusicReply::Lexicon(key) => Some(*key),
        MusicReply::AskAboutToggle { fallback_key, .. } => Some(*fallback_key),
        MusicReply::AskAboutStatus { .. } => None,
    }
}

/// The text that answers the command: a lexicon reply is its lexicon entry
/// `lexicon_text`; a reply that asks the model is the model's answer
/// `asked` when it gave one, else its fallback (the lexicon entry
/// `lexicon_text` for a toggle, the track's description for a status).
pub fn answer_text(reply: MusicReply, asked: Option<String>, lexicon_text: String) -> (r: String)
    ensures
        match reply {
            MusicReply::Lexicon(_) => r == lexicon_text,
            MusicReply::AskAboutToggle { .. } => r == match asked {
                Some(a) => a,
                None => lexicon_text,
            },
            MusicReply::AskAboutStatus { fallback, .. } => r == match asked {
                Some(a) => a,
                None => fallback,
            },
        },
{
    match reply {
        MusicReply::Lexicon(_) => lexicon_text,
        MusicReply::AskAboutToggle { .. } => match asked {
            Some(a) => a,
            None => lexicon_text,
        },
        MusicReply::AskAboutStatus { fallback, .. } => match asked {
            Some(a) => a,
            None => fallback,
        },
    }
}

/// A prompt with every `placeholder` replaced by `value`.
pub fn fill_placeholder(prompt: &str, placeholder: &str, value: &str) -> (r: String)
    ensures
        r@ == crate::text::replace_all(prompt@, placeholder@, value@),
{
    crate::text::replace_str(prompt, placeholder, value)
}

/// Toggling a paused player resumes it and toggling a playing player
/// pauses it: the reply asks the model about resuming a paused track and
/// about pausing a playing one, each with its own lexicon fallback; with
/// nothing playing or paused the reply says the music is stopped.
pub proof fn lemma_toggle_reply_follows_status(status: MediaPlayingStatus)
    ensures
        status is Paused ==> toggle_reply_of(status) == (MusicReply::AskAboutToggle {
            prompt_path: "/telegram/music/resume",
            fallback_key: "music_resume",
        }),
        status is Playing ==> toggle_reply_of(status) == (MusicReply::AskAboutToggle {
            prompt_path: "/telegram/music/pause",
            fallback_key: "music_pause",
        }),
        status is Stopped || status is Unknown ==> toggle_reply_of(status) == MusicReply::Lexicon("music_stopped"),
{
}

/// `pause` and `resume` toggle playback and reply about the toggle;
/// `status` leaves playback alone and replies about the track; any other
/// command neither reads nor toggles anything and replies with the
/// lexicon's `error`.
pub proof fn lemma_music_commands(command: Seq<char>, status: Option<MediaPlayingStatus>, r: MusicReply)
    requires
        is_music_reply(command, status, r),
    ensures
        (command == "pause"@ || command == "resume"@) ==> status is Some && r == toggle_reply_of(status->0),
        command == "status"@ ==> status is Some && is_status_reply(status->0, r),
        command != "pause"@ && command != "resume"@ && command != "status"@ ==> r == MusicReply::Lexicon("error"),
        !reads_status(command) <==> (command != "pause"@ && command != "resume"@ && command != "status"@),
{
    reveal_strlit("pause");
    reveal_strlit("resume");
    reveal_strlit("status");
    assert("status"@ != "pause"@ && "status"@ != "resume"@) by {
        assert("status"@[0] != "pause"@[0]);
        assert("status"@[1] != "resume"@[1]);
    }
}

/// The player's status is named by its trimmed output: `Playing` and
/// `Paused` carry the track, `Stopped` means stopped, and any other output
/// means the status is unknown.
pub proof fn lemma_status_names(output: Seq<char>, track: TrackInfo)
    ensures
        trim(output) == "Playing"@ ==> status_of(output, track) == MediaPlayingStatus::Playing(track),
        trim(output) == "Paused"@ ==> status_of(output, track) == MediaPlayingStatus::Paused(track),
        trim(output) == "Stopped"@ ==> status_of(output, track) == MediaPlayingStatus::Stopped,
        trim(output) != "Playing"@ && trim(output) != "Paused"@ && trim(output) != "Stopped"@ ==> status_of(
            output,
            track,
        ) == MediaPlayingStatus::Unknown,
{
    reveal_strlit("Playing");
    reveal_strlit("Paused");
    reveal_strlit("Stopped");
    assert("Paused"@ != "Playing"@) by {
        assert("Paused"@.len() != "Playing"@.len());
    }
    assert("Stopped"@ != "Playing"@ && "Stopped"@ != "Paused"@) by {
        assert("Stopped"@[0] != "Playing"@[0]);
        assert("Stopped"@[0] != "Paused"@[0]);
    }
}

/// Whitespace around the player's status output does not matter.
pub proof fn lemma_status_ignores_surrounding_whitespace(output: Seq<char>, track: TrackInfo)
    ensures
        status_of(trim(output), track) == status_of(output, track),
{
    crate::text::lemma_trim_idempotent(output);
}

} // verus!
