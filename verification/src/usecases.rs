//! The actions a user can ask for, and what the assistant answers.
use vstd::prelude::*;
use vstd::string::*;

verus! {

/// Usecases are the main business logic of the application.
///
/// This usecases module contains all the possible actions that the user can perform from client.
#[derive(Debug)]
pub enum Usecases {
    /// Turns off current track.
    /// # Examples
    ///  - Asya, turns off the music, please.
    ///  - Shut up music
    TurnOffMusic,
    /// Turns on current track.
    /// # Examples
    ///  - Asya, turn the music back on.
    ///  - Resume the song
    TurnOnMusic,
    /// Returns currently playing track.
    ///
    /// # Examples
    ///  - What song is playing right now?
    ///  - What's the name of the current track?
    GetMusicStatus,
    /// Play next track.
    ///
    /// # Examples
    ///  - Next song, please.
    ///  - Skip to the next track.
    PlayNextTrack,
    /// Play previous track.
    ///
    /// # Examples
    ///  - Play the previous song.
    ///  - Go back to the last track.
    PlayPrevTrack,
    /// Turns off the computer.
    Shutdown,
    /// Reboot computer.
    Reboot,
    /// Open specified app.
    OpenApp(String),
    /// Basic system monitoring.
    StartBasicSystemMonitoring,
    /// If no other options are suitable, then this is a simple request from a language model.
    ///
    /// # Examples
    ///  - Can you help me with that?
    ///  - Please provide an answer.
    Answer,
}

/// What carrying out a usecase does.
#[derive(Debug)]
pub enum UsecaseAction {
    /// Toggle playback and answer about it.
    PlayOrResumeMusic,
    /// Tell what is playing.
    GetMusicStatus,
    /// Skip to the next track.
    PlayNextTrack,
    /// Go back to the previous track.
    PlayPreviousTrack,
    /// Start the basic system monitoring.
    StartBasicMonitoring,
    /// Open the named application.
    OpenApp(String),
    /// Let the language model answer.
    Answer,
    /// Turn the computer off.
    Shutdown,
    /// Reboot the computer.
    Reboot,
    /// A dangerous usecase that the configuration does not allow: nothing
    /// is done.
    SkipDangerous,
}

/// The description of every usecase, one per line.
pub open spec fn usecases_description() -> Seq<char> {
    "TurnOffMusic: Turns off current track.\nTurnOnMusic: Turns on current track.\nGetMusicStatus: Returns currently playing track.\nPlayNextTrack: Play next track.\nPlayPrevTrack: Play previous track.\nShutdown: Turns off the computer.\nReboot: Reboot computer.\nOpenApp(String): Open specified app.\nStartBasicSystemMonitoring: Basic system monitoring.\nAnswer: If no other options are suitable, then this is a simple request from a language model."@
}

/// What carrying out `u` does when dangerous features are allowed or not.
pub open spec fn action_of(u: Usecases, test_dangerous_features: bool) -> UsecaseAction {
    match u {
        Usecases::TurnOffMusic | Usecases::TurnOnMusic => UsecaseAction::PlayOrResumeMusic,
        Usecases::GetMusicStatus => UsecaseAction::GetMusicStatus,
        Usecases::PlayNextTrack => UsecaseAction::PlayNextTrack,
        Usecases::PlayPrevTrack => UsecaseAction::PlayPreviousTrack,
        Usecases::StartBasicSystemMonitoring => UsecaseAction::StartBasicMonitoring,
        Usecases::OpenApp(app) => UsecaseAction::OpenApp(app),
        Usecases::Answer => UsecaseAction::Answer,
        Usecases::Shutdown => if test_dangerous_features {
            UsecaseAction::Shutdown
        } else {
            UsecaseAction::SkipDangerous
        },
        Usecases::Reboot => if test_dangerous_features {
            UsecaseAction::Reboot
        } else {
            UsecaseAction::SkipDangerous
        },
    }
}

impl Usecases {
    /// The description of every usecase.
    pub fn stringify_one() -> (r: String)
        ensures
            r@ == usecases_description(),
    {
        "TurnOffMusic: Turns off current track.\nTurnOnMusic: Turns on current track.\nGetMusicStatus: Returns currently playing track.\nPlayNextTrack: Play next track.\nPlayPrevTrack: Play previous track.\nShutdown: Turns off the computer.\nReboot: Reboot computer.\nOpenApp(String): Open specified app.\nStartBasicSystemMonitoring: Basic system monitoring.\nAnswer: If no other options are suitable, then this is a simple request from a language model.".to_owned()
    }

    /// The descriptions of the usecases, each followed by a blank line.
    pub fn stringify_all() -> (r: String)
        ensures
            r@ == usecases_description() + "\n\n"@,
    {
        let mut r = Usecases::stringify_one();
        r.append("\n\n");
        r
    }

    /// What carrying out this usecase does. Shutting down and rebooting
    /// happen only when dangerous features are allowed.
    pub fn action(self, test_dangerous_features: bool) -> (r: UsecaseAction)
        ensures
            r == action_of(self, test_dangerous_features),
    {
        match self {
            Usecases::TurnOffMusic | Usecases::TurnOnMusic => UsecaseAction::PlayOrResumeMusic,
            Usecases::GetMusicStatus => UsecaseAction::GetMusicStatus,
            Usecases::PlayNextTrack => UsecaseAction::PlayNextTrack,
            Usecases::PlayPrevTrack => UsecaseAction::PlayPreviousTrack,
            Usecases::StartBasicSystemMonitoring => UsecaseAction::StartBasicMonitoring,
            Usecases::OpenApp(app) => UsecaseAction::OpenApp(app),
            Usecases::Answer => UsecaseAction::Answer,
            Usecases::Shutdown => if test_dangerous_features {
                UsecaseAction::Shutdown
            } else {
                UsecaseAction::SkipDangerous
            },
            Usecases::Reboot => if test_dangerous_features {
                UsecaseAction::Reboot
            } else {
                UsecaseAction::SkipDangerous
            },
        }
    }
}

/// Each usecase is carried out by its own action: turning the music off or
/// on toggles playback, asking what plays tells it, the next and previous
/// track skip forward and back, monitoring starts the monitoring, opening
/// an application opens that application, a plain request is answered by
/// the model, and shutting down or rebooting happens when dangerous
/// features are allowed and is skipped otherwise.
pub proof fn lemma_each_usecase_its_action(test_dangerous_features: bool, app: String)
    ensures
        action_of(Usecases::TurnOffMusic, test_dangerous_features) == UsecaseAction::PlayOrResumeMusic,
        action_of(Usecases::TurnOnMusic, test_dangerous_features) == UsecaseAction::PlayOrResumeMusic,
        action_of(Usecases::GetMusicStatus, test_dangerous_features) == UsecaseAction::GetMusicStatus,
        action_of(Usecases::PlayNextTrack, test_dangerous_features) == UsecaseAction::PlayNextTrack,
        action_of(Usecases::PlayPrevTrack, test_dangerous_features) == UsecaseAction::PlayPreviousTrack,
        action_of(Usecases::StartBasicSystemMonitoring, test_dangerous_features)
            == UsecaseAction::StartBasicMonitoring,
        action_of(Usecases::OpenApp(app), test_dangerous_features) == UsecaseAction::OpenApp(app),
        action_of(Usecases::Answer, test_dangerous_features) == UsecaseAction::Answer,
        test_dangerous_features ==> action_of(Usecases::Shutdown, test_dangerous_features) == UsecaseAction::Shutdown,
        test_dangerous_features ==> action_of(Usecases::Reboot, test_dangerous_features) == UsecaseAction::Reboot,
        !test_dangerous_features ==> action_of(Usecases::Shutdown, test_dangerous_features)
            == UsecaseAction::SkipDangerous,
        !test_dangerous_features ==> action_of(Usecases::Reboot, test_dangerous_features)
            == UsecaseAction::SkipDangerous,
{
}

/// A dangerous action happens only when dangerous features are allowed.
pub proof fn lemma_dangerous_needs_permission(u: Usecases, test_dangerous_features: bool)
    requires
        action_of(u, test_dangerous_features) is Shutdown || action_of(u, test_dangerous_features) is Reboot,
    ensures
        test_dangerous_features,
{
}

/// What the assistant answers after an action.
#[derive(Debug)]
pub enum AsyaResponse {
    Success { message: String },
    Failure { message: String },
}

/// The arguments of the command that turns the computer off.
pub fn shutdown_command() -> (r: Vec<String>)
    ensures
        crate::text::views(r@) == seq!["shutdown"@, "now"@],
{
    let mut r: Vec<String> = Vec::new();
    r.push("shutdown".to_owned());
    r.push("now".to_owned());
    assert(crate::text::views(r@) =~= seq!["shutdown"@, "now"@]);
    r
}

/// The arguments of the command that reboots the computer.
pub fn reboot_command() -> (r: Vec<String>)
    ensures
        crate::text::views(r@) == seq!["reboot"@],
{
    let mut r: Vec<String> = Vec::new();
    r.push("reboot".to_owned());
    assert(crate::text::views(r@) =~= seq!["reboot"@]);
    r
}

/// The answer once the shutdown command ran or could not run.
pub fn shutdown_response(executed: bool) -> (r: AsyaResponse)
    ensures
        executed ==> (r matches AsyaResponse::Success { message } && message@ == "Turning your PC off!"@),
        !executed ==> (r matches AsyaResponse::Failure { message } && message@ == "Couldn't turn your PC off!"@),
{
    if executed {
        AsyaResponse::Success { message: "Turning your PC off!".to_owned() }
    } else {
        AsyaResponse::Failure { message: "Couldn't turn your PC off!".to_owned() }
    }
}

/// The answer once the reboot command ran or could not run.
pub fn reboot_response(executed: bool) -> (r: AsyaResponse)
    ensures
        executed ==> (r matches AsyaResponse::Success { message } && message@ == "Rebooting your PC!"@),
        !executed ==> (r matches AsyaResponse::Failure { message } && message@ == "Couldn't reboot your PC!"@),
{
    if executed {
        AsyaResponse::Success { message: "Rebooting your PC!".to_owned() }
    } else {
        AsyaResponse::Failure { message: "Couldn't reboot your PC!".to_owned() }
    }
}

/// How an attempt to open an application went.
#[derive(Debug)]
pub enum OpenOutcome {
    /// No `.desktop` entry names the application.
    NotFound,
    /// The entry could not be read or the application not started.
    Failed(String),
    /// The application was started.
    Opened,
}

/// The answer to a request to open `app`.
pub fn open_response(app: &str, outcome: OpenOutcome) -> (r: AsyaResponse)
    ensures
        match outcome {
            OpenOutcome::NotFound => r matches AsyaResponse::Failure { message } && message@ == "No app '"@
                + app@ + "' found!"@,
            OpenOutcome::Failed(e) => r matches AsyaResponse::Failure { message } && message == e,
            OpenOutcome::Opened => r matches AsyaResponse::Success { message } && message@ == "Opened '"@ + app@
                + "'"@,
        },
{
    match outcome {
        OpenOutcome::NotFound => {
            let mut message = "No app '".to_owned();
            message.append(app);
            message.append("' found!");
            AsyaResponse::Failure { message }
        },
        OpenOutcome::Failed(e) => AsyaResponse::Failure { message: e },
        OpenOutcome::Opened => {
            let mut message = "Opened '".to_owned();
            message.append(app);
            message.append("'");
            AsyaResponse::Success { message }
        },
    }
}

} // verus!
