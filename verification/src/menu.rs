use vstd::prelude::*;
use crate::config::{is_default_config, AppConfig};
use crate::network::NetworkManager;
use crate::report::ReportGenerator;
use crate::sectools::SecurityTools;

verus! {

/// What `str::trim` returns for the given characters: the input without its
/// leading and trailing whitespace.
pub uninterp spec fn trimmed_of(s: Seq<char>) -> Seq<char>;

/// What `str::to_lowercase` returns for the given characters.
pub uninterp spec fn lower_of(s: Seq<char>) -> Seq<char>;

/// Relies on `str::trim`: removes leading and trailing whitespace; the
/// result depends on the input characters alone.
#[verifier::external_body]
fn trim_input(s: &String) -> (r: String)
    ensures
        r@ == trimmed_of(s@),
{
    s.trim().to_owned()
}

/// Relies on `str::to_lowercase`: the Unicode lowercase mapping of the
/// input; the result depends on the input characters alone.
#[verifier::external_body]
fn lowercase_input(s: &String) -> (r: String)
    ensures
        r@ == lower_of(s@),
{
    s.to_lowercase()
}

/// One action of the main menu.
#[derive(Clone, Copy, PartialEq, Eq, Structural, Debug)]
pub enum Command {
    Exit,
    Ifconfig,
    ArpScan,
    EnableWlan0,
    DisableWlan0,
    StartMonitorMode,
    EnableWlan0Mon,
    DisableWlan0Mon,
    StopMonitorMode,
    EnableAnonym8,
    DisableAnonym8,
    EnableAnonsurf,
    DisableAnonsurf,
    FixErrors,
    AnonsurfStatus,
    RestartAnonsurf,
    CheckUpdates,
    SettingsMenu,
    ViewPublicIp,
    ViewMac,
    Handshake,
    FindWpsPin,
    MitmMenu,
    AskHowdoi,
    AutoExploitBrowser,
    BruteforceLogin,
    Unknown,
}

/// The menu keyword table: which normalized input selects which action.
pub open spec fn spec_parse_command(s: Seq<char>) -> Command {
    if s == "0"@ || s == "exit"@ {
        Command::Exit
    } else if s == "if"@ || s == "ifconfig"@ {
        Command::Ifconfig
    } else if s == "scan"@ {
        Command::ArpScan
    } else if s == "1"@ {
        Command::EnableWlan0
    } else if s == "d1"@ {
        Command::DisableWlan0
    } else if s == "start"@ {
        Command::StartMonitorMode
    } else if s == "2"@ {
        Command::EnableWlan0Mon
    } else if s == "d2"@ {
        Command::DisableWlan0Mon
    } else if s == "stop"@ {
        Command::StopMonitorMode
    } else if s == "3"@ {
        Command::EnableAnonym8
    } else if s == "d3"@ {
        Command::DisableAnonym8
    } else if s == "4"@ {
        Command::EnableAnonsurf
    } else if s == "d4"@ {
        Command::DisableAnonsurf
    } else if s == "errors"@ {
        Command::FixErrors
    } else if s == "5"@ {
        Command::AnonsurfStatus
    } else if s == "d5"@ {
        Command::RestartAnonsurf
    } else if s == "update"@ {
        Command::CheckUpdates
    } else if s == "s"@ {
        Command::SettingsMenu
    } else if s == "6"@ {
        Command::ViewPublicIp
    } else if s == "7"@ {
        Command::ViewMac
    } else if s == "8"@ {
        Command::Handshake
    } else if s == "9"@ {
        Command::FindWpsPin
    } else if s == "10"@ {
        Command::MitmMenu
    } else if s == "11"@ {
        Command::AskHowdoi
    } else if s == "12"@ {
        Command::AutoExploitBrowser
    } else if s == "13"@ {
        Command::BruteforceLogin
    } else {
        Command::Unknown
    }
}

/// Whether the given normalized input equals the keyword.
fn matches_keyword(cmd: &String, keyword: &str) -> (r: bool)
    ensures
        r == (cmd@ == keyword@),
{
    let k: String = keyword.to_owned();
    *cmd == k
}

/// Maps a normalized (trimmed, lowercased) input line to its menu action.
pub fn parse_command(cmd: &String) -> (c: Command)
    ensures
        c == spec_parse_command(cmd@),
{
    if matches_keyword(cmd, "0") || matches_keyword(cmd, "exit") {
        Command::Exit
    } else if matches_keyword(cmd, "if") || matches_keyword(cmd, "ifconfig") {
        Command::Ifconfig
    } else if matches_keyword(cmd, "scan") {
        Command::ArpScan
    } else if matches_keyword(cmd, "1") {
        Command::EnableWlan0
    } else if matches_keyword(cmd, "d1") {
        Command::DisableWlan0
    } else if matches_keyword(cmd, "start") {
        Command::StartMonitorMode
    } else if matches_keyword(cmd, "2") {
        Command::EnableWlan0Mon
    } else if matches_keyword(cmd, "d2") {
        Command::DisableWlan0Mon
    } else if matches_keyword(cmd, "stop") {
        Command::StopMonitorMode
    } else if matches_keyword(cmd, "3") {
        Command::EnableAnonym8
    } else if matches_keyword(cmd, "d3") {
        Command::DisableAnonym8
    } else if matches_keyword(cmd, "4") {
        Command::EnableAnonsurf
    } else if matches_keyword(cmd, "d4") {
        Command::DisableAnonsurf
    } else if matches_keyword(cmd, "errors") {
        Command::FixErrors
    } else if matches_keyword(cmd, "5") {
        Command::AnonsurfStatus
    } else if matches_keyword(cmd, "d5") {
        Command::RestartAnonsurf
    } else if matches_keyword(cmd, "update") {
        Command::CheckUpdates
    } else if matches_keyword(cmd, "s") {
        Command::SettingsMenu
    } else if matches_keyword(cmd, "6") {
        Command::ViewPublicIp
    } else if matches_keyword(cmd, "7") {
        Command::ViewMac
    } else if matches_keyword(cmd, "8") {
        Command::Handshake
    } else if matches_keyword(cmd, "9") {
        Command::FindWpsPin
    } else if matches_keyword(cmd, "10") {
        Command::MitmMenu
    } else if matches_keyword(cmd, "11") {
        Command::AskHowdoi
    } else if matches_keyword(cmd, "12") {
        Command::AutoExploitBrowser
    } else if matches_keyword(cmd, "13") {
        Command::BruteforceLogin
    } else {
        Command::Unknown
    }
}

/// Whether the menu loop goes on after an action: every action but `Exit`
/// returns to the menu.
pub fn command_continues(c: &Command) -> (r: bool)
    ensures
        r == (*c != Command::Exit),
{
    *c != Command::Exit
}

/// The tool's identity, shown in the banner.
#[derive(Debug, Clone)]
pub struct ToolInfo {
    pub name: String,
    pub version: String,
    pub core: String,
    pub developer: String,
    pub website: String,
    pub plan: String,
}

/// The interactive tool: its identity, its capability handles and its
/// configuration. The input/output loop around it lives with the caller;
/// this type decides what each input line means.
pub struct EhtoolsEnterprise {
    pub info: ToolInfo,
    pub network: NetworkManager,
    pub security: SecurityTools,
    pub reporter: ReportGenerator,
    pub config: AppConfig,
}

impl EhtoolsEnterprise {
    /// Builds the tool with its fixed identity and the loaded (default)
    /// configuration.
    pub fn new() -> (r: Self)
        ensures
            r.info.name@ == "Entynet Hacker Tools"@,
            r.info.version@ == "v3.0.0 : LITE"@,
            r.info.core@ == "TEF : The Ehtools Framework"@,
            r.info.developer@ == "Entynetproject"@,
            r.info.website@ == "entrynetproject.simplesite.com"@,
            r.info.plan@ == "Ehtools Framework : LITE"@,
            is_default_config(r.config),
    {
        let config = match AppConfig::load() {
            Ok(c) => c,
            Err(_) => AppConfig::default(),
        };
        EhtoolsEnterprise {
            info: ToolInfo {
                name: "Entynet Hacker Tools".to_owned(),
                version: "v3.0.0 : LITE".to_owned(),
                core: "TEF : The Ehtools Framework".to_owned(),
                developer: "Entynetproject".to_owned(),
                website: "entrynetproject.simplesite.com".to_owned(),
                plan: "Ehtools Framework : LITE".to_owned(),
            },
            network: NetworkManager::new(),
            security: SecurityTools::new(),
            reporter: ReportGenerator::new(),
            config,
        }
    }

    /// Decides what an input line of the main menu asks for: the line is
    /// trimmed and lowercased, then looked up in the keyword table.
    pub fn handle_original_command(&self, input: &String) -> (c: Command)
        ensures
            c == spec_parse_command(lower_of(trimmed_of(input@))),
    {
        let trimmed = trim_input(input);
        let normalized = lowercase_input(&trimmed);
        parse_command(&normalized)
    }
}

} // verus!
