//! Which command a key press means, given what the screen shows.
//!
//! Overlays take keys first, in this order: help, a detail pane, a
//! confirmation, an input box, a provider dialog, the dashboard's proxy
//! popup; only then do the page's own keys apply.
use vstd::prelude::*;
use crate::input::KeyCode;
use crate::models::{DashboardProxyPopup, ProviderDialogKind, View};

verus! {

/// What is open on screen when a key arrives.
#[derive(Debug, Clone, Copy, PartialEq, Eq, Structural)]
pub struct KeyContext {
    pub view: View,
    pub show_help: bool,
    pub detail_open: bool,
    pub confirm_open: bool,
    pub input_open: bool,
    pub provider_dialog_open: bool,
    pub dashboard_popup: DashboardProxyPopup,
}

/// The command a key press stands for.
#[derive(Debug, Clone, Copy, PartialEq, Eq, Structural)]
pub enum KeyCommand {
    Nothing,
    Quit,
    CloseHelp,
    CloseDetail,
    ConfirmAccept,
    ConfirmCancel,
    InputSubmit,
    InputCancel,
    InputBackspace,
    InputChar(char),
    ProviderClose,
    ProviderMove(i8),
    ProviderEdge(bool),
    ProviderUpdateSelected,
    ProviderUpdateAll,
    ProviderRefresh,
    ClosePopup,
    SetView(View),
    NextView,
    PreviousView,
    Move(i8),
    MoveToEdge(bool),
    ShowHelp,
    OpenStatusHistory,
    RunDiagnose,
    ExportDiagnose,
    StartSearch,
    StartSubscriptionImport,
    StartLocalProfileImport,
    ActivateSelected,
    RefreshNow,
    ToggleCore,
    RestartCore,
    RetryJob,
    CycleMode,
    OpenDashboardProxyGroups,
    ConfirmSystemProxy,
    ConfirmTun,
    ToggleDns,
    UpdateSubscription,
    UpdateAllSubscriptions,
    ConfirmDeleteProfile,
    FocusNextProxyPane,
    OpenProviderDialog(ProviderDialogKind),
    TestProxyDelay,
    CycleProxyNodeSort,
    ToggleLogFollow,
    CycleLogLevelFilter,
    ConfirmClearLogs,
    ConfirmCloseAllConnections,
    ConfirmCloseConnection,
    EditSetting,
    CancelJob,
}

/// Keys while the help screen is open.
pub open spec fn help_command(code: KeyCode) -> KeyCommand {
    match code {
        KeyCode::Char('?') | KeyCode::Esc => KeyCommand::CloseHelp,
        KeyCode::Char('q') => KeyCommand::Quit,
        _ => KeyCommand::Nothing,
    }
}

/// Keys while a detail pane is open.
pub open spec fn detail_command(code: KeyCode) -> KeyCommand {
    match code {
        KeyCode::Enter | KeyCode::Esc => KeyCommand::CloseDetail,
        KeyCode::Char('q') => KeyCommand::Quit,
        _ => KeyCommand::Nothing,
    }
}

/// Keys while a confirmation waits; a confirmation never quits.
pub open spec fn confirm_command(code: KeyCode) -> KeyCommand {
    match code {
        KeyCode::Char('y') | KeyCode::Char('Y') => KeyCommand::ConfirmAccept,
        KeyCode::Char('n') | KeyCode::Char('N') | KeyCode::Esc => KeyCommand::ConfirmCancel,
        _ => KeyCommand::Nothing,
    }
}

/// Keys while an input box is open: every character is typed.
pub open spec fn input_command(code: KeyCode) -> KeyCommand {
    match code {
        KeyCode::Enter => KeyCommand::InputSubmit,
        KeyCode::Esc => KeyCommand::InputCancel,
        KeyCode::Backspace => KeyCommand::InputBackspace,
        KeyCode::Char(c) => KeyCommand::InputChar(c),
        _ => KeyCommand::Nothing,
    }
}

/// Keys while a provider dialog is open.
pub open spec fn provider_dialog_command(code: KeyCode) -> KeyCommand {
    match code {
        KeyCode::Esc => KeyCommand::ProviderClose,
        KeyCode::Char('q') => KeyCommand::Quit,
        KeyCode::Up | KeyCode::Char('k') => KeyCommand::ProviderMove(-1i8),
        KeyCode::Down | KeyCode::Char('j') => KeyCommand::ProviderMove(1i8),
        KeyCode::PageUp => KeyCommand::ProviderMove(-10i8),
        KeyCode::PageDown => KeyCommand::ProviderMove(10i8),
        KeyCode::Home => KeyCommand::ProviderEdge(false),
        KeyCode::End => KeyCommand::ProviderEdge(true),
        KeyCode::Enter | KeyCode::Char('u') | KeyCode::Char('U') => KeyCommand::ProviderUpdateSelected,
        KeyCode::Char('a') | KeyCode::Char('A') => KeyCommand::ProviderUpdateAll,
        KeyCode::Char('r') => KeyCommand::ProviderRefresh,
        _ => KeyCommand::Nothing,
    }
}

/// Keys that mean the same on every page.
pub open spec fn global_command(code: KeyCode) -> Option<KeyCommand> {
    match code {
        KeyCode::Char('q') | KeyCode::Esc => Some(KeyCommand::Quit),
        KeyCode::Char('1') => Some(KeyCommand::SetView(View::Dashboard)),
        KeyCode::Char('2') => Some(KeyCommand::SetView(View::Profiles)),
        KeyCode::Char('3') => Some(KeyCommand::SetView(View::Proxies)),
        KeyCode::Char('4') => Some(KeyCommand::SetView(View::Logs)),
        KeyCode::Char('5') => Some(KeyCommand::SetView(View::Settings)),
        KeyCode::Char('6') => Some(KeyCommand::SetView(View::Rules)),
        KeyCode::Char('7') => Some(KeyCommand::SetView(View::Connections)),
        KeyCode::Char('8') => Some(KeyCommand::SetView(View::Jobs)),
        KeyCode::Right | KeyCode::Tab | KeyCode::Char('l') => Some(KeyCommand::NextView),
        KeyCode::Left | KeyCode::BackTab | KeyCode::Char('h') => Some(KeyCommand::PreviousView),
        KeyCode::Up | KeyCode::Char('k') => Some(KeyCommand::Move(-1i8)),
        KeyCode::Down | KeyCode::Char('j') => Some(KeyCommand::Move(1i8)),
        KeyCode::PageUp => Some(KeyCommand::Move(-10i8)),
        KeyCode::PageDown => Some(KeyCommand::Move(10i8)),
        KeyCode::Home => Some(KeyCommand::MoveToEdge(false)),
        KeyCode::End => Some(KeyCommand::MoveToEdge(true)),
        KeyCode::Char('?') => Some(KeyCommand::ShowHelp),
        KeyCode::Char('n') | KeyCode::Char('N') => Some(KeyCommand::OpenStatusHistory),
        KeyCode::Char('D') => Some(KeyCommand::RunDiagnose),
        KeyCode::Char('E') => Some(KeyCommand::ExportDiagnose),
        KeyCode::Char('/') => Some(KeyCommand::StartSearch),
        KeyCode::Enter => Some(KeyCommand::ActivateSelected),
        KeyCode::Char('r') => Some(KeyCommand::RefreshNow),
        KeyCode::Char('s') => Some(KeyCommand::ToggleCore),
        _ => None,
    }
}

/// Keys that belong to one page.
pub open spec fn page_command(view: View, code: KeyCode) -> KeyCommand {
    match view {
        View::Dashboard => match code {
            KeyCode::Char('R') => KeyCommand::RestartCore,
            KeyCode::Char('m') => KeyCommand::CycleMode,
            KeyCode::Char('g') => KeyCommand::OpenDashboardProxyGroups,
            KeyCode::Char('P') | KeyCode::Char('p') => KeyCommand::ConfirmSystemProxy,
            KeyCode::Char('T') | KeyCode::Char('t') => KeyCommand::ConfirmTun,
            KeyCode::Char('d') => KeyCommand::ToggleDns,
            _ => KeyCommand::Nothing,
        },
        View::Profiles => match code {
            KeyCode::Char('i') => KeyCommand::StartSubscriptionImport,
            KeyCode::Char('o') => KeyCommand::StartLocalProfileImport,
            KeyCode::Char('u') => KeyCommand::UpdateSubscription,
            KeyCode::Char('a') => KeyCommand::UpdateAllSubscriptions,
            KeyCode::Char('d') | KeyCode::Delete => KeyCommand::ConfirmDeleteProfile,
            _ => KeyCommand::Nothing,
        },
        View::Proxies => match code {
            KeyCode::Char('m') => KeyCommand::CycleMode,
            KeyCode::Char('f') => KeyCommand::FocusNextProxyPane,
            KeyCode::Char('p') => KeyCommand::OpenProviderDialog(ProviderDialogKind::Proxy),
            KeyCode::Char('t') => KeyCommand::TestProxyDelay,
            KeyCode::Char('S') => KeyCommand::CycleProxyNodeSort,
            _ => KeyCommand::Nothing,
        },
        View::Logs => match code {
            KeyCode::Char('f') => KeyCommand::ToggleLogFollow,
            KeyCode::Char('L') => KeyCommand::CycleLogLevelFilter,
            KeyCode::Char('x') => KeyCommand::ConfirmClearLogs,
            _ => KeyCommand::Nothing,
        },
        View::Settings => match code {
            KeyCode::Char('e') => KeyCommand::EditSetting,
            _ => KeyCommand::Nothing,
        },
        View::Rules => match code {
            KeyCode::Char('p') => KeyCommand::OpenProviderDialog(ProviderDialogKind::Rule),
            _ => KeyCommand::Nothing,
        },
        View::Connections => match code {
            KeyCode::Char('c') => KeyCommand::ConfirmCloseAllConnections,
            KeyCode::Char('d') | KeyCode::Delete => KeyCommand::ConfirmCloseConnection,
            _ => KeyCommand::Nothing,
        },
        View::Jobs => match code {
            KeyCode::Char('R') => KeyCommand::RetryJob,
            KeyCode::Char('c') => KeyCommand::CancelJob,
            _ => KeyCommand::Nothing,
        },
    }
}

/// The page's keys: the global ones first, then the page's own.
pub open spec fn base_command(view: View, code: KeyCode) -> KeyCommand {
    match global_command(code) {
        Some(c) => c,
        None => page_command(view, code),
    }
}

/// The command a key stands for, overlays first.
pub open spec fn key_command_spec(ctx: KeyContext, code: KeyCode) -> KeyCommand {
    if ctx.show_help {
        help_command(code)
    } else if ctx.detail_open {
        detail_command(code)
    } else if ctx.confirm_open {
        confirm_command(code)
    } else if ctx.input_open {
        input_command(code)
    } else if ctx.provider_dialog_open {
        provider_dialog_command(code)
    } else if ctx.view == View::Dashboard && ctx.dashboard_popup != DashboardProxyPopup::Closed
        && code == KeyCode::Esc {
        KeyCommand::ClosePopup
    } else {
        base_command(ctx.view, code)
    }
}

fn help_key(code: KeyCode) -> (r: KeyCommand)
    ensures
        r == help_command(code),
{
    match code {
        KeyCode::Char('?') | KeyCode::Esc => KeyCommand::CloseHelp,
        KeyCode::Char('q') => KeyCommand::Quit,
        _ => KeyCommand::Nothing,
    }
}

fn detail_key(code: KeyCode) -> (r: KeyCommand)
    ensures
        r == detail_command(code),
{
    match code {
        KeyCode::Enter | KeyCode::Esc => KeyCommand::CloseDetail,
        KeyCode::Char('q') => KeyCommand::Quit,
        _ => KeyCommand::Nothing,
    }
}

fn confirm_key(code: KeyCode) -> (r: KeyCommand)
    ensures
        r == confirm_command(code),
{
    match code {
        KeyCode::Char('y') | KeyCode::Char('Y') => KeyCommand::ConfirmAccept,
        KeyCode::Char('n') | KeyCode::Char('N') | KeyCode::Esc => KeyCommand::ConfirmCancel,
        _ => KeyCommand::Nothing,
    }
}

fn input_key(code: KeyCode) -> (r: KeyCommand)
    ensures
        r == input_command(code),
{
    match code {
        KeyCode::Enter => KeyCommand::InputSubmit,
        KeyCode::Esc => KeyCommand::InputCancel,
        KeyCode::Backspace => KeyCommand::InputBackspace,
        KeyCode::Char(c) => KeyCommand::InputChar(c),
        _ => KeyCommand::Nothing,
    }
}

fn provider_dialog_key(code: KeyCode) -> (r: KeyCommand)
    ensures
        r == provider_dialog_command(code),
{
    match code {
        KeyCode::Esc => KeyCommand::ProviderClose,
        KeyCode::Char('q') => KeyCommand::Quit,
        KeyCode::Up | KeyCode::Char('k') => KeyCommand::ProviderMove(-1i8),
        KeyCode::Down | KeyCode::Char('j') => KeyCommand::ProviderMove(1i8),
        KeyCode::PageUp => KeyCommand::ProviderMove(-10i8),
        KeyCode::PageDown => KeyCommand::ProviderMove(10i8),
        KeyCode::Home => KeyCommand::ProviderEdge(false),
        KeyCode::End => KeyCommand::ProviderEdge(true),
        KeyCode::Enter | KeyCode::Char('u') | KeyCode::Char('U') => KeyCommand::ProviderUpdateSelected,
        KeyCode::Char('a') | KeyCode::Char('A') => KeyCommand::ProviderUpdateAll,
        KeyCode::Char('r') => KeyCommand::ProviderRefresh,
        _ => KeyCommand::Nothing,
    }
}

fn global_key(code: KeyCode) -> (r: Option<KeyCommand>)
    ensures
        r == global_command(code),
{
    match code {
        KeyCode::Char('q') | KeyCode::Esc => Some(KeyCommand::Quit),
        KeyCode::Char('1') => Some(KeyCommand::SetView(View::Dashboard)),
        KeyCode::Char('2') => Some(KeyCommand::SetView(View::Profiles)),
        KeyCode::Char('3') => Some(KeyCommand::SetView(View::Proxies)),
        KeyCode::Char('4') => Some(KeyCommand::SetView(View::Logs)),
        KeyCode::Char('5') => Some(KeyCommand::SetView(View::Settings)),
        KeyCode::Char('6') => Some(KeyCommand::SetView(View::Rules)),
        KeyCode::Char('7') => Some(KeyCommand::SetView(View::Connections)),
        KeyCode::Char('8') => Some(KeyCommand::SetView(View::Jobs)),
        KeyCode::Right | KeyCode::Tab | KeyCode::Char('l') => Some(KeyCommand::NextView),
        KeyCode::Left | KeyCode::BackTab | KeyCode::Char('h') => Some(KeyCommand::PreviousView),
        KeyCode::Up | KeyCode::Char('k') => Some(KeyCommand::Move(-1i8)),
        KeyCode::Down | KeyCode::Char('j') => Some(KeyCommand::Move(1i8)),
        KeyCode::PageUp => Some(KeyCommand::Move(-10i8)),
        KeyCode::PageDown => Some(KeyCommand::Move(10i8)),
        KeyCode::Home => Some(KeyCommand::MoveToEdge(false)),
        KeyCode::End => Some(KeyCommand::MoveToEdge(true)),
        KeyCode::Char('?') => Some(KeyCommand::ShowHelp),
        KeyCode::Char('n') | KeyCode::Char('N') => Some(KeyCommand::OpenStatusHistory),
        KeyCode::Char('D') => Some(KeyCommand::RunDiagnose),
        KeyCode::Char('E') => Some(KeyCommand::ExportDiagnose),
        KeyCode::Char('/') => Some(KeyCommand::StartSearch),
        KeyCode::Enter => Some(KeyCommand::ActivateSelected),
        KeyCode::Char('r') => Some(KeyCommand::RefreshNow),
        KeyCode::Char('s') => Some(KeyCommand::ToggleCore),
        _ => None,
    }
}

fn page_key(view: View, code: KeyCode) -> (r: KeyCommand)
    ensures
        r == page_command(view, code),
{
    match view {
        View::Dashboard => match code {
            KeyCode::Char('R') => KeyCommand::RestartCore,
            KeyCode::Char('m') => KeyCommand::CycleMode,
            KeyCode::Char('g') => KeyCommand::OpenDashboardProxyGroups,
            KeyCode::Char('P') | KeyCode::Char('p') => KeyCommand::ConfirmSystemProxy,
            KeyCode::Char('T') | KeyCode::Char('t') => KeyCommand::ConfirmTun,
            KeyCode::Char('d') => KeyCommand::ToggleDns,
            _ => KeyCommand::Nothing,
        },
        View::Profiles => match code {
            KeyCode::Char('i') => KeyCommand::StartSubscriptionImport,
            KeyCode::Char('o') => KeyCommand::StartLocalProfileImport,
            KeyCode::Char('u') => KeyCommand::UpdateSubscription,
            KeyCode::Char('a') => KeyCommand::UpdateAllSubscriptions,
            KeyCode::Char('d') | KeyCode::Delete => KeyCommand::ConfirmDeleteProfile,
            _ => KeyCommand::Nothing,
        },
        View::Proxies => match code {
            KeyCode::Char('m') => KeyCommand::CycleMode,
            KeyCode::Char('f') => KeyCommand::FocusNextProxyPane,
            KeyCode::Char('p') => KeyCommand::OpenProviderDialog(ProviderDialogKind::Proxy),
            KeyCode::Char('t') => KeyCommand::TestProxyDelay,
            KeyCode::Char('S') => KeyCommand::CycleProxyNodeSort,
            _ => KeyCommand::Nothing,
        },
        View::Logs => match code {
            KeyCode::Char('f') => KeyCommand::ToggleLogFollow,
            KeyCode::Char('L') => KeyCommand::CycleLogLevelFilter,
            KeyCode::Char('x') => KeyCommand::ConfirmClearLogs,
            _ => KeyCommand::Nothing,
        },
        View::Settings => match code {
            KeyCode::Char('e') => KeyCommand::EditSetting,
            _ => KeyCommand::Nothing,
        },
        View::Rules => match code {
            KeyCode::Char('p') => KeyCommand::OpenProviderDialog(ProviderDialogKind::Rule),
            _ => KeyCommand::Nothing,
        },
        View::Connections => match code {
            KeyCode::Char('c') => KeyCommand::ConfirmCloseAllConnections,
            KeyCode::Char('d') | KeyCode::Delete => KeyCommand::ConfirmCloseConnection,
            _ => KeyCommand::Nothing,
        },
        View::Jobs => match code {
            KeyCode::Char('R') => KeyCommand::RetryJob,
            KeyCode::Char('c') => KeyCommand::CancelJob,
            _ => KeyCommand::Nothing,
        },
    }
}

/// The command a key press stands for in the given screen state.
pub fn key_command(ctx: &KeyContext, code: KeyCode) -> (r: KeyCommand)
    ensures
        r == key_command_spec(*ctx, code),
{
    if ctx.show_help {
        help_key(code)
    } else if ctx.detail_open {
        detail_key(code)
    } else if ctx.confirm_open {
        confirm_key(code)
    } else if ctx.input_open {
        input_key(code)
    } else if ctx.provider_dialog_open {
        provider_dialog_key(code)
    } else if ctx.view == View::Dashboard && ctx.dashboard_popup != DashboardProxyPopup::Closed
        && code == KeyCode::Esc {
        KeyCommand::ClosePopup
    } else {
        match global_key(code) {
            Some(c) => c,
            None => page_key(ctx.view, code),
        }
    }
}

/// Quitting is always one key away: `q` quits unless a confirmation or an
/// input box holds the keyboard.
pub proof fn law_q_quits(ctx: KeyContext)
    requires
        !ctx.confirm_open || ctx.show_help || ctx.detail_open,
        !ctx.input_open || ctx.show_help || ctx.detail_open || ctx.confirm_open,
    ensures
        key_command_spec(ctx, KeyCode::Char('q')) == KeyCommand::Quit,
{
}

/// An open input box takes every character as text.
pub proof fn law_input_takes_characters(ctx: KeyContext, c: char)
    requires
        ctx.input_open,
        !ctx.show_help,
        !ctx.detail_open,
        !ctx.confirm_open,
    ensures
        key_command_spec(ctx, KeyCode::Char(c)) == KeyCommand::InputChar(c),
{
}

} // verus!
