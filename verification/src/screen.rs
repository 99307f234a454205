//! The state of the service monitor screen and how keys, mouse input and
//! each redraw change it.  The event loop that reads the terminal and runs
//! the commands lives outside the library; every decision is made here.

use vstd::prelude::*;
use vstd::string::StringExecFns;

use crate::compose::{DatabaseEntry, DbType};
use crate::text::{join, join_spec, same_text, texts};
use crate::ui::{
    colored, hint, service_panel_spec, panel_conn_lines, panel_ui_lines, connection_string_spec, db_icon, db_icon_spec, get_connection_string, Color, click_service_index, click_service_index_spec, find_db, find_db_spec, is_ui_service,
    is_ui_service_spec, point_in_rect, point_in_rect_spec, rect_fits, Focus, Rect, Service, Toast,
};

verus! {

/// What a confirmation popup asks to do.
#[derive(Clone, Copy, Debug, PartialEq, Eq, Structural)]
pub enum PopupAction {
    Start,
    Stop,
    Quit,
}

/// A yes/no confirmation; `selected` is 0 when "Yes" is highlighted and 1
/// when "No" is.
pub struct Popup {
    pub service_name: String,
    pub action: PopupAction,
    pub selected: usize,
}

/// The monitor screen's state between events.
pub struct ScreenState {
    pub focus: Focus,
    pub auto_scroll: bool,
    pub scroll_offset: usize,
    pub popup: Option<Popup>,
    pub toast: Option<Toast>,
    pub selected: usize,
}

/// A popup only ever highlights "Yes" or "No".
pub open spec fn screen_wf(s: ScreenState) -> bool {
    s.popup matches Some(p) ==> p.selected < 2
}

/// A key as the screen tells keys apart.
#[derive(Clone, Copy, Debug, PartialEq, Eq, Structural)]
pub enum Key {
    Left,
    Right,
    Up,
    Down,
    Enter,
    Esc,
    Tab,
    PageUp,
    PageDown,
    Char(char),
    Other,
}

/// Mouse input as the screen tells it apart.
#[derive(Clone, Copy, Debug, PartialEq, Eq, Structural)]
pub enum MouseInput {
    LeftDown { col: u16, row: u16 },
    ScrollUp,
    ScrollDown,
    Other,
}

/// A docker command on a container.
#[derive(Clone, Copy, Debug, PartialEq, Eq, Structural)]
pub enum ServiceAction {
    Start,
    Stop,
}

/// What the event loop must do after an event.
pub enum Command {
    Nothing,
    Quit,
    Docker { action: ServiceAction, container_id: String },
    CopyToClipboard { text: String },
    OpenUrl { url: String },
    Shell { container_id: String },
}

/// The screen as it starts: services focused, logs following, nothing
/// selected but the first service.
pub fn initial_screen() -> (s: ScreenState)
    ensures
        s.focus == Focus::Services,
        s.auto_scroll,
        s.scroll_offset == 0,
        s.popup is None,
        s.toast is None,
        s.selected == 0,
{
    ScreenState {
        focus: Focus::Services,
        auto_scroll: true,
        scroll_offset: 0,
        popup: None,
        toast: None,
        selected: 0,
    }
}

/// The URL of a database's browser UI on its studio port.
pub open spec fn studio_url_spec(port: Seq<char>) -> Seq<char> {
    "http://localhost:"@ + port
}


/// What a popup shows: the service, the action and the highlighted answer.
pub struct PopupView {
    pub service_name: Seq<char>,
    pub action: PopupAction,
    pub selected: usize,
}

/// What the screen's state holds, with texts as character sequences.
pub struct ScreenView {
    pub focus: Focus,
    pub auto_scroll: bool,
    pub scroll_offset: usize,
    pub popup: Option<PopupView>,
    pub toast: Option<(Seq<char>, u64)>,
    pub selected: usize,
}

impl View for Popup {
    type V = PopupView;

    open spec fn view(&self) -> PopupView {
        PopupView { service_name: self.service_name@, action: self.action, selected: self.selected }
    }
}

impl View for ScreenState {
    type V = ScreenView;

    open spec fn view(&self) -> ScreenView {
        ScreenView {
            focus: self.focus,
            auto_scroll: self.auto_scroll,
            scroll_offset: self.scroll_offset,
            popup: match self.popup {
                Some(p) => Some(p@),
                None => None,
            },
            toast: match self.toast {
                Some(t) => Some((t.message@, t.expires_at)),
                None => None,
            },
            selected: self.selected,
        }
    }
}

/// What a command asks for, with texts as character sequences.
pub enum CommandView {
    Nothing,
    Quit,
    Docker(ServiceAction, Seq<char>),
    CopyToClipboard(Seq<char>),
    OpenUrl(Seq<char>),
    Shell(Seq<char>),
}

impl View for Command {
    type V = CommandView;

    open spec fn view(&self) -> CommandView {
        match self {
            Command::Nothing => CommandView::Nothing,
            Command::Quit => CommandView::Quit,
            Command::Docker { action, container_id } => CommandView::Docker(*action, container_id@),
            Command::CopyToClipboard { text } => CommandView::CopyToClipboard(text@),
            Command::OpenUrl { url } => CommandView::OpenUrl(url@),
            Command::Shell { container_id } => CommandView::Shell(container_id@),
        }
    }
}

/// The popup with another answer highlighted.
pub open spec fn with_answer(s: ScreenView, p: PopupView, selected: usize) -> ScreenView {
    ScreenView { popup: Some(PopupView { selected, ..p }), ..s }
}

/// The screen without its popup.
pub open spec fn without_popup(s: ScreenView) -> ScreenView {
    ScreenView { popup: None, ..s }
}

/// The docker command that a confirmed start or stop popup runs.
pub open spec fn confirmed_action(a: PopupAction) -> ServiceAction {
    if a == PopupAction::Stop {
        ServiceAction::Stop
    } else {
        ServiceAction::Start
    }
}

/// How a key changes the screen while a popup is open, and what it asks for.
pub open spec fn popup_key_step(s: ScreenView, p: PopupView, key: Key, services: Seq<Service>) -> (
    ScreenView,
    CommandView,
) {
    match key {
        Key::Left | Key::Char('h') => (with_answer(s, p, 0), CommandView::Nothing),
        Key::Right | Key::Char('l') => (with_answer(s, p, 1), CommandView::Nothing),
        Key::Tab => (with_answer(s, p, ((p.selected + 1) % 2) as usize), CommandView::Nothing),
        Key::Enter => {
            if p.selected == 0 && p.action == PopupAction::Quit {
                (without_popup(s), CommandView::Quit)
            } else if p.selected == 0 && s.selected < services.len() {
                (
                    without_popup(s),
                    CommandView::Docker(
                        confirmed_action(p.action),
                        services[s.selected as int].container_id@,
                    ),
                )
            } else {
                (without_popup(s), CommandView::Nothing)
            }
        },
        Key::Esc => (without_popup(s), CommandView::Nothing),
        _ => (s, CommandView::Nothing),
    }
}

/// The browser UI that `o` opens for the selected service, if it has one.
pub open spec fn open_target(selected: usize, services: Seq<Service>, databases: Seq<DatabaseEntry>) -> Option<
    Seq<char>,
> {
    if selected < services.len() {
        let svc = services[selected as int];
        match find_db_spec(svc.name@, databases) {
            Some(i) => {
                let db = databases[i];
                if is_ui_service_spec(svc.name@, db.name@, db.db_type) && db.studio_port is Some {
                    Some(studio_url_spec(db.studio_port->0@))
                } else {
                    None
                }
            },
            None => None,
        }
    } else {
        None
    }
}

/// How a key changes the screen when no popup is open, and what it asks for.
pub open spec fn normal_key_step(
    s: ScreenView,
    key: Key,
    services: Seq<Service>,
    databases: Seq<DatabaseEntry>,
    conn: Option<Seq<char>>,
) -> (ScreenView, CommandView) {
    let len = services.len();
    match key {
        Key::Char('q') => (
            ScreenView {
                popup: Some(PopupView { service_name: Seq::empty(), action: PopupAction::Quit, selected: 1 }),
                ..s
            },
            CommandView::Nothing,
        ),
        Key::Left => (ScreenView { focus: Focus::Services, ..s }, CommandView::Nothing),
        Key::Right => (ScreenView { focus: Focus::Logs, ..s }, CommandView::Nothing),
        Key::Char('c') => match conn {
            Some(c) => (s, CommandView::CopyToClipboard(c)),
            None => (s, CommandView::Nothing),
        },
        Key::Enter => {
            if s.focus == Focus::Services && s.selected < len {
                let svc = services[s.selected as int];
                (
                    ScreenView {
                        popup: Some(
                            PopupView {
                                service_name: svc.name@,
                                action: if svc.status@ == "running"@ {
                                    PopupAction::Stop
                                } else {
                                    PopupAction::Start
                                },
                                selected: 0,
                            },
                        ),
                        ..s
                    },
                    CommandView::Nothing,
                )
            } else {
                (s, CommandView::Nothing)
            }
        },
        Key::Char('o') => match open_target(s.selected, services, databases) {
            Some(u) => (s, CommandView::OpenUrl(u)),
            None => (s, CommandView::Nothing),
        },
        Key::Char('s') => {
            if s.selected < len && services[s.selected as int].container_id@.len() > 0 {
                (s, CommandView::Shell(services[s.selected as int].container_id@))
            } else {
                (s, CommandView::Nothing)
            }
        },
        Key::Down | Key::Char('j') => {
            if s.focus == Focus::Services {
                if len > 0 {
                    (
                        ScreenView {
                            selected: if s.selected + 1 < len { (s.selected + 1) as usize } else { (len - 1) as usize },
                            ..s
                        },
                        CommandView::Nothing,
                    )
                } else {
                    (s, CommandView::Nothing)
                }
            } else {
                (
                    ScreenView { auto_scroll: false, scroll_offset: (s.scroll_offset + 1) as usize, ..s },
                    CommandView::Nothing,
                )
            }
        },
        Key::Up | Key::Char('k') => {
            if s.focus == Focus::Services {
                (
                    ScreenView { selected: if s.selected > 0 { (s.selected - 1) as usize } else { 0 }, ..s },
                    CommandView::Nothing,
                )
            } else {
                (
                    ScreenView {
                        auto_scroll: false,
                        scroll_offset: if s.scroll_offset > 0 { (s.scroll_offset - 1) as usize } else { 0 },
                        ..s
                    },
                    CommandView::Nothing,
                )
            }
        },
        Key::PageDown | Key::Char('G') => {
            if s.focus == Focus::Logs {
                (ScreenView { auto_scroll: true, ..s }, CommandView::Nothing)
            } else {
                (s, CommandView::Nothing)
            }
        },
        Key::PageUp | Key::Char('g') => {
            if s.focus == Focus::Logs {
                (ScreenView { auto_scroll: false, scroll_offset: 0, ..s }, CommandView::Nothing)
            } else {
                (s, CommandView::Nothing)
            }
        },
        _ => (s, CommandView::Nothing),
    }
}

/// How a key changes the screen, and what it asks the event loop to do.
pub open spec fn key_step(
    s: ScreenView,
    key: Key,
    services: Seq<Service>,
    databases: Seq<DatabaseEntry>,
    conn: Option<Seq<char>>,
) -> (ScreenView, CommandView) {
    match s.popup {
        Some(p) => popup_key_step(s, p, key, services),
        None => normal_key_step(s, key, services, databases, conn),
    }
}

/// The text of an optional string.
pub open spec fn opt_text(o: Option<String>) -> Option<Seq<char>> {
    match o {
        Some(t) => Some(t@),
        None => None,
    }
}


/// Applies a key to the screen, returning what the event loop must do.
/// `services` is the current service list, `databases` the compose file's
/// databases and `conn` the selected service's connection string.
pub fn handle_key(
    state: &mut ScreenState,
    key: Key,
    services: &[Service],
    databases: &[DatabaseEntry],
    conn: &Option<String>,
) -> (cmd: Command)
    requires
        screen_wf(*old(state)),
        old(state).popup is None && (key == Key::Down || key == Key::Char('j')) && old(
            state,
        ).focus == Focus::Logs ==> old(state).scroll_offset < usize::MAX,
    ensures
        screen_wf(*final(state)),
        (final(state)@, cmd@) == key_step(old(state)@, key, services@, databases@, opt_text(*conn)),
{
    if state.popup.is_some() {
        let mut p = state.popup.take().unwrap();
        let cmd = match key {
            Key::Left | Key::Char('h') => {
                p.selected = 0;
                state.popup = Some(p);
                Command::Nothing
            },
            Key::Right | Key::Char('l') => {
                p.selected = 1;
                state.popup = Some(p);
                Command::Nothing
            },
            Key::Tab => {
                p.selected = (p.selected + 1) % 2;
                state.popup = Some(p);
                Command::Nothing
            },
            Key::Enter => {
                if p.selected == 0 {
                    if p.action == PopupAction::Quit {
                        Command::Quit
                    } else if state.selected < services.len() {
                        let action = if p.action == PopupAction::Stop {
                            ServiceAction::Stop
                        } else {
                            ServiceAction::Start
                        };
                        Command::Docker {
                            action,
                            container_id: services[state.selected].container_id.clone(),
                        }
                    } else {
                        Command::Nothing
                    }
                } else {
                    Command::Nothing
                }
            },
            Key::Esc => Command::Nothing,
            _ => {
                state.popup = Some(p);
                Command::Nothing
            },
        };
        return cmd;
    }
    let len = services.len();
    match key {
        Key::Char('q') => {
            state.popup = Some(
                Popup { service_name: String::new(), action: PopupAction::Quit, selected: 1 },
            );
            Command::Nothing
        },
        Key::Left => {
            state.focus = Focus::Services;
            Command::Nothing
        },
        Key::Right => {
            state.focus = Focus::Logs;
            Command::Nothing
        },
        Key::Char('c') => match conn {
            Some(c) => Command::CopyToClipboard { text: c.clone() },
            None => Command::Nothing,
        },
        Key::Enter => {
            if state.focus == Focus::Services && state.selected < len {
                let svc = &services[state.selected];
                let action = if same_text(svc.status.as_str(), "running") {
                    PopupAction::Stop
                } else {
                    PopupAction::Start
                };
                state.popup = Some(
                    Popup { service_name: svc.name.clone(), action, selected: 0 },
                );
            }
            Command::Nothing
        },
        Key::Char('o') => {
            if state.selected < len {
                let svc = &services[state.selected];
                match find_db(svc.name.as_str(), databases) {
                    Some(db) => {
                        if is_ui_service(svc.name.as_str(), db) {
                            match &db.studio_port {
                                Some(port) => Command::OpenUrl {
                                    url: "http://localhost:".to_string().concat(port.as_str()),
                                },
                                None => Command::Nothing,
                            }
                        } else {
                            Command::Nothing
                        }
                    },
                    None => Command::Nothing,
                }
            } else {
                Command::Nothing
            }
        },
        Key::Char('s') => {
            if state.selected < len && !services[state.selected].container_id.as_str().is_empty() {
                Command::Shell { container_id: services[state.selected].container_id.clone() }
            } else {
                Command::Nothing
            }
        },
        Key::Down | Key::Char('j') => {
            if state.focus == Focus::Services {
                if len > 0 {
                    state.selected = if state.selected < len - 1 {
                        state.selected + 1
                    } else {
                        len - 1
                    };
                }
            } else {
                state.auto_scroll = false;
                state.scroll_offset = state.scroll_offset + 1;
            }
            Command::Nothing
        },
        Key::Up | Key::Char('k') => {
            if state.focus == Focus::Services {
                state.selected = state.selected.saturating_sub(1);
            } else {
                state.auto_scroll = false;
                state.scroll_offset = state.scroll_offset.saturating_sub(1);
            }
            Command::Nothing
        },
        Key::PageDown | Key::Char('G') => {
            if state.focus == Focus::Logs {
                state.auto_scroll = true;
            }
            Command::Nothing
        },
        Key::PageUp | Key::Char('g') => {
            if state.focus == Focus::Logs {
                state.auto_scroll = false;
                state.scroll_offset = 0;
            }
            Command::Nothing
        },
        _ => Command::Nothing,
    }
}


/// The furthest the logs can scroll: lines beyond what fits in a pane of
/// `pane_height` rows, whose border takes two.
pub open spec fn max_scroll_spec(num_lines: nat, pane_height: u16) -> nat {
    let visible: int = if pane_height >= 2 { pane_height - 2 } else { 0 };
    if num_lines >= visible { (num_lines - visible) as nat } else { 0 }
}

/// How mouse input changes the screen: any left click closes an open popup;
/// otherwise a click selects a service or focuses the logs, and the wheel
/// scrolls the focused logs three lines.
pub open spec fn mouse_step(
    s: ScreenView,
    m: MouseInput,
    list_area: Rect,
    logs_area: Rect,
    num_services: nat,
    num_log_lines: nat,
) -> ScreenView {
    if s.popup is Some {
        if m is LeftDown {
            without_popup(s)
        } else {
            s
        }
    } else {
        match m {
            MouseInput::LeftDown { col, row } => match click_service_index_spec(
                col,
                row,
                list_area,
                num_services,
            ) {
                Some(i) => ScreenView { focus: Focus::Services, selected: i as usize, ..s },
                None => if point_in_rect_spec(col, row, logs_area) {
                    ScreenView { focus: Focus::Logs, ..s }
                } else {
                    s
                },
            },
            MouseInput::ScrollUp => if s.focus == Focus::Logs {
                ScreenView {
                    auto_scroll: false,
                    scroll_offset: if s.scroll_offset >= 3 { (s.scroll_offset - 3) as usize } else { 0 },
                    ..s
                }
            } else {
                s
            },
            MouseInput::ScrollDown => if s.focus == Focus::Logs {
                let max = max_scroll_spec(num_log_lines, logs_area.height);
                let off: int = if s.scroll_offset + 3 <= max { s.scroll_offset + 3 } else { max as int };
                ScreenView { scroll_offset: off as usize, auto_scroll: off >= max, ..s }
            } else {
                s
            },
            MouseInput::Other => s,
        }
    }
}

/// The furthest the logs can scroll in a pane `pane_height` rows high.
pub fn max_scroll(num_lines: usize, pane_height: u16) -> (m: usize)
    ensures
        m == max_scroll_spec(num_lines as nat, pane_height),
{
    num_lines.saturating_sub(pane_height.saturating_sub(2) as usize)
}

/// Applies mouse input to the screen.  `list_area` and `logs_area` are where
/// the services list and the logs were last drawn, `services` the list drawn
/// and `num_log_lines` the number of lines of the selected service's logs.
pub fn handle_mouse(
    state: &mut ScreenState,
    m: MouseInput,
    list_area: Rect,
    logs_area: Rect,
    services: &[Service],
    num_log_lines: usize,
)
    requires
        screen_wf(*old(state)),
        rect_fits(list_area),
        rect_fits(logs_area),
        old(state).popup is None ==> (m matches MouseInput::LeftDown { col, row } ==> {
            &&& list_area.x <= col < list_area.x + list_area.width ==> list_area.y < u16::MAX
            &&& list_area.x <= col < list_area.x + list_area.width && row >= list_area.y + 1
                ==> list_area.y + list_area.height >= 1
        }),
        old(state).popup is None && m is ScrollDown && old(state).focus == Focus::Logs
            ==> old(state).scroll_offset + 3 <= usize::MAX,
    ensures
        screen_wf(*final(state)),
        final(state)@ == mouse_step(
            old(state)@,
            m,
            list_area,
            logs_area,
            services@.len(),
            num_log_lines as nat,
        ),
{
    if state.popup.is_some() {
        if let MouseInput::LeftDown { .. } = m {
            state.popup = None;
        }
        return;
    }
    match m {
        MouseInput::LeftDown { col, row } => {
            if let Some(idx) = click_service_index(col, row, list_area, services) {
                state.focus = Focus::Services;
                state.selected = idx;
            } else if point_in_rect(col, row, logs_area) {
                state.focus = Focus::Logs;
            }
        },
        MouseInput::ScrollUp => {
            if state.focus == Focus::Logs {
                state.auto_scroll = false;
                state.scroll_offset = state.scroll_offset.saturating_sub(3);
            }
        },
        MouseInput::ScrollDown => {
            if state.focus == Focus::Logs {
                let max = max_scroll(num_log_lines, logs_area.height);
                let off = if state.scroll_offset + 3 <= max {
                    state.scroll_offset + 3
                } else {
                    max
                };
                state.scroll_offset = off;
                state.auto_scroll = off >= max;
            }
        },
        MouseInput::Other => {},
    }
}

/// How a redraw settles the log scroll position: following logs stay at the
/// end; paused logs are clamped to the end, and resume following when they
/// reach a non-empty end.
pub open spec fn settle_step(s: ScreenView, num_lines: nat, pane_height: u16) -> ScreenView {
    let max = max_scroll_spec(num_lines, pane_height);
    if s.auto_scroll {
        ScreenView { scroll_offset: max as usize, ..s }
    } else {
        let off: int = if s.scroll_offset <= max { s.scroll_offset as int } else { max as int };
        ScreenView { scroll_offset: off as usize, auto_scroll: off >= max && max > 0, ..s }
    }
}

/// Settles the log scroll position for a redraw of `num_lines` log lines in
/// a pane `pane_height` rows high, and returns the furthest scroll position.
pub fn settle_scroll(state: &mut ScreenState, num_lines: usize, pane_height: u16) -> (max: usize)
    requires
        screen_wf(*old(state)),
    ensures
        screen_wf(*final(state)),
        final(state)@ == settle_step(old(state)@, num_lines as nat, pane_height),
        max == max_scroll_spec(num_lines as nat, pane_height),
        final(state).scroll_offset <= max,
{
    let max = max_scroll(num_lines, pane_height);
    if state.auto_scroll {
        state.scroll_offset = max;
    } else {
        if state.scroll_offset > max {
            state.scroll_offset = max;
        }
        if state.scroll_offset >= max && max > 0 {
            state.auto_scroll = true;
        }
    }
    max
}

/// Drops the notification once its time is up at `now_ms`.
pub fn expire_toast(state: &mut ScreenState, now_ms: u64)
    requires
        screen_wf(*old(state)),
    ensures
        screen_wf(*final(state)),
        final(state)@ == (match old(state).toast {
            Some(t) => if now_ms >= t.expires_at {
                ScreenView { toast: None, ..old(state)@ }
            } else {
                old(state)@
            },
            None => old(state)@,
        }),
{
    let expired = match &state.toast {
        Some(t) => t.is_expired(now_ms),
        None => false,
    };
    if expired {
        state.toast = None;
    }
}


/// Moving the selection down and back up returns to the same screen when
/// the selection was not on the last service.
pub proof fn lemma_down_then_up(
    s: ScreenView,
    services: Seq<Service>,
    databases: Seq<DatabaseEntry>,
    conn: Option<Seq<char>>,
)
    requires
        s.popup is None,
        s.focus == Focus::Services,
        s.selected + 1 < services.len() <= usize::MAX,
    ensures
        key_step(
            key_step(s, Key::Down, services, databases, conn).0,
            Key::Up,
            services,
            databases,
            conn,
        ).0 == s,
{
}

/// Pressing Tab twice in a popup highlights the same answer again.
pub proof fn lemma_tab_twice(s: ScreenView, services: Seq<Service>, databases: Seq<DatabaseEntry>, conn: Option<Seq<char>>)
    requires
        s.popup matches Some(p) && p.selected < 2,
    ensures
        key_step(
            key_step(s, Key::Tab, services, databases, conn).0,
            Key::Tab,
            services,
            databases,
            conn,
        ).0 == s,
{
}

/// Asking to quit and then cancelling leaves the screen as it was.
pub proof fn lemma_quit_then_cancel(
    s: ScreenView,
    services: Seq<Service>,
    databases: Seq<DatabaseEntry>,
    conn: Option<Seq<char>>,
)
    requires
        s.popup is None,
    ensures
        key_step(
            key_step(s, Key::Char('q'), services, databases, conn).0,
            Key::Esc,
            services,
            databases,
            conn,
        ).0 == s,
{
}

/// The program quits only after a confirmation: `q` opens a popup with
/// "No" highlighted, and choosing "Yes" and Enter quits.
pub proof fn lemma_quit_needs_confirmation(
    s: ScreenView,
    services: Seq<Service>,
    databases: Seq<DatabaseEntry>,
    conn: Option<Seq<char>>,
)
    requires
        s.popup is None,
    ensures
        key_step(s, Key::Char('q'), services, databases, conn).1 == CommandView::Nothing,
        ({
            let s1 = key_step(s, Key::Char('q'), services, databases, conn).0;
            &&& key_step(s1, Key::Enter, services, databases, conn).1 == CommandView::Nothing
            &&& key_step(
                key_step(s1, Key::Left, services, databases, conn).0,
                Key::Enter,
                services,
                databases,
                conn,
            ).1 == CommandView::Quit
        }),
{
}

/// No key moves the selection off the end of a non-empty service list.
pub proof fn lemma_key_keeps_selection_in_range(
    s: ScreenView,
    key: Key,
    services: Seq<Service>,
    databases: Seq<DatabaseEntry>,
    conn: Option<Seq<char>>,
)
    requires
        s.selected < services.len(),
    ensures
        key_step(s, key, services, databases, conn).0.selected < services.len(),
{
}

/// Confirming a start or stop popup with "Yes" runs that docker action on
/// the selected service's container and closes the popup: `start` for a
/// start popup, `stop` for a stop popup, and nothing else changes.
pub proof fn lemma_confirm_runs_popup_action(
    s: ScreenView,
    services: Seq<Service>,
    databases: Seq<DatabaseEntry>,
    conn: Option<Seq<char>>,
)
    requires
        (s.popup matches Some(p) && p.selected == 0 && p.action != PopupAction::Quit),
        s.selected < services.len(),
    ensures
        key_step(s, Key::Enter, services, databases, conn).1 == CommandView::Docker(
            if s.popup->0.action == PopupAction::Start {
                ServiceAction::Start
            } else {
                ServiceAction::Stop
            },
            services[s.selected as int].container_id@,
        ),
        key_step(s, Key::Enter, services, databases, conn).0 == (ScreenView { popup: None, ..s }),
{
}

/// Enter on a selected service asks to stop it when it runs and to start
/// it otherwise, with "Yes" highlighted; a second Enter then runs exactly
/// that docker action on the service's container and returns to the
/// screen as it was.
pub proof fn lemma_enter_twice_toggles_service(
    s: ScreenView,
    services: Seq<Service>,
    databases: Seq<DatabaseEntry>,
    conn: Option<Seq<char>>,
)
    requires
        s.popup is None,
        s.focus == Focus::Services,
        s.selected < services.len(),
    ensures
        ({
            let svc = services[s.selected as int];
            let s1 = key_step(s, Key::Enter, services, databases, conn).0;
            &&& key_step(s, Key::Enter, services, databases, conn).1 == CommandView::Nothing
            &&& s1.popup matches Some(p) && p.selected == 0 && p.service_name == svc.name@
                && (p.action == PopupAction::Stop) == (svc.status@ == "running"@)
                && p.action != PopupAction::Quit
            &&& key_step(s1, Key::Enter, services, databases, conn).1 == CommandView::Docker(
                if svc.status@ == "running"@ {
                    ServiceAction::Stop
                } else {
                    ServiceAction::Start
                },
                svc.container_id@,
            )
            &&& key_step(s1, Key::Enter, services, databases, conn).0 == s
        }),
{
}

/// While a popup is open, a left click closes it and changes nothing else;
/// any other mouse input leaves the screen as it is.
pub proof fn lemma_click_dismisses_popup(
    s: ScreenView,
    m: MouseInput,
    list_area: Rect,
    logs_area: Rect,
    num_services: nat,
    num_log_lines: nat,
)
    requires
        s.popup is Some,
    ensures
        m is LeftDown ==> mouse_step(s, m, list_area, logs_area, num_services, num_log_lines)
            == (ScreenView { popup: None, ..s }),
        !(m is LeftDown) ==> mouse_step(s, m, list_area, logs_area, num_services, num_log_lines)
            == s,
{
}

/// A docker command is only ever asked for by Enter on an open start or
/// stop popup with "Yes" highlighted, and it names the selected service's
/// container.
pub proof fn lemma_docker_needs_confirmation(
    s: ScreenView,
    key: Key,
    services: Seq<Service>,
    databases: Seq<DatabaseEntry>,
    conn: Option<Seq<char>>,
)
    requires
        key_step(s, key, services, databases, conn).1 is Docker,
    ensures
        key == Key::Enter,
        s.popup matches Some(p) && p.selected == 0 && p.action != PopupAction::Quit,
        s.selected < services.len(),
        key_step(s, key, services, databases, conn).1->Docker_1 == services[s.selected as int].container_id@,
{
}

/// With the services pane focused and no popup, Down moves the selection
/// one service further, stopping at the last, and Up one back, stopping at
/// the first; nothing else on the screen changes and nothing is asked for.
pub proof fn lemma_arrow_keys_move_selection(
    s: ScreenView,
    services: Seq<Service>,
    databases: Seq<DatabaseEntry>,
    conn: Option<Seq<char>>,
)
    requires
        s.popup is None,
        s.focus == Focus::Services,
        services.len() <= usize::MAX,
    ensures
        key_step(s, Key::Down, services, databases, conn).1 == CommandView::Nothing,
        key_step(s, Key::Up, services, databases, conn).1 == CommandView::Nothing,
        key_step(s, Key::Down, services, databases, conn).0 == (ScreenView {
            selected: if services.len() == 0 {
                s.selected
            } else if s.selected + 1 < services.len() {
                (s.selected + 1) as usize
            } else {
                (services.len() - 1) as usize
            },
            ..s
        }),
        key_step(s, Key::Up, services, databases, conn).0 == (ScreenView {
            selected: if s.selected == 0 { 0 } else { (s.selected - 1) as usize },
            ..s
        }),
{
}

/// Without a popup, `c` copies the selected service's connection string
/// when it has one and does nothing otherwise; the screen stays as it is.
pub proof fn lemma_copy_key(
    s: ScreenView,
    services: Seq<Service>,
    databases: Seq<DatabaseEntry>,
    conn: Option<Seq<char>>,
)
    requires
        s.popup is None,
    ensures
        key_step(s, Key::Char('c'), services, databases, conn).0 == s,
        key_step(s, Key::Char('c'), services, databases, conn).1 == match conn {
            Some(c) => CommandView::CopyToClipboard(c),
            None => CommandView::Nothing,
        },
{
}

/// Without a popup, `s` opens a shell in the selected service's container
/// when it has one, and does nothing otherwise; the screen stays as it is.
pub proof fn lemma_shell_key(
    s: ScreenView,
    services: Seq<Service>,
    databases: Seq<DatabaseEntry>,
    conn: Option<Seq<char>>,
)
    requires
        s.popup is None,
    ensures
        key_step(s, Key::Char('s'), services, databases, conn).0 == s,
        s.selected < services.len() && services[s.selected as int].container_id@.len() > 0
            ==> key_step(s, Key::Char('s'), services, databases, conn).1 == CommandView::Shell(
            services[s.selected as int].container_id@,
        ),
        !(s.selected < services.len() && services[s.selected as int].container_id@.len() > 0)
            ==> key_step(s, Key::Char('s'), services, databases, conn).1 == CommandView::Nothing,
{
}

/// Without a popup, a left click on a service in the list selects it and
/// focuses the services pane; the wheel never scrolls the logs past their
/// end, and scrolling up never resumes following.
pub proof fn lemma_mouse_without_popup(
    s: ScreenView,
    m: MouseInput,
    list_area: Rect,
    logs_area: Rect,
    num_services: nat,
    num_log_lines: nat,
)
    requires
        s.popup is None,
        s.scroll_offset <= max_scroll_spec(num_log_lines, logs_area.height),
        num_services <= usize::MAX,
        num_log_lines <= usize::MAX,
    ensures
        mouse_step(s, m, list_area, logs_area, num_services, num_log_lines).popup is None,
        mouse_step(s, m, list_area, logs_area, num_services, num_log_lines).scroll_offset
            <= max_scroll_spec(num_log_lines, logs_area.height),
        m matches MouseInput::LeftDown { col, row } ==> (click_service_index_spec(
            col,
            row,
            list_area,
            num_services,
        ) matches Some(i) ==> mouse_step(s, m, list_area, logs_area, num_services, num_log_lines).focus
            == Focus::Services && mouse_step(
            s,
            m,
            list_area,
            logs_area,
            num_services,
            num_log_lines,
        ).selected == i && i < num_services),
        m is ScrollUp && s.focus == Focus::Logs ==> !mouse_step(
            s,
            m,
            list_area,
            logs_area,
            num_services,
            num_log_lines,
        ).auto_scroll && mouse_step(s, m, list_area, logs_area, num_services, num_log_lines).scroll_offset
            <= s.scroll_offset,
        m is ScrollDown && s.focus == Focus::Logs ==> mouse_step(
            s,
            m,
            list_area,
            logs_area,
            num_services,
            num_log_lines,
        ).scroll_offset >= s.scroll_offset,
        s.focus == Focus::Services && !(m is LeftDown) ==> mouse_step(
            s,
            m,
            list_area,
            logs_area,
            num_services,
            num_log_lines,
        ) == s,
{
}

/// Settling the scroll position a second time changes nothing.
pub proof fn lemma_settle_idempotent(s: ScreenView, num_lines: nat, pane_height: u16)
    ensures
        settle_step(settle_step(s, num_lines, pane_height), num_lines, pane_height) == settle_step(
            s,
            num_lines,
            pane_height,
        ),
{
}


/// The connection string of the selected service, if it has one.
pub open spec fn selected_connection_spec(
    services: Seq<Service>,
    selected: usize,
    databases: Seq<DatabaseEntry>,
) -> Option<Seq<char>> {
    if selected < services.len() {
        let svc = services[selected as int];
        match find_db_spec(svc.name@, databases) {
            Some(i) => connection_string_spec(svc.name@, databases[i]),
            None => None,
        }
    } else {
        None
    }
}

/// The connection string of the selected service, if it has one.
pub fn selected_connection(services: &[Service], selected: usize, databases: &[DatabaseEntry]) -> (r:
    Option<String>)
    ensures
        opt_text(r) == selected_connection_spec(services@, selected, databases@),
{
    if selected < services.len() {
        let svc = &services[selected];
        match find_db(svc.name.as_str(), databases) {
            Some(db) => get_connection_string(svc, db),
            None => None,
        }
    } else {
        None
    }
}

/// Whether the selected service is a database UI with a studio port, so
/// that `o` can open it.
pub fn can_open_ui(services: &[Service], selected: usize, databases: &[DatabaseEntry]) -> (b: bool)
    ensures
        b == (open_target(selected, services@, databases@) is Some),
{
    if selected < services.len() {
        let svc = &services[selected];
        match find_db(svc.name.as_str(), databases) {
            Some(db) => is_ui_service(svc.name.as_str(), db) && db.studio_port.is_some(),
            None => false,
        }
    } else {
        false
    }
}

/// The title of the logs pane.
pub fn logs_title(auto_scroll: bool) -> (t: &'static str)
    ensures
        t@ == (if auto_scroll { "Logs [FOLLOW]"@ } else { "Logs [PAUSED]"@ }),
{
    if auto_scroll {
        "Logs [FOLLOW]"
    } else {
        "Logs [PAUSED]"
    }
}

/// The text of the logs pane: the selected service's log lines joined by
/// newlines, a loading note while none have arrived, or a note that there
/// are no services.
pub fn log_view_text(services: &[Service], selected: usize, logs: Option<&[String]>) -> (t: String)
    ensures
        t@ == (if selected < services@.len() {
            match logs {
                Some(l) => join_spec(texts(l@), "\n"@),
                None => "Loading logs..."@,
            }
        } else {
            "No services"@
        }),
{
    if !services.is_empty() && selected < services.len() {
        match logs {
            Some(l) => join(l, "\n"),
            None => "Loading logs...".to_string(),
        }
    } else {
        "No services".to_string()
    }
}

/// The icon and its colour drawn before a service: the icon of its
/// database's kind, or a grey dot when it belongs to no database.
pub fn service_icon(db: Option<&DatabaseEntry>) -> (r: (&'static str, Color))
    ensures
        match db {
            Some(d) => r.0@ == db_icon_spec(d.db_type) && r.1 == match d.db_type {
                DbType::Rdbms => Color::Blue,
                DbType::Cache => Color::Yellow,
                DbType::MessageQueue => Color::Magenta,
                DbType::DocumentDb => Color::Green,
            },
            None => r.0@ == "●"@ && r.1 == Color::DarkGray,
        },
{
    match db {
        Some(d) => {
            let color = match d.db_type {
                DbType::Rdbms => Color::Blue,
                DbType::Cache => Color::Yellow,
                DbType::MessageQueue => Color::Magenta,
                DbType::DocumentDb => Color::Green,
            };
            (db_icon(&d.db_type), color)
        },
        None => ("●", Color::DarkGray),
    }
}

/// The verb of a popup's action and the colour it is drawn in.
pub fn popup_action_label(action: PopupAction) -> (r: (&'static str, Color))
    ensures
        r == (match action {
            PopupAction::Start => ("start", Color::Green),
            PopupAction::Stop => ("stop", Color::Red),
            PopupAction::Quit => ("quit", Color::Red),
        }),
{
    match action {
        PopupAction::Start => ("start", Color::Green),
        PopupAction::Stop => ("stop", Color::Red),
        PopupAction::Quit => ("quit", Color::Red),
    }
}

/// The title of a popup.
pub fn popup_title(action: PopupAction) -> (t: &'static str)
    ensures
        t@ == (match action {
            PopupAction::Start => " Confirm START "@,
            PopupAction::Stop => " Confirm STOP "@,
            PopupAction::Quit => " Confirm QUIT "@,
        }),
{
    match action {
        PopupAction::Start => " Confirm START ",
        PopupAction::Stop => " Confirm STOP ",
        PopupAction::Quit => " Confirm QUIT ",
    }
}


/// Where the splash art of `width` by `height` cells starts so that it is
/// centred on a terminal of `cols` by `rows` cells.
pub fn splash_origin(cols: u16, rows: u16, width: u16, height: u16) -> (r: (u16, u16))
    ensures
        r.0 == (if cols >= width { (cols - width) / 2 } else { 0 }),
        r.1 == (if rows >= height { (rows - height) / 2 } else { 0 }),
        r.0 + width <= cols || cols < width,
        r.1 + height <= rows || rows < height,
{
    (cols.saturating_sub(width) / 2, rows.saturating_sub(height) / 2)
}


/// Colours and weight of drawn text; `None` keeps the terminal's colour.
#[derive(Clone, Copy, Debug, PartialEq, Eq, Structural)]
pub struct CellStyle {
    pub fg: Option<Color>,
    pub bg: Option<Color>,
    pub bold: bool,
}

/// The style of a row of the services list: grey, and for the selected row
/// black on yellow while the list has the focus, or bold on dark grey.
pub fn service_row_style(is_selected: bool, focus: Focus) -> (st: CellStyle)
    ensures
        st == (if !is_selected {
            CellStyle { fg: Some(Color::Gray), bg: None, bold: false }
        } else if focus == Focus::Services {
            CellStyle { fg: Some(Color::Black), bg: Some(Color::Yellow), bold: true }
        } else {
            CellStyle { fg: Some(Color::Gray), bg: Some(Color::DarkGray), bold: true }
        }),
{
    if !is_selected {
        CellStyle { fg: Some(Color::Gray), bg: None, bold: false }
    } else if focus == Focus::Services {
        CellStyle { fg: Some(Color::Black), bg: Some(Color::Yellow), bold: true }
    } else {
        CellStyle { fg: Some(Color::Gray), bg: Some(Color::DarkGray), bold: true }
    }
}

/// The styles of a popup's "Yes" and "No" buttons: the highlighted one is
/// bold black on the action's colour ("Yes") or on dark grey ("No"), the
/// other dark grey.
pub fn popup_button_styles(selected: usize, action_color: Color) -> (r: (CellStyle, CellStyle))
    ensures
        r.0 == (if selected == 0 {
            CellStyle { fg: Some(Color::Black), bg: Some(action_color), bold: true }
        } else {
            CellStyle { fg: Some(Color::DarkGray), bg: None, bold: false }
        }),
        r.1 == (if selected == 1 {
            CellStyle { fg: Some(Color::Black), bg: Some(Color::DarkGray), bold: true }
        } else {
            CellStyle { fg: Some(Color::DarkGray), bg: None, bold: false }
        }),
{
    let yes = if selected == 0 {
        CellStyle { fg: Some(Color::Black), bg: Some(action_color), bold: true }
    } else {
        CellStyle { fg: Some(Color::DarkGray), bg: None, bold: false }
    };
    let no = if selected == 1 {
        CellStyle { fg: Some(Color::Black), bg: Some(Color::DarkGray), bold: true }
    } else {
        CellStyle { fg: Some(Color::DarkGray), bg: None, bold: false }
    };
    (yes, no)
}

/// The colour of a pane's border: yellow while it has the focus.
pub fn pane_border(pane: Focus, focus: Focus) -> (c: Option<Color>)
    ensures
        c == (if pane == focus { Some(Color::Yellow) } else { None }),
{
    if pane == focus {
        Some(Color::Yellow)
    } else {
        None
    }
}


/// The connection string that `c` copies is the one the service panel of
/// the selected service shows: one source for display and clipboard.
pub proof fn lemma_copied_connection_is_displayed(
    s: ScreenView,
    services: Seq<Service>,
    databases: Seq<DatabaseEntry>,
)
    requires
        s.popup is None,
        selected_connection_spec(services, s.selected, databases) is Some,
    ensures
        ({
            let c = selected_connection_spec(services, s.selected, databases)->0;
            let svc = services[s.selected as int];
            let i = find_db_spec(svc.name@, databases)->0;
            let panel = service_panel_spec(svc.name@, Some(databases[i]));
            &&& key_step(
                s,
                Key::Char('c'),
                services,
                databases,
                selected_connection_spec(services, s.selected, databases),
            ).1 == CommandView::CopyToClipboard(c)
            &&& exists|k: int|
                0 <= k < panel.len() && #[trigger] panel[k] == seq![
                    colored("🔌 Connection String: "@, Color::Cyan),
                    colored(c, Color::Yellow),
                    hint("  [c] copy"@),
                ]
        }),
{
    let c = selected_connection_spec(services, s.selected, databases)->0;
    let svc = services[s.selected as int];
    let i = find_db_spec(svc.name@, databases)->0;
    let d = databases[i];
    let ui = panel_ui_lines(svc.name@, d);
    let conn = panel_conn_lines(svc.name@, d);
    let panel = service_panel_spec(svc.name@, Some(d));
    assert(conn.len() == 1);
    let k = ui.len() as int;
    assert(panel[k] == conn[0]);
}

} // verus!
