//! The TUI's application state: input mode, panels, chat sessions and the
//! agent that messages are routed to.
use vstd::prelude::*;
use crate::clock::{is_hyphenated_uuid, new_uuid_v4, utc_now_millis};
use crate::text::{chars_of, decimal, is_ws, is_ws_exec, lowercase, push_decimal, push_str, string_of, to_lowercase, trim, trim_exec, trim_start};
use crate::tui::subsystems::AgentStatus as AgentState;
use crate::tui::subsystems::{AgentInfo, LogLevel, LogLine, MemoryOpType, MemoryOperation};
use crate::tui::subsystems::eq_str;

verus! {

/// Input modes of the TUI.
#[derive(Debug, Clone, Copy, PartialEq, Eq, Structural)]
pub enum InputMode {
    /// Keys are commands.
    Normal,
    /// Typing a message.
    Insert,
    /// Typing a `:` command.
    Command,
}

/// Which panels are visible.
#[derive(Debug, Clone, Copy, PartialEq, Eq, Structural)]
pub struct PanelVisibility {
    pub swarm: bool,
    pub cost: bool,
    pub memory: bool,
    pub logs: bool,
}

impl Default for PanelVisibility {
    /// All panels visible.
    fn default() -> (p: Self)
        ensures
            p.swarm && p.cost && p.memory && p.logs,
    {
        PanelVisibility { swarm: true, cost: true, memory: true, logs: true }
    }
}

/// A panel that can be shown or hidden.
#[derive(Debug, Clone, Copy, PartialEq, Eq, Structural)]
pub enum PanelType {
    Swarm,
    Cost,
    Memory,
    Logs,
}

/// Whether `panel` is visible under `p`.
pub open spec fn panel_flag(p: PanelVisibility, panel: PanelType) -> bool {
    match panel {
        PanelType::Swarm => p.swarm,
        PanelType::Cost => p.cost,
        PanelType::Memory => p.memory,
        PanelType::Logs => p.logs,
    }
}

/// `p` with `panel` flipped.
pub open spec fn toggled(p: PanelVisibility, panel: PanelType) -> PanelVisibility {
    match panel {
        PanelType::Swarm => PanelVisibility { swarm: !p.swarm, ..p },
        PanelType::Cost => PanelVisibility { cost: !p.cost, ..p },
        PanelType::Memory => PanelVisibility { memory: !p.memory, ..p },
        PanelType::Logs => PanelVisibility { logs: !p.logs, ..p },
    }
}

/// Who wrote a chat message.
#[derive(Debug, Clone, Copy, PartialEq, Eq, Structural)]
pub enum MessageRole {
    User,
    Assistant,
    System,
}

/// A chat message.
#[derive(Debug, Clone)]
pub struct Message {
    /// Message id (a UUID).
    pub id: String,
    /// Who wrote it.
    pub role: MessageRole,
    /// The text.
    pub content: String,
    /// The model that generated it, where one did.
    pub model_used: Option<String>,
    /// When it was written (Unix milliseconds).
    pub timestamp: i64,
    /// Its token count, where known.
    pub token_count: Option<usize>,
}

/// A chat session.
#[derive(Debug, Clone)]
pub struct Session {
    /// Session id (a UUID).
    pub id: String,
    /// Session name.
    pub name: String,
    /// Its messages, oldest first.
    pub messages: Vec<Message>,
    /// When it was created (Unix milliseconds).
    pub created_at: i64,
}

/// An agent shown in the status bar.
#[derive(Debug, Clone)]
pub struct AgentStatus {
    /// Agent id.
    pub id: String,
    /// Agent name.
    pub name: String,
    /// Model in use.
    pub model: String,
    /// Progress, 0 to 100.
    pub progress: u8,
    /// Execution state.
    pub status: AgentState,
}

/// The agents messages can be routed to, by default.
pub open spec fn default_agents() -> Seq<Seq<char>> {
    seq!["coder"@, "planner"@, "vision"@, "fast"@, "siyuan-master"@]
}

/// The names held by a vector of strings.
pub open spec fn names(v: Seq<String>) -> Seq<Seq<char>> {
    Seq::new(v.len(), |i: int| v[i]@)
}

/// The name of session number `n`.
pub open spec fn session_name(n: nat) -> Seq<char> {
    "Session "@ + decimal(n)
}

/// A message just written: a fresh UUID for id, no token count.
pub open spec fn fresh_message(m: Message, role: MessageRole, content: Seq<char>, model: Option<Seq<char>>) -> bool {
    &&& m.role == role
    &&& m.content@ == content
    &&& match (m.model_used, model) {
        (Some(a), Some(b)) => a@ == b,
        (None, None) => true,
        _ => false,
    }
    &&& m.token_count is None
    &&& is_hyphenated_uuid(m.id@)
}

/// The first word of `s` (what `split_whitespace` yields first), empty
/// where there is none.
pub open spec fn first_word(s: Seq<char>) -> Seq<char> {
    let t = trim_start(s);
    t.take(word_end(t))
}

/// The position of the first whitespace in `t`, or its length.
pub open spec fn word_end(t: Seq<char>) -> int
    decreases t.len(),
{
    if t.len() == 0 || is_ws(t[0]) {
        0
    } else {
        1 + word_end(t.drop_first())
    }
}

/// The command word of a `:` command: the first word of the trimmed,
/// lowercased text.
pub open spec fn command_word(command: Seq<char>) -> Seq<char> {
    first_word(lowercase(trim(command)))
}

/// The index after `i` among `n`, the first after the last.
pub open spec fn next_index(i: int, n: int) -> int {
    (i + 1) % n
}

/// The index before `i` among `n`, the last before the first.
pub open spec fn prev_index(i: int, n: int) -> int {
    if i == 0 { n - 1 } else { i - 1 }
}

/// Main application state.
#[derive(Debug)]
pub struct AppState {
    /// Current input mode.
    pub input_mode: InputMode,
    /// Text being typed.
    pub input_buffer: String,
    /// The TUI should exit.
    pub should_quit: bool,
    /// Index of the session shown.
    pub active_session: usize,
    /// Agents messages can be routed to.
    pub available_agents: Vec<String>,
    /// Index of the selected agent.
    pub selected_agent_index: usize,
    /// Panel visibility.
    pub panels: PanelVisibility,
    /// Chat sessions.
    pub sessions: Vec<Session>,
    /// Chat scroll offset, in messages from the newest.
    pub chat_scroll: usize,
    /// Agents shown in the status bar.
    pub active_agents: Vec<AgentStatus>,
    /// The chat panel.
    pub chat_panel: ChatPanel,
    /// The swarm panel.
    pub swarm_panel: SwarmPanel,
    /// The memory panel.
    pub memory_panel: MemoryPanel,
    /// The log panel.
    pub log_panel: LogPanel,
}

impl AppState {
    /// The state is well formed: at least one session, the active one in
    /// range, and the selected agent in range where there are agents.
    pub open spec fn wf(&self) -> bool {
        &&& self.sessions@.len() > 0
        &&& self.active_session < self.sessions@.len()
        &&& self.available_agents@.len() > 0 ==> self.selected_agent_index < self.available_agents@.len()
    }

    /// The messages of the active session.
    pub open spec fn active_messages(&self) -> Seq<Message> {
        self.sessions@[self.active_session as int].messages@
    }
}

fn new_session_value(n: u64) -> (s: Session)
    ensures
        s.name@ == session_name(n as nat),
        s.messages@.len() == 0,
        is_hyphenated_uuid(s.id@),
{
    let mut name = String::new();
    push_str(&mut name, "Session ");
    push_decimal(&mut name, n);
    proof {
        reveal_strlit("Session ");
    }
    Session { id: new_uuid_v4(), name, messages: Vec::new(), created_at: utc_now_millis() }
}

fn default_agent_list() -> (v: Vec<String>)
    ensures
        names(v@) == default_agents(),
{
    let mut v: Vec<String> = Vec::new();
    v.push("coder".to_owned());
    v.push("planner".to_owned());
    v.push("vision".to_owned());
    v.push("fast".to_owned());
    v.push("siyuan-master".to_owned());
    assert(names(v@) =~= default_agents());
    v
}

impl Default for AppState {
    /// Normal mode, one empty session named `Session 1`, the default
    /// agents with the first selected, all panels visible.
    fn default() -> (a: Self)
        ensures
            a.wf(),
            a.input_mode == InputMode::Normal,
            a.input_buffer@.len() == 0,
            !a.should_quit,
            a.active_session == 0,
            names(a.available_agents@) == default_agents(),
            a.selected_agent_index == 0,
            a.panels.swarm && a.panels.cost && a.panels.memory && a.panels.logs,
            a.sessions@.len() == 1,
            a.sessions@[0].name@ == session_name(1),
            a.sessions@[0].messages@.len() == 0,
            a.chat_scroll == 0,
            a.active_agents@.len() == 0,
            a.chat_panel.messages@.len() == 0 && a.chat_panel.scroll_offset == 0 && a.chat_panel.auto_scroll,
            a.swarm_panel.agents@.len() == 0 && a.swarm_panel.tasks_completed == 0,
            a.memory_panel.backend@ == "Qdrant"@ && a.memory_panel.total_memories == 0
                && a.memory_panel.storage_bytes == 0 && a.memory_panel.recent_operations@.len() == 0,
            a.log_panel.log_lines@.len() == 0 && a.log_panel.log_level_filter@ == "INFO"@,
    {
        let mut sessions: Vec<Session> = Vec::new();
        sessions.push(new_session_value(1));
        AppState {
            input_mode: InputMode::Normal,
            input_buffer: String::new(),
            should_quit: false,
            active_session: 0,
            available_agents: default_agent_list(),
            selected_agent_index: 0,
            panels: PanelVisibility::default(),
            sessions,
            chat_scroll: 0,
            active_agents: Vec::new(),
            chat_panel: ChatPanel::new(),
            swarm_panel: SwarmPanel::new(),
            memory_panel: MemoryPanel::new(),
            log_panel: LogPanel::new(),
        }
    }
}

/// The fields other than the sessions, the active session and the scroll
/// are the same in `a` and `b`.
pub open spec fn same_settings(a: AppState, b: AppState) -> bool {
    &&& a.input_mode == b.input_mode
    &&& a.input_buffer@ == b.input_buffer@
    &&& a.should_quit == b.should_quit
    &&& a.available_agents@ == b.available_agents@
    &&& a.selected_agent_index == b.selected_agent_index
    &&& a.panels == b.panels
    &&& a.active_agents@ == b.active_agents@
    &&& a.chat_panel == b.chat_panel
    &&& a.swarm_panel == b.swarm_panel
    &&& a.memory_panel == b.memory_panel
    &&& a.log_panel == b.log_panel
}

/// `b` is `a` with only the sessions, the active session and the scroll
/// possibly changed, and the sessions other than the active one untouched.
pub open spec fn only_active_messages_changed(a: AppState, b: AppState) -> bool {
    &&& same_settings(a, b)
    &&& b.active_session == a.active_session
    &&& b.sessions@.len() == a.sessions@.len()
    &&& forall|i: int| 0 <= i < a.sessions@.len() && i != a.active_session ==> #[trigger] b.sessions@[i] == a.sessions@[i]
    &&& b.sessions@[a.active_session as int].id == a.sessions@[a.active_session as int].id
    &&& b.sessions@[a.active_session as int].name == a.sessions@[a.active_session as int].name
    &&& b.sessions@[a.active_session as int].created_at == a.sessions@[a.active_session as int].created_at
}

impl AppState {
    /// Shows a hidden panel or hides a visible one.
    pub fn toggle_panel(&mut self, panel: PanelType)
        ensures
            *final(self) == (AppState { panels: toggled(old(self).panels, panel), ..*old(self) }),
    {
        match panel {
            PanelType::Swarm => self.panels.swarm = !self.panels.swarm,
            PanelType::Cost => self.panels.cost = !self.panels.cost,
            PanelType::Memory => self.panels.memory = !self.panels.memory,
            PanelType::Logs => self.panels.logs = !self.panels.logs,
        }
    }

    /// Whether `panel` is visible.
    pub fn is_panel_visible(&self, panel: PanelType) -> (r: bool)
        ensures
            r == panel_flag(self.panels, panel),
    {
        match panel {
            PanelType::Swarm => self.panels.swarm,
            PanelType::Cost => self.panels.cost,
            PanelType::Memory => self.panels.memory,
            PanelType::Logs => self.panels.logs,
        }
    }

    /// The selected agent, `coder` where the index is out of range.
    pub fn selected_agent(&self) -> (r: String)
        ensures
            r@ == if self.selected_agent_index < self.available_agents@.len() {
                self.available_agents@[self.selected_agent_index as int]@
            } else {
                "coder"@
            },
    {
        if self.selected_agent_index < self.available_agents.len() {
            self.available_agents[self.selected_agent_index].clone()
        } else {
            "coder".to_owned()
        }
    }

    /// Selects agent `index`, taken modulo the number of agents (nothing
    /// changes where there are none).
    pub fn set_selected_agent(&mut self, index: usize)
        requires
            old(self).wf(),
        ensures
            final(self).wf(),
            final(self).selected_agent_index == if old(self).available_agents@.len() > 0 {
                (index as nat % old(self).available_agents@.len()) as usize
            } else {
                old(self).selected_agent_index
            },
            *final(self) == (AppState { selected_agent_index: final(self).selected_agent_index, ..*old(self) }),
            final(self).available_agents@ == old(self).available_agents@,
            final(self).sessions@ == old(self).sessions@,
            final(self).active_session == old(self).active_session,
    {
        if self.available_agents.len() > 0 {
            self.selected_agent_index = index % self.available_agents.len();
        }
    }

    /// Selects the next agent, the first after the last.
    pub fn next_agent(&mut self)
        requires
            old(self).wf(),
        ensures
            final(self).wf(),
            final(self).selected_agent_index == if old(self).available_agents@.len() > 0 {
                next_index(old(self).selected_agent_index as int, old(self).available_agents@.len() as int) as usize
            } else {
                old(self).selected_agent_index
            },
            *final(self) == (AppState { selected_agent_index: final(self).selected_agent_index, ..*old(self) }),
            final(self).available_agents@ == old(self).available_agents@,
            final(self).sessions@ == old(self).sessions@,
            final(self).active_session == old(self).active_session,
    {
        if self.available_agents.len() > 0 {
            self.selected_agent_index = (self.selected_agent_index + 1) % self.available_agents.len();
        }
    }

    /// Selects the previous agent, the last before the first.
    pub fn prev_agent(&mut self)
        requires
            old(self).wf(),
        ensures
            final(self).wf(),
            final(self).selected_agent_index == if old(self).available_agents@.len() > 0 {
                prev_index(old(self).selected_agent_index as int, old(self).available_agents@.len() as int) as usize
            } else {
                old(self).selected_agent_index
            },
            *final(self) == (AppState { selected_agent_index: final(self).selected_agent_index, ..*old(self) }),
            final(self).available_agents@ == old(self).available_agents@,
            final(self).sessions@ == old(self).sessions@,
            final(self).active_session == old(self).active_session,
    {
        if self.available_agents.len() > 0 {
            self.selected_agent_index = if self.selected_agent_index == 0 {
                self.available_agents.len() - 1
            } else {
                self.selected_agent_index - 1
            };
        }
    }

    /// Opens a new empty session, named after its number, and switches to it.
    pub fn new_session(&mut self)
        requires
            old(self).wf(),
            old(self).sessions@.len() < u64::MAX,
        ensures
            final(self).wf(),
            same_settings(*old(self), *final(self)),
            final(self).sessions@.len() == old(self).sessions@.len() + 1,
            final(self).sessions@.drop_last() == old(self).sessions@,
            final(self).sessions@.last().name@ == session_name(old(self).sessions@.len() + 1),
            final(self).sessions@.last().messages@.len() == 0,
            is_hyphenated_uuid(final(self).sessions@.last().id@),
            final(self).active_session == old(self).sessions@.len(),
            final(self).chat_scroll == 0,
    {
        let n = self.sessions.len() as u64 + 1;
        let s = new_session_value(n);
        self.sessions.push(s);
        self.active_session = self.sessions.len() - 1;
        self.chat_scroll = 0;
        assert(self.sessions@.drop_last() =~= old(self).sessions@);
    }

    /// Closes the active session; where it is the last one, empties it
    /// instead.
    pub fn close_session(&mut self)
        requires
            old(self).wf(),
        ensures
            final(self).wf(),
            same_settings(*old(self), *final(self)),
            final(self).chat_scroll == 0,
            old(self).sessions@.len() > 1 ==> {
                &&& final(self).sessions@ == old(self).sessions@.remove(old(self).active_session as int)
                &&& final(self).active_session == if old(self).active_session < final(self).sessions@.len() {
                    old(self).active_session
                } else {
                    (final(self).sessions@.len() - 1) as usize
                }
            },
            old(self).sessions@.len() == 1 ==> {
                &&& only_active_messages_changed(*old(self), *final(self))
                &&& final(self).active_messages().len() == 0
            },
    {
        if self.sessions.len() > 1 {
            self.sessions.remove(self.active_session);
            if self.active_session >= self.sessions.len() {
                self.active_session = self.sessions.len() - 1;
            }
            self.chat_scroll = 0;
        } else {
            let a = self.active_session;
            let mut s = self.sessions.remove(a);
            s.messages = Vec::new();
            self.sessions.insert(a, s);
            self.chat_scroll = 0;
        }
    }

    /// Switches to the next session, the first after the last.
    pub fn next_session(&mut self)
        requires
            old(self).wf(),
        ensures
            final(self).wf(),
            same_settings(*old(self), *final(self)),
            final(self).sessions@ == old(self).sessions@,
            final(self).active_session == next_index(old(self).active_session as int, old(self).sessions@.len() as int) as usize,
            final(self).chat_scroll == 0,
            *final(self) == (AppState { active_session: final(self).active_session, chat_scroll: 0, ..*old(self) }),
    {
        let n = self.sessions.len();
        self.active_session = (self.active_session + 1) % n;
        self.chat_scroll = 0;
    }

    /// Switches to the previous session, the last before the first.
    pub fn prev_session(&mut self)
        requires
            old(self).wf(),
        ensures
            final(self).wf(),
            same_settings(*old(self), *final(self)),
            final(self).sessions@ == old(self).sessions@,
            final(self).active_session == prev_index(old(self).active_session as int, old(self).sessions@.len() as int) as usize,
            final(self).chat_scroll == 0,
            *final(self) == (AppState { active_session: final(self).active_session, chat_scroll: 0, ..*old(self) }),
    {
        if self.active_session == 0 {
            self.active_session = self.sessions.len() - 1;
        } else {
            self.active_session -= 1;
        }
        self.chat_scroll = 0;
    }

    /// The active session, where the index is in range.
    pub fn current_session(&self) -> (r: Option<&Session>)
        ensures
            r == if self.active_session < self.sessions@.len() {
                Some(&self.sessions@[self.active_session as int])
            } else {
                None
            },
    {
        if self.active_session < self.sessions.len() {
            Some(&self.sessions[self.active_session])
        } else {
            None
        }
    }

    /// The active session, to change in place; none where the index is out
    /// of range. Only that session can change through it.
    pub fn current_session_mut(&mut self) -> (r: Option<&mut Session>)
        ensures
            old(self).active_session < old(self).sessions@.len() ==> {
                &&& r is Some
                &&& *r->0 == old(self).sessions@[old(self).active_session as int]
                &&& *final(self) == (AppState {
                    sessions: final(self).sessions,
                    ..*old(self)
                })
                &&& final(self).sessions@ == old(self).sessions@.update(old(self).active_session as int, *final(r->0))
            },
            old(self).active_session >= old(self).sessions@.len() ==> r is None && *final(self) == *old(self),
    {
        if self.active_session < self.sessions.len() {
            Some(&mut self.sessions[self.active_session])
        } else {
            None
        }
    }

    fn push_message(&mut self, m: Message)
        requires
            old(self).wf(),
        ensures
            final(self).wf(),
            only_active_messages_changed(*old(self), *final(self)),
            final(self).active_messages() == old(self).active_messages().push(m),
            final(self).chat_scroll == old(self).chat_scroll,
    {
        let a = self.active_session;
        let mut s = self.sessions.remove(a);
        s.messages.push(m);
        self.sessions.insert(a, s);
    }

    /// Adds a message of the user to the active session.
    pub fn add_user_message(&mut self, content: String)
        requires
            old(self).wf(),
        ensures
            final(self).wf(),
            only_active_messages_changed(*old(self), *final(self)),
            final(self).active_messages().drop_last() == old(self).active_messages(),
            final(self).active_messages().len() == old(self).active_messages().len() + 1,
            fresh_message(final(self).active_messages().last(), MessageRole::User, content@, None),
            final(self).chat_scroll == old(self).chat_scroll,
    {
        let m = Message {
            id: new_uuid_v4(),
            role: MessageRole::User,
            content,
            model_used: None,
            timestamp: utc_now_millis(),
            token_count: None,
        };
        self.push_message(m);
        assert(self.active_messages().drop_last() =~= old(self).active_messages());
    }

    /// Adds a message of the assistant, written by `model`, to the active
    /// session.
    pub fn add_assistant_message(&mut self, content: String, model: Option<String>)
        requires
            old(self).wf(),
        ensures
            final(self).wf(),
            only_active_messages_changed(*old(self), *final(self)),
            final(self).active_messages().drop_last() == old(self).active_messages(),
            final(self).active_messages().len() == old(self).active_messages().len() + 1,
            fresh_message(
                final(self).active_messages().last(),
                MessageRole::Assistant,
                content@,
                match model { Some(m) => Some(m@), None => None },
            ),
            final(self).chat_scroll == old(self).chat_scroll,
    {
        let m = Message {
            id: new_uuid_v4(),
            role: MessageRole::Assistant,
            content,
            model_used: model,
            timestamp: utc_now_millis(),
            token_count: None,
        };
        self.push_message(m);
        assert(self.active_messages().drop_last() =~= old(self).active_messages());
    }

    /// Scrolls the chat one message up, no further than its length.
    pub fn scroll_up(&mut self)
        requires
            old(self).wf(),
        ensures
            final(self).wf(),
            same_settings(*old(self), *final(self)),
            final(self).sessions@ == old(self).sessions@,
            final(self).active_session == old(self).active_session,
            final(self).chat_scroll == if old(self).chat_scroll < old(self).active_messages().len() {
                old(self).chat_scroll + 1
            } else {
                old(self).chat_scroll as int
            },
            *final(self) == (AppState { chat_scroll: final(self).chat_scroll, ..*old(self) }),
    {
        if self.chat_scroll < self.sessions[self.active_session].messages.len() {
            self.chat_scroll = self.chat_scroll + 1;
        }
    }

    /// Scrolls the chat one message down, no further than the newest.
    pub fn scroll_down(&mut self)
        ensures
            final(self).sessions@ == old(self).sessions@,
            final(self).active_session == old(self).active_session,
            same_settings(*old(self), *final(self)),
            final(self).chat_scroll == if old(self).chat_scroll > 0 { old(self).chat_scroll - 1 } else { 0 },
            *final(self) == (AppState { chat_scroll: final(self).chat_scroll, ..*old(self) }),
    {
        if self.chat_scroll > 0 {
            self.chat_scroll = self.chat_scroll - 1;
        }
    }
}

/// `ms` milliseconds before `now`, or the earliest time where that is out of
/// range.
pub open spec fn ago(now: i64, ms: i64) -> i64 {
    if now >= i64::MIN + ms {
        (now - ms) as i64
    } else {
        i64::MIN
    }
}

fn ago_exec(now: i64, ms: i64) -> (r: i64)
    requires
        0 <= ms,
    ensures
        r == ago(now, ms),
{
    if now >= i64::MIN + ms {
        now - ms
    } else {
        i64::MIN
    }
}

/// The chat panel.
#[derive(Debug, Clone)]
pub struct ChatPanel {
    pub messages: Vec<Message>,
    pub scroll_offset: usize,
    pub auto_scroll: bool,
}

/// A message of the demo chat, given whole.
pub open spec fn demo_message(
    m: Message,
    id: Seq<char>,
    role: MessageRole,
    content: Seq<char>,
    model: Option<Seq<char>>,
    timestamp: i64,
    tokens: usize,
) -> bool {
    &&& m.id@ == id
    &&& m.role == role
    &&& m.content@ == content
    &&& match (m.model_used, model) {
        (Some(a), Some(b)) => a@ == b,
        (None, None) => true,
        _ => false,
    }
    &&& m.timestamp == timestamp
    &&& m.token_count == Some(tokens)
}

/// The demo question.
pub open spec fn demo_question() -> Seq<char> {
    "Analyze the performance data from the last 24 hours"@
}

/// The demo answer.
pub open spec fn demo_answer() -> Seq<char> {
    "I'll analyze the performance metrics. Looking at the data from the last 24 hours, I can see several key trends:\n\n1. API response times have improved by 15%\n2. Error rates decreased from 2.1% to 0.8%\n3. Throughput increased to 120 requests/minute\n\nWould you like me to dive deeper into any specific metric?"@
}

impl ChatPanel {
    /// An empty panel that follows new messages.
    pub fn new() -> (p: Self)
        ensures
            p.messages@.len() == 0,
            p.scroll_offset == 0,
            p.auto_scroll,
    {
        ChatPanel { messages: Vec::new(), scroll_offset: 0, auto_scroll: true }
    }

    /// Fills the panel with a demo exchange, dated 5 and 4 minutes before
    /// `now` (Unix milliseconds).
    pub fn add_demo_messages_at(&mut self, now: i64)
        ensures
            final(self).scroll_offset == old(self).scroll_offset,
            final(self).auto_scroll == old(self).auto_scroll,
            final(self).messages@.len() == 2,
            demo_message(final(self).messages@[0], "1"@, MessageRole::User, demo_question(), None, ago(now, 300_000), 150),
            demo_message(
                final(self).messages@[1],
                "2"@,
                MessageRole::Assistant,
                demo_answer(),
                Some("gpt-4"@),
                ago(now, 240_000),
                342,
            ),
    {
        let mut v: Vec<Message> = Vec::new();
        v.push(Message {
            id: "1".to_owned(),
            role: MessageRole::User,
            content: "Analyze the performance data from the last 24 hours".to_owned(),
            model_used: None,
            timestamp: ago_exec(now, 300_000),
            token_count: Some(150),
        });
        v.push(Message {
            id: "2".to_owned(),
            role: MessageRole::Assistant,
            content: "I'll analyze the performance metrics. Looking at the data from the last 24 hours, I can see several key trends:\n\n1. API response times have improved by 15%\n2. Error rates decreased from 2.1% to 0.8%\n3. Throughput increased to 120 requests/minute\n\nWould you like me to dive deeper into any specific metric?".to_owned(),
            model_used: Some("gpt-4".to_owned()),
            timestamp: ago_exec(now, 240_000),
            token_count: Some(342),
        });
        self.messages = v;
    }

    /// Fills the panel with a demo exchange, dated 5 and 4 minutes ago.
    pub fn add_demo_messages(&mut self)
        ensures
            exists|now: i64| {
                &&& final(self).messages@.len() == 2
                &&& demo_message(final(self).messages@[0], "1"@, MessageRole::User, demo_question(), None, ago(now, 300_000), 150)
                &&& demo_message(
                    final(self).messages@[1],
                    "2"@,
                    MessageRole::Assistant,
                    demo_answer(),
                    Some("gpt-4"@),
                    ago(now, 240_000),
                    342,
                )
            },
            final(self).scroll_offset == old(self).scroll_offset,
            final(self).auto_scroll == old(self).auto_scroll,
    {
        let now = utc_now_millis();
        self.add_demo_messages_at(now);
    }
}

/// The swarm panel. Its throughput, a rate in tasks per minute, is kept by
/// the caller.
#[derive(Debug, Clone)]
pub struct SwarmPanel {
    pub agents: Vec<AgentInfo>,
    pub tasks_completed: usize,
}

/// An agent of the demo swarm, given whole.
pub open spec fn demo_agent(
    a: AgentInfo,
    id: Seq<char>,
    name: Seq<char>,
    role: Seq<char>,
    model: Seq<char>,
    task: Option<Seq<char>>,
    progress: u8,
    status: AgentState,
    created_at: i64,
) -> bool {
    &&& a.id@ == id
    &&& a.name@ == name
    &&& a.role@ == role
    &&& a.model@ == model
    &&& match (a.current_task, task) {
        (Some(x), Some(y)) => x@ == y,
        (None, None) => true,
        _ => false,
    }
    &&& a.progress == progress
    &&& a.status == status
    &&& a.created_at == created_at
}

/// An agent after one demo tick: a running agent gains 5 points of
/// progress and is done at 100; others stay as they are.
pub open spec fn advanced(before: AgentInfo, after: AgentInfo) -> bool {
    &&& after.id == before.id
    &&& after.name == before.name
    &&& after.role == before.role
    &&& after.model == before.model
    &&& after.current_task == before.current_task
    &&& after.created_at == before.created_at
    &&& if before.status == AgentState::Running {
        if before.progress + 5 >= 100 {
            after.progress == 100 && after.status == AgentState::Done
        } else {
            after.progress == before.progress + 5 && after.status == AgentState::Running
        }
    } else {
        after.progress == before.progress && after.status == before.status
    }
}

fn advance_agent(a: &AgentInfo) -> (r: AgentInfo)
    ensures
        advanced(*a, r),
{
    let mut progress = a.progress;
    let mut status = a.status;
    if a.status == AgentState::Running {
        progress = a.progress.saturating_add(5);
        if progress >= 100 {
            progress = 100;
            status = AgentState::Done;
        }
    }
    AgentInfo {
        id: a.id.clone(),
        name: a.name.clone(),
        role: a.role.clone(),
        model: a.model.clone(),
        current_task: a.current_task.clone(),
        progress,
        status,
        created_at: a.created_at,
    }
}

impl SwarmPanel {
    /// An empty panel.
    pub fn new() -> (p: Self)
        ensures
            p.agents@.len() == 0,
            p.tasks_completed == 0,
    {
        SwarmPanel { agents: Vec::new(), tasks_completed: 0 }
    }

    /// Fills the panel with two demo agents, created 10 and 15 minutes
    /// before `now`, and 12 tasks done.
    pub fn add_demo_agents_at(&mut self, now: i64)
        ensures
            final(self).agents@.len() == 2,
            demo_agent(
                final(self).agents@[0],
                "agent-001"@,
                "Data Analyzer"@,
                "executor"@,
                "gpt-4"@,
                Some("Performance analysis"@),
                75,
                AgentState::Running,
                ago(now, 600_000),
            ),
            demo_agent(
                final(self).agents@[1],
                "agent-002"@,
                "Code Inspector"@,
                "inspector"@,
                "inspector-3"@,
                None,
                0,
                AgentState::Idle,
                ago(now, 900_000),
            ),
            final(self).tasks_completed == 12,
    {
        let mut v: Vec<AgentInfo> = Vec::new();
        v.push(AgentInfo {
            id: "agent-001".to_owned(),
            name: "Data Analyzer".to_owned(),
            role: "executor".to_owned(),
            model: "gpt-4".to_owned(),
            current_task: Some("Performance analysis".to_owned()),
            progress: 75,
            status: AgentState::Running,
            created_at: ago_exec(now, 600_000),
        });
        v.push(AgentInfo {
            id: "agent-002".to_owned(),
            name: "Code Inspector".to_owned(),
            role: "inspector".to_owned(),
            model: "inspector-3".to_owned(),
            current_task: None,
            progress: 0,
            status: AgentState::Idle,
            created_at: ago_exec(now, 900_000),
        });
        self.agents = v;
        self.tasks_completed = 12;
    }

    /// Fills the panel with two demo agents, created 10 and 15 minutes ago,
    /// and 12 tasks done.
    pub fn add_demo_agents(&mut self)
        ensures
            exists|now: i64| {
                &&& final(self).agents@.len() == 2
                &&& demo_agent(
                    final(self).agents@[0],
                    "agent-001"@,
                    "Data Analyzer"@,
                    "executor"@,
                    "gpt-4"@,
                    Some("Performance analysis"@),
                    75,
                    AgentState::Running,
                    ago(now, 600_000),
                )
                &&& demo_agent(
                    final(self).agents@[1],
                    "agent-002"@,
                    "Code Inspector"@,
                    "inspector"@,
                    "inspector-3"@,
                    None,
                    0,
                    AgentState::Idle,
                    ago(now, 900_000),
                )
            },
            final(self).tasks_completed == 12,
    {
        let now = utc_now_millis();
        self.add_demo_agents_at(now);
    }

    /// One demo tick: every running agent advances, and one more task is
    /// done (counting stops at the largest count).
    pub fn advance_demo(&mut self)
        ensures
            final(self).agents@.len() == old(self).agents@.len(),
            forall|i: int| 0 <= i < old(self).agents@.len() ==> advanced(old(self).agents@[i], #[trigger] final(self).agents@[i]),
            final(self).tasks_completed == if old(self).tasks_completed < usize::MAX {
                (old(self).tasks_completed + 1) as usize
            } else {
                usize::MAX
            },
    {
        let mut out: Vec<AgentInfo> = Vec::new();
        let mut i: usize = 0;
        while i < self.agents.len()
            invariant
                i <= self.agents@.len(),
                self.agents@ == old(self).agents@,
                out@.len() == i,
                forall|k: int| 0 <= k < i ==> advanced(self.agents@[k], #[trigger] out@[k]),
            decreases self.agents.len() - i,
        {
            out.push(advance_agent(&self.agents[i]));
            i += 1;
        }
        self.agents = out;
        self.tasks_completed = self.tasks_completed.saturating_add(1);
    }
}

/// The memory panel.
#[derive(Debug, Clone)]
pub struct MemoryPanel {
    pub backend: String,
    pub total_memories: usize,
    pub storage_bytes: u64,
    pub recent_operations: Vec<MemoryOperation>,
}

/// A memory operation of the demo, given whole.
pub open spec fn demo_operation(o: MemoryOperation, op: MemoryOpType, key: Seq<char>, timestamp: i64) -> bool {
    &&& o.op_type == op
    &&& o.key matches Some(k) && k@ == key
    &&& o.success
    &&& o.timestamp == timestamp
}

impl MemoryPanel {
    /// An empty panel for the Qdrant backend.
    pub fn new() -> (p: Self)
        ensures
            p.backend@ == "Qdrant"@,
            p.total_memories == 0,
            p.storage_bytes == 0,
            p.recent_operations@.len() == 0,
    {
        MemoryPanel { backend: "Qdrant".to_owned(), total_memories: 0, storage_bytes: 0, recent_operations: Vec::new() }
    }

    /// Fills the panel with demo figures and three operations, 1, 2 and 3
    /// minutes before `now`.
    pub fn add_demo_operations_at(&mut self, now: i64)
        ensures
            final(self).backend == old(self).backend,
            final(self).total_memories == 1247,
            final(self).storage_bytes == 5_242_880,
            final(self).recent_operations@.len() == 3,
            demo_operation(final(self).recent_operations@[0], MemoryOpType::Store, "user_context_123"@, ago(now, 60_000)),
            demo_operation(final(self).recent_operations@[1], MemoryOpType::Recall, "performance_data"@, ago(now, 120_000)),
            demo_operation(final(self).recent_operations@[2], MemoryOpType::Delete, "cache_old"@, ago(now, 180_000)),
    {
        self.total_memories = 1247;
        self.storage_bytes = 5_242_880;
        let mut v: Vec<MemoryOperation> = Vec::new();
        v.push(MemoryOperation {
            op_type: MemoryOpType::Store,
            key: Some("user_context_123".to_owned()),
            success: true,
            timestamp: ago_exec(now, 60_000),
        });
        v.push(MemoryOperation {
            op_type: MemoryOpType::Recall,
            key: Some("performance_data".to_owned()),
            success: true,
            timestamp: ago_exec(now, 120_000),
        });
        v.push(MemoryOperation {
            op_type: MemoryOpType::Delete,
            key: Some("cache_old".to_owned()),
            success: true,
            timestamp: ago_exec(now, 180_000),
        });
        self.recent_operations = v;
    }

    /// Fills the panel with demo figures and three operations, 1, 2 and 3
    /// minutes ago.
    pub fn add_demo_operations(&mut self)
        ensures
            final(self).backend == old(self).backend,
            final(self).total_memories == 1247,
            final(self).storage_bytes == 5_242_880,
            exists|now: i64| {
                &&& final(self).recent_operations@.len() == 3
                &&& demo_operation(final(self).recent_operations@[0], MemoryOpType::Store, "user_context_123"@, ago(now, 60_000))
                &&& demo_operation(final(self).recent_operations@[1], MemoryOpType::Recall, "performance_data"@, ago(now, 120_000))
                &&& demo_operation(final(self).recent_operations@[2], MemoryOpType::Delete, "cache_old"@, ago(now, 180_000))
            },
    {
        let now = utc_now_millis();
        self.add_demo_operations_at(now);
    }
}

/// The log panel.
#[derive(Debug, Clone)]
pub struct LogPanel {
    /// Lines, oldest first.
    pub log_lines: Vec<LogLine>,
    /// The level shown.
    pub log_level_filter: String,
}

/// A line of the demo log, given whole.
pub open spec fn demo_line(l: LogLine, level: LogLevel, message: Seq<char>, module: Seq<char>, timestamp: i64) -> bool {
    &&& l.level == level
    &&& l.message@ == message
    &&& l.module matches Some(m) && m@ == module
    &&& l.timestamp == timestamp
}

impl LogPanel {
    /// An empty panel showing `INFO`.
    pub fn new() -> (p: Self)
        ensures
            p.log_lines@.len() == 0,
            p.log_level_filter@ == "INFO"@,
    {
        LogPanel { log_lines: Vec::new(), log_level_filter: "INFO".to_owned() }
    }

    /// Fills the panel with three demo lines, 1 minute, 1 minute and 30
    /// seconds before `now`.
    pub fn add_demo_logs_at(&mut self, now: i64)
        ensures
            final(self).log_level_filter == old(self).log_level_filter,
            final(self).log_lines@.len() == 3,
            demo_line(final(self).log_lines@[0], LogLevel::Info, "Starting agent iteration"@, "agent::loop"@, ago(now, 60_000)),
            demo_line(
                final(self).log_lines@[1],
                LogLevel::Debug,
                "Received TaskAssignment from planner"@,
                "agent::a2a"@,
                ago(now, 60_000),
            ),
            demo_line(
                final(self).log_lines@[2],
                LogLevel::Warn,
                "Rate limit approaching (85%)"@,
                "provider::openai"@,
                ago(now, 30_000),
            ),
    {
        let mut v: Vec<LogLine> = Vec::new();
        v.push(LogLine {
            level: LogLevel::Info,
            message: "Starting agent iteration".to_owned(),
            module: Some("agent::loop".to_owned()),
            timestamp: ago_exec(now, 60_000),
        });
        v.push(LogLine {
            level: LogLevel::Debug,
            message: "Received TaskAssignment from planner".to_owned(),
            module: Some("agent::a2a".to_owned()),
            timestamp: ago_exec(now, 60_000),
        });
        v.push(LogLine {
            level: LogLevel::Warn,
            message: "Rate limit approaching (85%)".to_owned(),
            module: Some("provider::openai".to_owned()),
            timestamp: ago_exec(now, 30_000),
        });
        self.log_lines = v;
    }

    /// Fills the panel with three demo lines, 1 minute, 1 minute and 30
    /// seconds ago.
    pub fn add_demo_logs(&mut self)
        ensures
            final(self).log_level_filter == old(self).log_level_filter,
            exists|now: i64| {
                &&& final(self).log_lines@.len() == 3
                &&& demo_line(final(self).log_lines@[0], LogLevel::Info, "Starting agent iteration"@, "agent::loop"@, ago(now, 60_000))
                &&& demo_line(
                    final(self).log_lines@[1],
                    LogLevel::Debug,
                    "Received TaskAssignment from planner"@,
                    "agent::a2a"@,
                    ago(now, 60_000),
                )
                &&& demo_line(
                    final(self).log_lines@[2],
                    LogLevel::Warn,
                    "Rate limit approaching (85%)"@,
                    "provider::openai"@,
                    ago(now, 30_000),
                )
            },
    {
        let now = utc_now_millis();
        self.add_demo_logs_at(now);
    }
}

impl AppState {
    /// The state of `default`, with the demo data in the chat, swarm, memory
    /// and log panels.
    pub fn new_demo() -> (a: Self)
        ensures
            a.wf(),
            a.input_mode == InputMode::Normal,
            a.input_buffer@.len() == 0,
            !a.should_quit,
            a.active_session == 0,
            names(a.available_agents@) == default_agents(),
            a.selected_agent_index == 0,
            a.panels.swarm && a.panels.cost && a.panels.memory && a.panels.logs,
            a.sessions@.len() == 1,
            a.sessions@[0].name@ == session_name(1),
            a.sessions@[0].messages@.len() == 0,
            a.chat_scroll == 0,
            a.active_agents@.len() == 0,
            a.chat_panel.messages@.len() == 2 && a.chat_panel.scroll_offset == 0 && a.chat_panel.auto_scroll,
            a.swarm_panel.agents@.len() == 2 && a.swarm_panel.tasks_completed == 12,
            a.memory_panel.backend@ == "Qdrant"@ && a.memory_panel.total_memories == 1247
                && a.memory_panel.storage_bytes == 5_242_880 && a.memory_panel.recent_operations@.len() == 3,
            a.log_panel.log_lines@.len() == 3 && a.log_panel.log_level_filter@ == "INFO"@,
    {
        let mut a = AppState::default();
        a.chat_panel.add_demo_messages();
        a.swarm_panel.add_demo_agents();
        a.memory_panel.add_demo_operations();
        a.log_panel.add_demo_logs();
        a
    }
}

/// Toggling a panel twice leaves the panels as they were.
pub proof fn lemma_toggle_twice(p: PanelVisibility, panel: PanelType)
    ensures
        toggled(toggled(p, panel), panel) == p,
        panel_flag(toggled(p, panel), panel) == !panel_flag(p, panel),
{
}

/// Stepping forward then back (or back then forward) among `n` agents or
/// sessions returns to where one was, and both steps stay in range.
pub proof fn lemma_next_prev_inverse(i: int, n: int)
    requires
        0 <= i < n,
    ensures
        0 <= next_index(i, n) < n,
        0 <= prev_index(i, n) < n,
        prev_index(next_index(i, n), n) == i,
        next_index(prev_index(i, n), n) == i,
{
    if i + 1 < n {
        vstd::arithmetic::div_mod::lemma_small_mod((i + 1) as nat, n as nat);
    } else {
        vstd::arithmetic::div_mod::lemma_mod_self_0(n);
    }
    if i == 0 {
        vstd::arithmetic::div_mod::lemma_mod_self_0(n);
    } else {
        vstd::arithmetic::div_mod::lemma_small_mod(i as nat, n as nat);
    }
}

/// What command `command` does to the state `a`, giving `b`: `q`/`quit`
/// sets the quit flag, `new` opens a new empty session and switches to it,
/// `clear` empties the active session's messages; any other leaves the state
/// as it is.
pub open spec fn command_effect(a: AppState, b: AppState, command: Seq<char>) -> bool {
    let w = command_word(command);
    if w == "q"@ || w == "quit"@ {
        b == (AppState { should_quit: true, ..a })
    } else if w == "new"@ {
        &&& same_settings(a, b)
        &&& b.sessions@.len() == a.sessions@.len() + 1
        &&& b.sessions@.drop_last() == a.sessions@
        &&& b.sessions@.last().name@ == session_name(a.sessions@.len() + 1)
        &&& b.sessions@.last().messages@.len() == 0
        &&& b.active_session == a.sessions@.len()
        &&& b.chat_scroll == 0
    } else if w == "clear"@ {
        &&& only_active_messages_changed(a, b)
        &&& b.active_messages().len() == 0
        &&& b.chat_scroll == a.chat_scroll
    } else {
        b == a
    }
}

/// What a `:` command answers: the message shown and whether the input is
/// cleared; none for `test`, whose answer is the diagnostics report.
pub open spec fn command_reply(word: Seq<char>, command: Seq<char>) -> Option<(Seq<char>, bool)> {
    if word == "q"@ || word == "quit"@ {
        Some(("Quitting..."@, true))
    } else if word == "h"@ || word == "help"@ {
        Some(("ZeroClaw TUI help: press '?' to see key bindings."@, true))
    } else if word == "new"@ {
        Some(("New session created."@, true))
    } else if word == "clear"@ {
        Some(("Session cleared."@, true))
    } else if word == "test"@ {
        None
    } else {
        Some(("Unknown command: "@ + command, false))
    }
}

fn first_word_exec(s: &[char]) -> (r: Vec<char>)
    ensures
        r@ == first_word(s@),
{
    let mut i: usize = 0;
    assert(s@.subrange(0, s@.len() as int) =~= s@);
    while i < s.len() && is_ws_exec(s[i])
        invariant
            0 <= i <= s.len(),
            trim_start(s@) == trim_start(s@.subrange(i as int, s@.len() as int)),
        decreases s.len() - i,
    {
        proof {
            let t = s@.subrange(i as int, s@.len() as int);
            assert(t.drop_first() =~= s@.subrange(i + 1, s@.len() as int));
        }
        i += 1;
    }
    let ghost t = s@.subrange(i as int, s@.len() as int);
    assert(trim_start(t) == t);
    let start = i;
    let mut r: Vec<char> = Vec::new();
    while i < s.len() && !is_ws_exec(s[i])
        invariant
            start <= i <= s.len(),
            t == s@.subrange(start as int, s@.len() as int),
            r@ == t.take(i - start),
            word_end(t) == (i - start) + word_end(s@.subrange(i as int, s@.len() as int)),
        decreases s.len() - i,
    {
        proof {
            let u = s@.subrange(i as int, s@.len() as int);
            assert(u.drop_first() =~= s@.subrange(i + 1, s@.len() as int));
            assert(t.take(i - start + 1) =~= t.take(i - start).push(s@[i as int]));
        }
        r.push(s[i]);
        i += 1;
    }
    proof {
        let u = s@.subrange(i as int, s@.len() as int);
        assert(word_end(u) == 0);
    }
    r
}

impl AppState {
    /// Runs a `:` command. Returns the message to show and whether to clear
    /// the input; `None` for `test`, which asks for the diagnostics report
    /// (the caller runs it and shows it, clearing the input).
    pub fn execute_command(&mut self, command: &str) -> (r: Option<(String, bool)>)
        requires
            old(self).wf(),
            old(self).sessions@.len() < u64::MAX,
        ensures
            final(self).wf(),
            match (r, command_reply(command_word(command@), command@)) {
                (Some((out, clear)), Some((eout, eclear))) => out@ == eout && clear == eclear,
                (None, None) => true,
                _ => false,
            },
            command_effect(*old(self), *final(self), command@),
    {
        let chars = chars_of(command);
        let trimmed = trim_exec(chars.as_slice());
        let ts = string_of(trimmed.as_slice());
        let lower = to_lowercase(ts.as_str());
        let lc = chars_of(lower.as_str());
        let w = first_word_exec(lc.as_slice());
        let word = string_of(w.as_slice());
        let ws = word.as_str();
        proof {
            reveal_strlit("q");
            reveal_strlit("quit");
            reveal_strlit("h");
            reveal_strlit("help");
            reveal_strlit("new");
            reveal_strlit("clear");
            reveal_strlit("test");
        }
        assert(ws@ == command_word(command@));
        if eq_str(ws, "q") || eq_str(ws, "quit") {
            self.should_quit = true;
            Some(("Quitting...".to_owned(), true))
        } else if eq_str(ws, "h") || eq_str(ws, "help") {
            Some(("ZeroClaw TUI help: press '?' to see key bindings.".to_owned(), true))
        } else if eq_str(ws, "new") {
            self.new_session();
            Some(("New session created.".to_owned(), true))
        } else if eq_str(ws, "clear") {
            let m: Vec<Message> = Vec::new();
            let a = self.active_session;
            let mut s = self.sessions.remove(a);
            s.messages = m;
            self.sessions.insert(a, s);
            Some(("Session cleared.".to_owned(), true))
        } else if eq_str(ws, "test") {
            None
        } else {
            let mut out = String::new();
            push_str(&mut out, "Unknown command: ");
            push_str(&mut out, command);
            Some((out, false))
        }
    }
}

} // verus!
