//! What the TUI does with an event once a key has been mapped to it: the
//! state changes, and what is left for the caller (a message to send to an
//! agent, the diagnostics to run).
use vstd::prelude::*;
use crate::clock::{is_hyphenated_uuid, new_uuid_v4};
use crate::text::{chars_of, push_char, push_str, slice_chars, string_of};
use crate::tui::state::{
    command_effect, command_reply, command_word, fresh_message, next_index, only_active_messages_changed, prev_index, same_settings, session_name, toggled,
    AgentStatus, AppState, InputMode, MessageRole, PanelType,
};
use crate::tui::subsystems::AgentStatus as AgentState;

verus! {

/// An event of the TUI.
#[derive(Debug, Clone, Copy, PartialEq, Eq, Structural)]
pub enum AppEvent {
    Quit,
    NewSession,
    CloseSession,
    NextSession,
    PrevSession,
    /// Normal mode to insert mode; insert or command mode back to normal.
    ToggleInputMode,
    /// Send the text typed.
    SendMessage,
    /// A character typed.
    CharInput(char),
    Backspace,
    /// Start a new subagent.
    SpawnAgent,
    ScrollUp,
    ScrollDown,
    /// Run the diagnostics.
    RunTest,
    /// Shown by the caller; nothing changes here.
    Help,
    ToggleSwarmPanel,
    ToggleCostPanel,
    ToggleMemoryPanel,
    ToggleLogsPanel,
    NextAgent,
    PrevAgent,
    /// Select the agent at this index.
    SelectAgent(usize),
}

/// What is left for the caller after an event.
#[derive(Debug, Clone, PartialEq, Eq)]
pub enum EventFollowUp {
    /// Nothing.
    Nothing,
    /// Send `message` to the agent `agent` in session `session_id`, and hand
    /// the answer to `receive_agent_reply`.
    SendToAgent { session_id: String, message: String, agent: String },
    /// Run the diagnostics and add their report as a message from `system`.
    RunDiagnostic,
}

/// The agent messages go to: the selected one, `coder` where the index is
/// out of range.
pub open spec fn selected_agent_name(a: AppState) -> Seq<char> {
    if a.selected_agent_index < a.available_agents@.len() {
        a.available_agents@[a.selected_agent_index as int]@
    } else {
        "coder"@
    }
}

/// The answer shown in demo mode to `message` sent to `agent`.
pub open spec fn demo_echo(agent: Seq<char>, message: Seq<char>) -> Seq<char> {
    "[Demo Mode] Received via '"@ + agent + "': "@ + message
}

/// The input mode after a toggle: normal to insert, all else to normal.
pub open spec fn toggled_mode(m: InputMode) -> InputMode {
    match m {
        InputMode::Normal => InputMode::Insert,
        _ => InputMode::Normal,
    }
}

/// The index of the selected agent after `index` is chosen among `n`.
pub open spec fn chosen_agent(current: usize, index: usize, n: nat) -> usize {
    if n > 0 {
        (index as nat % n) as usize
    } else {
        current
    }
}

/// The index of the selected agent after a step forward or back among `n`.
pub open spec fn stepped_agent(current: usize, n: nat, forward: bool) -> usize {
    if n > 0 {
        if forward {
            next_index(current as int, n as int) as usize
        } else {
            prev_index(current as int, n as int) as usize
        }
    } else {
        current
    }
}

/// `b`'s active session is `a`'s with `added` messages put after the old
/// ones; the other sessions and the settings are `a`'s but for the input
/// buffer, and the scroll is kept.
pub open spec fn messages_added(a: AppState, b: AppState, added: nat) -> bool {
    let n = a.active_messages().len();
    &&& only_active_messages_changed(AppState { input_buffer: b.input_buffer, active_agents: b.active_agents, ..a }, b)
    &&& b.chat_scroll == a.chat_scroll
    &&& b.active_messages().len() == n + added
    &&& b.active_messages().take(n as int) == a.active_messages()
}

/// What an event does to the state `a`, giving `b` and leaving `out` to the
/// caller; `demo` is demo mode, where messages are answered locally.
pub open spec fn event_effect(a: AppState, b: AppState, e: AppEvent, demo: bool, out: EventFollowUp) -> bool {
    let n = a.active_messages().len();
    &&& b.wf()
    &&& match e {
        AppEvent::SendMessage => if a.input_buffer@.len() > 0 && !demo {
            out matches EventFollowUp::SendToAgent { session_id, message, agent }
                && session_id@ == a.sessions@[a.active_session as int].id@
                && message@ == a.input_buffer@
                && agent@ == selected_agent_name(a)
        } else {
            out is Nothing
        },
        AppEvent::RunTest => out is RunDiagnostic,
        _ => out is Nothing,
    }
    &&& match e {
        AppEvent::Quit => b == AppState { should_quit: true, ..a },
        AppEvent::NewSession => {
            &&& same_settings(a, b)
            &&& b.sessions@.len() == a.sessions@.len() + 1
            &&& b.sessions@.drop_last() == a.sessions@
            &&& b.sessions@.last().name@ == session_name(a.sessions@.len() + 1)
            &&& b.sessions@.last().messages@.len() == 0
            &&& is_hyphenated_uuid(b.sessions@.last().id@)
            &&& b.active_session == a.sessions@.len()
            &&& b.chat_scroll == 0
        },
        AppEvent::CloseSession => {
            &&& same_settings(a, b)
            &&& b.chat_scroll == 0
            &&& a.sessions@.len() > 1 ==> {
                &&& b.sessions@ == a.sessions@.remove(a.active_session as int)
                &&& b.active_session == if a.active_session < b.sessions@.len() {
                    a.active_session
                } else {
                    (b.sessions@.len() - 1) as usize
                }
            }
            &&& a.sessions@.len() == 1 ==> {
                &&& only_active_messages_changed(a, b)
                &&& b.active_messages().len() == 0
            }
        },
        AppEvent::NextSession => b == AppState {
            active_session: next_index(a.active_session as int, a.sessions@.len() as int) as usize,
            chat_scroll: 0,
            ..a
        },
        AppEvent::PrevSession => b == AppState {
            active_session: prev_index(a.active_session as int, a.sessions@.len() as int) as usize,
            chat_scroll: 0,
            ..a
        },
        AppEvent::ToggleInputMode => b == AppState { input_mode: toggled_mode(a.input_mode), ..a },
        AppEvent::SendMessage => if a.input_buffer@.len() == 0 {
            b == a
        } else {
            &&& b.input_buffer@.len() == 0
            &&& b.active_agents@ == a.active_agents@
            &&& messages_added(a, b, if demo { 2 } else { 1 })
            &&& fresh_message(b.active_messages()[n as int], MessageRole::User, a.input_buffer@, None)
            &&& demo ==> fresh_message(
                b.active_messages()[n + 1int],
                MessageRole::Assistant,
                demo_echo(selected_agent_name(a), a.input_buffer@),
                Some("demo-"@ + selected_agent_name(a)),
            )
        },
        AppEvent::CharInput(c) => {
            &&& b.input_buffer@ == a.input_buffer@.push(c)
            &&& b == AppState { input_buffer: b.input_buffer, ..a }
        },
        AppEvent::Backspace => {
            &&& b.input_buffer@ == if a.input_buffer@.len() == 0 {
                a.input_buffer@
            } else {
                a.input_buffer@.drop_last()
            }
            &&& b == AppState { input_buffer: b.input_buffer, ..a }
        },
        AppEvent::SpawnAgent => {
            &&& b.input_buffer@ == a.input_buffer@
            &&& messages_added(a, b, 1)
            &&& fresh_message(
                b.active_messages()[n as int],
                MessageRole::Assistant,
                "[Info] Spawning new subagent..."@,
                Some("system"@),
            )
            &&& b.active_agents@.len() == a.active_agents@.len() + 1
            &&& b.active_agents@.drop_last() == a.active_agents@
            &&& is_hyphenated_uuid(b.active_agents@.last().id@)
            &&& b.active_agents@.last().name@ == "New Agent"@
            &&& b.active_agents@.last().model@ == "gpt-4-turbo"@
            &&& b.active_agents@.last().progress == 0
            &&& b.active_agents@.last().status == AgentState::Running
        },
        AppEvent::ScrollUp => b == AppState {
            chat_scroll: if a.chat_scroll < n {
                (a.chat_scroll + 1) as usize
            } else {
                a.chat_scroll
            },
            ..a
        },
        AppEvent::ScrollDown => b == AppState {
            chat_scroll: if a.chat_scroll > 0 {
                (a.chat_scroll - 1) as usize
            } else {
                0
            },
            ..a
        },
        AppEvent::RunTest => b == a,
        AppEvent::Help => b == a,
        AppEvent::ToggleSwarmPanel => b == AppState { panels: toggled(a.panels, PanelType::Swarm), ..a },
        AppEvent::ToggleCostPanel => b == AppState { panels: toggled(a.panels, PanelType::Cost), ..a },
        AppEvent::ToggleMemoryPanel => b == AppState { panels: toggled(a.panels, PanelType::Memory), ..a },
        AppEvent::ToggleLogsPanel => b == AppState { panels: toggled(a.panels, PanelType::Logs), ..a },
        AppEvent::NextAgent => b == AppState {
            selected_agent_index: stepped_agent(a.selected_agent_index, a.available_agents@.len(), true),
            ..a
        },
        AppEvent::PrevAgent => b == AppState {
            selected_agent_index: stepped_agent(a.selected_agent_index, a.available_agents@.len(), false),
            ..a
        },
        AppEvent::SelectAgent(i) => b == AppState {
            selected_agent_index: chosen_agent(a.selected_agent_index, i, a.available_agents@.len()),
            ..a
        },
    }
}

impl AppState {
    fn pop_input(&mut self)
        ensures
            final(self).input_buffer@ == if old(self).input_buffer@.len() == 0 {
                old(self).input_buffer@
            } else {
                old(self).input_buffer@.drop_last()
            },
            *final(self) == (AppState { input_buffer: final(self).input_buffer, ..*old(self) }),
    {
        let cs = chars_of(self.input_buffer.as_str());
        if cs.len() > 0 {
            let kept = slice_chars(cs.as_slice(), 0, cs.len() - 1);
            self.input_buffer = string_of(kept.as_slice());
            assert(kept@ =~= old(self).input_buffer@.drop_last());
        }
    }

    fn push_input(&mut self, c: char)
        ensures
            final(self).input_buffer@ == old(self).input_buffer@.push(c),
            *final(self) == (AppState { input_buffer: final(self).input_buffer, ..*old(self) }),
    {
        let mut buf = String::new();
        std::mem::swap(&mut buf, &mut self.input_buffer);
        push_char(&mut buf, c);
        self.input_buffer = buf;
    }

    /// Sends the typed text: adds it as the user's message, answers it
    /// locally in demo mode, and empties the input; else asks the caller to
    /// send it to the selected agent.
    fn send_message(&mut self, demo: bool) -> (r: EventFollowUp)
        requires
            old(self).wf(),
            old(self).input_buffer@.len() > 0,
        ensures
            event_effect(*old(self), *final(self), AppEvent::SendMessage, demo, r),
    {
        let ghost a = *self;
        let message = self.input_buffer.clone();
        self.add_user_message(message.clone());
        let ghost s1 = *self;
        let agent = self.selected_agent();
        let session_id = self.sessions[self.active_session].id.clone();
        let out = if demo {
            let mut echo = String::new();
            push_str(&mut echo, "[Demo Mode] Received via '");
            push_str(&mut echo, agent.as_str());
            push_str(&mut echo, "': ");
            push_str(&mut echo, message.as_str());
            let mut model = String::new();
            push_str(&mut model, "demo-");
            push_str(&mut model, agent.as_str());
            self.add_assistant_message(echo, Some(model));
            EventFollowUp::Nothing
        } else {
            EventFollowUp::SendToAgent { session_id, message, agent }
        };
        let ghost s2 = *self;
        self.input_buffer = String::new();
        proof {
            let n = a.active_messages().len();
            assert(s1.active_messages().take(n as int) =~= a.active_messages());
            if demo {
                assert(s2.active_messages().take(n as int) =~= a.active_messages());
                assert(s2.active_messages()[n as int] == s1.active_messages()[n as int]);
            }
            assert forall|i: int| 0 <= i < a.sessions@.len() && i != a.active_session implies #[trigger] self.sessions@[i]
                == a.sessions@[i] by {
                assert(s1.sessions@[i] == a.sessions@[i]);
            }
        }
        out
    }

    /// Spawns a subagent: says so from `system` and shows it, running, in
    /// the status bar.
    fn spawn_agent(&mut self)
        requires
            old(self).wf(),
        ensures
            event_effect(*old(self), *final(self), AppEvent::SpawnAgent, false, EventFollowUp::Nothing),
    {
        let ghost a = *self;
        self.add_assistant_message("[Info] Spawning new subagent...".to_owned(), Some("system".to_owned()));
        let ghost s1 = *self;
        self.active_agents.push(AgentStatus {
            id: new_uuid_v4(),
            name: "New Agent".to_owned(),
            model: "gpt-4-turbo".to_owned(),
            progress: 0,
            status: AgentState::Running,
        });
        proof {
            let n = a.active_messages().len();
            assert(s1.active_messages().take(n as int) =~= a.active_messages());
            assert(self.active_agents@.drop_last() =~= a.active_agents@);
        }
    }

    /// Applies `event` (in demo mode where `demo` holds) and returns what is
    /// left for the caller to do.
    pub fn handle_event(&mut self, event: AppEvent, demo: bool) -> (r: EventFollowUp)
        requires
            old(self).wf(),
            old(self).sessions@.len() < u64::MAX,
        ensures
            event_effect(*old(self), *final(self), event, demo, r),
    {
        match event {
            AppEvent::Quit => {
                self.should_quit = true;
                EventFollowUp::Nothing
            },
            AppEvent::NewSession => {
                self.new_session();
                EventFollowUp::Nothing
            },
            AppEvent::CloseSession => {
                self.close_session();
                EventFollowUp::Nothing
            },
            AppEvent::NextSession => {
                self.next_session();
                EventFollowUp::Nothing
            },
            AppEvent::PrevSession => {
                self.prev_session();
                EventFollowUp::Nothing
            },
            AppEvent::ToggleInputMode => {
                self.input_mode = match self.input_mode {
                    InputMode::Normal => InputMode::Insert,
                    InputMode::Insert | InputMode::Command => InputMode::Normal,
                };
                EventFollowUp::Nothing
            },
            AppEvent::SendMessage => {
                if self.input_buffer.as_str().is_empty() {
                    EventFollowUp::Nothing
                } else {
                    self.send_message(demo)
                }
            },
            AppEvent::CharInput(c) => {
                self.push_input(c);
                EventFollowUp::Nothing
            },
            AppEvent::Backspace => {
                self.pop_input();
                EventFollowUp::Nothing
            },
            AppEvent::SpawnAgent => {
                self.spawn_agent();
                EventFollowUp::Nothing
            },
            AppEvent::ScrollUp => {
                self.scroll_up();
                EventFollowUp::Nothing
            },
            AppEvent::ScrollDown => {
                self.scroll_down();
                EventFollowUp::Nothing
            },
            AppEvent::RunTest => EventFollowUp::RunDiagnostic,
            AppEvent::Help => EventFollowUp::Nothing,
            AppEvent::ToggleSwarmPanel => {
                self.toggle_panel(PanelType::Swarm);
                EventFollowUp::Nothing
            },
            AppEvent::ToggleCostPanel => {
                self.toggle_panel(PanelType::Cost);
                EventFollowUp::Nothing
            },
            AppEvent::ToggleMemoryPanel => {
                self.toggle_panel(PanelType::Memory);
                EventFollowUp::Nothing
            },
            AppEvent::ToggleLogsPanel => {
                self.toggle_panel(PanelType::Logs);
                EventFollowUp::Nothing
            },
            AppEvent::NextAgent => {
                self.next_agent();
                EventFollowUp::Nothing
            },
            AppEvent::PrevAgent => {
                self.prev_agent();
                EventFollowUp::Nothing
            },
            AppEvent::SelectAgent(index) => {
                self.set_selected_agent(index);
                EventFollowUp::Nothing
            },
        }
    }

    /// Shows an agent's answer, or `[Error] ` and the error where it failed.
    pub fn receive_agent_reply(&mut self, reply: Result<String, String>)
        requires
            old(self).wf(),
        ensures
            final(self).wf(),
            only_active_messages_changed(*old(self), *final(self)),
            final(self).chat_scroll == old(self).chat_scroll,
            final(self).active_messages().drop_last() == old(self).active_messages(),
            fresh_message(
                final(self).active_messages().last(),
                MessageRole::Assistant,
                match reply {
                    Ok(t) => t@,
                    Err(e) => "[Error] "@ + e@,
                },
                None,
            ),
    {
        let text = match reply {
            Ok(t) => t,
            Err(e) => {
                let mut s = String::new();
                push_str(&mut s, "[Error] ");
                push_str(&mut s, e.as_str());
                s
            },
        };
        self.add_assistant_message(text, None);
    }
}

/// Whether a command's output is shown besides the command itself: it is
/// not empty and not the echo of the command.
pub open spec fn shows_output(output: Seq<char>, echo: Seq<char>) -> bool {
    output.len() > 0 && output != echo
}

/// `b` is `a` with a command run on its typed text recorded, with the
/// command's `output`: the echo `:` and the text from `cmd`, then the output
/// from `system` where it says something else; the input emptied where
/// `clear` holds.
pub open spec fn command_recorded(a: AppState, b: AppState, output: Seq<char>, clear: bool) -> bool {
    let n = a.active_messages().len();
    let echo = ":"@ + a.input_buffer@;
    &&& b.active_agents@ == a.active_agents@
    &&& b.input_buffer@ == if clear {
        Seq::<char>::empty()
    } else {
        a.input_buffer@
    }
    &&& messages_added(a, b, if shows_output(output, echo) { 2 } else { 1 })
    &&& fresh_message(b.active_messages()[n as int], MessageRole::Assistant, echo, Some("cmd"@))
    &&& shows_output(output, echo) ==> fresh_message(
        b.active_messages()[n + 1int],
        MessageRole::Assistant,
        output,
        Some("system"@),
    )
}

impl AppState {
    /// Records a `:` command that was run on the typed text, with its
    /// `output`: the command is echoed as `:` and the text from `cmd`, the
    /// output follows from `system` where it says something else, and the
    /// input is emptied where `clear` holds.
    pub fn record_command(&mut self, output: String, clear: bool)
        requires
            old(self).wf(),
        ensures
            final(self).wf(),
            command_recorded(*old(self), *final(self), output@, clear),
    {
        let ghost a = *self;
        let mut echo = String::new();
        push_str(&mut echo, ":");
        push_str(&mut echo, self.input_buffer.as_str());
        let shown = !output.as_str().is_empty() && output != echo;
        self.add_assistant_message(echo, Some("cmd".to_owned()));
        let ghost s1 = *self;
        if shown {
            self.add_assistant_message(output, Some("system".to_owned()));
        }
        let ghost s2 = *self;
        if clear {
            self.input_buffer = String::new();
        }
        proof {
            let n = a.active_messages().len();
            assert(s1.active_messages().take(n as int) =~= a.active_messages());
            if shown {
                assert(s2.active_messages().take(n as int) =~= a.active_messages());
                assert(s2.active_messages()[n as int] == s1.active_messages()[n as int]);
            }
            assert forall|i: int| 0 <= i < a.sessions@.len() && i != a.active_session implies #[trigger] self.sessions@[i]
                == a.sessions@[i] by {
                assert(s1.sessions@[i] == a.sessions@[i]);
            }
        }
    }
}

impl AppState {
    /// Runs the command typed in command mode as that mode is left, and
    /// records it with its answer. Returns `false` where the command is
    /// `test`: the caller then runs the diagnostics and records their report
    /// with `record_command(report, true)`. Outside command mode, or with
    /// nothing typed, nothing happens.
    pub fn leave_command_mode(&mut self) -> (r: bool)
        requires
            old(self).wf(),
            old(self).sessions@.len() < u64::MAX,
        ensures
            final(self).wf(),
            !(old(self).input_mode == InputMode::Command && old(self).input_buffer@.len() > 0) ==> r && *final(self) == *old(self),
            old(self).input_mode == InputMode::Command && old(self).input_buffer@.len() > 0 ==> {
                let cmd = old(self).input_buffer@;
                match command_reply(command_word(cmd), cmd) {
                    Some((out, clear)) => r && exists|m: AppState|
                        m.wf() && #[trigger] command_effect(*old(self), m, cmd) && command_recorded(m, *final(self), out, clear),
                    None => !r && *final(self) == *old(self),
                }
            },
    {
        if self.input_mode != InputMode::Command || self.input_buffer.as_str().is_empty() {
            return true;
        }
        let ghost a = *self;
        let typed = self.input_buffer.clone();
        match self.execute_command(typed.as_str()) {
            Some((out, clear)) => {
                let ghost m = *self;
                self.record_command(out, clear);
                assert(m.wf() && command_effect(a, m, typed@) && command_recorded(m, *self, out@, clear));
                true
            },
            None => false,
        }
    }
}

/// A key press, as the help screen reads it.
#[derive(Debug, Clone, Copy, PartialEq, Eq, Structural)]
pub enum HelpKey {
    /// `?`, which shows or hides the help screen in normal mode.
    Question,
    /// `Esc` or `q`, which close the help screen.
    Close,
    /// Any other key.
    Other,
}

/// Whether the help screen shows after `key`, and whether the key goes on
/// to be mapped to an event: `?` in normal mode flips the help screen;
/// while it shows, `Esc` and `q` close it and every key stops there.
pub open spec fn help_step_view(visible: bool, mode: InputMode, key: HelpKey) -> (bool, bool) {
    if key == HelpKey::Question && mode == InputMode::Normal {
        (!visible, false)
    } else if visible {
        (key != HelpKey::Close, false)
    } else {
        (false, true)
    }
}

/// What a key does to the help screen of the dashboard: whether it shows
/// afterwards, and whether the key goes on to the dashboard itself.
pub fn help_step(visible: bool, mode: InputMode, key: HelpKey) -> (r: (bool, bool))
    ensures
        r == help_step_view(visible, mode, key),
{
    if key == HelpKey::Question && mode == InputMode::Normal {
        (!visible, false)
    } else if visible {
        (key != HelpKey::Close, false)
    } else {
        (false, true)
    }
}

} // verus!
