//! The agents that herdr lists, and how the picker shows one.
use crate::labels::{label_of, Labels};
use crate::status::Status;
use vstd::prelude::*;

verus! {

/// One entry of `herdr agent list`. The picker-facing fields are optional: herdr omits `name`,
/// `display_agent` and `state_labels` until something sets them, and clearing a name leaves it
/// present and null. Both read as `None`.
pub struct AgentPane {
    pub agent: Option<String>,
    pub agent_status: Status,
    pub pane_id: String,
    pub tab_id: String,
    pub workspace_id: String,
    pub name: Option<String>,
    pub display_agent: Option<String>,
    pub state_labels: Option<Labels>,
}

/// One picker row: the pane the send addresses, and the three parts the row shows.
#[derive(Clone, Debug, PartialEq, Eq)]
pub struct AgentChoice {
    pub pane_id: String,
    pub name: String,
    pub state: String,
    pub tab: String,
}

/// An [`AgentPane`] as plain text.
pub ghost struct Pane {
    pub agent: Option<Seq<char>>,
    pub agent_status: Status,
    pub pane_id: Seq<char>,
    pub tab_id: Seq<char>,
    pub workspace_id: Seq<char>,
    pub name: Option<Seq<char>>,
    pub display_agent: Option<Seq<char>>,
    pub state_labels: Option<Map<Seq<char>, Seq<char>>>,
}

/// An [`AgentChoice`] as plain text.
pub ghost struct Row {
    pub pane_id: Seq<char>,
    pub name: Seq<char>,
    pub state: Seq<char>,
    pub tab: Seq<char>,
}

impl View for AgentPane {
    type V = Pane;

    open spec fn view(&self) -> Pane {
        Pane {
            agent: self.agent.deep_view(),
            agent_status: self.agent_status,
            pane_id: self.pane_id@,
            tab_id: self.tab_id@,
            workspace_id: self.workspace_id@,
            name: self.name.deep_view(),
            display_agent: self.display_agent.deep_view(),
            state_labels: self.state_labels.deep_view(),
        }
    }
}

impl DeepView for AgentPane {
    type V = Pane;

    open spec fn deep_view(&self) -> Pane {
        self@
    }
}

impl View for AgentChoice {
    type V = Row;

    open spec fn view(&self) -> Row {
        Row { pane_id: self.pane_id@, name: self.name@, state: self.state@, tab: self.tab@ }
    }
}

impl DeepView for AgentChoice {
    type V = Row;

    open spec fn deep_view(&self) -> Row {
        self@
    }
}

/// The text, if there is one and it is not blank.
pub open spec fn shown(part: Option<Seq<char>>) -> Option<Seq<char>> {
    match part {
        Some(text) if text.len() > 0 => Some(text),
        _ => None,
    }
}

/// The first of two choices that is there.
pub open spec fn or_else(first: Option<Seq<char>>, second: Option<Seq<char>>) -> Option<Seq<char>> {
    match first {
        Some(text) => Some(text),
        None => second,
    }
}

/// The text that is there, else the default.
pub open spec fn or_text(choice: Option<Seq<char>>, default: Seq<char>) -> Seq<char> {
    match choice {
        Some(text) => text,
        None => default,
    }
}

impl Pane {
    /// What the row calls the agent: its name, else its display name, else its kind, each only
    /// if it is not blank, and the pane id as the last resort.
    pub open spec fn row_name(self) -> Seq<char> {
        or_text(
            or_else(shown(self.name), or_else(shown(self.display_agent), shown(self.agent))),
            self.pane_id,
        )
    }

    /// What the row says of the agent's state: the agent's own label for it, if that is not
    /// blank, else the state itself.
    pub open spec fn row_state(self) -> Seq<char> {
        let state = self.agent_status.spelling();
        match self.state_labels {
            Some(labels) => or_text(shown(label_of(labels, state)), state),
            None => state,
        }
    }

    /// The pane as a picker row, its tab named by `tabs`.
    pub open spec fn row(self, tabs: Map<Seq<char>, Seq<char>>) -> Row {
        Row {
            pane_id: self.pane_id,
            name: self.row_name(),
            state: self.row_state(),
            tab: or_text(label_of(tabs, self.tab_id), Seq::empty()),
        }
    }
}

impl Default for AgentPane {
    /// A pane with blank ids, no agent and nothing to show.
    fn default() -> (res: AgentPane)
        ensures
            res@ == (Pane {
                agent: None,
                agent_status: Status::Unknown,
                pane_id: Seq::empty(),
                tab_id: Seq::empty(),
                workspace_id: Seq::empty(),
                name: None,
                display_agent: None,
                state_labels: None,
            }),
    {
        AgentPane {
            agent: None,
            agent_status: Status::default(),
            pane_id: String::new(),
            tab_id: String::new(),
            workspace_id: String::new(),
            name: None,
            display_agent: None,
            state_labels: None,
        }
    }
}

/// The text, if there is one and it is not blank.
fn shown_text(part: &Option<String>) -> (res: Option<&String>)
    ensures
        res.deep_view() == shown(part.deep_view()),
{
    match part {
        Some(text) => if text.as_str().is_empty() {
            None
        } else {
            Some(text)
        },
        None => None,
    }
}

impl AgentPane {
    /// This pane as a picker row.
    pub fn choice(&self, tabs: &Labels) -> (res: AgentChoice)
        ensures
            res@ == self@.row(tabs@),
    {
        let tab = match tabs.get(self.tab_id.as_str()) {
            Some(label) => label.clone(),
            None => String::new(),
        };
        AgentChoice {
            pane_id: self.pane_id.clone(),
            name: self.row_name(),
            state: self.row_state(),
            tab,
        }
    }

    /// The agent's `name`, else its `display_agent`, else its kind. A cleared name arrives as
    /// null and falls through like an absent one. The pane id is a last resort, so the row
    /// always names something.
    pub fn row_name(&self) -> (res: String)
        ensures
            res@ == self@.row_name(),
    {
        if let Some(name) = shown_text(&self.name) {
            return name.clone();
        }
        if let Some(display) = shown_text(&self.display_agent) {
            return display.clone();
        }
        if let Some(kind) = shown_text(&self.agent) {
            return kind.clone();
        }
        self.pane_id.clone()
    }

    /// The agent's `state_labels` entry for its state, else the state itself.
    pub fn row_state(&self) -> (res: String)
        ensures
            res@ == self@.row_state(),
    {
        let state = self.agent_status.as_str();
        if let Some(labels) = &self.state_labels {
            if let Some(label) = labels.get(state) {
                if !label.as_str().is_empty() {
                    return label.clone();
                }
            }
        }
        state.to_owned()
    }
}

} // verus!
