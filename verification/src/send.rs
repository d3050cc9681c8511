//! What a send does with the agents herdr lists.
use crate::command::{tab_list_args, HerdrError};
use crate::labels::Labels;
use crate::pane::{AgentChoice, AgentPane, Pane, Row};
use crate::resolve::{candidates_in, workspace_candidates, Scope};
use vstd::prelude::*;

verus! {

/// What a send does with the agents herdr reports. A refusal is the `Err` beside it, so zero
/// agents and a failed enumeration land in one place.
#[derive(Clone, Debug, PartialEq, Eq)]
pub enum SendTarget {
    /// Exactly one agent. The send goes straight to it, with no picker.
    One(AgentChoice),
    /// Several agents, in herdr's own order. The picker opens over them.
    Many(Vec<AgentChoice>),
}

/// A [`SendTarget`] as plain text.
pub ghost enum Target {
    One(Row),
    Many(Seq<Row>),
}

impl View for SendTarget {
    type V = Target;

    open spec fn view(&self) -> Target {
        match self {
            SendTarget::One(choice) => Target::One(choice@),
            SendTarget::Many(choices) => Target::Many(choices.deep_view()),
        }
    }
}

/// How far a send gets on the agent list alone.
pub enum SendStep<'a> {
    /// The send is settled: it has its one agent, or it is refused.
    Settled(Result<SendTarget, HerdrError>),
    /// Several agents: the picker opens, once it has looked up the labels of their tabs.
    Pick(Picker<'a>),
}

/// A picker that still lacks the labels of its tabs.
pub struct Picker<'a> {
    picked: Vec<&'a AgentPane>,
    ws: Option<&'a str>,
}

/// The panes as picker rows.
pub open spec fn rows(panes: Seq<Pane>, tabs: Map<Seq<char>, Seq<char>>) -> Seq<Row> {
    panes.map_values(|pane: Pane| pane.row(tabs))
}

/// The listed panes. A failed enumeration lists none.
pub open spec fn listed(agents: Result<Vec<AgentPane>, HerdrError>) -> Seq<Pane> {
    match agents {
        Ok(agents) => agents.deep_view(),
        Err(_) => Seq::empty(),
    }
}

/// Where a send goes: to the sole candidate of the workspace, to the picker over several, or
/// nowhere. Only the picker's rows depend on the tab labels.
pub open spec fn target(
    panes: Seq<Pane>,
    ws: Option<Seq<char>>,
    me: Option<Seq<char>>,
    tabs: Map<Seq<char>, Seq<char>>,
) -> Option<Target> {
    let picked = candidates_in(panes, Scope::Workspace, ws, me);
    if picked.len() == 0 {
        None
    } else if picked.len() == 1 {
        Some(Target::One(picked[0].row(Map::empty())))
    } else {
        Some(Target::Many(rows(picked, tabs)))
    }
}

impl<'a> Picker<'a> {
    /// The panes the picker opens over.
    pub closed spec fn panes(self) -> Seq<Pane> {
        self.picked.deep_view()
    }

    /// The workspace whose tabs are to be looked up.
    pub closed spec fn workspace(self) -> Option<Seq<char>> {
        self.ws.deep_view()
    }

    /// The arguments that look up the tab labels.
    pub fn request(&self) -> (res: Option<Vec<String>>)
        ensures
            res.deep_view() == match self.workspace() {
                Some(ws) => Some(seq!["tab"@, "list"@, "--workspace"@, ws]),
                None => None,
            },
    {
        tab_list_args(self.ws)
    }

    /// The picker with its tabs labelled.
    pub fn open(&self, tabs: &Labels) -> (res: SendTarget)
        ensures
            res@ == Target::Many(rows(self.panes(), tabs@)),
    {
        let mut choices: Vec<AgentChoice> = Vec::new();
        let mut i: usize = 0;
        while i < self.picked.len()
            invariant
                i <= self.picked@.len(),
                choices.deep_view() == rows(self.panes(), tabs@).take(i as int),
            decreases self.picked.len() - i,
        {
            let ghost before = choices.deep_view();
            choices.push(self.picked[i].choice(tabs));
            assert(choices.deep_view() =~= before.push(self.panes()[i as int].row(tabs@)));
            assert(choices.deep_view() =~= rows(self.panes(), tabs@).take(i + 1));
            i += 1;
        }
        assert(rows(self.panes(), tabs@).take(i as int) =~= rows(self.panes(), tabs@));
        SendTarget::Many(choices)
    }
}

/// What a send does, given the listed agents: one workspace agent sends directly, several open
/// the picker, and no agent refuses. A failed enumeration refuses the same way, so the user
/// is never told a count herdr did not report. The sole-agent send shows no row, so only the
/// picker pays for looking up the tab labels.
pub fn send_target<'a>(
    agents: &'a Result<Vec<AgentPane>, HerdrError>,
    ws: Option<&'a str>,
    me: Option<&str>,
) -> (res: SendStep<'a>)
    ensures
        ({
            let picked = candidates_in(
                listed(*agents),
                Scope::Workspace,
                ws.deep_view(),
                me.deep_view(),
            );
            match res {
                SendStep::Settled(Err(error)) => {
                    &&& picked.len() == 0
                    &&& error == HerdrError::NoAgent
                },
                SendStep::Settled(Ok(sent)) => {
                    &&& picked.len() == 1
                    &&& sent@ == Target::One(picked[0].row(Map::empty()))
                },
                SendStep::Pick(picker) => {
                    &&& picked.len() >= 2
                    &&& picker.panes() == picked
                    &&& picker.workspace() == ws.deep_view()
                    &&& ws is Some
                },
            }
        }),
        forall|tabs|
            (match res {
                SendStep::Settled(Err(_)) => None,
                SendStep::Settled(Ok(sent)) => Some(sent@),
                SendStep::Pick(picker) => Some(Target::Many(rows(picker.panes(), tabs))),
            }) == #[trigger] target(listed(*agents), ws.deep_view(), me.deep_view(), tabs),
{
    let picked = match agents {
        Ok(agents) => {
            let all = agents.as_slice();
            assert(all.deep_view() =~= agents.deep_view());
            workspace_candidates(all, ws, me)
        },
        Err(_) => {
            reveal(Seq::filter);
            Vec::new()
        },
    };
    assert(picked.deep_view() =~= candidates_in(
        listed(*agents),
        Scope::Workspace,
        ws.deep_view(),
        me.deep_view(),
    ));
    if picked.len() == 0 {
        SendStep::Settled(Err(HerdrError::NoAgent))
    } else if picked.len() == 1 {
        SendStep::Settled(Ok(SendTarget::One(picked[0].choice(&Labels::new()))))
    } else {
        SendStep::Pick(Picker { picked, ws })
    }
}

} // verus!
