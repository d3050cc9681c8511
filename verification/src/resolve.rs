//! Which of the listed agents are candidates, and which one turn tracking follows.
use crate::command::HerdrError;
use crate::pane::{AgentPane, Pane};
use crate::status::Status;
use vstd::prelude::*;

verus! {

/// Whether a pane with the projected id `id` is a candidate: it runs an agent, its id is the
/// wanted one, and it is not our own pane.
pub open spec fn is_candidate(
    pane: Pane,
    id: Seq<char>,
    want: Seq<char>,
    me: Option<Seq<char>>,
) -> bool {
    pane.agent is Some && id == want && Some(pane.pane_id) != me
}

/// The candidates among `panes`, in their order, where `ids` holds each pane's projected id.
pub open spec fn candidates_by(
    panes: Seq<Pane>,
    ids: Seq<Seq<char>>,
    want: Seq<char>,
    me: Option<Seq<char>>,
) -> Seq<Pane>
    decreases panes.len(),
{
    if panes.len() == 0 {
        Seq::empty()
    } else {
        let before = candidates_by(panes.drop_last(), ids.drop_last(), want, me);
        if is_candidate(panes.last(), ids.last(), want, me) {
            before.push(panes.last())
        } else {
            before
        }
    }
}

/// Which of a pane's ids a search goes by.
pub ghost enum Scope {
    Tab,
    Workspace,
}

impl Pane {
    /// The pane's id in a scope.
    pub open spec fn id_in(self, scope: Scope) -> Seq<char> {
        match scope {
            Scope::Tab => self.tab_id,
            Scope::Workspace => self.workspace_id,
        }
    }
}

/// The candidates of one tab or workspace, in the order of `panes`. Without an id to look for
/// there are none.
pub open spec fn candidates_in(
    panes: Seq<Pane>,
    scope: Scope,
    want: Option<Seq<char>>,
    me: Option<Seq<char>>,
) -> Seq<Pane> {
    match want {
        Some(want) => panes.filter(|pane: Pane| is_candidate(pane, pane.id_in(scope), want, me)),
        None => Seq::empty(),
    }
}

/// The agent that turn tracking follows: the sole candidate of the tab, else the sole candidate
/// of the workspace.
pub open spec fn pick(
    panes: Seq<Pane>,
    tab: Option<Seq<char>>,
    ws: Option<Seq<char>>,
    me: Option<Seq<char>>,
) -> Option<Pane> {
    let in_tab = candidates_in(panes, Scope::Tab, tab, me);
    let in_ws = candidates_in(panes, Scope::Workspace, ws, me);
    if in_tab.len() == 1 {
        Some(in_tab[0])
    } else if in_ws.len() == 1 {
        Some(in_ws[0])
    } else {
        None
    }
}

/// Searching by the ids of a scope finds the candidates of that scope.
proof fn lemma_candidates_by_scope(
    panes: Seq<Pane>,
    ids: Seq<Seq<char>>,
    scope: Scope,
    want: Seq<char>,
    me: Option<Seq<char>>,
)
    requires
        ids.len() == panes.len(),
        forall|i: int|
            0 <= i < panes.len() && (#[trigger] panes[i]).agent is Some ==> ids[i]
                == panes[i].id_in(scope),
    ensures
        candidates_by(panes, ids, want, me) == candidates_in(panes, scope, Some(want), me),
    decreases panes.len(),
{
    reveal(Seq::filter);
    if panes.len() > 0 {
        assert forall|i: int|
            0 <= i < panes.drop_last().len() && (#[trigger] panes.drop_last()[i]).agent is Some
        implies ids.drop_last()[i] == panes.drop_last()[i].id_in(scope) by {
            assert(panes[i].agent is Some);
        }
        lemma_candidates_by_scope(panes.drop_last(), ids.drop_last(), scope, want, me);
    }
}

/// `ids` holds what `id` answered for each of the agents. Only panes that run an agent are
/// asked.
pub open spec fn projected<'a, F: Fn(&'a AgentPane) -> &'a str>(
    id: F,
    agents: Seq<AgentPane>,
    ids: Seq<Seq<char>>,
) -> bool {
    &&& ids.len() == agents.len()
    &&& forall|i: int|
        0 <= i < agents.len() && (#[trigger] agents[i]).agent is Some ==> exists|answer: &'a str|
            call_ensures(id, (&agents[i],), answer) && #[trigger] answer@ == ids[i]
}

/// `found` holds the candidates among `agents`, in their order, going by what `id` answered for
/// them. Without an id to look for there are none.
pub open spec fn found_by<'a, F: Fn(&'a AgentPane) -> &'a str>(
    id: F,
    agents: &[AgentPane],
    want: Option<Seq<char>>,
    me: Option<Seq<char>>,
    found: Seq<Pane>,
) -> bool {
    match want {
        Some(want) => exists|ids: Seq<Seq<char>>| #[trigger]
            projected(id, agents@, ids) && found == candidates_by(
                agents.deep_view(),
                ids,
                want,
                me,
            ),
        None => found.len() == 0,
    }
}

/// Searching by the id that panes have in a scope finds the candidates of that scope.
pub proof fn lemma_found_by_scope<'a, F: Fn(&'a AgentPane) -> &'a str>(
    id: F,
    agents: &[AgentPane],
    scope: Scope,
    want: Option<Seq<char>>,
    me: Option<Seq<char>>,
    found: Seq<Pane>,
)
    requires
        found_by(id, agents, want, me, found),
        forall|agent: &'a AgentPane, answer: &'a str| #[trigger]
            call_ensures(id, (agent,), answer) ==> answer@ == agent@.id_in(scope),
    ensures
        found == candidates_in(agents.deep_view(), scope, want, me),
{
    if let Some(want) = want {
        let panes = agents.deep_view();
        let ids = choose|ids: Seq<Seq<char>>| #[trigger]
            projected(id, agents@, ids) && found == candidates_by(panes, ids, want, me);
        assert forall|i: int| 0 <= i < panes.len() && (#[trigger] panes[i]).agent is Some implies
            ids[i] == panes[i].id_in(scope)
        by {
            assert(agents@[i].agent is Some);
        }
        lemma_candidates_by_scope(panes, ids, scope, want, me);
    }
}

/// The real agents whose projected id equals `want`, ignoring our own pane `me`. Only entries
/// carrying an `agent` field count.
pub fn candidates<'a, F: Fn(&'a AgentPane) -> &'a str>(
    agents: &'a [AgentPane],
    want: Option<&str>,
    me: Option<&str>,
    id: F,
) -> (res: Vec<&'a AgentPane>)
    requires
        want is Some ==> forall|i: int|
            0 <= i < agents@.len() && agents@[i].agent is Some ==> call_requires(
                id,
                (#[trigger] &agents@[i],),
            ),
    ensures
        found_by(id, agents, want.deep_view(), me.deep_view(), res.deep_view()),
{
    let mut found: Vec<&'a AgentPane> = Vec::new();
    let Some(want) = want else {
        return found;
    };
    let ghost mut ids: Seq<Seq<char>> = Seq::empty();
    let mut i: usize = 0;
    while i < agents.len()
        invariant
            forall|i: int|
                0 <= i < agents@.len() && agents@[i].agent is Some ==> call_requires(
                    id,
                    (#[trigger] &agents@[i],),
                ),
            i <= agents@.len(),
            projected(id, agents@.take(i as int), ids),
            found.deep_view() == candidates_by(
                agents.deep_view().take(i as int),
                ids,
                want@,
                me.deep_view(),
            ),
        decreases agents.len() - i,
    {
        let agent = &agents[i];
        let ghost mut asked: Seq<char> = Seq::empty();
        if agent.agent.is_some() {
            let answer = id(agent);
            proof {
                asked = answer@;
            }
            if *answer == *want && !is_own(agent, me) {
                found.push(agent);
            }
        }
        proof {
            let panes = agents.deep_view();
            let so_far = agents@.take(i as int);
            let next = agents@.take(i + 1);
            assert(panes.take(i + 1).drop_last() =~= panes.take(i as int));
            assert(ids.push(asked).drop_last() =~= ids);
            assert(found.deep_view() =~= candidates_by(
                panes.take(i + 1),
                ids.push(asked),
                want@,
                me.deep_view(),
            ));
            assert forall|k: int| 0 <= k < next.len() && (#[trigger] next[k]).agent is Some implies
                exists|answer: &'a str|
                    call_ensures(id, (&next[k],), answer) && #[trigger] answer@ == ids.push(asked)[k]
            by {
                if k < i {
                    assert(so_far[k].agent is Some);
                }
            }
            ids = ids.push(asked);
        }
        i += 1;
    }
    proof {
        assert(agents@.take(i as int) =~= agents@);
        assert(agents.deep_view().take(i as int) =~= agents.deep_view());
    }
    found
}

/// Whether the pane is our own.
fn is_own(agent: &AgentPane, me: Option<&str>) -> (res: bool)
    ensures
        res == (Some(agent@.pane_id) == me.deep_view()),
{
    match me {
        Some(me) => *agent.pane_id.as_str() == *me,
        None => false,
    }
}

/// The candidates of our tab.
fn tab_candidates<'a>(agents: &'a [AgentPane], tab: Option<&str>, me: Option<&str>) -> (res: Vec<
    &'a AgentPane,
>)
    ensures
        res.deep_view() == candidates_in(
            agents.deep_view(),
            Scope::Tab,
            tab.deep_view(),
            me.deep_view(),
        ),
{
    let id = |agent: &'a AgentPane| -> (id: &'a str)
        ensures
            id@ == agent.tab_id@,
        { agent.tab_id.as_str() };
    let found = candidates(agents, tab, me, id);
    proof {
        lemma_found_by_scope(
            id,
            agents,
            Scope::Tab,
            tab.deep_view(),
            me.deep_view(),
            found.deep_view(),
        );
    }
    found
}

/// The candidates of our workspace.
pub(crate) fn workspace_candidates<'a>(
    agents: &'a [AgentPane],
    ws: Option<&str>,
    me: Option<&str>,
) -> (res: Vec<&'a AgentPane>)
    ensures
        res.deep_view() == candidates_in(
            agents.deep_view(),
            Scope::Workspace,
            ws.deep_view(),
            me.deep_view(),
        ),
{
    let id = |agent: &'a AgentPane| -> (id: &'a str)
        ensures
            id@ == agent.workspace_id@,
        { agent.workspace_id.as_str() };
    let found = candidates(agents, ws, me, id);
    proof {
        lemma_found_by_scope(
            id,
            agents,
            Scope::Workspace,
            ws.deep_view(),
            me.deep_view(),
            found.deep_view(),
        );
    }
    found
}

/// The sole agent in this tab, else the sole workspace agent, for turn tracking. `None` when
/// nothing resolves: zero candidates or an ambiguous set alike pause tracking. The send never
/// resolves this way: an ambiguous workspace opens the picker instead.
pub fn pick_agent<'a>(
    agents: &'a [AgentPane],
    tab: Option<&str>,
    ws: Option<&str>,
    me: Option<&str>,
) -> (res: Option<&'a AgentPane>)
    ensures
        res.deep_view() == pick(
            agents.deep_view(),
            tab.deep_view(),
            ws.deep_view(),
            me.deep_view(),
        ),
{
    let in_tab = tab_candidates(agents, tab, me);
    if in_tab.len() == 1 {
        return Some(in_tab[0]);
    }
    let in_ws = workspace_candidates(agents, ws, me);
    if in_ws.len() == 1 {
        Some(in_ws[0])
    } else {
        None
    }
}

/// The resolved agent's status, for turn tracking, given the listed agents. `Ok(None)` when no
/// agent resolves, so that an absent or ambiguous agent pauses tracking like a missing herdr.
pub fn resolved_agent_status(
    agents: Result<Vec<AgentPane>, HerdrError>,
    tab: Option<&str>,
    ws: Option<&str>,
    me: Option<&str>,
) -> (res: Result<Option<Status>, HerdrError>)
    ensures
        match agents {
            Ok(agents) => res == Ok::<Option<Status>, HerdrError>(
                match pick(
                    agents.deep_view(),
                    tab.deep_view(),
                    ws.deep_view(),
                    me.deep_view(),
                ) {
                    Some(pane) => Some(pane.agent_status),
                    None => None,
                },
            ),
            Err(error) => res == Err::<Option<Status>, HerdrError>(error),
        },
{
    match agents {
        Ok(agents) => {
            let listed = agents.as_slice();
            assert(listed.deep_view() =~= agents.deep_view());
            match pick_agent(listed, tab, ws, me) {
                Some(agent) => Ok(Some(agent.agent_status)),
                None => Ok(None),
            }
        },
        Err(error) => Err(error),
    }
}

} // verus!
