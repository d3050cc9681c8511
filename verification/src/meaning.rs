//! What the operations come to, told in herdr's own fields and words: which entries of a list
//! count, what a row shows of its entry, and how states and errors are spelled.
use crate::command::HerdrError;
use crate::labels::{label_of, Labels};
use crate::laws::law_candidates_keep_the_order_of_the_list;
use crate::pane::{AgentChoice, AgentPane, Pane};
use crate::replies::{labels_of, Tab, TabInfo};
use crate::resolve::{candidates_by, candidates_in, found_by, pick, projected, Scope};
use crate::send::{listed, rows, target, SendTarget, Target};
use crate::status::Status;
use crate::text::{debug_text, is_trimmed, is_white_space};
use vstd::prelude::*;

verus! {

/// The model of a pane holds each of its fields, under that field's name and as its text.
pub proof fn law_a_pane_is_modelled_field_by_field(pane: AgentPane)
    ensures
        pane.deep_view() == pane@,
        pane@.agent is Some <==> pane.agent is Some,
        pane.agent matches Some(kind) ==> pane@.agent == Some(kind@),
        pane@.agent_status == pane.agent_status,
        pane@.pane_id == pane.pane_id@,
        pane@.tab_id == pane.tab_id@,
        pane@.workspace_id == pane.workspace_id@,
        pane@.name is Some <==> pane.name is Some,
        pane.name matches Some(name) ==> pane@.name == Some(name@),
        pane@.display_agent is Some <==> pane.display_agent is Some,
        pane.display_agent matches Some(name) ==> pane@.display_agent == Some(name@),
        pane@.state_labels is Some <==> pane.state_labels is Some,
        pane.state_labels matches Some(labels) ==> pane@.state_labels == Some(labels@),
{
}

/// The model of a row, of a tab, of a set of labels and of a send's target holds what each of
/// them holds.
pub proof fn law_rows_tabs_and_targets_are_modelled_part_by_part(
    choice: AgentChoice,
    tab: TabInfo,
    labels: Labels,
    many: Vec<AgentChoice>,
)
    ensures
        choice.deep_view() == choice@,
        choice@.pane_id == choice.pane_id@,
        choice@.name == choice.name@,
        choice@.state == choice.state@,
        choice@.tab == choice.tab@,
        tab.deep_view() == tab@,
        tab@.tab_id == tab.tab_id@,
        tab@.label is Some <==> tab.label is Some,
        tab.label matches Some(label) ==> tab@.label == Some(label@),
        labels.deep_view() == labels@,
        SendTarget::One(choice)@ == Target::One(choice@),
        SendTarget::Many(many)@ matches Target::Many(rows) && rows.len() == many@.len() && (forall|
            k: int,
        |
            0 <= k < rows.len() ==> #[trigger] rows[k] == many@[k]@),
{
}

/// The words of the wire: `idle`, `working`, `blocked` and `done` spell those states, each way,
/// and unknown is spelled `unknown`. Every other word reads as unknown.
pub proof fn law_the_words_of_the_wire(word: Seq<char>)
    ensures
        Status::Idle.spelling() == "idle"@,
        Status::Working.spelling() == "working"@,
        Status::Blocked.spelling() == "blocked"@,
        Status::Done.spelling() == "done"@,
        Status::Unknown.spelling() == "unknown"@,
        Status::named(word) == Status::Idle <==> word == "idle"@,
        Status::named(word) == Status::Working <==> word == "working"@,
        Status::named(word) == Status::Blocked <==> word == "blocked"@,
        Status::named(word) == Status::Done <==> word == "done"@,
        Status::named(word) == Status::Unknown <==> word != "idle"@ && word != "working"@ && word
            != "blocked"@ && word != "done"@,
{
    reveal_strlit("idle");
    reveal_strlit("working");
    reveal_strlit("blocked");
    reveal_strlit("done");
    assert("idle"@[0] == 'i' && "done"@[0] == 'd');
    assert("working"@[0] == 'w' && "blocked"@[0] == 'b');
}

/// A row is named by the first of these that is there and not blank: the given name, the display
/// name, the kind. The pane id names it only if all three are missing or blank.
pub proof fn law_a_row_is_named_by_the_first_name_there_is(pane: Pane)
    ensures
        ({
            let named = pane.name is Some && pane.name->0.len() > 0;
            let displayed = pane.display_agent is Some && pane.display_agent->0.len() > 0;
            let of_a_kind = pane.agent is Some && pane.agent->0.len() > 0;
            &&& named ==> pane.row_name() == pane.name->0
            &&& !named && displayed ==> pane.row_name() == pane.display_agent->0
            &&& !named && !displayed && of_a_kind ==> pane.row_name() == pane.agent->0
            &&& !named && !displayed && !of_a_kind ==> pane.row_name() == pane.pane_id
        }),
{
}

/// A row shows the pane's own label for its state, if it has one that is not blank. Else it
/// shows the state as the wire spells it.
pub proof fn law_a_row_shows_the_label_of_its_state_or_the_state(pane: Pane)
    ensures
        ({
            let state = match pane.agent_status {
                Status::Idle => "idle"@,
                Status::Working => "working"@,
                Status::Blocked => "blocked"@,
                Status::Done => "done"@,
                Status::Unknown => "unknown"@,
            };
            match pane.state_labels {
                Some(labels) => if labels.contains_key(state) && labels[state].len() > 0 {
                    pane.row_state() == labels[state]
                } else {
                    pane.row_state() == state
                },
                None => pane.row_state() == state,
            }
        }),
{
}

/// Without labels of their own, two panes show the same state exactly if they are in it.
pub proof fn law_unlabelled_panes_show_their_states_apart(a: Pane, b: Pane)
    requires
        a.state_labels is None,
        b.state_labels is None,
    ensures
        a.row_state() == b.row_state() <==> a.agent_status == b.agent_status,
{
    crate::laws::law_spellings_are_distinct_words(a.agent_status, b.agent_status);
}

/// A row addresses its own pane, under its own name and state. Its tab part is the label of the
/// pane's tab, and blank if that tab has none.
pub proof fn law_a_row_shows_its_own_pane(pane: Pane, tabs: Map<Seq<char>, Seq<char>>)
    ensures
        pane.row(tabs).pane_id == pane.pane_id,
        pane.row(tabs).name == pane.row_name(),
        pane.row(tabs).state == pane.row_state(),
        tabs.contains_key(pane.tab_id) ==> pane.row(tabs).tab == tabs[pane.tab_id],
        !tabs.contains_key(pane.tab_id) ==> pane.row(tabs).tab.len() == 0,
{
}

/// A successful enumeration lists its entries, all of them and as they stand, whatever their
/// states are. A failed one lists none.
pub proof fn law_a_list_holds_its_entries(agents: Result<Vec<AgentPane>, HerdrError>)
    ensures
        agents matches Ok(entries) ==> {
            &&& listed(agents).len() == entries@.len()
            &&& forall|i: int|
                0 <= i < entries@.len() ==> #[trigger] listed(agents)[i] == entries@[i]@
        },
        agents is Err ==> listed(agents).len() == 0,
{
}

/// Row by row, the rows of some panes are those panes' rows, in their order.
pub proof fn law_rows_go_pane_by_pane(
    panes: Seq<Pane>,
    tabs: Map<Seq<char>, Seq<char>>,
)
    ensures
        rows(panes, tabs).len() == panes.len(),
        forall|k: int|
            0 <= k < panes.len() ==> {
                let row = #[trigger] rows(panes, tabs)[k];
                &&& row.pane_id == panes[k].pane_id
                &&& row.name == panes[k].row_name()
                &&& row.state == panes[k].row_state()
                &&& tabs.contains_key(panes[k].tab_id) ==> row.tab == tabs[panes[k].tab_id]
                &&& !tabs.contains_key(panes[k].tab_id) ==> row.tab.len() == 0
            },
{
}

/// The candidates are the entries of the list that run an agent, have the wanted id in the scope
/// and are not our own pane: `at` gives their places in the list, in rising order. Nothing else
/// of an entry plays a part.
pub proof fn law_candidates_are_the_matching_entries_in_order(
    panes: Seq<Pane>,
    scope: Scope,
    want: Option<Seq<char>>,
    me: Option<Seq<char>>,
) -> (at: Seq<int>)
    ensures
        at.len() == candidates_in(panes, scope, want, me).len(),
        forall|j: int, k: int| 0 <= j < k < at.len() ==> #[trigger] at[j] < #[trigger] at[k],
        forall|k: int|
            0 <= k < at.len() ==> {
                &&& 0 <= #[trigger] at[k] < panes.len()
                &&& candidates_in(panes, scope, want, me)[k] == panes[at[k]]
            },
        forall|i: int|
            0 <= i < panes.len() ==> (#[trigger] at.contains(i) <==> {
                &&& panes[i].agent is Some
                &&& Some(
                    match scope {
                        Scope::Tab => panes[i].tab_id,
                        Scope::Workspace => panes[i].workspace_id,
                    },
                ) == want
                &&& Some(panes[i].pane_id) != me
            }),
{
    if let Some(id) = want {
        let at = law_candidates_keep_the_order_of_the_list(panes, scope, id, me);
        let found = candidates_in(panes, scope, want, me);
        assert forall|i: int| 0 <= i < panes.len() implies (#[trigger] at.contains(i) <==> {
            &&& panes[i].agent is Some
            &&& Some(
                match scope {
                    Scope::Tab => panes[i].tab_id,
                    Scope::Workspace => panes[i].workspace_id,
                },
            ) == want
            &&& Some(panes[i].pane_id) != me
        }) by {
            if at.contains(i) {
                let k = choose|k: int| 0 <= k < at.len() && at[k] == i;
                assert(found[k] == panes[i]);
                assert(found.contains(panes[i]));
                crate::laws::law_candidates_are_the_agents_of_the_scope(
                    panes,
                    scope,
                    want,
                    me,
                    panes[i],
                );
            }
        }
        at
    } else {
        Seq::empty()
    }
}

proof fn lemma_sole_candidate(
    panes: Seq<Pane>,
    scope: Scope,
    want: Seq<char>,
    me: Option<Seq<char>>,
    i: int,
)
    requires
        0 <= i < panes.len(),
        forall|j: int|
            0 <= j < panes.len() ==> ((#[trigger] panes[j]).agent is Some && (match scope {
                Scope::Tab => panes[j].tab_id,
                Scope::Workspace => panes[j].workspace_id,
            }) == want && Some(panes[j].pane_id) != me <==> j == i),
    ensures
        candidates_in(panes, scope, Some(want), me) == seq![panes[i]],
{
    let at = law_candidates_are_the_matching_entries_in_order(panes, scope, Some(want), me);
    assert(panes[i].agent is Some);
    assert(at.contains(i));
    assert forall|k: int| 0 <= k < at.len() implies #[trigger] at[k] == i by {
        assert(at.contains(at[k]));
        assert(panes[at[k]].agent is Some);
    }
    if at.len() > 1 {
        assert(at[0] < at[1]);
    }
    assert(candidates_in(panes, scope, Some(want), me) =~= seq![panes[i]]);
}

proof fn lemma_no_sole_candidate(
    panes: Seq<Pane>,
    scope: Scope,
    want: Option<Seq<char>>,
    me: Option<Seq<char>>,
    two: Option<(int, int)>,
)
    requires
        match two {
            Some((j, k)) => {
                &&& 0 <= j < k < panes.len()
                &&& panes[j].agent is Some && Some(panes[j].id_in(scope)) == want && Some(
                    panes[j].pane_id,
                ) != me
                &&& panes[k].agent is Some && Some(panes[k].id_in(scope)) == want && Some(
                    panes[k].pane_id,
                ) != me
            },
            None => forall|j: int|
                0 <= j < panes.len() ==> !((#[trigger] panes[j]).agent is Some && Some(
                    panes[j].id_in(scope),
                ) == want && Some(panes[j].pane_id) != me),
        },
    ensures
        candidates_in(panes, scope, want, me).len() != 1,
{
    let at = law_candidates_are_the_matching_entries_in_order(panes, scope, want, me);
    match two {
        Some((j, k)) => {
            assert(at.contains(j) && at.contains(k));
            let p = choose|p: int| 0 <= p < at.len() && at[p] == j;
            let q = choose|q: int| 0 <= q < at.len() && at[q] == k;
            assert(p != q);
        },
        None => {
            if at.len() > 0 {
                assert(at.contains(at[0]));
                assert(panes[at[0]].agent is Some);
            }
        },
    }
}

/// If one entry alone of the list is another pane's agent in our tab, that entry is tracked,
/// whatever the workspace holds.
pub proof fn law_the_only_agent_of_the_tab_is_tracked(
    panes: Seq<Pane>,
    tab: Seq<char>,
    ws: Option<Seq<char>>,
    me: Option<Seq<char>>,
    i: int,
)
    requires
        0 <= i < panes.len(),
        forall|j: int|
            0 <= j < panes.len() ==> ((#[trigger] panes[j]).agent is Some && panes[j].tab_id == tab
                && Some(panes[j].pane_id) != me <==> j == i),
    ensures
        pick(panes, Some(tab), ws, me) == Some(panes[i]),
{
    lemma_sole_candidate(panes, Scope::Tab, tab, me, i);
}

/// If our tab has no such entry, or two (`in_tab`), and one entry alone is another pane's agent
/// in our workspace, that entry is tracked.
pub proof fn law_the_only_agent_of_the_workspace_is_tracked_next(
    panes: Seq<Pane>,
    tab: Option<Seq<char>>,
    ws: Seq<char>,
    me: Option<Seq<char>>,
    in_tab: Option<(int, int)>,
    i: int,
)
    requires
        match in_tab {
            Some((j, k)) => {
                &&& 0 <= j < k < panes.len()
                &&& panes[j].agent is Some && Some(panes[j].tab_id) == tab && Some(
                    panes[j].pane_id,
                ) != me
                &&& panes[k].agent is Some && Some(panes[k].tab_id) == tab && Some(
                    panes[k].pane_id,
                ) != me
            },
            None => forall|j: int|
                0 <= j < panes.len() ==> !((#[trigger] panes[j]).agent is Some && Some(
                    panes[j].tab_id,
                ) == tab && Some(panes[j].pane_id) != me),
        },
        0 <= i < panes.len(),
        forall|j: int|
            0 <= j < panes.len() ==> ((#[trigger] panes[j]).agent is Some && panes[j].workspace_id
                == ws && Some(panes[j].pane_id) != me <==> j == i),
    ensures
        pick(panes, tab, Some(ws), me) == Some(panes[i]),
{
    lemma_no_sole_candidate(panes, Scope::Tab, tab, me, in_tab);
    lemma_sole_candidate(panes, Scope::Workspace, ws, me, i);
}

/// If our tab has no entry that is another pane's agent, or two (`in_tab`), and so has our
/// workspace (`in_ws`), nothing is tracked.
pub proof fn law_without_an_only_agent_nothing_is_tracked(
    panes: Seq<Pane>,
    tab: Option<Seq<char>>,
    ws: Option<Seq<char>>,
    me: Option<Seq<char>>,
    in_tab: Option<(int, int)>,
    in_ws: Option<(int, int)>,
)
    requires
        match in_tab {
            Some((j, k)) => {
                &&& 0 <= j < k < panes.len()
                &&& panes[j].agent is Some && Some(panes[j].tab_id) == tab && Some(
                    panes[j].pane_id,
                ) != me
                &&& panes[k].agent is Some && Some(panes[k].tab_id) == tab && Some(
                    panes[k].pane_id,
                ) != me
            },
            None => forall|j: int|
                0 <= j < panes.len() ==> !((#[trigger] panes[j]).agent is Some && Some(
                    panes[j].tab_id,
                ) == tab && Some(panes[j].pane_id) != me),
        },
        match in_ws {
            Some((j, k)) => {
                &&& 0 <= j < k < panes.len()
                &&& panes[j].agent is Some && Some(panes[j].workspace_id) == ws && Some(
                    panes[j].pane_id,
                ) != me
                &&& panes[k].agent is Some && Some(panes[k].workspace_id) == ws && Some(
                    panes[k].pane_id,
                ) != me
            },
            None => forall|j: int|
                0 <= j < panes.len() ==> !((#[trigger] panes[j]).agent is Some && Some(
                    panes[j].workspace_id,
                ) == ws && Some(panes[j].pane_id) != me),
        },
    ensures
        pick(panes, tab, ws, me) is None,
{
    lemma_no_sole_candidate(panes, Scope::Tab, tab, me, in_tab);
    lemma_no_sole_candidate(panes, Scope::Workspace, ws, me, in_ws);
}

/// A send is refused exactly if no entry of the list is another pane's agent in our workspace.
pub proof fn law_a_send_is_refused_exactly_without_an_agent(
    panes: Seq<Pane>,
    ws: Option<Seq<char>>,
    me: Option<Seq<char>>,
    tabs: Map<Seq<char>, Seq<char>>,
)
    ensures
        target(panes, ws, me, tabs) is None <==> forall|i: int|
            0 <= i < panes.len() ==> !((#[trigger] panes[i]).agent is Some && Some(
                panes[i].workspace_id,
            ) == ws && Some(panes[i].pane_id) != me),
{
    let at = law_candidates_are_the_matching_entries_in_order(panes, Scope::Workspace, ws, me);
    if at.len() > 0 {
        assert(at.contains(at[0]));
        assert(panes[at[0]].agent is Some);
    }
    assert forall|i: int|
        0 <= i < panes.len() && (#[trigger] panes[i]).agent is Some && Some(panes[i].workspace_id)
            == ws && Some(panes[i].pane_id) != me implies at.len() > 0 by {
        assert(at.contains(i));
    }
}

/// If one entry alone of the list is another pane's agent in our workspace, the send goes
/// straight to that entry's pane, under its name and state and with no tab part.
pub proof fn law_a_send_goes_straight_to_the_only_agent(
    panes: Seq<Pane>,
    ws: Seq<char>,
    me: Option<Seq<char>>,
    tabs: Map<Seq<char>, Seq<char>>,
    i: int,
)
    requires
        0 <= i < panes.len(),
        forall|j: int|
            0 <= j < panes.len() ==> ((#[trigger] panes[j]).agent is Some && panes[j].workspace_id
                == ws && Some(panes[j].pane_id) != me <==> j == i),
    ensures
        target(panes, Some(ws), me, tabs) matches Some(Target::One(row)) && {
            &&& row.pane_id == panes[i].pane_id
            &&& row.name == panes[i].row_name()
            &&& row.state == panes[i].row_state()
            &&& row.tab.len() == 0
        },
{
    lemma_sole_candidate(panes, Scope::Workspace, ws, me, i);
}

/// If two entries of the list are other panes' agents in our workspace, the picker opens over
/// all such entries: `at` gives their places in the list, in rising order, and each row shows
/// the entry at its place.
pub proof fn law_the_picker_offers_every_agent_in_order(
    panes: Seq<Pane>,
    ws: Seq<char>,
    me: Option<Seq<char>>,
    tabs: Map<Seq<char>, Seq<char>>,
    a: int,
    b: int,
) -> (at: Seq<int>)
    requires
        0 <= a < b < panes.len(),
        panes[a].agent is Some && panes[a].workspace_id == ws && Some(panes[a].pane_id) != me,
        panes[b].agent is Some && panes[b].workspace_id == ws && Some(panes[b].pane_id) != me,
    ensures
        at.len() >= 2,
        forall|j: int, k: int| 0 <= j < k < at.len() ==> #[trigger] at[j] < #[trigger] at[k],
        forall|k: int| 0 <= k < at.len() ==> 0 <= #[trigger] at[k] < panes.len(),
        forall|i: int|
            0 <= i < panes.len() ==> (#[trigger] at.contains(i) <==> panes[i].agent is Some
                && panes[i].workspace_id == ws && Some(panes[i].pane_id) != me),
        target(panes, Some(ws), me, tabs) matches Some(Target::Many(rows)) && {
            &&& rows.len() == at.len()
            &&& forall|k: int|
                0 <= k < rows.len() ==> {
                    let pane = panes[at[k]];
                    let row = #[trigger] rows[k];
                    &&& row.pane_id == pane.pane_id
                    &&& row.name == pane.row_name()
                    &&& row.state == pane.row_state()
                    &&& tabs.contains_key(pane.tab_id) ==> row.tab == tabs[pane.tab_id]
                    &&& !tabs.contains_key(pane.tab_id) ==> row.tab.len() == 0
                }
        },
{
    let at = law_candidates_are_the_matching_entries_in_order(
        panes,
        Scope::Workspace,
        Some(ws),
        me,
    );
    assert(at.contains(a) && at.contains(b));
    let j = choose|j: int| 0 <= j < at.len() && at[j] == a;
    let k = choose|k: int| 0 <= k < at.len() && at[k] == b;
    assert(j != k);
    law_rows_go_pane_by_pane(candidates_in(panes, Scope::Workspace, Some(ws), me), tabs);
    at
}

/// A search by any projection of panes to ids finds the agents whose id, as the projection
/// answered it, is the wanted one, but for our own pane: `at` gives their places, in rising
/// order, and `ids` the answers. Panes that run no agent are not asked.
pub proof fn law_a_search_goes_by_what_was_answered<'a, F: Fn(&'a AgentPane) -> &'a str>(
    id: F,
    agents: &[AgentPane],
    want: Seq<char>,
    me: Option<Seq<char>>,
    found: Seq<Pane>,
) -> (res: (Seq<Seq<char>>, Seq<int>))
    requires
        found_by(id, agents, Some(want), me, found),
    ensures
        ({
            let (ids, at) = res;
            &&& ids.len() == agents@.len()
            &&& forall|i: int|
                0 <= i < agents@.len() && (#[trigger] agents@[i]).agent is Some ==> exists|
                    answer: &'a str,
                |
                    call_ensures(id, (&agents@[i],), answer) && #[trigger] answer@ == ids[i]
            &&& at.len() == found.len()
            &&& forall|j: int, k: int| 0 <= j < k < at.len() ==> #[trigger] at[j] < #[trigger] at[k]
            &&& forall|k: int|
                0 <= k < at.len() ==> {
                    &&& 0 <= #[trigger] at[k] < agents@.len()
                    &&& found[k] == agents@[at[k]]@
                }
            &&& forall|i: int|
                0 <= i < agents@.len() ==> (#[trigger] at.contains(i) <==> agents@[i].agent is Some
                    && ids[i] == want && Some(agents@[i].pane_id@) != me)
        }),
{
    let panes = agents.deep_view();
    let ids = choose|ids: Seq<Seq<char>>| #[trigger]
        projected(id, agents@, ids) && found == candidates_by(panes, ids, want, me);
    let at = lemma_places_by(panes, ids, want, me);
    assert forall|i: int| 0 <= i < agents@.len() implies (#[trigger] at.contains(i)
        <==> agents@[i].agent is Some && ids[i] == want && Some(agents@[i].pane_id@) != me) by {
        assert(panes[i] == agents@[i]@);
    }
    (ids, at)
}

proof fn lemma_places_by(
    panes: Seq<Pane>,
    ids: Seq<Seq<char>>,
    want: Seq<char>,
    me: Option<Seq<char>>,
) -> (at: Seq<int>)
    requires
        ids.len() == panes.len(),
    ensures
        at.len() == candidates_by(panes, ids, want, me).len(),
        forall|j: int, k: int| 0 <= j < k < at.len() ==> #[trigger] at[j] < #[trigger] at[k],
        forall|k: int|
            0 <= k < at.len() ==> {
                &&& 0 <= #[trigger] at[k] < panes.len()
                &&& candidates_by(panes, ids, want, me)[k] == panes[at[k]]
            },
        forall|i: int|
            0 <= i < panes.len() ==> (#[trigger] at.contains(i) <==> panes[i].agent is Some
                && ids[i] == want && Some(panes[i].pane_id) != me),
    decreases panes.len(),
{
    if panes.len() == 0 {
        Seq::empty()
    } else {
        let (rest, rest_ids) = (panes.drop_last(), ids.drop_last());
        let before = lemma_places_by(rest, rest_ids, want, me);
        let last = panes.len() - 1;
        let kept = panes[last].agent is Some && ids[last] == want && Some(panes[last].pane_id)
            != me;
        let at = if kept {
            before.push(last)
        } else {
            before
        };
        assert forall|i: int| 0 <= i < panes.len() implies (#[trigger] at.contains(i)
            <==> panes[i].agent is Some && ids[i] == want && Some(panes[i].pane_id) != me) by {
            if i < last {
                assert(rest[i] == panes[i] && rest_ids[i] == ids[i]);
                if before.contains(i) {
                    let k = choose|k: int| 0 <= k < before.len() && before[k] == i;
                    assert(at[k] == i);
                }
                if at.contains(i) {
                    let k = choose|k: int| 0 <= k < at.len() && at[k] == i;
                    assert(before[k] == i);
                }
            } else if kept {
                assert(at[at.len() - 1] == i);
            } else if at.contains(i) {
                let k = choose|k: int| 0 <= k < at.len() && at[k] == i;
                assert(before[k] < last);
            }
        }
        at
    }
}

/// A search without an id to look for finds nothing.
pub proof fn law_a_search_for_no_id_finds_nothing<'a, F: Fn(&'a AgentPane) -> &'a str>(
    id: F,
    agents: &[AgentPane],
    me: Option<Seq<char>>,
    found: Seq<Pane>,
)
    requires
        found_by(id, agents, None, me, found),
    ensures
        found.len() == 0,
{
}

/// The label of a key is what the labels hold for it.
pub proof fn law_a_label_is_what_is_held_for_its_key(
    labels: Map<Seq<char>, Seq<char>>,
    key: Seq<char>,
)
    ensures
        labels.contains_key(key) ==> label_of(labels, key) == Some(labels[key]),
        !labels.contains_key(key) ==> label_of(labels, key) is None,
{
}

/// Reading one more tab labels that tab, if it has a label, and changes nothing else. No tabs
/// give no labels.
pub proof fn law_each_labelled_tab_adds_its_label(tabs: Seq<Tab>, tab: Tab, id: Seq<char>)
    ensures
        !labels_of(Seq::empty()).contains_key(id),
        tab.label is Some && tab.tab_id == id ==> labels_of(tabs.push(tab)).contains_key(id)
            && labels_of(tabs.push(tab))[id] == tab.label->0,
        tab.label is None || tab.tab_id != id ==> {
            &&& labels_of(tabs.push(tab)).contains_key(id) <==> labels_of(tabs).contains_key(id)
            &&& labels_of(tabs).contains_key(id) ==> labels_of(tabs.push(tab))[id] == labels_of(
                tabs,
            )[id]
        },
{
    assert(tabs.push(tab).drop_last() =~= tabs);
}

/// What each error says.
pub proof fn law_the_words_of_the_errors(args: Vec<String>, said: String)
    ensures
        (HerdrError::NotStarted { args, cause: said }).words() == "running herdr "@ + debug_text(
            args.deep_view(),
        ),
        (HerdrError::Failed { args, stderr: said }).words() == "herdr "@ + debug_text(
            args.deep_view(),
        ) + " failed: "@ + said@,
        (HerdrError::AgentList { cause: said }).words() == "parsing agent list"@,
        (HerdrError::TabList { cause: said }).words() == "parsing tab list"@,
        HerdrError::NoAgent.words() == "no agent here — copy to the clipboard instead"@,
{
}

/// White space is the characters with Unicode's `White_Space` property.
pub proof fn law_white_space_is_the_unicode_property(c: char)
    ensures
        is_white_space(c) <==> {
            let code = c as u32;
            0x9 <= code <= 0xd || code == 0x20 || code == 0x85 || code == 0xa0 || code == 0x1680
                || 0x2000 <= code <= 0x200a || code == 0x2028 || code == 0x2029 || code == 0x202f
                || code == 0x205f || code == 0x3000
        },
{
}

/// Text between white space is what trimming leaves, if it neither begins nor ends with white
/// space itself.
pub proof fn law_trimming_takes_off_the_white_space_round_a_text(
    left: Seq<char>,
    inner: Seq<char>,
    right: Seq<char>,
)
    requires
        forall|i: int| 0 <= i < left.len() ==> is_white_space(#[trigger] left[i]),
        forall|i: int| 0 <= i < right.len() ==> is_white_space(#[trigger] right[i]),
        inner.len() > 0 ==> !is_white_space(inner[0]) && !is_white_space(inner[inner.len() - 1]),
    ensures
        is_trimmed(left + inner + right, inner),
{
    let text = left + inner + right;
    let (from, to) = (left.len() as int, (left.len() + inner.len()) as int);
    assert(text.subrange(from, to) =~= inner);
    assert forall|i: int| 0 <= i < from implies is_white_space(#[trigger] text[i]) by {
        assert(text[i] == left[i]);
    }
    assert forall|i: int| to <= i < text.len() implies is_white_space(#[trigger] text[i]) by {
        assert(text[i] == right[i - to]);
    }
}

} // verus!
