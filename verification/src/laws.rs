//! What holds of the library as a whole.
use crate::command::HerdrError;
use crate::labels::label_of;
use crate::pane::{AgentPane, Pane, Row};
use crate::replies::{labels_of, Tab};
use crate::resolve::{candidates_in, is_candidate, pick, Scope};
use crate::send::{listed, target, Target};
use crate::status::Status;
use crate::text::{is_trimmed, is_white_space};
use vstd::prelude::*;

verus! {

/// A pane is a candidate exactly if herdr lists it, it runs an agent, its id in the scope is the
/// wanted one, and it is not our own pane. Without an id to look for there is no candidate.
pub proof fn law_candidates_are_the_agents_of_the_scope(
    panes: Seq<Pane>,
    scope: Scope,
    want: Option<Seq<char>>,
    me: Option<Seq<char>>,
    pane: Pane,
)
    ensures
        candidates_in(panes, scope, want, me).contains(pane) <==> {
            &&& panes.contains(pane)
            &&& pane.agent is Some
            &&& Some(pane.id_in(scope)) == want
            &&& Some(pane.pane_id) != me
        },
{
    broadcast use vstd::seq_lib::group_filter_ensures;
    broadcast use Seq::lemma_filter_contains_rev;

    if let Some(id) = want {
        let keep = |pane: Pane| is_candidate(pane, pane.id_in(scope), id, me);
        let found = panes.filter(keep);
        if found.contains(pane) {
            let k = choose|k: int| 0 <= k < found.len() && found[k] == pane;
            assert(keep(found[k]));
        }
        if panes.contains(pane) && keep(pane) {
            let k = choose|k: int| 0 <= k < panes.len() && panes[k] == pane;
            assert(found.contains(panes[k]));
        }
    }
}

/// `at` holds, in rising order, where each of `found` stands in `panes`.
pub open spec fn stands_at(panes: Seq<Pane>, found: Seq<Pane>, at: Seq<int>) -> bool {
    &&& at.len() == found.len()
    &&& forall|k: int| 0 <= k < at.len() ==> 0 <= #[trigger] at[k] < panes.len()
    &&& forall|k: int| 0 <= k < at.len() ==> #[trigger] found[k] == panes[at[k]]
    &&& forall|j: int, k: int| 0 <= j < k < at.len() ==> #[trigger] at[j] < #[trigger] at[k]
}

/// The candidates come in herdr's own order, each entry of the list at most once, and no entry
/// that qualifies is left out.
pub proof fn law_candidates_keep_the_order_of_the_list(
    panes: Seq<Pane>,
    scope: Scope,
    want: Seq<char>,
    me: Option<Seq<char>>,
) -> (at: Seq<int>)
    ensures
        stands_at(panes, candidates_in(panes, scope, Some(want), me), at),
        forall|i: int|
            0 <= i < panes.len() && is_candidate(
                #[trigger] panes[i],
                panes[i].id_in(scope),
                want,
                me,
            ) ==> at.contains(i),
    decreases panes.len(),
{
    reveal(Seq::filter);
    if panes.len() == 0 {
        Seq::empty()
    } else {
        let rest = panes.drop_last();
        let before = law_candidates_keep_the_order_of_the_list(rest, scope, want, me);
        let last = panes.len() - 1;
        let kept = is_candidate(panes.last(), panes.last().id_in(scope), want, me);
        let at = if kept {
            before.push(last)
        } else {
            before
        };
        assert forall|i: int|
            0 <= i < panes.len() && is_candidate(
                #[trigger] panes[i],
                panes[i].id_in(scope),
                want,
                me,
            ) implies at.contains(i) by {
            if i < last {
                assert(rest[i] == panes[i]);
                assert(before.contains(i));
                let k = choose|k: int| 0 <= k < before.len() && before[k] == i;
                assert(at[k] == i);
            } else {
                assert(at[at.len() - 1] == i);
            }
        }
        at
    }
}

/// Where herdr lists each pane once, no pane is a candidate twice.
pub proof fn law_no_pane_is_a_candidate_twice(
    panes: Seq<Pane>,
    scope: Scope,
    want: Seq<char>,
    me: Option<Seq<char>>,
)
    requires
        forall|i: int, j: int|
            0 <= i < j < panes.len() ==> (#[trigger] panes[i]).pane_id != (
            #[trigger] panes[j]).pane_id,
    ensures
        ({
            let found = candidates_in(panes, scope, Some(want), me);
            forall|i: int, j: int|
                0 <= i < j < found.len() ==> (#[trigger] found[i]).pane_id != (
                #[trigger] found[j]).pane_id
        }),
{
    let found = candidates_in(panes, scope, Some(want), me);
    let at = law_candidates_keep_the_order_of_the_list(panes, scope, want, me);
    assert forall|i: int, j: int| 0 <= i < j < found.len() implies (#[trigger] found[i]).pane_id
        != (#[trigger] found[j]).pane_id by {
        assert(at[i] < at[j]);
        assert(found[i] == panes[at[i]] && found[j] == panes[at[j]]);
    }
}

/// The candidates of a list that goes on are those of its first part, then those of the rest.
pub proof fn law_candidates_of_a_longer_list(
    panes: Seq<Pane>,
    more: Seq<Pane>,
    scope: Scope,
    want: Option<Seq<char>>,
    me: Option<Seq<char>>,
)
    ensures
        candidates_in(panes + more, scope, want, me) == candidates_in(panes, scope, want, me)
            + candidates_in(more, scope, want, me),
{
    if let Some(id) = want {
        let keep = |pane: Pane| is_candidate(pane, pane.id_in(scope), id, me);
        Seq::filter_distributes_over_add(panes, more, keep);
    } else {
        assert(Seq::<Pane>::empty() + Seq::<Pane>::empty() =~= Seq::<Pane>::empty());
    }
}

/// Knowing our own pane takes that pane out of the candidates, and no other.
pub proof fn law_our_own_pane_alone_is_left_out(
    panes: Seq<Pane>,
    scope: Scope,
    want: Option<Seq<char>>,
    me: Seq<char>,
)
    ensures
        candidates_in(panes, scope, want, Some(me)) == candidates_in(
            panes,
            scope,
            want,
            None,
        ).filter(|pane: Pane| pane.pane_id != me),
    decreases panes.len(),
{
    broadcast use Seq::lemma_filter_push;

    reveal(Seq::filter);
    if want is Some && panes.len() > 0 {
        law_our_own_pane_alone_is_left_out(panes.drop_last(), scope, want, me);
    }
}

/// The order in which herdr lists the panes does not matter to tracking.
pub proof fn law_tracking_ignores_the_order_of_the_list(
    panes: Seq<Pane>,
    other: Seq<Pane>,
    tab: Option<Seq<char>>,
    ws: Option<Seq<char>>,
    me: Option<Seq<char>>,
)
    requires
        panes.to_multiset() == other.to_multiset(),
    ensures
        pick(panes, tab, ws, me) == pick(other, tab, ws, me),
{
    lemma_same_candidates(panes, other, Scope::Tab, tab, me);
    lemma_same_candidates(panes, other, Scope::Workspace, ws, me);
}

proof fn lemma_same_candidates(
    panes: Seq<Pane>,
    other: Seq<Pane>,
    scope: Scope,
    want: Option<Seq<char>>,
    me: Option<Seq<char>>,
)
    requires
        panes.to_multiset() == other.to_multiset(),
    ensures
        candidates_in(panes, scope, want, me).len() == candidates_in(other, scope, want, me).len(),
        candidates_in(panes, scope, want, me).len() == 1 ==> candidates_in(panes, scope, want, me)
            == candidates_in(other, scope, want, me),
{
    broadcast use vstd::seq_lib::group_to_multiset_ensures;

    if let Some(id) = want {
        let keep = |pane: Pane| is_candidate(pane, pane.id_in(scope), id, me);
        lemma_filter_to_multiset(panes, keep);
        lemma_filter_to_multiset(other, keep);
        let (a, b) = (panes.filter(keep), other.filter(keep));
        assert(a.len() == a.to_multiset().len() && b.len() == b.to_multiset().len());
        if a.len() == 1 {
            assert(a.contains(a[0]));
            assert(b.to_multiset().count(a[0]) > 0);
            assert(a =~= b);
        }
    }
}

proof fn lemma_filter_to_multiset(panes: Seq<Pane>, keep: spec_fn(Pane) -> bool)
    ensures
        panes.filter(keep).to_multiset() == panes.to_multiset().filter(keep),
    decreases panes.len(),
{
    broadcast use vstd::seq_lib::group_to_multiset_ensures;
    broadcast use vstd::multiset::group_multiset_axioms;

    reveal(Seq::filter);
    if panes.len() > 0 {
        let rest = panes.drop_last();
        lemma_filter_to_multiset(rest, keep);
        assert(panes =~= rest.push(panes.last()));
        assert(panes.filter(keep).to_multiset() =~= panes.to_multiset().filter(keep));
    } else {
        assert(panes.filter(keep).to_multiset() =~= panes.to_multiset().filter(keep));
    }
}

/// A pane that runs no agent, and our own pane, change nothing wherever herdr lists them:
/// neither which agent is tracked nor where a send goes.
pub proof fn law_non_agents_and_our_own_pane_change_nothing(
    panes: Seq<Pane>,
    i: int,
    other: Pane,
    tab: Option<Seq<char>>,
    ws: Option<Seq<char>>,
    me: Option<Seq<char>>,
    tabs: Map<Seq<char>, Seq<char>>,
)
    requires
        0 <= i <= panes.len(),
        other.agent is None || Some(other.pane_id) == me,
    ensures
        pick(panes.insert(i, other), tab, ws, me) == pick(panes, tab, ws, me),
        target(panes.insert(i, other), ws, me, tabs) == target(panes, ws, me, tabs),
{
    lemma_no_candidate_adds_nothing(panes, i, other, Scope::Tab, tab, me);
    lemma_no_candidate_adds_nothing(panes, i, other, Scope::Workspace, ws, me);
}

proof fn lemma_no_candidate_adds_nothing(
    panes: Seq<Pane>,
    i: int,
    other: Pane,
    scope: Scope,
    want: Option<Seq<char>>,
    me: Option<Seq<char>>,
)
    requires
        0 <= i <= panes.len(),
        other.agent is None || Some(other.pane_id) == me,
    ensures
        candidates_in(panes.insert(i, other), scope, want, me) == candidates_in(
            panes,
            scope,
            want,
            me,
        ),
{
    if let Some(id) = want {
        let keep = |pane: Pane| is_candidate(pane, pane.id_in(scope), id, me);
        let (left, right) = (panes.take(i), panes.skip(i));
        assert(panes =~= left + right);
        assert(panes.insert(i, other) =~= left.push(other) + right);
        Seq::filter_distributes_over_add(left, right, keep);
        Seq::filter_distributes_over_add(left.push(other), right, keep);
        left.lemma_filter_push(other, keep);
    }
}

/// The tab wins: a sole agent in our tab is tracked, whatever else the workspace holds.
pub proof fn law_the_tab_wins(
    panes: Seq<Pane>,
    tab: Option<Seq<char>>,
    ws: Option<Seq<char>>,
    me: Option<Seq<char>>,
)
    requires
        candidates_in(panes, Scope::Tab, tab, me).len() == 1,
    ensures
        pick(panes, tab, ws, me) == Some(candidates_in(panes, Scope::Tab, tab, me)[0]),
{
}

/// Tracking never guesses: it pauses exactly if neither the tab nor the workspace has a sole
/// agent.
pub proof fn law_tracking_never_guesses(
    panes: Seq<Pane>,
    tab: Option<Seq<char>>,
    ws: Option<Seq<char>>,
    me: Option<Seq<char>>,
)
    ensures
        pick(panes, tab, ws, me) is None <==> candidates_in(panes, Scope::Tab, tab, me).len() != 1
            && candidates_in(panes, Scope::Workspace, ws, me).len() != 1,
{
}

/// The tracked pane is one that herdr lists, runs an agent, shares our tab or our workspace, and
/// is never our own.
pub proof fn law_the_tracked_pane_is_an_agent_beside_us(
    panes: Seq<Pane>,
    tab: Option<Seq<char>>,
    ws: Option<Seq<char>>,
    me: Option<Seq<char>>,
)
    ensures
        pick(panes, tab, ws, me) matches Some(pane) ==> {
            &&& panes.contains(pane)
            &&& pane.agent is Some
            &&& Some(pane.tab_id) == tab || Some(pane.workspace_id) == ws
            &&& Some(pane.pane_id) != me
        },
{
    if let Some(pane) = pick(panes, tab, ws, me) {
        law_candidates_are_the_agents_of_the_scope(panes, Scope::Tab, tab, me, pane);
        law_candidates_are_the_agents_of_the_scope(panes, Scope::Workspace, ws, me, pane);
        if candidates_in(panes, Scope::Tab, tab, me).len() == 1 {
            assert(candidates_in(panes, Scope::Tab, tab, me).contains(pane));
        } else {
            assert(candidates_in(panes, Scope::Workspace, ws, me).contains(pane));
        }
    }
}

/// Outside any tab and workspace nothing is tracked, and without a workspace nothing is sent.
pub proof fn law_without_ids_nothing_resolves(
    panes: Seq<Pane>,
    me: Option<Seq<char>>,
    tabs: Map<Seq<char>, Seq<char>>,
)
    ensures
        pick(panes, None, None, me) is None,
        target(panes, None, me, tabs) is None,
{
}

/// A send is refused exactly without a candidate, goes straight through with exactly one, and
/// opens the picker over all of them with several.
pub proof fn law_the_count_decides_the_send(
    panes: Seq<Pane>,
    ws: Option<Seq<char>>,
    me: Option<Seq<char>>,
    tabs: Map<Seq<char>, Seq<char>>,
)
    ensures
        ({
            let count = candidates_in(panes, Scope::Workspace, ws, me).len();
            &&& target(panes, ws, me, tabs) is None <==> count == 0
            &&& (target(panes, ws, me, tabs) matches Some(Target::One(_))) <==> count == 1
            &&& (target(panes, ws, me, tabs) matches Some(Target::Many(_))) <==> count >= 2
            &&& target(panes, ws, me, tabs) matches Some(Target::Many(rows)) ==> rows.len() == count
        }),
{
}

/// The rows that a target addresses.
pub open spec fn addressed(target: Option<Target>) -> Seq<Row> {
    match target {
        None => Seq::empty(),
        Some(Target::One(row)) => seq![row],
        Some(Target::Many(rows)) => rows,
    }
}

/// Every row a send addresses is an agent that herdr lists in our workspace, under its own pane
/// id, and never our own pane.
pub proof fn law_a_send_addresses_listed_agents(
    panes: Seq<Pane>,
    ws: Option<Seq<char>>,
    me: Option<Seq<char>>,
    tabs: Map<Seq<char>, Seq<char>>,
    row: Row,
)
    requires
        addressed(target(panes, ws, me, tabs)).contains(row),
    ensures
        Some(row.pane_id) != me,
        exists|pane: Pane|
            {
                &&& #[trigger] panes.contains(pane)
                &&& pane.agent is Some
                &&& Some(pane.workspace_id) == ws
                &&& pane.pane_id == row.pane_id
                &&& pane.row_name() == row.name
                &&& pane.row_state() == row.state
            },
{
    let picked = candidates_in(panes, Scope::Workspace, ws, me);
    let all = addressed(target(panes, ws, me, tabs));
    let k = choose|k: int| 0 <= k < all.len() && all[k] == row;
    let pane = picked[k];
    assert(picked.contains(pane));
    law_candidates_are_the_agents_of_the_scope(panes, Scope::Workspace, ws, me, pane);
    assert(panes.contains(pane));
}

/// A failed enumeration refuses the send just as an empty list does.
pub proof fn law_a_failed_enumeration_refuses(
    error: HerdrError,
    ws: Option<Seq<char>>,
    me: Option<Seq<char>>,
    tabs: Map<Seq<char>, Seq<char>>,
)
    ensures
        target(listed(Err::<Vec<AgentPane>, HerdrError>(error)), ws, me, tabs) == target(
            Seq::empty(),
            ws,
            me,
            tabs,
        ),
        target(Seq::empty(), ws, me, tabs) is None,
{
    reveal(Seq::filter);
}

/// The refusal points the user to the clipboard.
pub proof fn law_the_refusal_says_clipboard()
    ensures
        exists|i: int, j: int|
            0 <= i <= j <= HerdrError::NoAgent.words().len()
                && #[trigger] HerdrError::NoAgent.words().subrange(i, j) == "clipboard"@,
{
    reveal_strlit("no agent here — copy to the clipboard instead");
    reveal_strlit("clipboard");
    assert(HerdrError::NoAgent.words().subrange(28, 37) =~= "clipboard"@);
}

/// Labelling is best effort: whatever the tab labels are, the same agents are addressed in the
/// same order under the same names and states. Only the tab part of a row may differ.
pub proof fn law_labels_touch_only_the_tab_part(
    panes: Seq<Pane>,
    ws: Option<Seq<char>>,
    me: Option<Seq<char>>,
    tabs: Map<Seq<char>, Seq<char>>,
    other_tabs: Map<Seq<char>, Seq<char>>,
)
    ensures
        ({
            let some = addressed(target(panes, ws, me, tabs));
            let other = addressed(target(panes, ws, me, other_tabs));
            &&& some.len() == other.len()
            &&& forall|k: int|
                0 <= k < some.len() ==> {
                    &&& (#[trigger] some[k]).pane_id == (#[trigger] other[k]).pane_id
                    &&& some[k].name == other[k].name
                    &&& some[k].state == other[k].state
                }
        }),
{
}

/// Without labels every row's tab part is blank.
pub proof fn law_without_labels_no_tab_is_shown(
    panes: Seq<Pane>,
    ws: Option<Seq<char>>,
    me: Option<Seq<char>>,
)
    ensures
        forall|k: int|
            0 <= k < addressed(target(panes, ws, me, Map::empty())).len() ==> (
            #[trigger] addressed(target(panes, ws, me, Map::empty()))[k]).tab.len() == 0,
{
}

/// A send that goes straight through shows no tab, whatever the labels are.
pub proof fn law_a_direct_send_shows_no_tab(
    panes: Seq<Pane>,
    ws: Option<Seq<char>>,
    me: Option<Seq<char>>,
    tabs: Map<Seq<char>, Seq<char>>,
)
    ensures
        target(panes, ws, me, tabs) matches Some(Target::One(row)) ==> row.tab.len() == 0,
{
}

/// Where the tab does not decide, tracking and the direct send agree: an agent is tracked
/// exactly if a send goes straight through, and it goes to that agent.
pub proof fn law_tracking_agrees_with_the_direct_send(
    panes: Seq<Pane>,
    tab: Option<Seq<char>>,
    ws: Option<Seq<char>>,
    me: Option<Seq<char>>,
    tabs: Map<Seq<char>, Seq<char>>,
)
    requires
        candidates_in(panes, Scope::Tab, tab, me).len() != 1,
    ensures
        match pick(panes, tab, ws, me) {
            Some(pane) => target(panes, ws, me, tabs) == Some(
                Target::One(pane.row(Map::empty())),
            ),
            None => !(target(panes, ws, me, tabs) matches Some(Target::One(_))),
        },
{
}

/// A row always names something, as long as the pane has an id.
pub proof fn law_a_row_always_has_a_name(pane: Pane)
    requires
        pane.pane_id.len() > 0,
    ensures
        pane.row_name().len() > 0,
{
}

/// An agent of a known kind is never called by its pane id: its name is its given name, its
/// display name or its kind.
pub proof fn law_a_live_agent_is_called_by_name(pane: Pane)
    requires
        pane.agent matches Some(kind) && kind.len() > 0,
    ensures
        Some(pane.row_name()) == pane.name || Some(pane.row_name()) == pane.display_agent || Some(
            pane.row_name(),
        ) == pane.agent,
{
}

/// A given name that is not blank wins. A cleared or blank one reads as if there were none.
pub proof fn law_a_blank_name_falls_through(pane: Pane, given: Seq<char>)
    ensures
        given.len() > 0 ==> (Pane { name: Some(given), ..pane }).row_name() == given,
        given.len() == 0 ==> (Pane { name: Some(given), ..pane }).row_name() == (Pane {
            name: None,
            ..pane
        }).row_name(),
{
}

/// A row always says a state.
pub proof fn law_a_row_always_has_a_state(pane: Pane)
    ensures
        pane.row_state().len() > 0,
{
    law_spellings_are_distinct_words(pane.agent_status, pane.agent_status);
}

/// No state is spelled blank, and no two states are spelled alike.
pub proof fn law_spellings_are_distinct_words(a: Status, b: Status)
    ensures
        a.spelling().len() > 0,
        a.spelling() == b.spelling() ==> a == b,
{
    reveal_strlit("idle");
    reveal_strlit("working");
    reveal_strlit("blocked");
    reveal_strlit("done");
    reveal_strlit("unknown");
    assert("idle"@[0] == 'i' && "done"@[0] == 'd');
    assert("working"@[0] == 'w' && "blocked"@[0] == 'b' && "unknown"@[0] == 'u');
}

/// A status survives the wire, and a word that spells no status reads as unknown.
pub proof fn law_a_status_survives_the_wire(status: Status, word: Seq<char>)
    ensures
        Status::named(status.spelling()) == status,
        Status::named(word) == status ==> word == status.spelling() || status == Status::Unknown,
{
    law_spellings_are_distinct_words(status, Status::Idle);
    law_spellings_are_distinct_words(status, Status::Working);
    law_spellings_are_distinct_words(status, Status::Blocked);
    law_spellings_are_distinct_words(status, Status::Done);
}

/// A tab has a label exactly if some entry of the tab list gives it one, and its label is that
/// of the last entry that does. A tab without a label is dropped.
pub proof fn law_the_last_label_of_a_tab_stands(tabs: Seq<Tab>, id: Seq<char>)
    ensures
        match label_of(labels_of(tabs), id) {
            Some(label) => exists|i: int|
                {
                    &&& 0 <= i < tabs.len()
                    &&& #[trigger] tabs[i] == (Tab { tab_id: id, label: Some(label) })
                    &&& forall|j: int|
                        i < j < tabs.len() && (#[trigger] tabs[j]).tab_id == id ==> tabs[j].label
                            is None
                },
            None => forall|i: int|
                0 <= i < tabs.len() && (#[trigger] tabs[i]).tab_id == id ==> tabs[i].label is None,
        },
    decreases tabs.len(),
{
    if tabs.len() > 0 {
        let rest = tabs.drop_last();
        let last = tabs.len() - 1;
        law_the_last_label_of_a_tab_stands(rest, id);
        assert(forall|i: int| 0 <= i < last ==> rest[i] == tabs[i]);
        if tabs[last].tab_id == id && tabs[last].label is Some {
            assert(tabs[last] == (Tab { tab_id: id, label: label_of(labels_of(tabs), id) }));
        } else if let Some(label) = label_of(labels_of(rest), id) {
            let i = choose|i: int|
                {
                    &&& 0 <= i < rest.len()
                    &&& #[trigger] rest[i] == (Tab { tab_id: id, label: Some(label) })
                    &&& forall|j: int|
                        i < j < rest.len() && (#[trigger] rest[j]).tab_id == id ==> rest[j].label
                            is None
                };
            assert(tabs[i] == (Tab { tab_id: id, label: Some(label) }));
        } else {
            assert forall|i: int| 0 <= i < tabs.len() && (#[trigger] tabs[i]).tab_id == id implies
                tabs[i].label is None
            by {
                if i < last {
                    assert(rest[i].tab_id == id);
                }
            }
        }
    }
}

/// A failed run has one message: there is one way to trim what it said.
pub proof fn law_there_is_one_way_to_trim(text: Seq<char>, a: Seq<char>, b: Seq<char>)
    requires
        is_trimmed(text, a),
        is_trimmed(text, b),
    ensures
        a == b,
{
    let (a_from, a_to) = choose|from: int, to: int|
        {
            &&& 0 <= from <= to <= text.len()
            &&& a == #[trigger] text.subrange(from, to)
            &&& forall|i: int| 0 <= i < from ==> is_white_space(#[trigger] text[i])
            &&& forall|i: int| to <= i < text.len() ==> is_white_space(#[trigger] text[i])
        };
    let (b_from, b_to) = choose|from: int, to: int|
        {
            &&& 0 <= from <= to <= text.len()
            &&& b == #[trigger] text.subrange(from, to)
            &&& forall|i: int| 0 <= i < from ==> is_white_space(#[trigger] text[i])
            &&& forall|i: int| to <= i < text.len() ==> is_white_space(#[trigger] text[i])
        };
    if a.len() > 0 {
        assert(a.first() == text[a_from] && a.last() == text[a_to - 1]);
    }
    if b.len() > 0 {
        assert(b.first() == text[b_from] && b.last() == text[b_to - 1]);
    }
    assert(a =~= b);
}

} // verus!
