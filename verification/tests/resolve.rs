//! Candidates, turn tracking and picker rows.
use herdr_host::command::HerdrError;
use herdr_host::labels::Labels;
use herdr_host::pane::{AgentChoice, AgentPane};
use herdr_host::resolve::{candidates, pick_agent, resolved_agent_status};
use herdr_host::status::Status;
use std::cell::Cell;

/// One agent entry shaped like the real `herdr agent list` output.
fn agent(pane: &str, tab: &str, ws: &str) -> AgentPane {
    AgentPane {
        agent: Some("codex".to_string()),
        agent_status: Status::Working,
        pane_id: pane.to_string(),
        tab_id: tab.to_string(),
        workspace_id: ws.to_string(),
        ..AgentPane::default()
    }
}

/// One non-agent pane: `agent_status: unknown`, no `agent` field. A plugin sidebar or a plain
/// shell.
fn non_agent_pane(pane: &str, tab: &str, ws: &str) -> AgentPane {
    AgentPane {
        agent: None,
        agent_status: Status::Unknown,
        pane_id: pane.to_string(),
        tab_id: tab.to_string(),
        workspace_id: ws.to_string(),
        ..AgentPane::default()
    }
}

/// [`pick_agent`] reduced to the picked `pane_id`, for terse assertions.
fn pick(
    agents: &[AgentPane],
    tab: Option<&str>,
    ws: Option<&str>,
    me: Option<&str>,
) -> Option<String> {
    pick_agent(agents, tab, ws, me).map(|agent| agent.pane_id.clone())
}

/// The picker rows of the workspace candidates.
fn rows(
    agents: &[AgentPane],
    ws: Option<&str>,
    me: Option<&str>,
    tabs: &Labels,
) -> Vec<AgentChoice> {
    candidates(agents, ws, me, |agent| &agent.workspace_id)
        .into_iter()
        .map(|agent| agent.choice(tabs))
        .collect()
}

#[test]
fn pick_prefers_the_tab_agent_over_the_workspace() {
    let agents = vec![agent("w8:p1", "w8:t1", "w8"), agent("w8:p2", "w8:t2", "w8")];
    // Both share workspace w8; our tab is w8:t2, so its pane wins.
    assert_eq!(pick(&agents, Some("w8:t2"), Some("w8"), None), Some("w8:p2".to_string()));
}

#[test]
fn pick_falls_back_to_the_sole_workspace_agent() {
    let agents = vec![agent("w8:p1", "w8:t1", "w8")];
    // No agent shares our tab, but exactly one is in the workspace.
    assert_eq!(pick(&agents, Some("w8:tX"), Some("w8"), None), Some("w8:p1".to_string()));
}

#[test]
fn the_reviewr_pane_excludes_itself_so_the_real_agent_resolves() {
    // Even if herdr listed our own sidebar pane (w8:p5) as an agent alongside the real one
    // (w8:p1), excluding our pane leaves the real agent unambiguous.
    let agents = vec![agent("w8:p1", "w8:t1", "w8"), agent("w8:p5", "w8:t1", "w8")];
    assert_eq!(
        pick(&agents, Some("w8:t1"), Some("w8"), Some("w8:p5")),
        Some("w8:p1".to_string())
    );
}

#[test]
fn non_agent_panes_do_not_make_the_tab_ambiguous() {
    // A tab holding one real agent plus a non-agent pane resolves to the agent.
    let agents = vec![agent("w3:p1", "w3:t1", "w3"), non_agent_pane("w3:p4", "w3:t1", "w3")];
    assert_eq!(
        pick(&agents, Some("w3:t1"), Some("w3"), Some("w3:p5")),
        Some("w3:p1".to_string())
    );
}

#[test]
fn only_non_agent_panes_resolve_no_one() {
    // A tab and workspace holding nothing but non-agent panes resolves no one.
    let agents =
        vec![non_agent_pane("w3:p2", "w3:t1", "w3"), non_agent_pane("w3:p4", "w3:t1", "w3")];
    assert_eq!(pick(&agents, Some("w3:t1"), Some("w3"), None), None);
}

#[test]
fn no_matching_agent_resolves_no_one() {
    let agents = vec![agent("w9:p1", "w9:t1", "w9")];
    // An agent exists, but in another workspace entirely: nothing resolves.
    assert_eq!(pick(&agents, Some("w8:t1"), Some("w8"), None), None);
}

#[test]
fn two_workspace_agents_resolve_no_one() {
    let agents = vec![agent("w8:p1", "w8:t1", "w8"), agent("w8:p2", "w8:t2", "w8")];
    // Neither shares our tab and the workspace has two: tracking refuses to guess.
    assert_eq!(pick(&agents, Some("w8:tZ"), Some("w8"), None), None);
}

#[test]
fn two_tab_agents_resolve_no_one_even_without_a_workspace_id() {
    let agents = vec![agent("w8:p1", "w8:t1", "w8"), agent("w8:p2", "w8:t1", "w8")];
    // Two agents share our tab and no workspace id is available to widen the scope: tracking
    // still refuses to guess between them.
    assert_eq!(pick(&agents, Some("w8:t1"), None, None), None);
}

/// One agent carrying the picker-facing fields herdr omits until something sets them.
fn named(pane: &str, tab: &str, ws: &str, name: Option<&str>) -> AgentPane {
    AgentPane { name: name.map(str::to_string), ..agent(pane, tab, ws) }
}

#[test]
fn a_row_name_prefers_the_rename_then_the_display_agent_then_the_kind() {
    // `herdr agent rename` sets `name`, which wins.
    assert_eq!(named("w8:p1", "w8:t1", "w8", Some("release-bot")).row_name(), "release-bot");
    // `--clear` leaves the key present and null, which falls through like an absent one.
    let cleared = named("w8:p1", "w8:t1", "w8", None);
    assert_eq!(cleared.row_name(), "codex");
    // With no kind either, the pane id keeps the row and the success line from going blank.
    let anonymous = AgentPane { agent: None, ..agent("w8:p1", "w8:t1", "w8") };
    assert_eq!(anonymous.row_name(), "w8:p1");
    let displayed = AgentPane {
        agent: None,
        display_agent: Some("Codex".into()),
        ..agent("w8:p1", "w8:t1", "w8")
    };
    assert_eq!(displayed.row_name(), "Codex");
}

#[test]
fn a_row_state_prefers_the_state_label_over_the_wire_spelling() {
    let mut labels = Labels::new();
    labels.insert("working".to_string(), "thinking".to_string());
    let labelled = AgentPane { state_labels: Some(labels), ..agent("w8:p1", "w8:t1", "w8") };
    assert_eq!(labelled.row_state(), "thinking");
    // herdr sends no `state_labels` unless they are set, so a live row falls back to the state
    // itself.
    assert_eq!(agent("w8:p1", "w8:t1", "w8").row_state(), "working");
}

#[test]
fn picker_rows_are_every_workspace_agent_in_herdr_order_with_its_tab_label() {
    let agents = vec![
        agent("w8:p1", "w8:t1", "w8"),
        non_agent_pane("w8:p4", "w8:t1", "w8"),
        named("w8:p2", "w8:t2", "w8", Some("release-bot")),
        agent("w9:p1", "w9:t1", "w9"),
    ];
    let mut tabs = Labels::new();
    tabs.insert("w8:t1".to_string(), "Grip Outreach".to_string());
    // w8:t2 has no label, so that row shows its state alone.
    let rows = rows(&agents, Some("w8"), Some("w8:p9"), &tabs);
    assert_eq!(
        rows,
        vec![
            AgentChoice {
                pane_id: "w8:p1".into(),
                name: "codex".into(),
                state: "working".into(),
                tab: "Grip Outreach".into(),
            },
            AgentChoice {
                pane_id: "w8:p2".into(),
                name: "release-bot".into(),
                state: "working".into(),
                tab: String::new(),
            },
        ]
    );
}

#[test]
fn picker_rows_exclude_the_sidebar_and_every_non_agent_pane() {
    // A shell and our own pane never become rows.
    let agents = vec![
        agent("w3:p1", "w3:t1", "w3"),
        non_agent_pane("w3:p4", "w3:t1", "w3"),
        agent("w3:p5", "w3:t1", "w3"),
    ];
    let rows = rows(&agents, Some("w3"), Some("w3:p5"), &Labels::new());
    assert_eq!(rows.iter().map(|r| r.pane_id.as_str()).collect::<Vec<_>>(), ["w3:p1"]);
}

#[test]
fn a_default_pane_is_blank() {
    let pane = AgentPane::default();
    assert_eq!(pane.agent, None);
    assert_eq!(pane.agent_status, Status::Unknown);
    assert_eq!(pane.pane_id, "");
    assert_eq!(pane.row_name(), "");
    assert_eq!(pane.row_state(), "unknown");
}

#[test]
fn blank_parts_of_a_row_fall_through() {
    let blank = AgentPane {
        name: Some(String::new()),
        display_agent: Some(String::new()),
        ..agent("w8:p1", "w8:t1", "w8")
    };
    assert_eq!(blank.row_name(), "codex");
    let kindless = AgentPane { agent: Some(String::new()), ..agent("w8:p1", "w8:t1", "w8") };
    assert_eq!(kindless.row_name(), "w8:p1");
    let mut labels = Labels::new();
    labels.insert("working".to_string(), String::new());
    labels.insert("idle".to_string(), "resting".to_string());
    let labelled = AgentPane { state_labels: Some(labels), ..agent("w8:p1", "w8:t1", "w8") };
    assert_eq!(labelled.row_state(), "working");
}

#[test]
fn nothing_is_a_candidate_without_an_id_to_look_for() {
    let agents = vec![agent("w8:p1", "w8:t1", "w8")];
    assert!(candidates(&agents, None, None, |agent| &agent.workspace_id).is_empty());
    assert_eq!(pick(&agents, None, None, None), None);
}

#[test]
fn any_id_can_be_searched_by_and_only_agents_are_asked_for_it() {
    let agents = vec![
        agent("w8:p1", "w8:t1", "w8"),
        non_agent_pane("w8:p2", "w8:t1", "w8"),
        agent("w8:p3", "w8:t2", "w8"),
    ];
    let asked = Cell::new(0);
    let found = candidates(&agents, Some("w8:p3"), None, |agent| {
        asked.set(asked.get() + 1);
        &agent.pane_id
    });
    assert_eq!(found.len(), 1);
    assert_eq!(found[0].pane_id, "w8:p3");
    assert_eq!(asked.get(), 2);
}

#[test]
fn candidates_keep_repeated_entries_in_order() {
    let agents = vec![
        named("w8:p1", "w8:t1", "w8", Some("a")),
        named("w8:p2", "w8:t2", "w9", Some("b")),
        named("w8:p1", "w8:t1", "w8", Some("c")),
    ];
    let names: Vec<String> = rows(&agents, Some("w8"), None, &Labels::new())
        .into_iter()
        .map(|row| row.name)
        .collect();
    assert_eq!(names, ["a", "c"]);
}

#[test]
fn an_ambiguous_tab_still_falls_back_to_a_sole_workspace_agent() {
    // Tab ids are taken as they come: two agents share the tab, one of them our workspace.
    let agents = vec![agent("w8:p1", "t1", "w8"), agent("w9:p1", "t1", "w9")];
    assert_eq!(pick(&agents, Some("t1"), Some("w9"), None), Some("w9:p1".to_string()));
}

#[test]
fn the_status_of_the_resolved_agent_is_tracked() {
    let agents = || vec![agent("w8:p1", "w8:t1", "w8")];
    assert_eq!(
        resolved_agent_status(Ok(agents()), Some("w8:t1"), None, None),
        Ok(Some(Status::Working))
    );
    assert_eq!(resolved_agent_status(Ok(agents()), None, Some("w9"), None), Ok(None));
    assert_eq!(resolved_agent_status(Ok(Vec::new()), Some("w8:t1"), Some("w8"), None), Ok(None));
}

#[test]
fn a_failed_enumeration_fails_the_tracking() {
    let error = HerdrError::AgentList { cause: "not JSON".to_string() };
    assert_eq!(
        resolved_agent_status(Err(error.clone()), Some("w8:t1"), Some("w8"), None),
        Err(error)
    );
}

#[test]
fn a_status_survives_the_wire() {
    for status in
        [Status::Idle, Status::Working, Status::Blocked, Status::Done, Status::Unknown]
    {
        assert_eq!(Status::from_wire(status.as_str()), status);
    }
    assert_eq!(Status::Idle.as_str(), "idle");
    assert_eq!(Status::Blocked.as_str(), "blocked");
    assert_eq!(Status::Done.as_str(), "done");
    assert_eq!(Status::from_wire("starting"), Status::Unknown);
    assert_eq!(Status::from_wire("Idle"), Status::Unknown);
    assert_eq!(Status::from_wire(""), Status::Unknown);
    assert_eq!(Status::default(), Status::Unknown);
}

#[test]
fn the_order_of_the_list_does_not_matter_to_tracking() {
    let list = || {
        vec![
            agent("w8:p1", "w8:t1", "w8"),
            agent("w8:p2", "w8:t2", "w8"),
            non_agent_pane("w8:p3", "w8:t2", "w8"),
        ]
    };
    let mut turned = list();
    turned.reverse();
    for tab in ["w8:t1", "w8:t2", "w8:t3"] {
        assert_eq!(
            pick(&list(), Some(tab), Some("w8"), None),
            pick(&turned, Some(tab), Some("w8"), None)
        );
    }
    assert_eq!(pick(&turned, Some("w8:t2"), Some("w8"), None), Some("w8:p2".to_string()));
}

#[test]
fn our_own_pane_alone_is_left_out() {
    let list = vec![
        agent("w8:p1", "w8:t1", "w8"),
        agent("w8:p2", "w8:t1", "w8"),
        agent("w8:p3", "w8:t2", "w8"),
    ];
    let ids = |agents: &[AgentPane], me: Option<&str>| -> Vec<String> {
        candidates(agents, Some("w8"), me, |agent| &agent.workspace_id)
            .into_iter()
            .map(|agent| agent.pane_id.clone())
            .collect()
    };
    assert_eq!(ids(&list, None), ["w8:p1", "w8:p2", "w8:p3"]);
    assert_eq!(ids(&list, Some("w8:p2")), ["w8:p1", "w8:p3"]);
    // A list in two parts gives the candidates of the first, then those of the second.
    assert_eq!(ids(&list[..1], None), ["w8:p1"]);
    assert_eq!(ids(&list[1..], None), ["w8:p2", "w8:p3"]);
}
