//! Sending: the command lines, the replies, and where a send goes.
use herdr_host::command::{
    agent_list_args, carried_out, focus, herdr, herdr_bin, send_text, tab_list_args, HerdrError,
    Outcome,
};
use herdr_host::labels::Labels;
use herdr_host::pane::{AgentChoice, AgentPane};
use herdr_host::replies::{
    agent_list, opened_beside, parse_agents, parse_tab_labels, tab_labels, AgentList,
    AgentListResponse, PluginContext, TabInfo, TabList, TabListResponse,
};
use herdr_host::resolve::pick_agent;
use herdr_host::send::{send_target, SendStep, SendTarget};
use herdr_host::status::Status;

fn agent(pane: &str, tab: &str, ws: &str) -> AgentPane {
    AgentPane {
        agent: Some("codex".to_string()),
        agent_status: Status::Idle,
        pane_id: pane.to_string(),
        tab_id: tab.to_string(),
        workspace_id: ws.to_string(),
        ..AgentPane::default()
    }
}

fn row(pane: &str, tab: &str) -> AgentChoice {
    AgentChoice {
        pane_id: pane.to_string(),
        name: "codex".to_string(),
        state: "idle".to_string(),
        tab: tab.to_string(),
    }
}

fn tabs(entries: &[(&str, Option<&str>)]) -> TabListResponse {
    let tabs = entries
        .iter()
        .map(|(id, label)| TabInfo { tab_id: id.to_string(), label: label.map(str::to_string) })
        .collect();
    TabListResponse { result: TabList { tabs } }
}

fn exited(success: bool, stdout: &[u8], stderr: &[u8]) -> Outcome {
    Outcome::Exited { success, stdout: stdout.to_vec(), stderr: stderr.to_vec() }
}

/// A send carried to its end, with `reply` as the answer to the tab list.
fn settle(
    agents: Result<Vec<AgentPane>, HerdrError>,
    ws: Option<&str>,
    me: Option<&str>,
    reply: Option<TabListResponse>,
) -> Result<SendTarget, HerdrError> {
    match send_target(&agents, ws, me) {
        SendStep::Settled(settled) => settled,
        SendStep::Pick(picker) => {
            let answer = match reply {
                Some(response) => Ok(Ok(response)),
                None => Err(HerdrError::NotStarted {
                    args: picker.request().unwrap(),
                    cause: "gone".to_string(),
                }),
            };
            Ok(picker.open(&tab_labels(Some(answer))))
        }
    }
}

#[test]
fn no_agent_refuses_and_points_to_the_clipboard() {
    let refused = settle(Ok(Vec::new()), Some("w8"), None, None);
    assert_eq!(refused, Err(HerdrError::NoAgent));
    assert_eq!(
        refused.unwrap_err().message(),
        "no agent here — copy to the clipboard instead"
    );
    // Our own pane is no agent to send to, and neither is one of another workspace.
    let agents = vec![agent("w8:p5", "w8:t1", "w8"), agent("w9:p1", "w9:t1", "w9")];
    assert_eq!(settle(Ok(agents), Some("w8"), Some("w8:p5"), None), Err(HerdrError::NoAgent));
    let agents = vec![agent("w8:p1", "w8:t1", "w8")];
    assert_eq!(settle(Ok(agents), None, None, None), Err(HerdrError::NoAgent));
}

#[test]
fn a_failed_enumeration_refuses_like_an_empty_list() {
    let failed = Err(HerdrError::AgentList { cause: "not JSON".to_string() });
    assert_eq!(settle(failed, Some("w8"), None, None), Err(HerdrError::NoAgent));
}

#[test]
fn one_agent_is_sent_to_directly_without_a_tab_part() {
    let agents = Ok(vec![agent("w8:p1", "w8:t1", "w8"), agent("w9:p1", "w9:t1", "w9")]);
    match send_target(&agents, Some("w8"), None) {
        SendStep::Settled(settled) => {
            assert_eq!(settled, Ok(SendTarget::One(row("w8:p1", ""))))
        }
        SendStep::Pick(_) => panic!("one agent needs no picker"),
    }
}

#[test]
fn several_agents_open_the_picker_with_their_tab_labels() {
    let agents = || Ok(vec![agent("w8:p2", "w8:t2", "w8"), agent("w8:p1", "w8:t1", "w8")]);
    let listed = agents();
    match send_target(&listed, Some("w8"), None) {
        SendStep::Settled(_) => panic!("two agents need the picker"),
        SendStep::Pick(picker) => assert_eq!(
            picker.request(),
            Some(vec![
                "tab".to_string(),
                "list".to_string(),
                "--workspace".to_string(),
                "w8".to_string(),
            ])
        ),
    }
    let labels = tabs(&[("w8:t1", Some("Grip Outreach")), ("w8:t2", None)]);
    assert_eq!(
        settle(agents(), Some("w8"), None, Some(labels)),
        Ok(SendTarget::Many(vec![row("w8:p2", ""), row("w8:p1", "Grip Outreach")]))
    );
    // A failed tab list costs the labels and nothing else.
    assert_eq!(
        settle(agents(), Some("w8"), None, None),
        Ok(SendTarget::Many(vec![row("w8:p2", ""), row("w8:p1", "")]))
    );
}

#[test]
fn tab_labels_drop_unlabelled_tabs_and_keep_the_last_label() {
    let entries = [
        ("w8:t1", Some("old")),
        ("w8:t2", None),
        ("w8:t1", Some("new")),
        ("w8:t1", None),
    ];
    let labels = parse_tab_labels(Ok(tabs(&entries))).ok().unwrap();
    assert_eq!(labels.get("w8:t1").map(String::as_str), Some("new"));
    assert_eq!(labels.get("w8:t2"), None);
    let refused = parse_tab_labels(Err("invalid type".to_string())).err();
    assert_eq!(refused, Some(HerdrError::TabList { cause: "invalid type".to_string() }));
    assert_eq!(refused.unwrap().message(), "parsing tab list");
}

#[test]
fn labelling_is_best_effort() {
    let cause = || "x".to_string();
    assert_eq!(tab_labels(None).get("w8:t1"), None);
    assert_eq!(tab_labels(Some(Err(HerdrError::NoAgent))).get("w8:t1"), None);
    assert_eq!(tab_labels(Some(Ok(Err(cause())))).get("w8:t1"), None);
    let labels = tab_labels(Some(Ok(Ok(tabs(&[("w8:t1", Some("Grip Outreach"))])))));
    assert_eq!(labels.get("w8:t1").map(String::as_str), Some("Grip Outreach"));
}

#[test]
fn labels_hold_the_last_label_of_a_key() {
    let mut labels = Labels::new();
    assert_eq!(labels.get("a"), None);
    labels.insert("a".to_string(), "one".to_string());
    labels.insert("b".to_string(), "other".to_string());
    labels.insert("a".to_string(), "two".to_string());
    assert_eq!(labels.get("a").map(String::as_str), Some("two"));
    assert_eq!(labels.get("b").map(String::as_str), Some("other"));
}

#[test]
fn the_agent_list_is_the_envelope_or_the_first_error() {
    let response =
        || AgentListResponse { result: AgentList { agents: vec![agent("w8:p1", "w8:t1", "w8")] } };
    assert_eq!(parse_agents(Ok(response())).ok().unwrap()[0].pane_id, "w8:p1");
    assert_eq!(agent_list(Ok(Ok(response()))).ok().unwrap().len(), 1);
    let unreadable = agent_list(Ok(Err("EOF".to_string()))).err().unwrap();
    assert_eq!(unreadable, HerdrError::AgentList { cause: "EOF".to_string() });
    assert_eq!(unreadable.message(), "parsing agent list");
    let failed =
        HerdrError::Failed { args: vec!["agent".to_string()], stderr: "boom".to_string() };
    assert_eq!(agent_list(Err(failed.clone())).err(), Some(failed));
}

#[test]
fn a_successful_run_answers_with_its_stdout() {
    let text = "{\"result\": \"é—\"}\n";
    assert_eq!(herdr(agent_list_args(), exited(true, text.as_bytes(), b"noise")), Ok(text.into()));
    // Bytes that are not UTF-8 are replaced.
    assert_eq!(herdr(agent_list_args(), exited(true, b"a\xffb", b"")), Ok("a\u{fffd}b".into()));
}

#[test]
fn a_failed_run_says_what_failed_and_why() {
    let refused = herdr(agent_list_args(), exited(false, b"ignored", b" \n no \xff server\t\n"));
    assert_eq!(
        refused,
        Err(HerdrError::Failed {
            args: vec!["agent".to_string(), "list".to_string()],
            stderr: "no \u{fffd} server".to_string(),
        })
    );
    assert_eq!(
        refused.unwrap_err().message(),
        "herdr [\"agent\", \"list\"] failed: no \u{fffd} server"
    );
    // Valid UTF-8 is said as it stands, but for the white space round it.
    let plain = herdr(focus("p"), exited(false, b"", "  no such pane: é\n".as_bytes()));
    assert_eq!(
        plain.unwrap_err().message(),
        "herdr [\"agent\", \"focus\", \"p\"] failed: no such pane: é"
    );
    let silent = herdr(focus("p"), exited(false, b"", "\u{3000}\u{85} ".as_bytes()));
    assert_eq!(silent.unwrap_err().message(), "herdr [\"agent\", \"focus\", \"p\"] failed: ");
}

#[test]
fn white_space_is_trimmed_by_the_unicode_property() {
    let spaces = |code: u32| {
        matches!(
            code,
            0x9..=0xd
                | 0x20
                | 0x85
                | 0xa0
                | 0x1680
                | 0x2000..=0x200a
                | 0x2028
                | 0x2029
                | 0x202f
                | 0x205f
                | 0x3000
        )
    };
    for c in (0..=0xffff).filter_map(char::from_u32) {
        let said = format!("{c}a{c}b{c}");
        let heard = if spaces(u32::from(c)) { format!("a{c}b") } else { said.clone() };
        let error = herdr(Vec::new(), exited(false, b"", said.as_bytes())).unwrap_err();
        assert_eq!(error, HerdrError::Failed { args: Vec::new(), stderr: heard });
    }
}

#[test]
fn panes_that_run_no_agent_change_no_send() {
    let agents = || vec![agent("w8:p1", "w8:t1", "w8"), agent("w8:p2", "w8:t2", "w8")];
    let labels = || Some(tabs(&[("w8:t1", Some("one")), ("w8:t2", Some("two"))]));
    let plain = settle(Ok(agents()), Some("w8"), Some("w8:p9"), labels());
    assert_eq!(plain, Ok(SendTarget::Many(vec![row("w8:p1", "one"), row("w8:p2", "two")])));
    for i in 0..=2 {
        let mut more = agents();
        more.insert(i, AgentPane { agent: None, ..agent("w8:p3", "w8:t1", "w8") });
        more.insert(i, agent("w8:p9", "w8:t1", "w8"));
        assert_eq!(settle(Ok(more), Some("w8"), Some("w8:p9"), labels()), plain);
    }
}

#[test]
fn a_direct_send_goes_to_the_tracked_agent() {
    let agents = vec![agent("w8:p1", "w8:t1", "w8"), agent("w9:p1", "w9:t1", "w9")];
    let followed = pick_agent(&agents, Some("w8:tX"), Some("w8"), None).unwrap().pane_id.clone();
    assert_eq!(followed, "w8:p1");
    assert_eq!(
        settle(Ok(agents), Some("w8"), None, None),
        Ok(SendTarget::One(row(&followed, "")))
    );
}

#[test]
fn a_sole_tab_agent_does_not_spare_the_picker() {
    let agents = vec![agent("w8:p1", "w8:t1", "w8"), agent("w8:p2", "w8:t2", "w8")];
    let followed = pick_agent(&agents, Some("w8:t1"), Some("w8"), None);
    assert_eq!(followed.unwrap().pane_id, "w8:p1");
    assert_eq!(
        settle(Ok(agents), Some("w8"), None, None),
        Ok(SendTarget::Many(vec![row("w8:p1", ""), row("w8:p2", "")]))
    );
}

#[test]
fn a_run_that_did_not_start_says_so() {
    let refused = herdr(send_text("p\"1", "a\nb"), Outcome::NotStarted("no such file".to_string()));
    let error = refused.unwrap_err();
    assert_eq!(error.message(), "running herdr [\"pane\", \"send-text\", \"p\\\"1\", \"a\\nb\"]");
    assert_eq!(
        error,
        HerdrError::NotStarted {
            args: send_text("p\"1", "a\nb"),
            cause: "no such file".to_string(),
        }
    );
}

#[test]
fn the_program_comes_from_the_environment_or_the_search_path() {
    assert_eq!(herdr_bin(Some("/opt/herdr".to_string())), "/opt/herdr");
    assert_eq!(herdr_bin(None), "herdr");
}

#[test]
fn commands_carry_their_arguments_as_they_are() {
    assert_eq!(agent_list_args(), ["agent", "list"]);
    assert_eq!(tab_list_args(Some("w8")).unwrap(), ["tab", "list", "--workspace", "w8"]);
    assert_eq!(tab_list_args(None), None);
    assert_eq!(
        send_text("w8:p1", "two\nlines -- \"quoted\""),
        ["pane", "send-text", "w8:p1", "two\nlines -- \"quoted\""]
    );
    assert_eq!(focus("w8:p1"), ["agent", "focus", "w8:p1"]);
}

#[test]
fn an_acting_command_is_carried_out_or_fails() {
    assert_eq!(carried_out(Ok("ignored".to_string())), Ok(()));
    assert_eq!(carried_out(Err(HerdrError::NoAgent)), Err(HerdrError::NoAgent));
}

#[test]
fn the_pane_opened_beside_comes_from_the_plugin_context() {
    let focused = PluginContext { focused_pane_id: Some("w8:p1".to_string()) };
    assert_eq!(opened_beside(Some(Ok(focused))), Some("w8:p1".to_string()));
    assert_eq!(opened_beside(Some(Ok(PluginContext { focused_pane_id: None }))), None);
    assert_eq!(opened_beside(Some(Err("not JSON".to_string()))), None);
    assert_eq!(opened_beside(None), None);
}
