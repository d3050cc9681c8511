//! What herdr's decoded replies say.
use crate::command::{Decoded, HerdrError};
use crate::labels::Labels;
use crate::pane::AgentPane;
use vstd::prelude::*;

verus! {

/// The envelope of `herdr agent list`.
pub struct AgentListResponse {
    pub result: AgentList,
}

/// The agents that herdr lists, in its own order.
pub struct AgentList {
    pub agents: Vec<AgentPane>,
}

/// The envelope of `herdr tab list`.
pub struct TabListResponse {
    pub result: TabList,
}

/// The tabs of one workspace.
pub struct TabList {
    pub tabs: Vec<TabInfo>,
}

/// One tab. A tab need not have a label.
pub struct TabInfo {
    pub tab_id: String,
    pub label: Option<String>,
}

/// The plugin context that herdr puts in a pane's own environment.
pub struct PluginContext {
    pub focused_pane_id: Option<String>,
}

/// A [`TabInfo`] as plain text.
pub ghost struct Tab {
    pub tab_id: Seq<char>,
    pub label: Option<Seq<char>>,
}

impl View for TabInfo {
    type V = Tab;

    open spec fn view(&self) -> Tab {
        Tab { tab_id: self.tab_id@, label: self.label.deep_view() }
    }
}

impl DeepView for TabInfo {
    type V = Tab;

    open spec fn deep_view(&self) -> Tab {
        self@
    }
}

/// The labels of a list of tabs. A tab without a label adds nothing; of two labels for one tab
/// the later one stands.
pub open spec fn labels_of(tabs: Seq<Tab>) -> Map<Seq<char>, Seq<char>>
    decreases tabs.len(),
{
    if tabs.len() == 0 {
        Map::empty()
    } else {
        let before = labels_of(tabs.drop_last());
        match tabs.last().label {
            Some(label) => before.insert(tabs.last().tab_id, label),
            None => before,
        }
    }
}

/// The documented `result.agents` array from `herdr agent list`.
pub fn parse_agents(reply: Decoded<AgentListResponse>) -> (res: Result<Vec<AgentPane>, HerdrError>)
    ensures
        match reply {
            Ok(response) => res == Ok::<Vec<AgentPane>, HerdrError>(response.result.agents),
            Err(cause) => res == Err::<Vec<AgentPane>, HerdrError>(HerdrError::AgentList { cause }),
        },
{
    match reply {
        Ok(response) => Ok(response.result.agents),
        Err(cause) => Err(HerdrError::AgentList { cause }),
    }
}

/// The agents herdr currently lists, given its reply to
/// [`agent_list_args`](crate::command::agent_list_args).
pub fn agent_list(reply: Result<Decoded<AgentListResponse>, HerdrError>) -> (res: Result<
    Vec<AgentPane>,
    HerdrError,
>)
    ensures
        match reply {
            Ok(Ok(response)) => res == Ok::<Vec<AgentPane>, HerdrError>(response.result.agents),
            Ok(Err(cause)) => res == Err::<Vec<AgentPane>, HerdrError>(
                HerdrError::AgentList { cause },
            ),
            Err(error) => res == Err::<Vec<AgentPane>, HerdrError>(error),
        },
{
    match reply {
        Ok(decoded) => parse_agents(decoded),
        Err(error) => Err(error),
    }
}

/// The documented `result.tabs` array from `herdr tab list`, as tab id to label. A tab without
/// a label is dropped, so its rows show no tab part.
pub fn parse_tab_labels(reply: Decoded<TabListResponse>) -> (res: Result<Labels, HerdrError>)
    ensures
        match reply {
            Ok(response) => res matches Ok(labels) && labels@ == labels_of(
                response.result.tabs.deep_view(),
            ),
            Err(cause) => res == Err::<Labels, HerdrError>(HerdrError::TabList { cause }),
        },
{
    let tabs = match reply {
        Ok(response) => response.result.tabs,
        Err(cause) => return Err(HerdrError::TabList { cause }),
    };
    let mut labels = Labels::new();
    let mut i: usize = 0;
    while i < tabs.len()
        invariant
            i <= tabs@.len(),
            labels@ == labels_of(tabs.deep_view().take(i as int)),
        decreases tabs.len() - i,
    {
        let tab = &tabs[i];
        if let Some(label) = &tab.label {
            labels.insert(tab.tab_id.clone(), label.clone());
        }
        assert(tabs.deep_view().take(i + 1).drop_last() =~= tabs.deep_view().take(i as int));
        i += 1;
    }
    assert(tabs.deep_view().take(i as int) =~= tabs.deep_view());
    Ok(labels)
}

/// Tab id to tab label for one workspace, given herdr's reply to
/// [`tab_list_args`](crate::command::tab_list_args), or `None` where nothing was asked.
/// Labelling is best effort: a failed call or an unreadable reply gives no labels.
pub fn tab_labels(reply: Option<Result<Decoded<TabListResponse>, HerdrError>>) -> (res: Labels)
    ensures
        res@ == match reply {
            Some(Ok(Ok(response))) => labels_of(response.result.tabs.deep_view()),
            _ => Map::empty(),
        },
{
    match reply {
        Some(Ok(decoded)) => match parse_tab_labels(decoded) {
            Ok(labels) => labels,
            Err(_) => Labels::new(),
        },
        _ => Labels::new(),
    }
}

/// The pane the sidebar was opened beside, given the decoded plugin context, or `None` where
/// the environment holds none. The pane can have closed since, so it is one highlight candidate
/// among others.
pub fn opened_beside(context: Option<Decoded<PluginContext>>) -> (res: Option<String>)
    ensures
        res == match context {
            Some(Ok(context)) => context.focused_pane_id,
            _ => None,
        },
{
    match context {
        Some(Ok(context)) => context.focused_pane_id,
        _ => None,
    }
}

} // verus!
