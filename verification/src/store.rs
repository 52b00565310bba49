//! What an application's store is told about requests and services.

use vstd::prelude::*;

verus! {

/// Names the store of an application, to which actions are sent.
#[derive(Debug, Clone, Copy, PartialEq, Eq, Structural)]
pub struct StoreDispatcher {
    pub id: u64,
}

/// How the services behind the application are doing.
#[derive(Debug, PartialEq)]
pub struct HealthStatus {
    pub all_services_down: bool,
    pub down_services: Vec<String>,
    pub message: String,
    /// Milliseconds since the epoch.
    pub last_updated: i64,
}

/// A [`HealthStatus`] with its texts as sequences of characters.
pub struct HealthStatusView {
    pub all_services_down: bool,
    pub down_services: Seq<Seq<char>>,
    pub message: Seq<char>,
    pub last_updated: int,
}

/// A list of texts as sequences of characters.
pub open spec fn texts_view(texts: Seq<String>) -> Seq<Seq<char>> {
    texts.map_values(|text: String| text@)
}

impl View for HealthStatus {
    type V = HealthStatusView;

    open spec fn view(&self) -> HealthStatusView {
        HealthStatusView {
            all_services_down: self.all_services_down,
            down_services: texts_view(self.down_services@),
            message: self.message@,
            last_updated: self.last_updated as int,
        }
    }
}

/// A copy of a list of texts.
fn copy_texts(texts: &Vec<String>) -> (copy: Vec<String>)
    ensures
        copy@ == texts@,
{
    let mut copy: Vec<String> = Vec::new();
    let mut at: usize = 0;
    while at < texts.len()
        invariant
            at <= texts@.len(),
            copy@ == texts@.take(at as int),
        decreases texts@.len() - at,
    {
        copy.push(texts[at].clone());
        assert(texts@.take(at + 1) =~= texts@.take(at as int).push(texts@[at as int]));
        at += 1;
    }
    assert(texts@.take(at as int) =~= texts@);
    copy
}

impl Clone for HealthStatus {
    fn clone(&self) -> (copy: Self)
        ensures
            copy@ == self@,
    {
        HealthStatus {
            all_services_down: self.all_services_down,
            down_services: copy_texts(&self.down_services),
            message: self.message.clone(),
            last_updated: self.last_updated,
        }
    }
}

/// What a store can be told.
#[derive(Debug, PartialEq)]
pub enum AppAction {
    /// Show that something is loading.
    EnableLoader,
    /// No longer show that something is loading.
    DisableLoader,
    /// How far a request has come, in percent.
    UpdateProgress(u8),
    /// Show a text to the user.
    ShowNotification(String),
    /// The services are doing so.
    ServiceHealthUpdated(HealthStatus),
}

/// An [`AppAction`] with its texts as sequences of characters.
pub enum AppActionView {
    EnableLoader,
    DisableLoader,
    UpdateProgress(u8),
    ShowNotification(Seq<char>),
    ServiceHealthUpdated(HealthStatusView),
}

impl View for AppAction {
    type V = AppActionView;

    open spec fn view(&self) -> AppActionView {
        match *self {
            AppAction::EnableLoader => AppActionView::EnableLoader,
            AppAction::DisableLoader => AppActionView::DisableLoader,
            AppAction::UpdateProgress(percent) => AppActionView::UpdateProgress(percent),
            AppAction::ShowNotification(text) => AppActionView::ShowNotification(text@),
            AppAction::ServiceHealthUpdated(status) => AppActionView::ServiceHealthUpdated(status@),
        }
    }
}

/// A list of actions, by view.
pub open spec fn actions_view(actions: Seq<AppAction>) -> Seq<AppActionView> {
    actions.map_values(|action: AppAction| action@)
}

} // verus!
