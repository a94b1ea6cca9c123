//! One run of the synchronisation, stage by stage.
//!
//! A run gets a token, reads the remote table, takes the local records,
//! plans, writes to the remote table and hands out what is to be written
//! locally. The run itself sends and reads nothing: at each stage it says
//! what is to be done, and goes on when it is told how that went. Whatever
//! goes wrong on the way ends the run with an outcome that says so; a run
//! never ends without an outcome.

use vstd::prelude::*;
use vstd::string::StringExecFns;
use crate::config::{ConfigView, FeishuConfig};
use crate::error::{ErrorView, FeishuSyncError};
use crate::json::{parsed_json, JsonValue, JsonView};
use crate::planner::{calculate_sync_plan, lemma_plan_sizes, plan_of, SyncPlan, SyncPlanView};
use crate::reader::{after_answer, empty_listing, list_url, list_url_text, ListingView, RecordListing};
use crate::record::{record_views, PromptRecord, RecordView};
use crate::token::{
    token_endpoint, token_endpoint_text, token_from_response, token_outcome, token_request, token_request_body,
    token_result_view, TenantTokenApiResponse, TokenView,
};
use crate::writer::{
    count_view, create_outcome, create_request, create_request_body, create_result, create_url, create_url_text,
    update_outcome, update_request, update_request_body, update_result, update_url, update_url_text,
};

verus! {

/// The outcome of a run, as it is shown to the user.
#[derive(Debug, PartialEq, Eq)]
pub struct SyncResult {
    pub success: bool,
    pub message: String,
    pub local_created: u32,
    pub local_updated: u32,
    pub remote_created: u32,
    pub remote_updated: u32,
    /// The sum of the four counts.
    pub total_processed: u32,
}

/// The content of a [`SyncResult`].
pub struct ResultView {
    pub success: bool,
    pub message: Seq<char>,
    pub local_created: u32,
    pub local_updated: u32,
    pub remote_created: u32,
    pub remote_updated: u32,
    pub total_processed: u32,
}

impl View for SyncResult {
    type V = ResultView;

    open spec fn view(&self) -> ResultView {
        ResultView {
            success: self.success,
            message: self.message@,
            local_created: self.local_created,
            local_updated: self.local_updated,
            remote_created: self.remote_created,
            remote_updated: self.remote_updated,
            total_processed: self.total_processed,
        }
    }
}

/// The outcome of a run that a failure ended: no success, what was being
/// done and the failure in words, and nothing counted.
pub open spec fn failure_saying(words: Seq<char>, error: ErrorView) -> ResultView {
    ResultView {
        success: false,
        message: words + error.message(),
        local_created: 0,
        local_updated: 0,
        remote_created: 0,
        remote_updated: 0,
        total_processed: 0,
    }
}

/// The outcome of a run that a failure ended, where no more is known than
/// that it was a failure of the synchronisation.
pub open spec fn failure_result(error: ErrorView) -> ResultView {
    failure_saying("同步失败: "@, error)
}

/// The outcome of a run that went through, with what it counted.
pub open spec fn success_result(
    local_created: u32,
    local_updated: u32,
    remote_created: u32,
    remote_updated: u32,
) -> ResultView {
    ResultView {
        success: true,
        message: "同步成功"@,
        local_created,
        local_updated,
        remote_created,
        remote_updated,
        total_processed: (local_created + local_updated + remote_created + remote_updated) as u32,
    }
}

impl SyncResult {
    /// The outcome of a run that a failure ended while it was doing what
    /// `words` say.
    pub fn failed_saying(words: &str, error: &FeishuSyncError) -> (result: SyncResult)
        ensures
            result@ == failure_saying(words@, error@),
    {
        let failure = error.message();
        SyncResult {
            success: false,
            message: String::from_str(words).concat(failure.as_str()),
            local_created: 0,
            local_updated: 0,
            remote_created: 0,
            remote_updated: 0,
            total_processed: 0,
        }
    }

    /// The outcome of a run that a failure ended.
    pub fn failed(error: &FeishuSyncError) -> (result: SyncResult)
        ensures
            result@ == failure_result(error@),
    {
        Self::failed_saying("同步失败: ", error)
    }

    /// The outcome of a run that went through, with what it counted.
    pub fn completed(local_created: u32, local_updated: u32, remote_created: u32, remote_updated: u32) -> (result:
        SyncResult)
        requires
            local_created + local_updated + remote_created + remote_updated <= u32::MAX,
        ensures
            result@ == success_result(local_created, local_updated, remote_created, remote_updated),
            result@.total_processed == local_created + local_updated + remote_created + remote_updated,
    {
        SyncResult {
            success: true,
            message: String::from_str("同步成功"),
            local_created,
            local_updated,
            remote_created,
            remote_updated,
            total_processed: local_created + local_updated + remote_created + remote_updated,
        }
    }
}

/// Where a run stands, with what it has gathered so far.
#[derive(Debug, PartialEq, Eq)]
pub enum SyncStage {
    /// The token has been asked for.
    AcquireToken,
    /// A page of the remote table has been asked for.
    FetchRemote { access_token: String, listing: RecordListing },
    /// The local records have been asked for.
    ObtainLocalSnapshot { access_token: String, remote: Vec<PromptRecord> },
    /// The new records have been sent to the remote table.
    ApplyRemoteCreates { access_token: String, plan: SyncPlan },
    /// The changed records have been sent to the remote table.
    ApplyRemoteUpdates { access_token: String, plan: SyncPlan, remote_created: u32 },
    /// The run is over.
    Finished,
}

/// A run of the synchronisation against one table.
#[derive(Debug, PartialEq, Eq)]
pub struct SyncSession {
    pub app_token: String,
    pub table_id: String,
    pub stage: SyncStage,
}

/// What a run is told.
#[derive(Debug, PartialEq, Eq)]
pub enum SyncEvent {
    /// The text that came back on the last request.
    Answer(String),
    /// The last request did not get through; why, in words.
    TransportFailure(String),
    /// The local records.
    LocalSnapshot(Vec<PromptRecord>),
}

/// What a run asks to be done.
#[derive(Debug, PartialEq, Eq)]
#[allow(inconsistent_fields)]
pub enum SyncAction {
    /// Send a document, and come back with the answer.
    Post { url: String, authorization: Option<String>, body: JsonValue },
    /// Ask for a document, and come back with the answer.
    Get { url: String, authorization: String },
    /// Come back with the local records.
    ReadLocalSnapshot,
    /// Write these records to the local store, and show the outcome.
    Finish { create_local: Vec<PromptRecord>, update_local: Vec<PromptRecord>, result: SyncResult },
}

/// The content of a [`SyncStage`].
pub enum StageView {
    AcquireToken,
    FetchRemote { access_token: Seq<char>, listing: ListingView },
    ObtainLocalSnapshot { access_token: Seq<char>, remote: Seq<RecordView> },
    ApplyRemoteCreates { access_token: Seq<char>, plan: SyncPlanView },
    ApplyRemoteUpdates { access_token: Seq<char>, plan: SyncPlanView, remote_created: u32 },
    Finished,
}

/// The content of a [`SyncSession`].
pub struct SessionView {
    pub app_token: Seq<char>,
    pub table_id: Seq<char>,
    pub stage: StageView,
}

/// The content of a [`SyncEvent`].
pub enum EventView {
    Answer(Seq<char>),
    TransportFailure(Seq<char>),
    LocalSnapshot(Seq<RecordView>),
}

/// The content of a [`SyncAction`].
#[allow(inconsistent_fields)]
pub enum ActionView {
    Post { url: Seq<char>, authorization: Option<Seq<char>>, body: JsonView },
    Get { url: Seq<char>, authorization: Seq<char> },
    ReadLocalSnapshot,
    Finish { create_local: Seq<RecordView>, update_local: Seq<RecordView>, result: ResultView },
}

impl View for SyncStage {
    type V = StageView;

    open spec fn view(&self) -> StageView {
        match self {
            SyncStage::AcquireToken => StageView::AcquireToken,
            SyncStage::FetchRemote { access_token, listing } => StageView::FetchRemote {
                access_token: access_token@,
                listing: listing@,
            },
            SyncStage::ObtainLocalSnapshot { access_token, remote } => StageView::ObtainLocalSnapshot {
                access_token: access_token@,
                remote: record_views(remote@),
            },
            SyncStage::ApplyRemoteCreates { access_token, plan } => StageView::ApplyRemoteCreates {
                access_token: access_token@,
                plan: plan@,
            },
            SyncStage::ApplyRemoteUpdates { access_token, plan, remote_created } => StageView::ApplyRemoteUpdates {
                access_token: access_token@,
                plan: plan@,
                remote_created: *remote_created,
            },
            SyncStage::Finished => StageView::Finished,
        }
    }
}

impl View for SyncSession {
    type V = SessionView;

    open spec fn view(&self) -> SessionView {
        SessionView { app_token: self.app_token@, table_id: self.table_id@, stage: self.stage@ }
    }
}

impl View for SyncEvent {
    type V = EventView;

    open spec fn view(&self) -> EventView {
        match self {
            SyncEvent::Answer(text) => EventView::Answer(text@),
            SyncEvent::TransportFailure(words) => EventView::TransportFailure(words@),
            SyncEvent::LocalSnapshot(records) => EventView::LocalSnapshot(record_views(records@)),
        }
    }
}

impl View for SyncAction {
    type V = ActionView;

    open spec fn view(&self) -> ActionView {
        match self {
            SyncAction::Post { url, authorization, body } => ActionView::Post {
                url: url@,
                authorization: crate::record::text_view(*authorization),
                body: body@,
            },
            SyncAction::Get { url, authorization } => ActionView::Get { url: url@, authorization: authorization@ },
            SyncAction::ReadLocalSnapshot => ActionView::ReadLocalSnapshot,
            SyncAction::Finish { create_local, update_local, result } => ActionView::Finish {
                create_local: record_views(create_local@),
                update_local: record_views(update_local@),
                result: result@,
            },
        }
    }
}

/// A step of a run: where it stands afterwards, and what it asks for.
pub struct StepView {
    pub session: SessionView,
    pub action: ActionView,
}

/// The content of a step.
pub open spec fn step_view(step: (SyncSession, SyncAction)) -> StepView {
    StepView { session: step.0@, action: step.1@ }
}

/// The words that go with a token in a request.
pub open spec fn bearer(access_token: Seq<char>) -> Seq<char> {
    "Bearer "@ + access_token
}

/// The run goes to a stage and asks for something.
pub open spec fn goes_to(session: SessionView, stage: StageView, action: ActionView) -> StepView {
    StepView { session: SessionView { stage, ..session }, action }
}

/// What a run was doing at a stage, as the outcome says it where the run
/// fails there.
pub open spec fn failure_words(stage: StageView) -> Seq<char> {
    match stage {
        StageView::AcquireToken => "获取访问令牌失败: "@,
        StageView::FetchRemote { .. } => "获取云端数据失败: "@,
        StageView::ApplyRemoteCreates { .. } => "向云端创建记录失败: "@,
        StageView::ApplyRemoteUpdates { .. } => "向云端更新记录失败: "@,
        StageView::ObtainLocalSnapshot { .. } => "同步失败: "@,
        StageView::Finished => "同步失败: "@,
    }
}

/// The run ends on a failure: nothing is written locally, and the outcome
/// says, in the given words, what was being done and what went wrong.
pub open spec fn stopped_saying(session: SessionView, words: Seq<char>, error: ErrorView) -> StepView {
    goes_to(
        session,
        StageView::Finished,
        ActionView::Finish {
            create_local: Seq::empty(),
            update_local: Seq::empty(),
            result: failure_saying(words, error),
        },
    )
}

/// The run ends on a failure at the stage it is at: nothing is written
/// locally, and the outcome names the stage and says what went wrong.
pub open spec fn stopped(session: SessionView, error: ErrorView) -> StepView {
    stopped_saying(session, failure_words(session.stage), error)
}

/// The first step of a run: the token is asked for.
pub open spec fn first_step(config: ConfigView) -> StepView {
    StepView {
        session: SessionView {
            app_token: config.app_token,
            table_id: config.table_id,
            stage: StageView::AcquireToken,
        },
        action: ActionView::Post {
            url: token_endpoint_text(),
            authorization: None,
            body: token_request(config.app_id, config.app_secret),
        },
    }
}

/// The step after the answer on the token: with a token, the first page of
/// the remote table is asked for.
pub open spec fn after_token(session: SessionView, outcome: Result<TokenView, ErrorView>) -> StepView {
    match outcome {
        Err(e) => stopped(session, e),
        Ok(token) => goes_to(
            session,
            StageView::FetchRemote {
                access_token: token.tenant_access_token,
                listing: empty_listing(),
            },
            ActionView::Get {
                url: list_url_text(session.app_token, session.table_id, None),
                authorization: bearer(token.tenant_access_token),
            },
        ),
    }
}

/// The step after the answer on a page: where more rows follow, the next
/// page is asked for; after the last page, the local records are.
pub open spec fn after_listing(
    session: SessionView,
    access_token: Seq<char>,
    outcome: Result<ListingView, ErrorView>,
) -> StepView {
    match outcome {
        Err(e) => stopped(session, e),
        Ok(listing) => if listing.finished {
            goes_to(
                session,
                StageView::ObtainLocalSnapshot { access_token, remote: listing.records },
                ActionView::ReadLocalSnapshot,
            )
        } else {
            goes_to(
                session,
                StageView::FetchRemote { access_token, listing },
                ActionView::Get {
                    url: list_url_text(session.app_token, session.table_id, listing.page_token),
                    authorization: bearer(access_token),
                },
            )
        },
    }
}

/// The run ends well: the plan's local writes are handed out, and the
/// outcome counts them beside what the remote table took.
pub open spec fn completed(
    session: SessionView,
    plan: SyncPlanView,
    remote_created: u32,
    remote_updated: u32,
) -> StepView {
    goes_to(
        session,
        StageView::Finished,
        ActionView::Finish {
            create_local: plan.to_create_local,
            update_local: plan.to_update_local,
            result: success_result(
                plan.to_create_local.len() as u32,
                plan.to_update_local.len() as u32,
                remote_created,
                remote_updated,
            ),
        },
    )
}

/// The step that sends the changed records, or, where there are none, ends
/// the run.
pub open spec fn send_updates(
    session: SessionView,
    access_token: Seq<char>,
    plan: SyncPlanView,
    remote_created: u32,
) -> StepView {
    if plan.to_update_remote.len() > 0 {
        goes_to(
            session,
            StageView::ApplyRemoteUpdates { access_token, plan, remote_created },
            ActionView::Post {
                url: update_url_text(session.app_token, session.table_id),
                authorization: Some(bearer(access_token)),
                body: update_request(plan.to_update_remote),
            },
        )
    } else {
        completed(session, plan, remote_created, 0)
    }
}

/// The step that sends the new records, or, where there are none, goes on
/// to the changed ones.
pub open spec fn send_creates(session: SessionView, access_token: Seq<char>, plan: SyncPlanView) -> StepView {
    if plan.to_create_remote.len() > 0 {
        goes_to(
            session,
            StageView::ApplyRemoteCreates { access_token, plan },
            ActionView::Post {
                url: create_url_text(session.app_token, session.table_id),
                authorization: Some(bearer(access_token)),
                body: create_request(plan.to_create_remote),
            },
        )
    } else {
        send_updates(session, access_token, plan, 0)
    }
}

/// The step after the local records came: the plan is made and the remote
/// writes begin.
pub open spec fn after_snapshot(
    session: SessionView,
    access_token: Seq<char>,
    local: Seq<RecordView>,
    remote: Seq<RecordView>,
) -> StepView {
    send_creates(session, access_token, plan_of(local, remote))
}

/// The step after the answer on the new records.
pub open spec fn after_created(
    session: SessionView,
    access_token: Seq<char>,
    plan: SyncPlanView,
    outcome: Result<i32, ErrorView>,
) -> StepView {
    match outcome {
        Err(e) => stopped(session, e),
        Ok(count) => send_updates(session, access_token, plan, count as u32),
    }
}

/// The step after the answer on the changed records.
pub open spec fn after_updated(
    session: SessionView,
    plan: SyncPlanView,
    remote_created: u32,
    outcome: Result<i32, ErrorView>,
) -> StepView {
    match outcome {
        Err(e) => stopped(session, e),
        Ok(count) => completed(session, plan, remote_created, count as u32),
    }
}

/// The step after an answer came, by the stage that the run is at; there is
/// none at a stage where no request is out.
pub open spec fn after_document(session: SessionView, answer: JsonView) -> Option<StepView> {
    match session.stage {
        StageView::AcquireToken => Some(after_token(session, token_outcome(answer))),
        StageView::FetchRemote { access_token, listing } => Some(
            after_listing(session, access_token, after_answer(listing, answer)),
        ),
        StageView::ApplyRemoteCreates { access_token, plan } => Some(
            after_created(
                session,
                access_token,
                plan,
                create_outcome(answer, plan.to_create_remote.len() as int),
            ),
        ),
        StageView::ApplyRemoteUpdates { access_token, plan, remote_created } => Some(
            after_updated(session, plan, remote_created, update_outcome(answer)),
        ),
        StageView::ObtainLocalSnapshot { .. } => None,
        StageView::Finished => None,
    }
}

/// The step after a text came back: a text that is no JSON ends the run,
/// with the parser's words; a document is read by the stage that the run is
/// at.
pub open spec fn after_text(session: SessionView, text: Seq<char>) -> Option<StepView> {
    match parsed_json(text) {
        Ok(answer) => after_document(session, answer),
        Err(words) => match session.stage {
            StageView::ObtainLocalSnapshot { .. } => None,
            StageView::Finished => None,
            _ => Some(stopped(session, ErrorView::JsonError(words))),
        },
    }
}

/// What a run can be told at its stage: an answer, or that none came, while
/// a request is out; the local records when they were asked for, as long as
/// they and the remote records together can be counted in 31 bits; nothing
/// once the run is over.
pub open spec fn accepts(session: SessionView, event: EventView) -> bool {
    match session.stage {
        StageView::Finished => false,
        StageView::ObtainLocalSnapshot { access_token, remote } => match event {
            EventView::LocalSnapshot(local) => local.len() + remote.len() <= i32::MAX,
            _ => false,
        },
        _ => event is Answer || event is TransportFailure,
    }
}

/// What a run holds at its stage can be counted: the local writes that are
/// planned and the remote writes that were made fit 31 bits together.
pub open spec fn countable(stage: StageView) -> bool {
    match stage {
        StageView::ApplyRemoteCreates { access_token, plan } => {
            &&& plan.to_create_remote.len() > 0
            &&& plan.to_create_local.len() + plan.to_update_local.len() + plan.to_create_remote.len() <= i32::MAX
        },
        StageView::ApplyRemoteUpdates { access_token, plan, remote_created } => {
            plan.to_create_local.len() + plan.to_update_local.len() + remote_created <= i32::MAX
        },
        _ => true,
    }
}

/// The words that go with a token in a request.
pub fn bearer_of(access_token: &str) -> (words: String)
    ensures
        words@ == bearer(access_token@),
{
    String::from_str("Bearer ").concat(access_token)
}

impl SyncStage {
    /// What a run is doing at this stage, as the outcome says it where the
    /// run fails here.
    pub fn failure_words(&self) -> (words: &'static str)
        ensures
            words@ == failure_words(self@),
    {
        match self {
            SyncStage::AcquireToken => "获取访问令牌失败: ",
            SyncStage::FetchRemote { .. } => "获取云端数据失败: ",
            SyncStage::ApplyRemoteCreates { .. } => "向云端创建记录失败: ",
            SyncStage::ApplyRemoteUpdates { .. } => "向云端更新记录失败: ",
            SyncStage::ObtainLocalSnapshot { .. } => "同步失败: ",
            SyncStage::Finished => "同步失败: ",
        }
    }
}

impl SyncSession {
    /// Whether the run is in a state that its own steps lead to.
    pub open spec fn well_formed(&self) -> bool {
        countable(self@.stage)
    }

    /// Begins a run, unless the settings have the synchronisation switched
    /// off.
    pub fn begin(config: &FeishuConfig) -> (step: Option<(SyncSession, SyncAction)>)
        ensures
            match step {
                Some(s) => config@.enabled && step_view(s) == first_step(config@) && s.0.well_formed(),
                None => !config@.enabled,
            },
    {
        if !config.enabled {
            return None;
        }
        let session = SyncSession {
            app_token: config.app_token.clone(),
            table_id: config.table_id.clone(),
            stage: SyncStage::AcquireToken,
        };
        let action = SyncAction::Post {
            url: String::from_str(token_endpoint()),
            authorization: None,
            body: token_request_body(config.app_id.as_str(), config.app_secret.as_str()),
        };
        Some((session, action))
    }

    /// Whether the run can be told `event` at its stage.
    pub fn accepts(&self, event: &SyncEvent) -> (ok: bool)
        ensures
            ok == accepts(self@, event@),
    {
        match &self.stage {
            SyncStage::Finished => false,
            SyncStage::ObtainLocalSnapshot { access_token, remote } => match event {
                SyncEvent::LocalSnapshot(local) => local.len() <= 2147483647 && remote.len() <= 2147483647
                    - local.len(),
                _ => false,
            },
            _ => match event {
                SyncEvent::Answer(_) => true,
                SyncEvent::TransportFailure(_) => true,
                SyncEvent::LocalSnapshot(_) => false,
            },
        }
    }

    fn stop(app_token: String, table_id: String, words: &str, error: &FeishuSyncError) -> (step: (
        SyncSession,
        SyncAction,
    ))
        ensures
            step_view(step) == stopped_saying(
                SessionView { app_token: app_token@, table_id: table_id@, stage: StageView::Finished },
                words@,
                error@,
            ),
            step.0.well_formed(),
    {
        let create_local: Vec<PromptRecord> = Vec::new();
        let update_local: Vec<PromptRecord> = Vec::new();
        proof {
            assert(record_views(create_local@) =~= Seq::<RecordView>::empty());
            assert(record_views(update_local@) =~= Seq::<RecordView>::empty());
        }
        (
            SyncSession { app_token, table_id, stage: SyncStage::Finished },
            SyncAction::Finish { create_local, update_local, result: SyncResult::failed_saying(words, error) },
        )
    }

    fn complete(app_token: String, table_id: String, plan: SyncPlan, remote_created: u32, remote_updated: u32) -> (step:
        (SyncSession, SyncAction))
        requires
            plan@.to_create_local.len() + plan@.to_update_local.len() + remote_created <= i32::MAX,
            remote_updated <= i32::MAX,
        ensures
            step_view(step) == completed(
                SessionView { app_token: app_token@, table_id: table_id@, stage: StageView::Finished },
                plan@,
                remote_created,
                remote_updated,
            ),
            step.0.well_formed(),
    {
        let local_created = plan.to_create_local.len() as u32;
        let local_updated = plan.to_update_local.len() as u32;
        let result = SyncResult::completed(local_created, local_updated, remote_created, remote_updated);
        (
            SyncSession { app_token, table_id, stage: SyncStage::Finished },
            SyncAction::Finish { create_local: plan.to_create_local, update_local: plan.to_update_local, result },
        )
    }

    fn begin_updates(
        app_token: String,
        table_id: String,
        access_token: String,
        plan: SyncPlan,
        remote_created: u32,
    ) -> (step: (SyncSession, SyncAction))
        requires
            plan@.to_create_local.len() + plan@.to_update_local.len() + remote_created <= i32::MAX,
        ensures
            step_view(step) == send_updates(
                SessionView { app_token: app_token@, table_id: table_id@, stage: StageView::Finished },
                access_token@,
                plan@,
                remote_created,
            ),
            step.0.well_formed(),
    {
        match update_request_body(&plan.to_update_remote) {
            Some(body) => {
                let action = SyncAction::Post {
                    url: update_url(app_token.as_str(), table_id.as_str()),
                    authorization: Some(bearer_of(access_token.as_str())),
                    body,
                };
                (
                    SyncSession {
                        app_token,
                        table_id,
                        stage: SyncStage::ApplyRemoteUpdates { access_token, plan, remote_created },
                    },
                    action,
                )
            },
            None => Self::complete(app_token, table_id, plan, remote_created, 0),
        }
    }

    fn begin_creates(app_token: String, table_id: String, access_token: String, plan: SyncPlan) -> (step: (
        SyncSession,
        SyncAction,
    ))
        requires
            plan@.to_create_local.len() + plan@.to_update_local.len() + plan@.to_create_remote.len() <= i32::MAX,
        ensures
            step_view(step) == send_creates(
                SessionView { app_token: app_token@, table_id: table_id@, stage: StageView::Finished },
                access_token@,
                plan@,
            ),
            step.0.well_formed(),
    {
        match create_request_body(&plan.to_create_remote) {
            Some(body) => {
                let action = SyncAction::Post {
                    url: create_url(app_token.as_str(), table_id.as_str()),
                    authorization: Some(bearer_of(access_token.as_str())),
                    body,
                };
                (
                    SyncSession { app_token, table_id, stage: SyncStage::ApplyRemoteCreates { access_token, plan } },
                    action,
                )
            },
            None => Self::begin_updates(app_token, table_id, access_token, plan, 0),
        }
    }

    /// Goes on after the answer on the token was read.
    pub fn token_arrived(self, outcome: Result<TenantTokenApiResponse, FeishuSyncError>) -> (step: (
        SyncSession,
        SyncAction,
    ))
        requires
            self@.stage is AcquireToken,
        ensures
            step_view(step) == after_token(self@, token_result_view(outcome)),
            step.0.well_formed(),
    {
        match outcome {
            Err(e) => Self::stop(self.app_token, self.table_id, "获取访问令牌失败: ", &e),
            Ok(token) => {
                let listing = RecordListing::new();
                let action = SyncAction::Get {
                    url: list_url(self.app_token.as_str(), self.table_id.as_str(), &listing.page_token),
                    authorization: bearer_of(token.tenant_access_token.as_str()),
                };
                (
                    SyncSession {
                        app_token: self.app_token,
                        table_id: self.table_id,
                        stage: SyncStage::FetchRemote { access_token: token.tenant_access_token, listing },
                    },
                    action,
                )
            },
        }
    }

    /// Goes on after the local records came.
    pub fn snapshot_arrived(self, local: Vec<PromptRecord>) -> (step: (SyncSession, SyncAction))
        requires
            accepts(self@, EventView::LocalSnapshot(record_views(local@))),
        ensures
            step_view(step) == after_snapshot(
                self@,
                self@.stage->ObtainLocalSnapshot_access_token,
                record_views(local@),
                self@.stage->ObtainLocalSnapshot_remote,
            ),
            step.0.well_formed(),
    {
        match self.stage {
            SyncStage::ObtainLocalSnapshot { access_token, remote } => {
                let plan = calculate_sync_plan(local.as_slice(), remote.as_slice());
                proof {
                    lemma_plan_sizes(record_views(local@), record_views(remote@));
                }
                Self::begin_creates(self.app_token, self.table_id, access_token, plan)
            },
            _ => vstd::pervasive::unreached(),
        }
    }

    /// Goes on after the text that came back on a page was taken in.
    pub fn page_arrived(self, text: &str) -> (step: (SyncSession, SyncAction))
        requires
            self@.stage is FetchRemote,
        ensures
            Some(step_view(step)) == after_text(self@, text@),
            step.0.well_formed(),
    {
        match self.stage {
            SyncStage::FetchRemote { access_token, listing } => {
                let mut listing = listing;
                match listing.accept(text) {
                    Err(e) => Self::stop(self.app_token, self.table_id, "获取云端数据失败: ", &e),
                    Ok(()) => if listing.finished {
                        (
                            SyncSession {
                                app_token: self.app_token,
                                table_id: self.table_id,
                                stage: SyncStage::ObtainLocalSnapshot { access_token, remote: listing.records },
                            },
                            SyncAction::ReadLocalSnapshot,
                        )
                    } else {
                        let action = SyncAction::Get {
                            url: list_url(self.app_token.as_str(), self.table_id.as_str(), &listing.page_token),
                            authorization: bearer_of(access_token.as_str()),
                        };
                        (
                            SyncSession {
                                app_token: self.app_token,
                                table_id: self.table_id,
                                stage: SyncStage::FetchRemote { access_token, listing },
                            },
                            action,
                        )
                    },
                }
            },
            _ => vstd::pervasive::unreached(),
        }
    }

    /// Goes on after the answer on the new records was read.
    pub fn creates_answered(self, outcome: Result<i32, FeishuSyncError>) -> (step: (SyncSession, SyncAction))
        requires
            self.well_formed(),
            self@.stage is ApplyRemoteCreates,
            outcome is Ok ==> outcome->Ok_0 == self@.stage->ApplyRemoteCreates_plan.to_create_remote.len(),
        ensures
            step_view(step) == after_created(
                self@,
                self@.stage->ApplyRemoteCreates_access_token,
                self@.stage->ApplyRemoteCreates_plan,
                count_view(outcome),
            ),
            step.0.well_formed(),
    {
        match self.stage {
            SyncStage::ApplyRemoteCreates { access_token, plan } => match outcome {
                Err(e) => Self::stop(self.app_token, self.table_id, "向云端创建记录失败: ", &e),
                Ok(count) => Self::begin_updates(self.app_token, self.table_id, access_token, plan, count as u32),
            },
            _ => vstd::pervasive::unreached(),
        }
    }

    /// Goes on after the answer on the changed records was read.
    pub fn updates_answered(self, outcome: Result<i32, FeishuSyncError>) -> (step: (SyncSession, SyncAction))
        requires
            self.well_formed(),
            self@.stage is ApplyRemoteUpdates,
            outcome is Ok ==> outcome->Ok_0 >= 0,
        ensures
            step_view(step) == after_updated(
                self@,
                self@.stage->ApplyRemoteUpdates_plan,
                self@.stage->ApplyRemoteUpdates_remote_created,
                count_view(outcome),
            ),
            step.0.well_formed(),
    {
        match self.stage {
            SyncStage::ApplyRemoteUpdates { access_token, plan, remote_created } => match outcome {
                Err(e) => Self::stop(self.app_token, self.table_id, "向云端更新记录失败: ", &e),
                Ok(count) => Self::complete(self.app_token, self.table_id, plan, remote_created, count as u32),
            },
            _ => vstd::pervasive::unreached(),
        }
    }

    /// Goes on with what the run was told.
    ///
    /// A request that did not get through ends the run, and so does an
    /// answer that is no JSON, that is a refusal, or that lacks what was
    /// asked for. Otherwise the run moves to its next stage: from the token
    /// to the pages of the remote table, from the last page to the local
    /// records, from there to the remote writes, first the new records, then
    /// the changed ones, each skipped where the plan has none, and at last to
    /// the end, where the local writes are handed out with the outcome.
    pub fn advance(self, event: SyncEvent) -> (step: (SyncSession, SyncAction))
        requires
            self.well_formed(),
            accepts(self@, event@),
        ensures
            step.0.well_formed(),
            match event@ {
                EventView::TransportFailure(words) => step_view(step) == stopped(
                    self@,
                    ErrorView::NetworkError(words),
                ),
                EventView::LocalSnapshot(local) => step_view(step) == after_snapshot(
                    self@,
                    self@.stage->ObtainLocalSnapshot_access_token,
                    local,
                    self@.stage->ObtainLocalSnapshot_remote,
                ),
                EventView::Answer(text) => Some(step_view(step)) == after_text(self@, text),
            },
    {
        match event {
            SyncEvent::TransportFailure(words) => {
                let doing = self.stage.failure_words();
                Self::stop(self.app_token, self.table_id, doing, &FeishuSyncError::NetworkError(words))
            },
            SyncEvent::LocalSnapshot(local) => self.snapshot_arrived(local),
            SyncEvent::Answer(text) => match &self.stage {
                SyncStage::AcquireToken => {
                    let outcome = token_from_response(text.as_str());
                    self.token_arrived(outcome)
                },
                SyncStage::FetchRemote { .. } => self.page_arrived(text.as_str()),
                SyncStage::ApplyRemoteCreates { access_token, plan } => {
                    let outcome = create_result(text.as_str(), plan.to_create_remote.len());
                    self.creates_answered(outcome)
                },
                SyncStage::ApplyRemoteUpdates { .. } => {
                    let outcome = update_result(text.as_str());
                    self.updates_answered(outcome)
                },
                _ => vstd::pervasive::unreached(),
            },
        }
    }
}

} // verus!
