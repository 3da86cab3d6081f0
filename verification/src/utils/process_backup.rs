//! The backup batch as a machine of states, events and steps.

use crate::structures::backup_params::{
    law_commands_mention_own_fields_once, BackupPlan, BackupPlanView,
};
use crate::structures::command_line::Field;
use crate::structures::elements::Elements;
use crate::structures::settings::{Settings, SettingsView};
use crate::utils::clock::Clock;
use crate::utils::failure::{report, report_text, Failure, FailureKind, FailureView};
use crate::utils::s3_utils::{file_name_text, no_file_name, object_key_text, upload_file_to_s3};
use crate::utils::shell::{StepEvent, StepEventView};
use vstd::prelude::*;
use vstd::string::*;

verus! {

/// How the work on one element ended: done, or failed with a reason.
#[derive(Clone, Debug, PartialEq, Eq)]
pub struct ElementReport {
    /// The index of the element in the configuration.
    pub position: usize,
    /// `None` where every step succeeded.
    pub failure: Option<Failure>,
}

/// An `ElementReport` by the view of its failure.
pub struct ElementReportView {
    pub position: usize,
    pub failure: Option<FailureView>,
}

impl View for ElementReport {
    type V = ElementReportView;

    open spec fn view(&self) -> ElementReportView {
        ElementReportView {
            position: self.position,
            failure: match self.failure {
                Some(failure) => Some(failure@),
                None => None,
            },
        }
    }
}

/// The reports of `reports`, each by its view.
pub open spec fn reports_view(reports: Seq<ElementReport>) -> Seq<ElementReportView> {
    Seq::new(reports.len(), |i: int| reports[i]@)
}

/// Where the element in work stands. Each stage waits for the event of the
/// step that was handed out last.
#[derive(Clone, Debug, PartialEq, Eq)]
pub enum BackupStage {
    /// The staging directory is being made sure of.
    Preparing,
    /// Command `next` of the plan is running.
    BackingUp { plan: BackupPlan, next: usize },
    /// The artifact is on its way to the remote store.
    Uploading,
    /// The staging directory is being swept.
    SweepingLocal,
    /// The folder in the remote store is being swept.
    SweepingRemote,
    /// No element is left.
    Finished,
}

/// A `BackupStage` by the view of its plan.
pub enum BackupStageView {
    Preparing,
    BackingUp { plan: BackupPlanView, next: usize },
    Uploading,
    SweepingLocal,
    SweepingRemote,
    Finished,
}

impl View for BackupStage {
    type V = BackupStageView;

    open spec fn view(&self) -> BackupStageView {
        match *self {
            BackupStage::Preparing => BackupStageView::Preparing,
            BackupStage::BackingUp { plan, next } => BackupStageView::BackingUp {
                plan: plan@,
                next,
            },
            BackupStage::Uploading => BackupStageView::Uploading,
            BackupStage::SweepingLocal => BackupStageView::SweepingLocal,
            BackupStage::SweepingRemote => BackupStageView::SweepingRemote,
            BackupStage::Finished => BackupStageView::Finished,
        }
    }
}

/// The state of a backup batch: the element in work, where it stands, and
/// how the elements before it ended.
#[derive(Clone, Debug, PartialEq, Eq)]
pub struct BackupState {
    pub position: usize,
    pub stage: BackupStage,
    pub reports: Vec<ElementReport>,
}

/// A `BackupState` by the views of its parts.
pub struct BackupStateView {
    pub position: usize,
    pub stage: BackupStageView,
    pub reports: Seq<ElementReportView>,
}

impl View for BackupState {
    type V = BackupStateView;

    open spec fn view(&self) -> BackupStateView {
        BackupStateView {
            position: self.position,
            stage: self.stage@,
            reports: reports_view(self.reports@),
        }
    }
}

/// The step that the caller is to carry out next. Its result is the event
/// that the batch takes next.
#[derive(Clone, Debug, PartialEq, Eq)]
pub enum BackupAction {
    /// Create the directory, with its parents, unless it exists.
    CreateDirectory { path: String },
    /// Run the command in a shell and hand back its outcome.
    RunCommand { command: String },
    /// Stream the file `artifact` to the object `key`.
    Upload { artifact: String, key: String },
    /// Delete from `directory` the outdated artifacts of element `title`.
    SweepLocal { directory: String, title: String, retention: u64 },
    /// Delete from `folder` of the remote store the outdated objects.
    SweepRemote { folder: String, retention: u64 },
    /// Nothing: the batch is over.
    Finish,
}

/// A `BackupAction` with its texts as sequences of characters.
pub enum BackupActionView {
    CreateDirectory { path: Seq<char> },
    RunCommand { command: Seq<char> },
    Upload { artifact: Seq<char>, key: Seq<char> },
    SweepLocal { directory: Seq<char>, title: Seq<char>, retention: u64 },
    SweepRemote { folder: Seq<char>, retention: u64 },
    Finish,
}

impl View for BackupAction {
    type V = BackupActionView;

    open spec fn view(&self) -> BackupActionView {
        match *self {
            BackupAction::CreateDirectory { path } => BackupActionView::CreateDirectory {
                path: path@,
            },
            BackupAction::RunCommand { command } => BackupActionView::RunCommand {
                command: command@,
            },
            BackupAction::Upload { artifact, key } => BackupActionView::Upload {
                artifact: artifact@,
                key: key@,
            },
            BackupAction::SweepLocal {
                directory,
                title,
                retention,
            } => BackupActionView::SweepLocal { directory: directory@, title: title@, retention },
            BackupAction::SweepRemote { folder, retention } => BackupActionView::SweepRemote {
                folder: folder@,
                retention,
            },
            BackupAction::Finish => BackupActionView::Finish,
        }
    }
}

/// The batch at the start of the work on the element at `position`: its
/// staging directory is asked for; behind the last element the batch is
/// over.
pub open spec fn enter_backup(
    settings: SettingsView,
    position: usize,
    reports: Seq<ElementReportView>,
) -> (BackupStateView, BackupActionView) {
    if position < settings.elements.len() {
        (
            BackupStateView { position, stage: BackupStageView::Preparing, reports },
            BackupActionView::CreateDirectory { path: settings.staging_dir_text(position as int) },
        )
    } else {
        (
            BackupStateView { position, stage: BackupStageView::Finished, reports },
            BackupActionView::Finish,
        )
    }
}

/// The batch after the element in work ended with `failure`: the end is
/// reported, and the work on the next element starts.
pub open spec fn close_backup(
    settings: SettingsView,
    state: BackupStateView,
    failure: Option<FailureView>,
) -> (BackupStateView, BackupActionView) {
    enter_backup(
        settings,
        (state.position + 1) as usize,
        state.reports.push(ElementReportView { position: state.position, failure }),
    )
}

/// The batch after the last command of the element in work succeeded: the
/// artifact goes to the remote store, unless its path names no file.
pub open spec fn begin_upload(
    settings: SettingsView,
    state: BackupStateView,
    artifact: Seq<char>,
) -> (BackupStateView, BackupActionView) {
    let element = settings.elements[state.position as int];
    if file_name_text(artifact).len() > 0 {
        (
            BackupStateView { stage: BackupStageView::Uploading, ..state },
            BackupActionView::Upload {
                artifact,
                key: object_key_text(element.s3_folder, file_name_text(artifact)),
            },
        )
    } else {
        close_backup(
            settings,
            state,
            Some(
                FailureView {
                    kind: FailureKind::RemoteStore,
                    message: report_text(
                        "Failed to upload file to S3 for "@,
                        element.element_title,
                        no_file_name(artifact).message,
                    ),
                },
            ),
        )
    }
}

/// The failure of the element in work at the stage where it stands, caused
/// by `cause`: its kind goes by the stage, and its line names the element
/// (the staging directory, where that could not be made).
pub open spec fn stage_failure(
    settings: SettingsView,
    state: BackupStateView,
    cause: Seq<char>,
) -> FailureView {
    let element = settings.elements[state.position as int];
    let title = element.element_title;
    match state.stage {
        BackupStageView::Preparing => FailureView {
            kind: FailureKind::Io,
            message: report_text(
                "Failed to create backup dir "@,
                settings.staging_dir_text(state.position as int),
                cause,
            ),
        },
        BackupStageView::BackingUp { .. } => FailureView {
            kind: FailureKind::Command,
            message: report_text("Backup process encountered an error for "@, title, cause),
        },
        BackupStageView::Uploading => FailureView {
            kind: FailureKind::RemoteStore,
            message: report_text("Failed to upload file to S3 for "@, title, cause),
        },
        BackupStageView::SweepingLocal => FailureView {
            kind: FailureKind::Io,
            message: report_text("Failed to delete outdated local backups for "@, title, cause),
        },
        _ => FailureView {
            kind: FailureKind::RemoteStore,
            message: report_text("Failed to delete outdated backups from S3 for "@, title, cause),
        },
    }
}

/// The batch after the step that was handed out last succeeded, at time
/// `stamp`.
pub open spec fn proceed_backup(
    settings: SettingsView,
    state: BackupStateView,
    stamp: Seq<char>,
) -> (BackupStateView, BackupActionView) {
    let element = settings.elements[state.position as int];
    let directory = settings.staging_dir_text(state.position as int);
    match state.stage {
        BackupStageView::Preparing => match element.backup(directory, stamp) {
            Ok(plan) => if plan.commands.len() > 0 {
                (
                    BackupStateView {
                        stage: BackupStageView::BackingUp { plan, next: 0 },
                        ..state
                    },
                    BackupActionView::RunCommand { command: plan.commands[0] },
                )
            } else {
                begin_upload(settings, state, plan.artifact)
            },
            Err(failure) => close_backup(
                settings,
                state,
                Some(
                    FailureView {
                        kind: failure.kind,
                        message: report_text(
                            "Backup process encountered an error for "@,
                            element.element_title,
                            failure.message,
                        ),
                    },
                ),
            ),
        },
        BackupStageView::BackingUp { plan, next } => if next + 1 < plan.commands.len() {
            (
                BackupStateView {
                    stage: BackupStageView::BackingUp { plan, next: (next + 1) as usize },
                    ..state
                },
                BackupActionView::RunCommand { command: plan.commands[next + 1] },
            )
        } else {
            begin_upload(settings, state, plan.artifact)
        },
        BackupStageView::Uploading => (
            BackupStateView { stage: BackupStageView::SweepingLocal, ..state },
            BackupActionView::SweepLocal {
                directory,
                title: element.element_title,
                retention: element.backup_retention_days,
            },
        ),
        BackupStageView::SweepingLocal => (
            BackupStateView { stage: BackupStageView::SweepingRemote, ..state },
            BackupActionView::SweepRemote {
                folder: element.s3_folder,
                retention: element.s3_backup_retention_days,
            },
        ),
        _ => close_backup(settings, state, None),
    }
}

/// The batch is over in `state`: no element is left, or none is in work.
pub open spec fn backup_is_over(settings: SettingsView, state: BackupStateView) -> bool {
    state.position >= settings.elements.len() || state.stage is Finished
}

/// The transition of the backup batch: the state after `event`, and the step
/// to carry out next. A failure at any stage ends the work on the element in
/// work and on it alone; the batch goes on with the next element. `stamp`
/// is the time that names the artifact; it is looked at only when the backup
/// of an element starts.
pub open spec fn next_backup(
    settings: SettingsView,
    state: BackupStateView,
    event: StepEventView,
    stamp: Seq<char>,
) -> (BackupStateView, BackupActionView) {
    if backup_is_over(settings, state) {
        (BackupStateView { stage: BackupStageView::Finished, ..state }, BackupActionView::Finish)
    } else {
        match event {
            StepEventView::Succeeded => proceed_backup(settings, state, stamp),
            StepEventView::Failed(cause) => close_backup(
                settings,
                state,
                Some(stage_failure(settings, state, cause)),
            ),
        }
    }
}

fn enter_element(settings: &Settings, position: usize, reports: Vec<ElementReport>) -> (r: (
    BackupState,
    BackupAction,
))
    ensures
        (r.0@, r.1@) == enter_backup(settings@, position, reports_view(reports@)),
{
    if position < settings.elements.len() {
        let path: String = settings.staging_dir(position);
        (
            BackupState { position, stage: BackupStage::Preparing, reports },
            BackupAction::CreateDirectory { path },
        )
    } else {
        (BackupState { position, stage: BackupStage::Finished, reports }, BackupAction::Finish)
    }
}

fn close_element(
    settings: &Settings,
    position: usize,
    reports: Vec<ElementReport>,
    failure: Option<Failure>,
) -> (r: (BackupState, BackupAction))
    requires
        position < settings.elements.len(),
    ensures
        (r.0@, r.1@) == enter_backup(
            settings@,
            (position + 1) as usize,
            reports_view(reports@).push(
                ElementReportView {
                    position,
                    failure: match failure {
                        Some(failure) => Some(failure@),
                        None => None,
                    },
                },
            ),
        ),
{
    proof {
        assert(position < settings.elements.len());
    }
    let mut reports = reports;
    let ghost before = reports_view(reports@);
    let entry = ElementReport { position, failure };
    let ghost entry_view = entry@;
    reports.push(entry);
    proof {
        assert(reports_view(reports@) =~= before.push(entry_view));
    }
    enter_element(settings, position + 1, reports)
}

fn upload_element(
    settings: &Settings,
    position: usize,
    reports: Vec<ElementReport>,
    artifact: String,
) -> (r: (BackupState, BackupAction))
    requires
        position < settings.elements.len(),
    ensures
        (r.0@, r.1@) == begin_upload(
            settings@,
            BackupStateView {
                position,
                stage: BackupStageView::Uploading,
                reports: reports_view(reports@),
            },
            artifact@,
        ),
{
    let element: &Elements = &settings.elements[position];
    match upload_file_to_s3(artifact.as_str(), element.s3_folder.as_str()) {
        Ok(key) => (
            BackupState { position, stage: BackupStage::Uploading, reports },
            BackupAction::Upload { artifact, key },
        ),
        Err(failure) => {
            let failure: Failure = report(
                FailureKind::RemoteStore,
                "Failed to upload file to S3 for ",
                element.element_title.as_str(),
                failure.message.as_str(),
            );
            close_element(settings, position, reports, Some(failure))
        },
    }
}

/// Starts a backup batch: the state before the first element and the first
/// step to carry out.
pub fn start_backup_process(settings: &Settings) -> (r: (BackupState, BackupAction))
    ensures
        (r.0@, r.1@) == enter_backup(settings@, 0, Seq::empty()),
{
    let reports: Vec<ElementReport> = Vec::new();
    proof {
        assert(reports_view(reports@) =~= Seq::empty());
    }
    enter_element(settings, 0, reports)
}

fn fail_element(
    settings: &Settings,
    position: usize,
    stage: BackupStage,
    reports: Vec<ElementReport>,
    cause: String,
) -> (r: (BackupState, BackupAction))
    requires
        position < settings.elements.len(),
        !(stage is Finished),
    ensures
        (r.0@, r.1@) == ({
            let state = BackupStateView {
                position,
                stage: stage@,
                reports: reports_view(reports@),
            };
            close_backup(settings@, state, Some(stage_failure(settings@, state, cause@)))
        }),
{
    let title: &str = settings.elements[position].element_title.as_str();
    let failure: Failure = match stage {
        BackupStage::Preparing => {
            let directory: String = settings.staging_dir(position);
            report(
                FailureKind::Io,
                "Failed to create backup dir ",
                directory.as_str(),
                cause.as_str(),
            )
        },
        BackupStage::BackingUp { .. } => report(
            FailureKind::Command,
            "Backup process encountered an error for ",
            title,
            cause.as_str(),
        ),
        BackupStage::Uploading => report(
            FailureKind::RemoteStore,
            "Failed to upload file to S3 for ",
            title,
            cause.as_str(),
        ),
        BackupStage::SweepingLocal => report(
            FailureKind::Io,
            "Failed to delete outdated local backups for ",
            title,
            cause.as_str(),
        ),
        _ => report(
            FailureKind::RemoteStore,
            "Failed to delete outdated backups from S3 for ",
            title,
            cause.as_str(),
        ),
    };
    close_element(settings, position, reports, Some(failure))
}

fn proceed_element(
    settings: &Settings,
    position: usize,
    stage: BackupStage,
    reports: Vec<ElementReport>,
    stamp: &str,
) -> (r: (BackupState, BackupAction))
    requires
        position < settings.elements.len(),
        !(stage is Finished),
    ensures
        (r.0@, r.1@) == proceed_backup(
            settings@,
            BackupStateView { position, stage: stage@, reports: reports_view(reports@) },
            stamp@,
        ),
{
    let element: &Elements = &settings.elements[position];
    match stage {
        BackupStage::Preparing => {
            let directory: String = settings.staging_dir(position);
            match element.perform_backup(directory.as_str(), stamp) {
                Ok(plan) => {
                    if plan.commands.len() > 0 {
                        let command: String = plan.commands[0].clone();
                        (
                            BackupState {
                                position,
                                stage: BackupStage::BackingUp { plan, next: 0 },
                                reports,
                            },
                            BackupAction::RunCommand { command },
                        )
                    } else {
                        upload_element(settings, position, reports, plan.artifact)
                    }
                },
                Err(failure) => {
                    let failure: Failure = report(
                        failure.kind,
                        "Backup process encountered an error for ",
                        element.element_title.as_str(),
                        failure.message.as_str(),
                    );
                    close_element(settings, position, reports, Some(failure))
                },
            }
        },
        BackupStage::BackingUp { plan, next } => {
            if next < usize::MAX && next + 1 < plan.commands.len() {
                let command: String = plan.commands[next + 1].clone();
                (
                    BackupState {
                        position,
                        stage: BackupStage::BackingUp { plan, next: next + 1 },
                        reports,
                    },
                    BackupAction::RunCommand { command },
                )
            } else {
                upload_element(settings, position, reports, plan.artifact)
            }
        },
        BackupStage::Uploading => {
            let directory: String = settings.staging_dir(position);
            (
                BackupState { position, stage: BackupStage::SweepingLocal, reports },
                BackupAction::SweepLocal {
                    directory,
                    title: element.element_title.clone(),
                    retention: element.backup_retention_days,
                },
            )
        },
        BackupStage::SweepingLocal => (
            BackupState { position, stage: BackupStage::SweepingRemote, reports },
            BackupAction::SweepRemote {
                folder: element.s3_folder.clone(),
                retention: element.s3_backup_retention_days,
            },
        ),
        _ => close_element(settings, position, reports, None),
    }
}

/// Takes the event of the step that was handed out last, at time `stamp`,
/// and hands out the next step.
pub fn backup_step(settings: &Settings, state: BackupState, event: StepEvent, stamp: &str) -> (r: (
    BackupState,
    BackupAction,
))
    ensures
        (r.0@, r.1@) == next_backup(settings@, state@, event@, stamp@),
{
    let BackupState { position, stage, reports } = state;
    let over: bool = position >= settings.elements.len() || match stage {
        BackupStage::Finished => true,
        _ => false,
    };
    if over {
        (BackupState { position, stage: BackupStage::Finished, reports }, BackupAction::Finish)
    } else {
        match event {
            StepEvent::Succeeded => proceed_element(settings, position, stage, reports, stamp),
            StepEvent::Failed(cause) => fail_element(settings, position, stage, reports, cause),
        }
    }
}

/// Takes the event of the step that was handed out last and hands out the
/// next step, with the time of the local clock for the name of an artifact.
/// Whatever the clock says, the batch moves as `next_backup` has it for some
/// time stamp.
pub fn continue_backup_process(settings: &Settings, state: BackupState, event: StepEvent) -> (r: (
    BackupState,
    BackupAction,
))
    ensures
        exists|stamp: Seq<char>|
            (r.0@, r.1@) == #[trigger] next_backup(settings@, state@, event@, stamp),
{
    let clock: Clock = Clock::read();
    backup_step(settings, state, event, clock.stamp.as_str())
}

/// What holds of every state that a batch reaches from its start: the
/// elements before the one in work are reported, each once and in order; the
/// batch is over exactly behind the last element; and a plan in work has a
/// command to wait for, of at most two.
pub open spec fn backup_well_formed(settings: SettingsView, state: BackupStateView) -> bool {
    &&& state.position <= settings.elements.len() <= usize::MAX
    &&& state.reports.len() == state.position
    &&& forall|k: int|
        0 <= k < state.reports.len() ==> (#[trigger] state.reports[k]).position == k
    &&& (state.stage is Finished <==> state.position == settings.elements.len())
    &&& match state.stage {
        BackupStageView::BackingUp { plan, next } => next < plan.commands.len() <= 2,
        _ => true,
    }
}

/// A bound on the steps that the element in work can still take.
pub open spec fn stage_rank(stage: BackupStageView) -> int {
    match stage {
        BackupStageView::Preparing => 7,
        BackupStageView::BackingUp { plan, next } => 4 + plan.commands.len() - next,
        BackupStageView::Uploading => 3,
        BackupStageView::SweepingLocal => 2,
        BackupStageView::SweepingRemote => 1,
        BackupStageView::Finished => 0,
    }
}

/// A bound on the steps that the batch can still take.
pub open spec fn backup_steps_left(settings: SettingsView, state: BackupStateView) -> int {
    if backup_is_over(settings, state) {
        0
    } else {
        (settings.elements.len() - state.position) * 8 + stage_rank(state.stage)
    }
}

/// A batch starts in a well-formed state.
pub proof fn law_backup_starts_well_formed(settings: SettingsView)
    requires
        settings.elements.len() <= usize::MAX,
    ensures
        backup_well_formed(settings, enter_backup(settings, 0, Seq::empty()).0),
{
}

/// Every event leads from a well-formed state to a well-formed state.
pub proof fn law_backup_stays_well_formed(
    settings: SettingsView,
    state: BackupStateView,
    event: StepEventView,
    stamp: Seq<char>,
)
    requires
        backup_well_formed(settings, state),
    ensures
        backup_well_formed(settings, next_backup(settings, state, event, stamp).0),
{
    if !backup_is_over(settings, state) {
        let element = settings.elements[state.position as int];
        if state.stage is Preparing && event is Succeeded {
            match element.params {
                Some(target) => {
                    law_commands_mention_own_fields_once(target, Field::Artifact);
                },
                None => {},
            }
        }
    }
}

/// The failure of one element never ends the batch: whatever step fails, the
/// element in work is reported with the failure, none of its remaining steps
/// is handed out, and the batch goes on with the element behind it, or is
/// over where none is left.
pub proof fn law_backup_failure_stays_with_element(
    settings: SettingsView,
    state: BackupStateView,
    cause: Seq<char>,
    stamp: Seq<char>,
)
    requires
        backup_well_formed(settings, state),
        !backup_is_over(settings, state),
    ensures
        ({
            let after = next_backup(settings, state, StepEventView::Failed(cause), stamp);
            &&& after.0.position == state.position + 1
            &&& after.0.reports == state.reports.push(
                ElementReportView {
                    position: state.position,
                    failure: Some(stage_failure(settings, state, cause)),
                },
            )
            &&& if state.position + 1 < settings.elements.len() {
                after.0.stage is Preparing && after.1 == (BackupActionView::CreateDirectory {
                    path: settings.staging_dir_text(state.position + 1),
                })
            } else {
                after.0.stage is Finished && after.1 is Finish
            }
        }),
{
}

/// A batch that is over has reported every element of the configuration,
/// each once and in order.
pub proof fn law_backup_reports_every_element(settings: SettingsView, state: BackupStateView)
    requires
        backup_well_formed(settings, state),
        state.stage is Finished,
    ensures
        state.reports.len() == settings.elements.len(),
        forall|k: int| 0 <= k < state.reports.len() ==> (#[trigger] state.reports[k]).position == k,
{
}

/// Every event brings a batch that is not over closer to its end: the bound
/// on the steps left falls, so the batch is over after finitely many events,
/// whatever they are.
pub proof fn law_backup_makes_progress(
    settings: SettingsView,
    state: BackupStateView,
    event: StepEventView,
    stamp: Seq<char>,
)
    requires
        backup_well_formed(settings, state),
        !backup_is_over(settings, state),
    ensures
        ({
            let after = next_backup(settings, state, event, stamp);
            &&& 0 <= backup_steps_left(settings, after.0) < backup_steps_left(settings, state)
            &&& after.1 is Finish <==> backup_is_over(settings, after.0)
        }),
{
    law_backup_stays_well_formed(settings, state, event, stamp);
    let element = settings.elements[state.position as int];
    if state.stage is Preparing && event is Succeeded {
        match element.params {
            Some(target) => {
                law_commands_mention_own_fields_once(target, Field::Artifact);
            },
            None => {},
        }
    }
}


/// The time stamp is read once for each element, when its backup starts: at
/// every later stage the batch moves alike whatever the time, so that the
/// commands of one element and its artifact carry one time stamp.
pub proof fn law_backup_reads_the_time_once(
    settings: SettingsView,
    state: BackupStateView,
    event: StepEventView,
    first: Seq<char>,
    second: Seq<char>,
)
    requires
        !(state.stage is Preparing),
    ensures
        next_backup(settings, state, event, first) == next_backup(settings, state, event, second),
{
}

} // verus!
