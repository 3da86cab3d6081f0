//! The restore batch as a machine of states, events and steps.

use crate::structures::backup_params::law_restore_commands_mention_own_fields_once;
use crate::structures::command_line::Field;
use crate::structures::elements::Elements;
use crate::structures::settings::{Settings, SettingsView};
use crate::utils::failure::{report, report_text, Failure, FailureKind, FailureView};
use crate::utils::process_backup::{reports_view, ElementReport, ElementReportView};
use crate::utils::s3_utils::{
    fetch, get_file_from_s3, get_s3_objects_list, list_prefix, list_prefix_text, merged,
    objects_view, pages_view, Download, RemoteObject, RemoteObjectView,
};
use crate::utils::shell::{CommandOutcome, CommandOutcomeView};
use crate::utils::text::texts;
use vstd::prelude::*;
use vstd::string::*;

verus! {

/// Where the element in work stands in a restore.
#[derive(Clone, Debug, PartialEq, Eq)]
pub enum RestoreStage {
    /// The folder of the element is being listed.
    Locating,
    /// The latest backup is on its way to the local file `artifact`.
    Downloading { artifact: String },
    /// Command `next` of the restore of the element is running.
    Restoring { commands: Vec<String>, next: usize },
    /// No element is left.
    Finished,
}

/// A `RestoreStage` with its text as a sequence of characters.
pub enum RestoreStageView {
    Locating,
    Downloading { artifact: Seq<char> },
    Restoring { commands: Seq<Seq<char>>, next: usize },
    Finished,
}

impl View for RestoreStage {
    type V = RestoreStageView;

    open spec fn view(&self) -> RestoreStageView {
        match *self {
            RestoreStage::Locating => RestoreStageView::Locating,
            RestoreStage::Downloading { artifact } => RestoreStageView::Downloading {
                artifact: artifact@,
            },
            RestoreStage::Restoring { commands, next } => RestoreStageView::Restoring {
                commands: texts(commands@),
                next,
            },
            RestoreStage::Finished => RestoreStageView::Finished,
        }
    }
}

/// The state of a restore batch: the elements to restore by their indices
/// in the configuration, the one in work, where it stands, and how those
/// before it ended.
#[derive(Clone, Debug, PartialEq, Eq)]
pub struct RestoreState {
    pub selected: Vec<usize>,
    pub cursor: usize,
    pub stage: RestoreStage,
    pub reports: Vec<ElementReport>,
}

/// A `RestoreState` by the views of its parts.
pub struct RestoreStateView {
    pub selected: Seq<usize>,
    pub cursor: usize,
    pub stage: RestoreStageView,
    pub reports: Seq<ElementReportView>,
}

impl View for RestoreState {
    type V = RestoreStateView;

    open spec fn view(&self) -> RestoreStateView {
        RestoreStateView {
            selected: self.selected@,
            cursor: self.cursor,
            stage: self.stage@,
            reports: reports_view(self.reports@),
        }
    }
}

/// The step that the caller is to carry out next in a restore.
#[derive(Clone, Debug, PartialEq, Eq)]
pub enum RestoreAction {
    /// List the objects under `prefix`, all pages, and hand them back.
    List { prefix: String },
    /// Create `directory` with its parents unless it exists, then stream the
    /// object `key` into the file `destination`.
    Download { key: String, directory: String, destination: String },
    /// Run the command in a shell and hand back its outcome.
    RunCommand { command: String },
    /// Nothing: the batch is over.
    Finish,
}

/// A `RestoreAction` with its texts as sequences of characters.
pub enum RestoreActionView {
    List { prefix: Seq<char> },
    Download { key: Seq<char>, directory: Seq<char>, destination: Seq<char> },
    RunCommand { command: Seq<char> },
    Finish,
}

impl View for RestoreAction {
    type V = RestoreActionView;

    open spec fn view(&self) -> RestoreActionView {
        match *self {
            RestoreAction::List { prefix } => RestoreActionView::List { prefix: prefix@ },
            RestoreAction::Download { key, directory, destination } => RestoreActionView::Download {
                key: key@,
                directory: directory@,
                destination: destination@,
            },
            RestoreAction::RunCommand { command } => RestoreActionView::RunCommand {
                command: command@,
            },
            RestoreAction::Finish => RestoreActionView::Finish,
        }
    }
}

/// The result of one step of a restore that the caller carried out.
#[derive(Clone, Debug, PartialEq, Eq)]
pub enum RestoreEvent {
    /// The pages of the listing that was asked for.
    Listed(Vec<Vec<RemoteObject>>),
    Succeeded,
    Failed(String),
}

/// A `RestoreEvent` with the pages of a listing merged into one.
pub enum RestoreEventView {
    Listed(Seq<RemoteObjectView>),
    Succeeded,
    Failed(Seq<char>),
}

impl View for RestoreEvent {
    type V = RestoreEventView;

    open spec fn view(&self) -> RestoreEventView {
        match *self {
            RestoreEvent::Listed(pages) => RestoreEventView::Listed(merged(pages_view(pages@))),
            RestoreEvent::Succeeded => RestoreEventView::Succeeded,
            RestoreEvent::Failed(cause) => RestoreEventView::Failed(cause@),
        }
    }
}

/// The indices below `count`, in order.
pub open spec fn all_positions(count: nat) -> Seq<usize> {
    Seq::new(count, |i: int| i as usize)
}

/// The names that a command line gives behind the program and the
/// operation.
pub open spec fn names_of(args: Seq<Seq<char>>) -> Seq<Seq<char>> {
    if args.len() >= 2 {
        args.skip(2)
    } else {
        Seq::empty()
    }
}

/// The indices below `count` of the elements whose title is among `names`,
/// in the order of the configuration.
pub open spec fn selection(settings: SettingsView, names: Seq<Seq<char>>, count: nat) -> Seq<
    usize,
>
    decreases count,
{
    if count == 0 {
        Seq::empty()
    } else {
        let before = selection(settings, names, (count - 1) as nat);
        if names.contains(settings.elements[count - 1].element_title) {
            before.push((count - 1) as usize)
        } else {
            before
        }
    }
}

/// The failure that reports a restore of elements that do not exist.
pub open spec fn no_matching_elements() -> FailureView {
    FailureView {
        kind: FailureKind::Configuration,
        message: "No matching elements found for the provided arguments"@,
    }
}

/// The restore is over in `state`: no selected element is left, or none is in
/// work, or the one in work is no element of the configuration.
pub open spec fn restore_is_over(settings: SettingsView, state: RestoreStateView) -> bool {
    state.cursor >= state.selected.len() || state.stage is Finished
        || state.selected[state.cursor as int] >= settings.elements.len()
}

/// The restore at the start of the work on the selected element at `cursor`:
/// its folder is to be listed; behind the last one the batch is over.
pub open spec fn enter_restore(
    settings: SettingsView,
    selected: Seq<usize>,
    cursor: usize,
    reports: Seq<ElementReportView>,
) -> (RestoreStateView, RestoreActionView) {
    if cursor < selected.len() && selected[cursor as int] < settings.elements.len() {
        (
            RestoreStateView { selected, cursor, stage: RestoreStageView::Locating, reports },
            RestoreActionView::List {
                prefix: list_prefix_text(
                    settings.elements[selected[cursor as int] as int].s3_folder,
                ),
            },
        )
    } else {
        (
            RestoreStateView { selected, cursor, stage: RestoreStageView::Finished, reports },
            RestoreActionView::Finish,
        )
    }
}

/// The restore after the element in work ended with `failure`.
pub open spec fn close_restore(
    settings: SettingsView,
    state: RestoreStateView,
    failure: Option<FailureView>,
) -> (RestoreStateView, RestoreActionView) {
    enter_restore(
        settings,
        state.selected,
        (state.cursor + 1) as usize,
        state.reports.push(
            ElementReportView { position: state.selected[state.cursor as int], failure },
        ),
    )
}

/// The restore after the folder of the element in work was listed as
/// `objects`: the latest backup is fetched; without one the element fails,
/// with a line that names it.
pub open spec fn locate(
    settings: SettingsView,
    state: RestoreStateView,
    objects: Seq<RemoteObjectView>,
) -> (RestoreStateView, RestoreActionView) {
    match fetch(settings.restore_dir_text(), objects) {
        Ok(download) => (
            RestoreStateView {
                stage: RestoreStageView::Downloading { artifact: download.destination },
                ..state
            },
            RestoreActionView::Download {
                key: download.key,
                directory: download.directory,
                destination: download.destination,
            },
        ),
        Err(failure) => close_restore(
            settings,
            state,
            Some(
                FailureView {
                    kind: failure.kind,
                    message: fetch_failure_text(title_in_work(settings, state), failure.message),
                },
            ),
        ),
    }
}

/// The restore after the latest backup of the element in work arrived in
/// the file `artifact`: the first command of its restore is run; an element
/// without a target fails.
pub open spec fn unpack(settings: SettingsView, state: RestoreStateView, artifact: Seq<char>) -> (
    RestoreStateView,
    RestoreActionView,
) {
    let element = settings.elements[state.selected[state.cursor as int] as int];
    match element.restore(artifact) {
        Ok(commands) => if commands.len() > 0 {
            (
                RestoreStateView {
                    stage: RestoreStageView::Restoring { commands, next: 0 },
                    ..state
                },
                RestoreActionView::RunCommand { command: commands[0] },
            )
        } else {
            close_restore(settings, state, None)
        },
        Err(failure) => close_restore(
            settings,
            state,
            Some(
                FailureView {
                    kind: failure.kind,
                    message: unpack_failure_text(element.element_title, failure.message),
                },
            ),
        ),
    }
}

/// The title of the element in work.
pub open spec fn title_in_work(settings: SettingsView, state: RestoreStateView) -> Seq<char> {
    settings.elements[state.selected[state.cursor as int] as int].element_title
}

/// The line that reports a failure to fetch the latest backup of an element.
pub open spec fn fetch_failure_text(title: Seq<char>, cause: Seq<char>) -> Seq<char> {
    report_text("Failed to fetch the latest backup for "@, title, cause)
}

/// The line that reports a failure to restore an element from its backup.
pub open spec fn unpack_failure_text(title: Seq<char>, cause: Seq<char>) -> Seq<char> {
    report_text("Restore process encountered an error for "@, title, cause)
}

/// The failure of the element in work at the stage where it stands, caused
/// by `cause`: its kind goes by the stage, and its line names the element.
pub open spec fn restore_failure(
    settings: SettingsView,
    state: RestoreStateView,
    cause: Seq<char>,
) -> FailureView {
    let title = title_in_work(settings, state);
    match state.stage {
        RestoreStageView::Restoring { .. } => FailureView {
            kind: FailureKind::Command,
            message: unpack_failure_text(title, cause),
        },
        _ => FailureView {
            kind: FailureKind::RemoteStore,
            message: fetch_failure_text(title, cause),
        },
    }
}

/// The event that the outcome of a command is to a restore.
pub open spec fn restore_event_of(outcome: CommandOutcomeView) -> RestoreEventView {
    match outcome {
        CommandOutcomeView::Success => RestoreEventView::Succeeded,
        CommandOutcomeView::Failed { stderr, .. } => RestoreEventView::Failed(stderr),
        CommandOutcomeView::SpawnError { cause } => RestoreEventView::Failed(cause),
    }
}

/// The restore after the step that was handed out last succeeded, with the
/// listing `objects` where one was asked for.
pub open spec fn proceed_restore(
    settings: SettingsView,
    state: RestoreStateView,
    objects: Seq<RemoteObjectView>,
) -> (RestoreStateView, RestoreActionView) {
    match state.stage {
        RestoreStageView::Locating => locate(settings, state, objects),
        RestoreStageView::Downloading { artifact } => unpack(settings, state, artifact),
        RestoreStageView::Restoring { commands, next } => if next + 1 < commands.len() {
            (
                RestoreStateView {
                    stage: RestoreStageView::Restoring { commands, next: (next + 1) as usize },
                    ..state
                },
                RestoreActionView::RunCommand { command: commands[next + 1] },
            )
        } else {
            close_restore(settings, state, None)
        },
        RestoreStageView::Finished => close_restore(settings, state, None),
    }
}

/// The transition of the restore batch: the state after `event`, and the
/// step to carry out next. A failure ends the work on the element in work
/// and on it alone. A listing counts as plain success where none was asked
/// for, and plain success as an empty listing where one was.
pub open spec fn next_restore(
    settings: SettingsView,
    state: RestoreStateView,
    event: RestoreEventView,
) -> (RestoreStateView, RestoreActionView) {
    if restore_is_over(settings, state) {
        (RestoreStateView { stage: RestoreStageView::Finished, ..state }, RestoreActionView::Finish)
    } else {
        match event {
            RestoreEventView::Failed(cause) => close_restore(
                settings,
                state,
                Some(restore_failure(settings, state, cause)),
            ),
            RestoreEventView::Listed(objects) => proceed_restore(settings, state, objects),
            RestoreEventView::Succeeded => proceed_restore(settings, state, Seq::empty()),
        }
    }
}

fn enter_selected(
    settings: &Settings,
    selected: Vec<usize>,
    cursor: usize,
    reports: Vec<ElementReport>,
) -> (r: (RestoreState, RestoreAction))
    ensures
        (r.0@, r.1@) == enter_restore(settings@, selected@, cursor, reports_view(reports@)),
{
    if cursor < selected.len() && selected[cursor] < settings.elements.len() {
        let prefix: String = list_prefix(settings.elements[selected[cursor]].s3_folder.as_str());
        (
            RestoreState { selected, cursor, stage: RestoreStage::Locating, reports },
            RestoreAction::List { prefix },
        )
    } else {
        (
            RestoreState { selected, cursor, stage: RestoreStage::Finished, reports },
            RestoreAction::Finish,
        )
    }
}

fn close_selected(
    settings: &Settings,
    selected: Vec<usize>,
    cursor: usize,
    reports: Vec<ElementReport>,
    failure: Option<Failure>,
) -> (r: (RestoreState, RestoreAction))
    requires
        cursor < selected@.len(),
    ensures
        (r.0@, r.1@) == enter_restore(
            settings@,
            selected@,
            (cursor + 1) as usize,
            reports_view(reports@).push(
                ElementReportView {
                    position: selected@[cursor as int],
                    failure: match failure {
                        Some(failure) => Some(failure@),
                        None => None,
                    },
                },
            ),
        ),
{
    proof {
        assert(cursor < selected.len());
    }
    let mut reports = reports;
    let ghost before = reports_view(reports@);
    let entry = ElementReport { position: selected[cursor], failure };
    let ghost entry_view = entry@;
    reports.push(entry);
    proof {
        assert(reports_view(reports@) =~= before.push(entry_view));
    }
    enter_selected(settings, selected, cursor + 1, reports)
}

fn locate_selected(
    settings: &Settings,
    selected: Vec<usize>,
    cursor: usize,
    reports: Vec<ElementReport>,
    objects: &Vec<RemoteObject>,
) -> (r: (RestoreState, RestoreAction))
    requires
        cursor < selected@.len(),
        selected@[cursor as int] < settings.elements@.len(),
    ensures
        (r.0@, r.1@) == locate(
            settings@,
            RestoreStateView {
                selected: selected@,
                cursor,
                stage: RestoreStageView::Locating,
                reports: reports_view(reports@),
            },
            objects_view(objects@),
        ),
{
    let directory: String = settings.restore_dir();
    match get_file_from_s3(directory.as_str(), objects) {
        Ok(download) => {
            let Download { key, directory, destination } = download;
            let artifact: String = destination.clone();
            (
                RestoreState {
                    selected,
                    cursor,
                    stage: RestoreStage::Downloading { artifact },
                    reports,
                },
                RestoreAction::Download { key, directory, destination },
            )
        },
        Err(failure) => {
            let failure: Failure = report(
                failure.kind,
                "Failed to fetch the latest backup for ",
                settings.elements[selected[cursor]].element_title.as_str(),
                failure.message.as_str(),
            );
            close_selected(settings, selected, cursor, reports, Some(failure))
        },
    }
}

fn unpack_selected(
    settings: &Settings,
    selected: Vec<usize>,
    cursor: usize,
    reports: Vec<ElementReport>,
    artifact: String,
) -> (r: (RestoreState, RestoreAction))
    requires
        cursor < selected@.len(),
        selected@[cursor as int] < settings.elements.len(),
    ensures
        (r.0@, r.1@) == unpack(
            settings@,
            RestoreStateView {
                selected: selected@,
                cursor,
                stage: RestoreStageView::Downloading { artifact: artifact@ },
                reports: reports_view(reports@),
            },
            artifact@,
        ),
{
    let element: &Elements = &settings.elements[selected[cursor]];
    match element.perform_restore(artifact.as_str()) {
        Ok(commands) => {
            if commands.len() > 0 {
                let command: String = commands[0].clone();
                (
                    RestoreState {
                        selected,
                        cursor,
                        stage: RestoreStage::Restoring { commands, next: 0 },
                        reports,
                    },
                    RestoreAction::RunCommand { command },
                )
            } else {
                close_selected(settings, selected, cursor, reports, None)
            }
        },
        Err(failure) => {
            let failure: Failure = report(
                failure.kind,
                "Restore process encountered an error for ",
                element.element_title.as_str(),
                failure.message.as_str(),
            );
            close_selected(settings, selected, cursor, reports, Some(failure))
        },
    }
}

/// Starts the restore of every element of the configuration: the state
/// before the first element and the first step to carry out.
pub fn restore_all_process(settings: &Settings) -> (r: (RestoreState, RestoreAction))
    ensures
        (r.0@, r.1@) == enter_restore(
            settings@,
            all_positions(settings@.elements.len()),
            0,
            Seq::empty(),
        ),
{
    let mut selected: Vec<usize> = Vec::new();
    let mut i: usize = 0;
    while i < settings.elements.len()
        invariant
            i <= settings.elements.len(),
            selected@ == all_positions(i as nat),
        decreases settings.elements.len() - i,
    {
        selected.push(i);
        proof {
            assert(selected@ =~= all_positions((i + 1) as nat));
        }
        i += 1;
    }
    let reports: Vec<ElementReport> = Vec::new();
    proof {
        assert(reports_view(reports@) =~= Seq::empty());
    }
    enter_selected(settings, selected, 0, reports)
}

fn is_named(names: &Vec<String>, title: &String) -> (r: bool)
    ensures
        r == names_of(texts(names@)).contains(title@),
{
    let ghost wanted = names_of(texts(names@));
    let mut i: usize = 2;
    while i < names.len()
        invariant
            2 <= i,
            wanted == names_of(texts(names@)),
            forall|k: int| 2 <= k < i && k < names@.len() ==> names@[k]@ != title@,
        decreases names.len() - i,
    {
        if names[i] == *title {
            proof {
                assert(wanted[i - 2] == title@);
            }
            return true;
        }
        i += 1;
    }
    proof {
        if wanted.contains(title@) {
            let at = choose|k: int| 0 <= k < wanted.len() && wanted[k] == title@;
            assert(names@[at + 2]@ == title@);
        }
    }
    false
}

/// Starts the restore of the elements that the command line `args` names
/// behind the program and the operation: those whose title is among the
/// names, in the order of the configuration. Where no title is among them
/// the restore fails, and nothing is handed out to fetch.
pub fn restore_selected_process(settings: &Settings, args: &Vec<String>) -> (r: Result<
    (RestoreState, RestoreAction),
    Failure,
>)
    ensures
        match r {
            Ok(run) => {
                let selected = selection(
                    settings@,
                    names_of(texts(args@)),
                    settings@.elements.len(),
                );
                selected.len() > 0 && (run.0@, run.1@) == enter_restore(
                    settings@,
                    selected,
                    0,
                    Seq::empty(),
                )
            },
            Err(failure) => selection(
                settings@,
                names_of(texts(args@)),
                settings@.elements.len(),
            ).len() == 0 && failure@ == no_matching_elements(),
        },
{
    let mut selected: Vec<usize> = Vec::new();
    let mut i: usize = 0;
    while i < settings.elements.len()
        invariant
            i <= settings.elements.len(),
            selected@ == selection(settings@, names_of(texts(args@)), i as nat),
        decreases settings.elements.len() - i,
    {
        if is_named(args, &settings.elements[i].element_title) {
            selected.push(i);
        }
        i += 1;
    }
    if selected.len() == 0 {
        return Err(
            Failure {
                kind: FailureKind::Configuration,
                message: String::from_str("No matching elements found for the provided arguments"),
            },
        );
    }
    let reports: Vec<ElementReport> = Vec::new();
    proof {
        assert(reports_view(reports@) =~= Seq::empty());
    }
    Ok(enter_selected(settings, selected, 0, reports))
}

fn proceed_selected(
    settings: &Settings,
    selected: Vec<usize>,
    cursor: usize,
    stage: RestoreStage,
    reports: Vec<ElementReport>,
    objects: &Vec<RemoteObject>,
) -> (r: (RestoreState, RestoreAction))
    requires
        cursor < selected@.len(),
        selected@[cursor as int] < settings.elements@.len(),
    ensures
        (r.0@, r.1@) == proceed_restore(
            settings@,
            RestoreStateView {
                selected: selected@,
                cursor,
                stage: stage@,
                reports: reports_view(reports@),
            },
            objects_view(objects@),
        ),
{
    match stage {
        RestoreStage::Locating => locate_selected(settings, selected, cursor, reports, objects),
        RestoreStage::Downloading { artifact } => unpack_selected(
            settings,
            selected,
            cursor,
            reports,
            artifact,
        ),
        RestoreStage::Restoring { commands, next } => {
            if next < usize::MAX && next + 1 < commands.len() {
                let command: String = commands[next + 1].clone();
                (
                    RestoreState {
                        selected,
                        cursor,
                        stage: RestoreStage::Restoring { commands, next: next + 1 },
                        reports,
                    },
                    RestoreAction::RunCommand { command },
                )
            } else {
                close_selected(settings, selected, cursor, reports, None)
            }
        },
        RestoreStage::Finished => close_selected(settings, selected, cursor, reports, None),
    }
}

/// Takes the event of the step that was handed out last and hands out the
/// next step of the restore.
pub fn restore_elements(settings: &Settings, state: RestoreState, event: RestoreEvent) -> (r: (
    RestoreState,
    RestoreAction,
))
    ensures
        (r.0@, r.1@) == next_restore(settings@, state@, event@),
{
    let RestoreState { selected, cursor, stage, reports } = state;
    let over: bool = cursor >= selected.len() || match stage {
        RestoreStage::Finished => true,
        _ => false,
    } || selected[cursor] >= settings.elements.len();
    if over {
        return (
            RestoreState { selected, cursor, stage: RestoreStage::Finished, reports },
            RestoreAction::Finish,
        );
    }
    match event {
        RestoreEvent::Failed(cause) => {
            let title: &str = settings.elements[selected[cursor]].element_title.as_str();
            let failure: Failure = match stage {
                RestoreStage::Restoring { .. } => report(
                    FailureKind::Command,
                    "Restore process encountered an error for ",
                    title,
                    cause.as_str(),
                ),
                _ => report(
                    FailureKind::RemoteStore,
                    "Failed to fetch the latest backup for ",
                    title,
                    cause.as_str(),
                ),
            };
            close_selected(settings, selected, cursor, reports, Some(failure))
        },
        RestoreEvent::Listed(pages) => {
            let objects: Vec<RemoteObject> = get_s3_objects_list(&pages);
            proceed_selected(settings, selected, cursor, stage, reports, &objects)
        },
        RestoreEvent::Succeeded => {
            let objects: Vec<RemoteObject> = Vec::new();
            proof {
                assert(objects_view(objects@) =~= Seq::empty());
            }
            proceed_selected(settings, selected, cursor, stage, reports, &objects)
        },
    }
}

impl RestoreEvent {
    /// Turns the outcome of a command into the event that a restore takes.
    pub fn of_command(outcome: CommandOutcome) -> (r: RestoreEvent)
        ensures
            r@ == restore_event_of(outcome@),
    {
        match outcome {
            CommandOutcome::Success => RestoreEvent::Succeeded,
            CommandOutcome::Failed { stderr, .. } => RestoreEvent::Failed(stderr),
            CommandOutcome::SpawnError { cause } => RestoreEvent::Failed(cause),
        }
    }
}

/// An index is selected exactly when it is below `count` and the title of
/// its element is among the names; and every selected index is below
/// `count`.
pub proof fn lemma_selection_contains(
    settings: SettingsView,
    names: Seq<Seq<char>>,
    count: nat,
    position: usize,
)
    requires
        count <= settings.elements.len() <= usize::MAX,
    ensures
        selection(settings, names, count).contains(position) <==> position < count
            && names.contains(settings.elements[position as int].element_title),
        forall|k: int|
            0 <= k < selection(settings, names, count).len() ==> (#[trigger] selection(
                settings,
                names,
                count,
            )[k]) < count,
        selection(settings, names, count).len() <= count,
    decreases count,
{
    if count > 0 {
        let before = selection(settings, names, (count - 1) as nat);
        let picked = selection(settings, names, count);
        lemma_selection_contains(settings, names, (count - 1) as nat, position);
        if names.contains(settings.elements[count - 1].element_title) {
            assert(picked == before.push((count - 1) as usize));
            assert forall|k: int| 0 <= k < picked.len() implies (#[trigger] picked[k]) < count by {
                if k < before.len() {
                    assert(picked[k] == before[k]);
                }
            }
            if picked.contains(position) {
                let at = choose|i: int| 0 <= i < picked.len() && picked[i] == position;
                if at < before.len() {
                    assert(before[at] == position);
                }
            }
            if before.contains(position) {
                let at = choose|i: int| 0 <= i < before.len() && before[i] == position;
                assert(picked[at] == position);
            }
            if position == count - 1 {
                assert(picked[before.len() as int] == position);
            }
        } else {
            if before.contains(position) {
                let at = choose|i: int| 0 <= i < before.len() && before[i] == position;
                assert(before[at] < count - 1);
            }
        }
    }
}

/// A restore by names selects nothing exactly when no element of the
/// configuration has a title among the names.
pub proof fn law_selection_is_empty_without_match(settings: SettingsView, names: Seq<Seq<char>>)
    requires
        settings.elements.len() <= usize::MAX,
    ensures
        selection(settings, names, settings.elements.len()).len() == 0 <==> forall|position: int|
            0 <= position < settings.elements.len() ==> !names.contains(
                (#[trigger] settings.elements[position]).element_title,
            ),
{
    let count = settings.elements.len();
    let picked = selection(settings, names, count);
    if picked.len() > 0 {
        lemma_selection_contains(settings, names, count, picked[0]);
        assert(picked.contains(picked[0]));
        assert(names.contains(settings.elements[picked[0] as int].element_title));
    } else {
        assert forall|position: int| 0 <= position < count implies !names.contains(
            (#[trigger] settings.elements[position]).element_title,
        ) by {
            lemma_selection_contains(settings, names, count, position as usize);
            if names.contains(settings.elements[position].element_title) {
                assert(picked.contains(position as usize));
            }
        }
    }
}

/// What holds of every state that a restore reaches from its start: the
/// selected indices are elements of the configuration; those before the one
/// in work are reported, each once and in order; and the batch is over
/// exactly behind the last of them.
pub open spec fn restore_well_formed(settings: SettingsView, state: RestoreStateView) -> bool {
    &&& settings.elements.len() <= usize::MAX
    &&& state.cursor <= state.selected.len() <= usize::MAX
    &&& forall|k: int|
        0 <= k < state.selected.len() ==> (#[trigger] state.selected[k])
            < settings.elements.len()
    &&& state.reports.len() == state.cursor
    &&& forall|k: int|
        0 <= k < state.reports.len() ==> (#[trigger] state.reports[k]).position
            == state.selected[k]
    &&& (state.stage is Finished <==> state.cursor == state.selected.len())
    &&& match state.stage {
        RestoreStageView::Restoring { commands, next } => next < commands.len() <= 2,
        _ => true,
    }
}

/// A bound on the steps that the restore can still take.
pub open spec fn restore_steps_left(settings: SettingsView, state: RestoreStateView) -> int {
    if restore_is_over(settings, state) {
        0
    } else {
        (state.selected.len() - state.cursor) * 6 + match state.stage {
            RestoreStageView::Locating => 5,
            RestoreStageView::Downloading { .. } => 4,
            RestoreStageView::Restoring { commands, next } => 1 + commands.len() - next,
            RestoreStageView::Finished => 0,
        }
    }
}

/// A restore of all elements and a restore by names start in a well-formed
/// state.
pub proof fn law_restore_starts_well_formed(settings: SettingsView, names: Seq<Seq<char>>)
    requires
        settings.elements.len() <= usize::MAX,
    ensures
        restore_well_formed(
            settings,
            enter_restore(settings, all_positions(settings.elements.len()), 0, Seq::empty()).0,
        ),
        restore_well_formed(
            settings,
            enter_restore(
                settings,
                selection(settings, names, settings.elements.len()),
                0,
                Seq::empty(),
            ).0,
        ),
{
    lemma_selection_contains(settings, names, settings.elements.len(), 0);
}

/// Every event leads from a well-formed state to a well-formed state.
pub proof fn law_restore_stays_well_formed(
    settings: SettingsView,
    state: RestoreStateView,
    event: RestoreEventView,
)
    requires
        restore_well_formed(settings, state),
    ensures
        restore_well_formed(settings, next_restore(settings, state, event).0),
{
    if !restore_is_over(settings, state) {
        let element = settings.elements[state.selected[state.cursor as int] as int];
        match element.params {
            Some(target) => {
                law_restore_commands_mention_own_fields_once(target, Field::Artifact);
            },
            None => {},
        }
    }
}

/// The failure of one element never ends the restore: the element in work
/// is reported with the failure, none of its remaining steps is handed out,
/// and the restore goes on with the selected element behind it, or is over
/// where none is left.
pub proof fn law_restore_failure_stays_with_element(
    settings: SettingsView,
    state: RestoreStateView,
    cause: Seq<char>,
)
    requires
        restore_well_formed(settings, state),
        !restore_is_over(settings, state),
    ensures
        ({
            let after = next_restore(settings, state, RestoreEventView::Failed(cause));
            &&& after.0.cursor == state.cursor + 1
            &&& after.0.selected == state.selected
            &&& after.0.reports == state.reports.push(
                ElementReportView {
                    position: state.selected[state.cursor as int],
                    failure: Some(restore_failure(settings, state, cause)),
                },
            )
            &&& if state.cursor + 1 < state.selected.len() {
                after.0.stage is Locating && after.1 == (RestoreActionView::List {
                    prefix: list_prefix_text(
                        settings.elements[state.selected[state.cursor + 1] as int].s3_folder,
                    ),
                })
            } else {
                after.0.stage is Finished && after.1 is Finish
            }
        }),
{
}

/// Every event brings a restore that is not over closer to its end, and a
/// restore that is over has reported every selected element.
pub proof fn law_restore_makes_progress(
    settings: SettingsView,
    state: RestoreStateView,
    event: RestoreEventView,
)
    requires
        restore_well_formed(settings, state),
    ensures
        !restore_is_over(settings, state) ==> 0 <= restore_steps_left(
            settings,
            next_restore(settings, state, event).0,
        ) < restore_steps_left(settings, state),
        state.stage is Finished ==> state.reports.len() == state.selected.len(),
{
    law_restore_stays_well_formed(settings, state, event);
}

} // verus!
