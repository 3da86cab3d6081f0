//! The elements of a configuration.

use crate::structures::backup_params::{BackupParams, BackupParamsView, BackupPlan, BackupPlanView};
use crate::utils::failure::{Failure, FailureKind, FailureView};
use crate::utils::text::texts;
use vstd::prelude::*;
use vstd::string::*;

verus! {

/// One unit of backup: a data source, where its backups go, and how long
/// they are kept on either side.
#[derive(Clone, Debug, PartialEq, Eq)]
pub struct Elements {
    pub element_title: String,
    pub s3_folder: String,
    pub backup_retention_days: u64,
    pub s3_backup_retention_days: u64,
    pub params: Option<BackupParams>,
}

/// An `Elements` with its texts as sequences of characters.
pub struct ElementsView {
    pub element_title: Seq<char>,
    pub s3_folder: Seq<char>,
    pub backup_retention_days: u64,
    pub s3_backup_retention_days: u64,
    pub params: Option<BackupParamsView>,
}

impl View for Elements {
    type V = ElementsView;

    open spec fn view(&self) -> ElementsView {
        ElementsView {
            element_title: self.element_title@,
            s3_folder: self.s3_folder@,
            backup_retention_days: self.backup_retention_days,
            s3_backup_retention_days: self.s3_backup_retention_days,
            params: match self.params {
                Some(target) => Some(target@),
                None => None,
            },
        }
    }
}

/// The line that reports an element without a backup target.
pub open spec fn missing_target_text(title: Seq<char>) -> Seq<char> {
    "No backup parameters provided for element '"@ + title + "'"@
}

/// The failure of an element without a backup target.
pub open spec fn missing_target(title: Seq<char>) -> FailureView {
    FailureView { kind: FailureKind::Configuration, message: missing_target_text(title) }
}

impl ElementsView {
    /// What backing the element up at time `stamp` into the staging directory
    /// `path` takes: the plan of its target, or a configuration failure where
    /// it has no target.
    pub open spec fn backup(self, path: Seq<char>, stamp: Seq<char>) -> Result<
        BackupPlanView,
        FailureView,
    > {
        match self.params {
            Some(target) => Ok(target.plan(self.element_title, stamp, path)),
            None => Err(missing_target(self.element_title)),
        }
    }

    /// What restoring the element from the artifact at `artifact` takes: the
    /// commands of its target, or a configuration failure where it has no
    /// target.
    pub open spec fn restore(self, artifact: Seq<char>) -> Result<Seq<Seq<char>>, FailureView> {
        match self.params {
            Some(target) => Ok(target.restore_commands(artifact)),
            None => Err(missing_target(self.element_title)),
        }
    }
}

impl Elements {
    fn no_target(&self) -> (r: Failure)
        ensures
            r@ == missing_target(self@.element_title),
    {
        let mut message: String = String::from_str("No backup parameters provided for element '");
        message.append(self.element_title.as_str());
        message.append("'");
        Failure { kind: FailureKind::Configuration, message }
    }

    /// Resolves the backup of the element at time `stamp` into the staging
    /// directory `path`: the commands to run and the artifact they leave. An
    /// element without a target fails at once, with no command built.
    pub fn perform_backup(&self, path: &str, stamp: &str) -> (r: Result<BackupPlan, Failure>)
        ensures
            match r {
                Ok(plan) => self@.backup(path@, stamp@) == Ok::<BackupPlanView, FailureView>(plan@),
                Err(failure) => self@.backup(path@, stamp@) == Err::<BackupPlanView, FailureView>(
                    failure@,
                ),
            },
    {
        match &self.params {
            Some(target) => Ok(target.command_for(self.element_title.as_str(), stamp, path)),
            None => Err(self.no_target()),
        }
    }

    /// Resolves the restore of the element from the artifact at `artifact`:
    /// the commands to run. An element without a target fails at once.
    pub fn perform_restore(&self, artifact: &str) -> (r: Result<Vec<String>, Failure>)
        ensures
            match r {
                Ok(commands) => self@.restore(artifact@) == Ok::<Seq<Seq<char>>, FailureView>(
                    texts(commands@),
                ),
                Err(failure) => self@.restore(artifact@) == Err::<Seq<Seq<char>>, FailureView>(
                    failure@,
                ),
            },
    {
        match &self.params {
            Some(target) => Ok(target.restore_command_for(artifact)),
            None => Err(self.no_target()),
        }
    }
}

/// The plan of a backup goes by the title and the target alone: elements
/// that agree in both have the same plan for the same directory and time,
/// whatever their folders and retentions.
pub proof fn law_plan_goes_by_title_and_target(
    first: ElementsView,
    second: ElementsView,
    path: Seq<char>,
    stamp: Seq<char>,
)
    requires
        first.element_title == second.element_title,
        first.params == second.params,
    ensures
        first.backup(path, stamp) == second.backup(path, stamp),
        forall|artifact: Seq<char>| first.restore(artifact) == second.restore(artifact),
{
}

} // verus!
