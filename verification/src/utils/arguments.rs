//! The command line of the program.

use crate::utils::failure::{Failure, FailureKind, FailureView};
use crate::utils::text::texts;
use vstd::prelude::*;
use vstd::string::*;

verus! {

/// The operation that a command line asks for.
#[derive(Clone, Copy, Debug, PartialEq, Eq, Structural)]
pub enum Operation {
    /// Back every element up.
    Backup,
    /// Restore every element.
    RestoreAll,
    /// Restore the elements that the further arguments name.
    RestoreSelected,
}

/// The failure that reports a command line without an operation.
pub open spec fn no_operation() -> FailureView {
    FailureView { kind: FailureKind::Usage, message: "No command argument provided. Exiting."@ }
}

/// The failure that reports a command line with an unknown operation.
pub open spec fn unknown_operation() -> FailureView {
    FailureView { kind: FailureKind::Usage, message: "Unknown argument provided. Exiting."@ }
}

/// What the command line `args` asks for, the name of the program first:
/// `backup`, or `restore` with or without further arguments. Anything else
/// is an error of usage.
pub open spec fn operation_of(args: Seq<Seq<char>>) -> Result<Operation, FailureView> {
    if args.len() < 2 {
        Err(no_operation())
    } else if args[1] == "backup"@ {
        Ok(Operation::Backup)
    } else if args[1] == "restore"@ {
        if args.len() > 2 {
            Ok(Operation::RestoreSelected)
        } else {
            Ok(Operation::RestoreAll)
        }
    } else {
        Err(unknown_operation())
    }
}

/// Reads the operation off the command line `args`, the name of the program
/// first.
pub fn parse_arguments(args: &Vec<String>) -> (r: Result<Operation, Failure>)
    ensures
        match r {
            Ok(operation) => operation_of(texts(args@)) == Ok::<Operation, FailureView>(operation),
            Err(failure) => operation_of(texts(args@)) == Err::<Operation, FailureView>(failure@),
        },
{
    if args.len() < 2 {
        return Err(
            Failure {
                kind: FailureKind::Usage,
                message: String::from_str("No command argument provided. Exiting."),
            },
        );
    }
    let backup: String = String::from_str("backup");
    let restore: String = String::from_str("restore");
    if args[1] == backup {
        Ok(Operation::Backup)
    } else if args[1] == restore {
        if args.len() > 2 {
            Ok(Operation::RestoreSelected)
        } else {
            Ok(Operation::RestoreAll)
        }
    } else {
        Err(
            Failure {
                kind: FailureKind::Usage,
                message: String::from_str("Unknown argument provided. Exiting."),
            },
        )
    }
}

} // verus!
