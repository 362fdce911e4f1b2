//! What has to happen on disk, as data, and the bookkeeping of doing it.
//!
//! Nothing here touches the file system. A plan is an ordered list of
//! operations; a `ScaffoldWriter` hands them out one at a time, is told how
//! each went, and stops at the first failure.

use crate::errors::GeneratorError;
use vstd::prelude::*;

verus! {

/// What is said to the user once every operation of a plan has succeeded.
pub const SUCCESS_MESSAGE: &'static str = "Project generated!";

/// One step of a plan.
#[derive(Debug, PartialEq, Eq)]
pub enum FileOperation {
    /// Create the directory at `path`, with every ancestor that is missing.
    CreateDirectory { path: String },
    /// Write `content` to the file at `path`.
    CreateFile { path: String, content: String },
}

/// What a `FileOperation` stands for.
pub enum FileOperationView {
    CreateDirectory { path: Seq<char> },
    CreateFile { path: Seq<char>, content: Seq<char> },
}

impl View for FileOperation {
    type V = FileOperationView;

    open spec fn view(&self) -> FileOperationView {
        match self {
            FileOperation::CreateDirectory { path } => FileOperationView::CreateDirectory {
                path: path@,
            },
            FileOperation::CreateFile { path, content } => FileOperationView::CreateFile {
                path: path@,
                content: content@,
            },
        }
    }
}

/// What a list of operations stands for.
pub open spec fn operations(plan: Seq<FileOperation>) -> Seq<FileOperationView> {
    plan.map_values(|operation: FileOperation| operation@)
}

/// The error for an operation that failed with `cause`: by the kind of the
/// operation, with the cause inside.
pub open spec fn failure_of(operation: FileOperationView, cause: std::io::Error) -> GeneratorError {
    match operation {
        FileOperationView::CreateDirectory { .. } => GeneratorError::DirectoryCreationError(cause),
        FileOperationView::CreateFile { .. } => GeneratorError::FileCreationError(cause),
    }
}

impl FileOperation {
    /// The path that the operation creates.
    pub fn path(&self) -> (path: &String)
        ensures
            self@ matches FileOperationView::CreateDirectory { path: p } ==> path@ == p,
            self@ matches FileOperationView::CreateFile { path: p, .. } ==> path@ == p,
    {
        match self {
            FileOperation::CreateDirectory { path } => path,
            FileOperation::CreateFile { path, .. } => path,
        }
    }

    /// The error to report when this operation failed with `cause`.
    pub fn failure(&self, cause: std::io::Error) -> (error: GeneratorError)
        ensures
            error == failure_of(self@, cause),
    {
        match self {
            FileOperation::CreateDirectory { .. } => GeneratorError::DirectoryCreationError(cause),
            FileOperation::CreateFile { .. } => GeneratorError::FileCreationError(cause),
        }
    }
}

/// The progress of carrying out a plan.
pub struct ScaffoldWriter {
    plan: Vec<FileOperation>,
    performed: usize,
    failure: Option<GeneratorError>,
}

/// What a `ScaffoldWriter` stands for.
pub struct ScaffoldWriterView {
    /// The whole plan, in the order in which it is carried out.
    pub plan: Seq<FileOperationView>,
    /// How many operations, from the front of the plan, have succeeded.
    pub performed: nat,
    /// The failure that stopped the writer, if one did.
    pub failure: Option<GeneratorError>,
}

impl ScaffoldWriterView {
    /// The operation that is due: the first that was not performed, unless
    /// a failure stopped the writer.
    pub open spec fn pending(self) -> Option<FileOperationView> {
        if self.failure is None && self.performed < self.plan.len() {
            Some(self.plan[self.performed as int])
        } else {
            None
        }
    }

    /// The writer after it was told that the pending operation went as
    /// `outcome` says. With nothing pending, nothing changes.
    pub open spec fn completed(self, outcome: Result<(), std::io::Error>) -> ScaffoldWriterView {
        match (self.pending(), outcome) {
            (None, _) => self,
            (Some(_), Ok(_)) => ScaffoldWriterView { performed: self.performed + 1, ..self },
            (Some(operation), Err(cause)) => ScaffoldWriterView {
                failure: Some(failure_of(operation, cause)),
                ..self
            },
        }
    }

    /// Whether every operation of the plan has succeeded.
    pub open spec fn succeeded(self) -> bool {
        self.failure is None && self.performed == self.plan.len()
    }
}

impl View for ScaffoldWriter {
    type V = ScaffoldWriterView;

    closed spec fn view(&self) -> ScaffoldWriterView {
        ScaffoldWriterView {
            plan: operations(self.plan@),
            performed: self.performed as nat,
            failure: self.failure,
        }
    }
}

impl ScaffoldWriter {
    #[verifier::type_invariant]
    spec fn well_formed(&self) -> bool {
        self.performed <= self.plan@.len()
    }

    /// A writer that has all of `plan` before it.
    pub fn new(plan: Vec<FileOperation>) -> (writer: ScaffoldWriter)
        ensures
            writer@.plan == operations(plan@),
            writer@.performed == 0,
            writer@.failure is None,
    {
        ScaffoldWriter { plan, performed: 0, failure: None }
    }

    /// How many operations have succeeded; never more than the plan holds.
    pub fn performed(&self) -> (count: usize)
        ensures
            count == self@.performed,
            count <= self@.plan.len(),
    {
        proof {
            use_type_invariant(self);
        }
        self.performed
    }

    /// The operation to carry out next, or `None` when the writer is done:
    /// because the plan is finished, or because an operation failed.
    pub fn pending(&self) -> (operation: Option<&FileOperation>)
        ensures
            operation is Some <==> self@.pending() is Some,
            operation is Some ==> operation->0@ == self@.pending()->0,
    {
        proof {
            use_type_invariant(self);
        }
        if self.failure.is_none() && self.performed < self.plan.len() {
            Some(&self.plan[self.performed])
        } else {
            None
        }
    }

    /// Records how the pending operation went. A success moves on to the
    /// next operation; a failure becomes the writer's outcome and leaves
    /// nothing pending.
    pub fn complete(&mut self, outcome: Result<(), std::io::Error>)
        ensures
            final(self)@ == old(self)@.completed(outcome),
    {
        proof {
            use_type_invariant(&*self);
        }
        if self.failure.is_none() && self.performed < self.plan.len() {
            match outcome {
                Ok(_) => {
                    self.performed = self.performed + 1;
                },
                Err(cause) => {
                    let error = self.plan[self.performed].failure(cause);
                    self.failure = Some(error);
                },
            }
        }
    }

    /// How the run ended: the confirmation when every operation succeeded,
    /// the failure when one failed. `None` while an operation is pending.
    pub fn outcome(self) -> (outcome: Option<Result<&'static str, GeneratorError>>)
        ensures
            self@.pending() is Some <==> outcome is None,
            self@.succeeded() <==> outcome is Some && outcome->0 is Ok,
            self@.succeeded() ==> outcome->0->Ok_0@ == SUCCESS_MESSAGE@,
            self@.failure is Some <==> outcome is Some && outcome->0 is Err,
            self@.failure is Some ==> outcome->0->Err_0 == self@.failure->0,
    {
        proof {
            use_type_invariant(&self);
        }
        let ScaffoldWriter { plan, performed, failure } = self;
        match failure {
            Some(error) => Some(Err(error)),
            None => {
                if performed < plan.len() {
                    None
                } else {
                    Some(Ok(SUCCESS_MESSAGE))
                }
            },
        }
    }
}

/// A failure stops the writer: nothing is pending after it, whatever is
/// reported from then on.
pub proof fn lemma_failure_is_final(writer: ScaffoldWriterView, outcome: Result<(), std::io::Error>)
    requires
        writer.failure is Some,
    ensures
        writer.pending() is None,
        writer.completed(outcome) == writer,
{
}

/// The first failure is the outcome: when the pending operation fails, the
/// writer holds the error of that operation's kind, the count of operations
/// performed stays, and nothing is pending.
pub proof fn lemma_first_failure_stops(writer: ScaffoldWriterView, cause: std::io::Error)
    requires
        writer.pending() is Some,
    ensures
        writer.completed(Err(cause)).failure == Some(failure_of(writer.pending()->0, cause)),
        writer.completed(Err(cause)).performed == writer.performed,
        writer.completed(Err(cause)).pending() is None,
{
}

/// Operations are carried out in the order of the plan: after a success the
/// next operation of the plan is pending, or the writer has succeeded.
pub proof fn lemma_success_moves_on(writer: ScaffoldWriterView)
    requires
        writer.pending() is Some,
    ensures
        writer.completed(Ok(())).performed == writer.performed + 1,
        writer.completed(Ok(())).plan == writer.plan,
        writer.performed + 1 < writer.plan.len() ==> writer.completed(Ok(())).pending() == Some(
            writer.plan[writer.performed as int + 1],
        ),
        writer.performed + 1 == writer.plan.len() ==> writer.completed(Ok(())).succeeded(),
{
}

} // verus!
