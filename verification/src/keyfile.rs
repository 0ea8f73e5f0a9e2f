//! Loading the node's secret key from its key file, or generating a key and
//! writing the file.
//!
//! The key file holds the 32 raw bytes of the secret key and nothing else. A
//! [`KeyFileTask`] decides, one file operation at a time, what the host has
//! to do and what each outcome means; it never overwrites a file.

use crate::identity::{is_secret_scalar, Keypair, SecretKey};
use crate::io::{
    detail_of, failure_detail, perform, FileStore, IoAction, IoActionView, IoOutcome,
    IoOutcomeView,
};
use crate::text::optional_text;
use vstd::prelude::*;
use vstd::string::*;

verus! {

/// The file operation during which a key-file task failed.
#[derive(Debug, Clone, Copy, PartialEq, Eq, Structural)]
pub enum KeyFileOperation {
    CreateDirectory,
    CreateFile,
    Write,
    Read,
}

/// Why the node has no identity.
#[derive(Debug, Clone, PartialEq, Eq)]
pub enum IdentityError {
    /// A key was to be generated, but something exists at the key file's path.
    KeyFileExists { path: String },
    /// A key was to be loaded, but nothing exists at the key file's path.
    KeyFileMissing { path: String },
    /// The key file does not hold a secret key: it has `length` bytes.
    InvalidKeyBytes { length: usize },
    /// A file operation on `path` failed; `detail` is the host's description.
    Io { operation: KeyFileOperation, path: String, detail: String },
}

/// What an [`IdentityError`] is, as mathematical values.
pub enum IdentityErrorView {
    KeyFileExists { path: Seq<char> },
    KeyFileMissing { path: Seq<char> },
    InvalidKeyBytes { length: nat },
    Io { operation: KeyFileOperation, path: Seq<char>, detail: Seq<char> },
}

impl View for IdentityError {
    type V = IdentityErrorView;

    open spec fn view(&self) -> IdentityErrorView {
        match self {
            IdentityError::KeyFileExists { path } => IdentityErrorView::KeyFileExists {
                path: path@,
            },
            IdentityError::KeyFileMissing { path } => IdentityErrorView::KeyFileMissing {
                path: path@,
            },
            IdentityError::InvalidKeyBytes { length } => IdentityErrorView::InvalidKeyBytes {
                length: *length as nat,
            },
            IdentityError::Io { operation, path, detail } => IdentityErrorView::Io {
                operation: *operation,
                path: path@,
                detail: detail@,
            },
        }
    }
}

/// Where a key-file task stands: the operation whose outcome it waits for.
#[derive(Clone, PartialEq, Eq)]
pub enum KeyFileTask {
    /// Waiting for `directory`, the key file's directory, to be created.
    CreatingDirectory { path: String, directory: String, secret: SecretKey },
    /// Waiting for the key file to be created.
    CreatingFile { path: String, secret: SecretKey },
    /// Waiting for the secret bytes to be written.
    Writing { path: String, secret: SecretKey },
    /// Waiting for the key file to be read.
    Reading { path: String },
}

/// What a [`KeyFileTask`] is, as mathematical values.
pub enum KeyFileTaskView {
    CreatingDirectory { path: Seq<char>, directory: Seq<char>, secret: Seq<u8> },
    CreatingFile { path: Seq<char>, secret: Seq<u8> },
    Writing { path: Seq<char>, secret: Seq<u8> },
    Reading { path: Seq<char> },
}

impl View for KeyFileTask {
    type V = KeyFileTaskView;

    open spec fn view(&self) -> KeyFileTaskView {
        match self {
            KeyFileTask::CreatingDirectory {
                path,
                directory,
                secret,
            } => KeyFileTaskView::CreatingDirectory {
                path: path@,
                directory: directory@,
                secret: secret@,
            },
            KeyFileTask::CreatingFile { path, secret } => KeyFileTaskView::CreatingFile {
                path: path@,
                secret: secret@,
            },
            KeyFileTask::Writing { path, secret } => KeyFileTaskView::Writing {
                path: path@,
                secret: secret@,
            },
            KeyFileTask::Reading { path } => KeyFileTaskView::Reading { path: path@ },
        }
    }
}

/// One step of a key-file task: either the next operation for the host, with
/// the task that waits for its outcome, or the end of the task.
#[derive(Clone, PartialEq, Eq)]
pub enum KeyFileStep {
    /// The host performs `action` and hands the outcome to `task`.
    Perform { task: KeyFileTask, action: IoAction },
    /// The node has its key pair.
    Finished(Keypair),
    /// The node has no key pair.
    Failed(IdentityError),
}

/// What a [`KeyFileStep`] is, as mathematical values. A finished step is
/// known by the secret bytes of its key pair.
pub enum KeyFileStepView {
    Perform { task: KeyFileTaskView, action: IoActionView },
    Finished { secret: Seq<u8> },
    Failed(IdentityErrorView),
}

impl View for KeyFileStep {
    type V = KeyFileStepView;

    open spec fn view(&self) -> KeyFileStepView {
        match self {
            KeyFileStep::Perform { task, action } => KeyFileStepView::Perform {
                task: task@,
                action: action@,
            },
            KeyFileStep::Finished(pair) => KeyFileStepView::Finished {
                secret: pair.secret_bytes(),
            },
            KeyFileStep::Failed(error) => KeyFileStepView::Failed(error@),
        }
    }
}

/// The first step of generating a key file at `path` for `secret`: the
/// directory `parent` is created first where the path has one, and only then
/// the file.
pub open spec fn generate_step(
    path: Seq<char>,
    parent: Option<Seq<char>>,
    secret: Seq<u8>,
) -> KeyFileStepView {
    match parent {
        Some(directory) => KeyFileStepView::Perform {
            task: KeyFileTaskView::CreatingDirectory { path, directory, secret },
            action: IoActionView::CreateDirectories { path: directory },
        },
        None => KeyFileStepView::Perform {
            task: KeyFileTaskView::CreatingFile { path, secret },
            action: IoActionView::CreateNewFile { path },
        },
    }
}

/// The first step of loading the key file at `path`: reading it.
pub open spec fn load_step(path: Seq<char>) -> KeyFileStepView {
    KeyFileStepView::Perform {
        task: KeyFileTaskView::Reading { path },
        action: IoActionView::ReadFile { path },
    }
}

/// The step that follows when `task` learns of `outcome`.
///
/// Generating goes from the directory to the file to the bytes, and stops at
/// the first operation that does not report `Done`: a taken path is
/// `KeyFileExists`, anything else an `Io` error that names the operation and
/// the path it was about, the directory or the key file.
/// Loading takes the bytes read if they are a secret key; a missing file is
/// `KeyFileMissing`, bytes of another length `InvalidKeyBytes`.
pub open spec fn next_step(task: KeyFileTaskView, outcome: IoOutcomeView) -> KeyFileStepView {
    match task {
        KeyFileTaskView::CreatingDirectory { path, directory, secret } => match outcome {
            IoOutcomeView::Done => KeyFileStepView::Perform {
                task: KeyFileTaskView::CreatingFile { path, secret },
                action: IoActionView::CreateNewFile { path },
            },
            _ => KeyFileStepView::Failed(
                IdentityErrorView::Io {
                    operation: KeyFileOperation::CreateDirectory,
                    path: directory,
                    detail: failure_detail(outcome),
                },
            ),
        },
        KeyFileTaskView::CreatingFile { path, secret } => match outcome {
            IoOutcomeView::Done => KeyFileStepView::Perform {
                task: KeyFileTaskView::Writing { path, secret },
                action: IoActionView::WriteAll { path, bytes: secret },
            },
            IoOutcomeView::AlreadyExists => KeyFileStepView::Failed(
                IdentityErrorView::KeyFileExists { path },
            ),
            _ => KeyFileStepView::Failed(
                IdentityErrorView::Io {
                    operation: KeyFileOperation::CreateFile,
                    path,
                    detail: failure_detail(outcome),
                },
            ),
        },
        KeyFileTaskView::Writing { path, secret } => match outcome {
            IoOutcomeView::Done => KeyFileStepView::Finished { secret },
            _ => KeyFileStepView::Failed(
                IdentityErrorView::Io {
                    operation: KeyFileOperation::Write,
                    path,
                    detail: failure_detail(outcome),
                },
            ),
        },
        KeyFileTaskView::Reading { path } => match outcome {
            IoOutcomeView::Data(bytes) => if is_secret_scalar(bytes) {
                KeyFileStepView::Finished { secret: bytes }
            } else {
                KeyFileStepView::Failed(IdentityErrorView::InvalidKeyBytes { length: bytes.len() })
            },
            IoOutcomeView::NotFound => KeyFileStepView::Failed(
                IdentityErrorView::KeyFileMissing { path },
            ),
            _ => KeyFileStepView::Failed(
                IdentityErrorView::Io {
                    operation: KeyFileOperation::Read,
                    path,
                    detail: failure_detail(outcome),
                },
            ),
        },
    }
}

/// The secret bytes that a step carries: those of the key being written, or
/// of the key pair it finished with. A step without a key has none.
pub open spec fn step_secret(step: KeyFileStepView) -> Seq<u8> {
    match step {
        KeyFileStepView::Perform { task, action } => match task {
            KeyFileTaskView::CreatingDirectory { path, directory, secret } => secret,
            KeyFileTaskView::CreatingFile { path, secret } => secret,
            KeyFileTaskView::Writing { path, secret } => secret,
            KeyFileTaskView::Reading { path } => Seq::empty(),
        },
        KeyFileStepView::Finished { secret } => secret,
        KeyFileStepView::Failed(error) => Seq::empty(),
    }
}

/// Starts writing `secret` to a new key file at `path`. `parent` is the
/// directory of `path`, where the path has one.
pub fn write_secret_key_to_file(secret: SecretKey, path: String, parent: Option<String>) -> (step:
    KeyFileStep)
    ensures
        step@ == generate_step(path@, optional_text(parent), secret@),
{
    match parent {
        Some(directory) => {
            let target = directory.clone();
            KeyFileStep::Perform {
                task: KeyFileTask::CreatingDirectory { path, directory, secret },
                action: IoAction::CreateDirectories { path: target },
            }
        },
        None => {
            let target = path.clone();
            KeyFileStep::Perform {
                task: KeyFileTask::CreatingFile { path, secret },
                action: IoAction::CreateNewFile { path: target },
            }
        },
    }
}

/// Starts loading the key file at `path`.
pub fn load_secret_key_from_file(path: String) -> (step: KeyFileStep)
    ensures
        step@ == load_step(path@),
{
    let target = path.clone();
    KeyFileStep::Perform {
        task: KeyFileTask::Reading { path },
        action: IoAction::ReadFile { path: target },
    }
}

impl KeyFileTask {
    /// Takes the outcome of the operation that the task is waiting for and says
    /// what follows.
    pub fn advance(self, outcome: IoOutcome) -> (step: KeyFileStep)
        ensures
            step@ == next_step(self@, outcome@),
    {
        match self {
            KeyFileTask::CreatingDirectory { path, directory, secret } => match outcome {
                IoOutcome::Done => {
                    let target = path.clone();
                    KeyFileStep::Perform {
                        task: KeyFileTask::CreatingFile { path, secret },
                        action: IoAction::CreateNewFile { path: target },
                    }
                },
                other => KeyFileStep::Failed(
                    IdentityError::Io {
                        operation: KeyFileOperation::CreateDirectory,
                        path: directory,
                        detail: detail_of(other),
                    },
                ),
            },
            KeyFileTask::CreatingFile { path, secret } => match outcome {
                IoOutcome::Done => {
                    let target = path.clone();
                    let bytes = secret.to_bytes();
                    KeyFileStep::Perform {
                        task: KeyFileTask::Writing { path, secret },
                        action: IoAction::WriteAll { path: target, bytes },
                    }
                },
                IoOutcome::AlreadyExists => KeyFileStep::Failed(
                    IdentityError::KeyFileExists { path },
                ),
                other => KeyFileStep::Failed(
                    IdentityError::Io {
                        operation: KeyFileOperation::CreateFile,
                        path,
                        detail: detail_of(other),
                    },
                ),
            },
            KeyFileTask::Writing { path, secret } => match outcome {
                IoOutcome::Done => KeyFileStep::Finished(Keypair::from_secret(secret)),
                other => KeyFileStep::Failed(
                    IdentityError::Io {
                        operation: KeyFileOperation::Write,
                        path,
                        detail: detail_of(other),
                    },
                ),
            },
            KeyFileTask::Reading { path } => match outcome {
                IoOutcome::Data(bytes) => match SecretKey::from_bytes(bytes) {
                    Ok(secret) => KeyFileStep::Finished(Keypair::from_secret(secret)),
                    Err(refused) => KeyFileStep::Failed(
                        IdentityError::InvalidKeyBytes { length: refused.length },
                    ),
                },
                IoOutcome::NotFound => KeyFileStep::Failed(IdentityError::KeyFileMissing { path }),
                other => KeyFileStep::Failed(
                    IdentityError::Io {
                        operation: KeyFileOperation::Read,
                        path,
                        detail: detail_of(other),
                    },
                ),
            },
        }
    }
}

/// The first step towards the node's key pair. With `generate` set, a fresh
/// secret key is generated and written to a new file at `path` (`parent` being
/// the directory of `path`, where it has one); without it, the key file at
/// `path` is loaded.
pub fn load_or_generate(path: String, parent: Option<String>, generate: bool) -> (step:
    KeyFileStep)
    ensures
        !generate ==> step@ == load_step(path@),
        generate ==> is_secret_scalar(step_secret(step@)) && step@ == generate_step(
            path@,
            optional_text(parent),
            step_secret(step@),
        ),
{
    if generate {
        let secret = SecretKey::generate();
        write_secret_key_to_file(secret, path, parent)
    } else {
        load_secret_key_from_file(path)
    }
}

/// What is shown to the operator for an identity error. Each message names
/// the path that the failed operation was about.
pub open spec fn error_message(error: IdentityErrorView) -> Seq<char> {
    match error {
        IdentityErrorView::KeyFileExists { path } => "Could not generate secret file at "@ + path,
        IdentityErrorView::KeyFileMissing { path } => "No secret file at "@ + path,
        IdentityErrorView::InvalidKeyBytes { length } => "Secret file does not hold a secret key of 32 bytes"@,
        IdentityErrorView::Io { operation, path, detail } => match operation {
            KeyFileOperation::CreateDirectory => "Could not create directory for secret file: "@
                + path,
            KeyFileOperation::CreateFile => "Could not generate secret file at "@ + path,
            KeyFileOperation::Write => "Could not write secret file at "@ + path,
            KeyFileOperation::Read => "No secret file at "@ + path,
        },
    }
}

impl IdentityError {
    /// The message for the operator.
    pub fn message(&self) -> (text: String)
        ensures
            text@ == error_message(self@),
    {
        match self {
            IdentityError::KeyFileExists { path } => {
                let mut text = String::from_str("Could not generate secret file at ");
                text.append(path.as_str());
                text
            },
            IdentityError::KeyFileMissing { path } => {
                let mut text = String::from_str("No secret file at ");
                text.append(path.as_str());
                text
            },
            IdentityError::InvalidKeyBytes { length } => String::from_str(
                "Secret file does not hold a secret key of 32 bytes",
            ),
            IdentityError::Io { operation, path, detail } => {
                let mut text = match operation {
                    KeyFileOperation::CreateDirectory => String::from_str(
                        "Could not create directory for secret file: ",
                    ),
                    KeyFileOperation::CreateFile => String::from_str(
                        "Could not generate secret file at ",
                    ),
                    KeyFileOperation::Write => String::from_str("Could not write secret file at "),
                    KeyFileOperation::Read => String::from_str("No secret file at "),
                };
                text.append(path.as_str());
                text
            },
        }
    }
}

/// How many file operations a task may still ask for, its own included.
pub open spec fn operations_left(task: KeyFileTaskView) -> nat {
    match task {
        KeyFileTaskView::CreatingDirectory { path, directory, secret } => 3,
        KeyFileTaskView::CreatingFile { path, secret } => 2,
        KeyFileTaskView::Writing { path, secret } => 1,
        KeyFileTaskView::Reading { path } => 1,
    }
}

/// Where a step ends up when a file store that never fails performs what it
/// asks for, for at most `fuel` operations: the store and the step reached.
pub open spec fn run(store: FileStore, step: KeyFileStepView, fuel: nat) -> (
    FileStore,
    KeyFileStepView,
)
    decreases fuel,
{
    match step {
        KeyFileStepView::Perform { task, action } => if fuel == 0 {
            (store, step)
        } else {
            let (after, outcome) = perform(store, action);
            run(after, next_step(task, outcome), (fuel - 1) as nat)
        },
        _ => (store, step),
    }
}

/// Every task comes to an end: whatever the outcome, the task that follows
/// has fewer operations left, and a task with one operation left ends.
pub proof fn lemma_tasks_end(task: KeyFileTaskView, outcome: IoOutcomeView)
    ensures
        next_step(task, outcome) matches KeyFileStepView::Perform { task: next, action }
            ==> operations_left(next) < operations_left(task),
{
}

/// Secret bytes are written only to a file that the same task has just created:
/// a write is asked for after nothing but a file creation that reported
/// `Done`, and it goes to the created path with the task's own secret.
pub proof fn lemma_write_follows_creation(task: KeyFileTaskView, outcome: IoOutcomeView)
    ensures
        next_step(task, outcome) matches KeyFileStepView::Perform { task: next, action } ==> (action
            matches IoActionView::WriteAll { path, bytes } ==> outcome == IoOutcomeView::Done
            && task == (KeyFileTaskView::CreatingFile { path, secret: bytes })),
{
}

/// Loading touches no file but to read it: the one operation that loading
/// asks for is the read of the key file, and whatever its outcome, loading
/// ends with it.
pub proof fn lemma_loading_only_reads(path: Seq<char>, outcome: IoOutcomeView)
    ensures
        load_step(path) matches KeyFileStepView::Perform { task, action } && action
            == (IoActionView::ReadFile { path }) && !(next_step(task, outcome) is Perform),
{
}

/// A task that finishes without error hands out a secret key of 32 bytes,
/// provided that the key it set out to write was one.
pub proof fn lemma_finished_key_is_valid(task: KeyFileTaskView, outcome: IoOutcomeView)
    requires
        task matches KeyFileTaskView::Writing { path, secret } ==> is_secret_scalar(secret),
    ensures
        next_step(task, outcome) matches KeyFileStepView::Finished { secret } ==> is_secret_scalar(
            secret,
        ),
{
}

/// Generating a key into a free path and then loading from the same path
/// yields the same bytes: against a file store that never fails, generation
/// finishes with the key and leaves exactly its bytes at `path`, and loading
/// from the store it left finishes with that key again.
pub proof fn lemma_generate_then_load(
    store: FileStore,
    path: Seq<char>,
    parent: Option<Seq<char>>,
    secret: Seq<u8>,
)
    requires
        is_secret_scalar(secret),
        !store.contains_key(path),
    ensures
        run(store, generate_step(path, parent, secret), 3) == (
            store.insert(path, secret),
            KeyFileStepView::Finished { secret },
        ),
        run(store.insert(path, secret), load_step(path), 1) == (
            store.insert(path, secret),
            KeyFileStepView::Finished { secret },
        ),
{
    reveal_with_fuel(run, 4);
    let created = store.insert(path, Seq::<u8>::empty());
    assert(created.insert(path, secret) =~= store.insert(path, secret));
}

/// Generating a key into a path that is taken fails with `KeyFileExists` and
/// leaves the store, the existing file included, as it was.
pub proof fn lemma_generate_keeps_existing_file(
    store: FileStore,
    path: Seq<char>,
    parent: Option<Seq<char>>,
    secret: Seq<u8>,
)
    requires
        store.contains_key(path),
    ensures
        run(store, generate_step(path, parent, secret), 3) == (
            store,
            KeyFileStepView::Failed(IdentityErrorView::KeyFileExists { path }),
        ),
{
    reveal_with_fuel(run, 4);
}

/// Loading from a path where nothing exists fails with `KeyFileMissing`, and
/// the error names the path.
pub proof fn lemma_load_missing_file(store: FileStore, path: Seq<char>)
    requires
        !store.contains_key(path),
    ensures
        run(store, load_step(path), 1) == (
            store,
            KeyFileStepView::Failed(IdentityErrorView::KeyFileMissing { path }),
        ),
{
    reveal_with_fuel(run, 2);
}

} // verus!
