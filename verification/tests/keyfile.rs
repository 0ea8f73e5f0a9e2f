use rendezvous_server::identity::SecretKey;
use rendezvous_server::io::{IoAction, IoOutcome};
use rendezvous_server::keyfile::{
    load_or_generate, load_secret_key_from_file, write_secret_key_to_file, IdentityError,
    KeyFileOperation, KeyFileStep, KeyFileTask,
};
use std::collections::HashMap;

/// A file store in memory that performs what the library asks for.
fn perform(store: &mut HashMap<String, Vec<u8>>, action: IoAction) -> IoOutcome {
    match action {
        IoAction::CreateDirectories { .. } => IoOutcome::Done,
        IoAction::CreateNewFile { path } => {
            if store.contains_key(&path) {
                IoOutcome::AlreadyExists
            } else {
                store.insert(path, Vec::new());
                IoOutcome::Done
            }
        }
        IoAction::WriteAll { path, bytes } => {
            if store.contains_key(&path) {
                store.insert(path, bytes);
                IoOutcome::Done
            } else {
                IoOutcome::NotFound
            }
        }
        IoAction::ReadFile { path } => match store.get(&path) {
            Some(bytes) => IoOutcome::Data(bytes.clone()),
            None => IoOutcome::NotFound,
        },
    }
}

/// Runs a step against the store until the library is done, and says how
/// many operations it took.
fn run(store: &mut HashMap<String, Vec<u8>>, first: KeyFileStep) -> (KeyFileStep, usize) {
    let mut step = first;
    let mut operations = 0;
    loop {
        match step {
            KeyFileStep::Perform { task, action } => {
                operations += 1;
                let outcome = perform(store, action);
                step = task.advance(outcome);
            }
            other => return (other, operations),
        }
    }
}

fn key() -> SecretKey {
    SecretKey::from_bytes((100u8..132).collect()).unwrap()
}

fn failed_with(step: KeyFileStep) -> IdentityError {
    match step {
        KeyFileStep::Failed(error) => error,
        _ => panic!("the step did not fail"),
    }
}

#[test]
fn generate_then_load_yields_the_same_bytes() {
    let mut store = HashMap::new();
    let path = "/var/lib/rendezvous/secret".to_string();
    let parent = Some("/var/lib/rendezvous".to_string());

    let (written, operations) = run(
        &mut store,
        write_secret_key_to_file(key(), path.clone(), parent),
    );
    assert_eq!(operations, 3);
    let written = match written {
        KeyFileStep::Finished(pair) => pair,
        _ => panic!("generation did not finish"),
    };
    assert_eq!(store.get(&path), Some(&key().to_bytes()));

    let (loaded, operations) = run(&mut store, load_secret_key_from_file(path));
    assert_eq!(operations, 1);
    match loaded {
        KeyFileStep::Finished(pair) => {
            assert!(pair == written);
            assert_eq!(pair.secret().to_bytes(), key().to_bytes());
        }
        _ => panic!("loading did not finish"),
    }
}

#[test]
fn generated_key_file_holds_32_bytes_and_loads_again() {
    let mut store = HashMap::new();
    let path = "secret".to_string();
    let (written, _) = run(&mut store, load_or_generate(path.clone(), None, true));
    let written = match written {
        KeyFileStep::Finished(pair) => pair,
        _ => panic!("generation did not finish"),
    };
    assert_eq!(store.get(&path).map(|bytes| bytes.len()), Some(32));
    assert_eq!(store.get(&path), Some(&written.secret().to_bytes()));
    let (loaded, _) = run(&mut store, load_or_generate(path, None, false));
    assert!(loaded == KeyFileStep::Finished(written));
}

#[test]
fn generate_into_existing_path_fails_and_keeps_the_file() {
    let mut store = HashMap::new();
    let path = "/etc/secret".to_string();
    store.insert(path.clone(), b"do not touch".to_vec());

    let (step, operations) = run(
        &mut store,
        write_secret_key_to_file(key(), path.clone(), Some("/etc".to_string())),
    );
    assert_eq!(operations, 2);
    assert_eq!(
        failed_with(step),
        IdentityError::KeyFileExists { path: path.clone() }
    );
    assert_eq!(store.get(&path), Some(&b"do not touch".to_vec()));
    assert_eq!(store.len(), 1);
}

#[test]
fn generate_creates_the_directory_first() {
    let step = write_secret_key_to_file(key(), "a/b/key".to_string(), Some("a/b".to_string()));
    match step {
        KeyFileStep::Perform { task, action } => {
            assert_eq!(
                action,
                IoAction::CreateDirectories {
                    path: "a/b".to_string()
                }
            );
            assert!(
                task == KeyFileTask::CreatingDirectory {
                    path: "a/b/key".to_string(),
                    directory: "a/b".to_string(),
                    secret: key()
                }
            );
        }
        _ => panic!("nothing to perform"),
    }
}

#[test]
fn generate_without_a_directory_creates_the_file_at_once() {
    let step = write_secret_key_to_file(key(), "/".to_string(), None);
    match step {
        KeyFileStep::Perform { task, action } => {
            assert_eq!(
                action,
                IoAction::CreateNewFile {
                    path: "/".to_string()
                }
            );
            assert!(
                task == KeyFileTask::CreatingFile {
                    path: "/".to_string(),
                    secret: key()
                }
            );
        }
        _ => panic!("nothing to perform"),
    }
}

#[test]
fn the_file_is_created_before_anything_is_written() {
    let task = KeyFileTask::CreatingDirectory {
        path: "d/key".to_string(),
        directory: "d".to_string(),
        secret: key(),
    };
    let task = match task.advance(IoOutcome::Done) {
        KeyFileStep::Perform { task, action } => {
            assert_eq!(
                action,
                IoAction::CreateNewFile {
                    path: "d/key".to_string()
                }
            );
            task
        }
        _ => panic!("nothing to perform"),
    };
    match task.advance(IoOutcome::Done) {
        KeyFileStep::Perform { task, action } => {
            assert_eq!(
                action,
                IoAction::WriteAll {
                    path: "d/key".to_string(),
                    bytes: key().to_bytes()
                }
            );
            assert!(
                task == KeyFileTask::Writing {
                    path: "d/key".to_string(),
                    secret: key()
                }
            );
        }
        _ => panic!("nothing to perform"),
    }
}

#[test]
fn load_of_a_missing_file_names_the_path() {
    let mut store = HashMap::new();
    let (step, operations) = run(&mut store, load_secret_key_from_file("/nowhere/key".to_string()));
    assert_eq!(operations, 1);
    let error = failed_with(step);
    assert_eq!(
        error,
        IdentityError::KeyFileMissing {
            path: "/nowhere/key".to_string()
        }
    );
    assert_eq!(error.message(), "No secret file at /nowhere/key");
    assert!(store.is_empty());
}

#[test]
fn load_of_a_short_file_is_invalid_key_bytes() {
    let mut store = HashMap::new();
    store.insert("key".to_string(), vec![1, 2, 3, 4, 5]);
    let (step, _) = run(&mut store, load_secret_key_from_file("key".to_string()));
    let error = failed_with(step);
    assert_eq!(error, IdentityError::InvalidKeyBytes { length: 5 });
    assert_eq!(
        error.message(),
        "Secret file does not hold a secret key of 32 bytes"
    );
}

#[test]
fn load_of_an_empty_file_is_invalid_key_bytes() {
    let task = KeyFileTask::Reading {
        path: "key".to_string(),
    };
    assert_eq!(
        failed_with(task.advance(IoOutcome::Data(Vec::new()))),
        IdentityError::InvalidKeyBytes { length: 0 }
    );
}

#[test]
fn load_of_a_long_file_is_invalid_key_bytes() {
    let task = KeyFileTask::Reading {
        path: "key".to_string(),
    };
    assert_eq!(
        failed_with(task.advance(IoOutcome::Data(vec![0u8; 64]))),
        IdentityError::InvalidKeyBytes { length: 64 }
    );
}

#[test]
fn failure_to_create_the_directory_is_an_io_error() {
    let task = KeyFileTask::CreatingDirectory {
        path: "/ro/dir/key".to_string(),
        directory: "/ro/dir".to_string(),
        secret: key(),
    };
    let error = failed_with(task.advance(IoOutcome::Failed("read-only file system".to_string())));
    assert_eq!(
        error,
        IdentityError::Io {
            operation: KeyFileOperation::CreateDirectory,
            path: "/ro/dir".to_string(),
            detail: "read-only file system".to_string(),
        }
    );
    assert_eq!(
        error.message(),
        "Could not create directory for secret file: /ro/dir"
    );
}

#[test]
fn failure_to_create_the_file_is_an_io_error() {
    let task = KeyFileTask::CreatingFile {
        path: "/ro/key".to_string(),
        secret: key(),
    };
    let error = failed_with(task.advance(IoOutcome::Failed("permission denied".to_string())));
    assert_eq!(
        error,
        IdentityError::Io {
            operation: KeyFileOperation::CreateFile,
            path: "/ro/key".to_string(),
            detail: "permission denied".to_string(),
        }
    );
    assert_eq!(error.message(), "Could not generate secret file at /ro/key");
}

#[test]
fn key_file_in_the_way_is_reported_with_its_path() {
    let task = KeyFileTask::CreatingFile {
        path: "/etc/key".to_string(),
        secret: key(),
    };
    let error = failed_with(task.advance(IoOutcome::AlreadyExists));
    assert_eq!(
        error,
        IdentityError::KeyFileExists {
            path: "/etc/key".to_string()
        }
    );
    assert_eq!(error.message(), "Could not generate secret file at /etc/key");
}

#[test]
fn failure_to_write_is_an_io_error() {
    let task = KeyFileTask::Writing {
        path: "/full/key".to_string(),
        secret: key(),
    };
    let error = failed_with(task.advance(IoOutcome::Failed("no space left".to_string())));
    assert_eq!(
        error,
        IdentityError::Io {
            operation: KeyFileOperation::Write,
            path: "/full/key".to_string(),
            detail: "no space left".to_string(),
        }
    );
    assert_eq!(error.message(), "Could not write secret file at /full/key");
}

#[test]
fn failure_to_read_is_an_io_error() {
    let task = KeyFileTask::Reading {
        path: "/locked/key".to_string(),
    };
    let error = failed_with(task.advance(IoOutcome::Failed("permission denied".to_string())));
    assert_eq!(
        error,
        IdentityError::Io {
            operation: KeyFileOperation::Read,
            path: "/locked/key".to_string(),
            detail: "permission denied".to_string(),
        }
    );
    assert_eq!(error.message(), "No secret file at /locked/key");
}

#[test]
fn an_outcome_that_does_not_fit_is_an_io_error_without_detail() {
    let task = KeyFileTask::Writing {
        path: "key".to_string(),
        secret: key(),
    };
    assert_eq!(
        failed_with(task.advance(IoOutcome::Data(vec![1]))),
        IdentityError::Io {
            operation: KeyFileOperation::Write,
            path: "key".to_string(),
            detail: String::new(),
        }
    );
}

#[test]
fn load_or_generate_loads_without_the_flag() {
    let step = load_or_generate("key".to_string(), Some("".to_string()), false);
    assert!(step == load_secret_key_from_file("key".to_string()));
    match step {
        KeyFileStep::Perform { task, action } => {
            assert_eq!(
                action,
                IoAction::ReadFile {
                    path: "key".to_string()
                }
            );
            assert!(
                task == KeyFileTask::Reading {
                    path: "key".to_string()
                }
            );
        }
        _ => panic!("nothing to perform"),
    }
}

#[test]
fn load_or_generate_generates_with_the_flag() {
    match load_or_generate("dir/key".to_string(), Some("dir".to_string()), true) {
        KeyFileStep::Perform { task, action } => {
            assert_eq!(
                action,
                IoAction::CreateDirectories {
                    path: "dir".to_string()
                }
            );
            match task {
                KeyFileTask::CreatingDirectory {
                    path,
                    directory,
                    secret,
                } => {
                    assert_eq!(path, "dir/key");
                    assert_eq!(directory, "dir");
                    assert_eq!(secret.to_bytes().len(), 32);
                }
                _ => panic!("the wrong task"),
            }
        }
        _ => panic!("nothing to perform"),
    }
}
