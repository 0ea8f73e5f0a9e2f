use rendezvous_server::io::{IoAction, IoOutcome};
use rendezvous_server::tls::{
    finish_loading, tls_config_from_params, TlsError, TlsMaterial, TlsSetup, TlsStep, TlsTask,
};

/// An Ed25519 private key in PKCS#8, DER-encoded.
fn private_key() -> Vec<u8> {
    let mut der = vec![
        0x30, 0x2e, 0x02, 0x01, 0x00, 0x30, 0x05, 0x06, 0x03, 0x2b, 0x65, 0x70, 0x04, 0x22, 0x04,
        0x20,
    ];
    der.extend((1u8..33).collect::<Vec<u8>>());
    der
}

fn key_path() -> Option<String> {
    Some("/etc/tls/key.der".to_string())
}

fn certificate_path() -> Option<String> {
    Some("/etc/tls/cert.der".to_string())
}

fn failed(step: TlsStep) -> TlsError {
    match step {
        TlsStep::Failed(error) => error,
        _ => panic!("the step did not fail"),
    }
}

#[test]
fn private_key_alone_is_refused() {
    for websocket in [false, true] {
        let error = failed(tls_config_from_params(key_path(), None, websocket));
        assert_eq!(error, TlsError::IncompleteTlsConfig);
    }
}

#[test]
fn certificate_alone_is_refused() {
    for websocket in [false, true] {
        let error = failed(tls_config_from_params(None, certificate_path(), websocket));
        assert_eq!(error, TlsError::IncompleteTlsConfig);
    }
}

#[test]
fn incomplete_tls_message() {
    assert_eq!(
        TlsError::IncompleteTlsConfig.message(),
        "Server private key and certificate both have to be provided"
    );
}

#[test]
fn no_tls_paths_give_no_material() {
    for websocket in [false, true] {
        match tls_config_from_params(None, None, websocket) {
            TlsStep::Finished(setup) => {
                assert!(setup == TlsSetup::Absent);
                assert_eq!(setup.warning(), None);
                assert!(setup.into_material().is_none());
            }
            _ => panic!("the setup did not finish"),
        }
    }
}

#[test]
fn tls_paths_without_websocket_are_unused() {
    match tls_config_from_params(key_path(), certificate_path(), false) {
        TlsStep::Finished(setup) => {
            assert!(setup == TlsSetup::Unused);
            assert_eq!(
                setup.warning(),
                Some(
                    "The provided SSL parameters won't have any affect, because you did not activate websockets"
                        .to_string()
                )
            );
            assert!(setup.into_material().is_none());
        }
        _ => panic!("the setup did not finish"),
    }
}

#[test]
fn tls_paths_with_websocket_read_the_private_key_first() {
    match tls_config_from_params(key_path(), certificate_path(), true) {
        TlsStep::Perform { task, action } => {
            assert_eq!(
                action,
                IoAction::ReadFile {
                    path: "/etc/tls/key.der".to_string()
                }
            );
            assert!(
                task == TlsTask::ReadingPrivateKey {
                    private_key_path: "/etc/tls/key.der".to_string(),
                    certificate_path: "/etc/tls/cert.der".to_string(),
                }
            );
        }
        _ => panic!("nothing to perform"),
    }
}

#[test]
fn tls_material_is_the_contents_of_the_two_files() {
    let task = match tls_config_from_params(key_path(), certificate_path(), true) {
        TlsStep::Perform { task, .. } => task,
        _ => panic!("nothing to perform"),
    };
    let task = match task.advance(IoOutcome::Data(private_key())) {
        TlsStep::Perform { task, action } => {
            assert_eq!(
                action,
                IoAction::ReadFile {
                    path: "/etc/tls/cert.der".to_string()
                }
            );
            assert!(
                task == TlsTask::ReadingCertificate {
                    certificate_path: "/etc/tls/cert.der".to_string(),
                    private_key: private_key(),
                }
            );
            task
        }
        _ => panic!("nothing to perform"),
    };
    match task.advance(IoOutcome::Data(vec![9, 8])) {
        TlsStep::Finished(setup) => {
            assert_eq!(setup.warning(), None);
            let material = setup.into_material();
            assert!(
                material
                    == Some(TlsMaterial {
                        private_key: private_key(),
                        certificate: vec![9, 8],
                    })
            );
        }
        _ => panic!("the setup did not finish"),
    }
}

#[test]
fn a_private_key_that_is_no_key_is_refused() {
    for key in [vec![1, 2, 3], Vec::new(), private_key()[..47].to_vec()] {
        let task = TlsTask::ReadingCertificate {
            certificate_path: "cert".to_string(),
            private_key: key,
        };
        match failed(task.advance(IoOutcome::Data(vec![9, 8]))) {
            TlsError::InvalidMaterial { detail } => assert!(!detail.is_empty()),
            other => panic!("the wrong error: {:?}", other),
        }
    }
}

#[test]
fn accepted_material_ends_the_loading() {
    let step = finish_loading(vec![1], vec![2], None);
    assert!(
        step == TlsStep::Finished(TlsSetup::Loaded(TlsMaterial {
            private_key: vec![1],
            certificate: vec![2],
        }))
    );
}

#[test]
fn refused_material_ends_the_loading_with_an_error() {
    let error = failed(finish_loading(
        vec![1],
        vec![2],
        Some("tls error: bad key".to_string()),
    ));
    assert_eq!(
        error,
        TlsError::InvalidMaterial {
            detail: "tls error: bad key".to_string()
        }
    );
    assert_eq!(
        error.message(),
        "Could not use the TLS private key and certificate"
    );
}

#[test]
fn unreadable_private_key_ends_the_loading() {
    let task = TlsTask::ReadingPrivateKey {
        private_key_path: "key".to_string(),
        certificate_path: "cert".to_string(),
    };
    let error = failed(task.advance(IoOutcome::NotFound));
    assert_eq!(
        error,
        TlsError::Io {
            path: "key".to_string(),
            detail: String::new(),
        }
    );
    assert_eq!(error.message(), "Could not read TLS file at key");
}

#[test]
fn unreadable_certificate_ends_the_loading() {
    let task = TlsTask::ReadingCertificate {
        certificate_path: "cert".to_string(),
        private_key: vec![1],
    };
    let error = failed(task.advance(IoOutcome::Failed("permission denied".to_string())));
    assert_eq!(
        error,
        TlsError::Io {
            path: "cert".to_string(),
            detail: "permission denied".to_string(),
        }
    );
    assert_eq!(error.message(), "Could not read TLS file at cert");
}
