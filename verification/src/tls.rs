//! TLS material for the secure WebSocket listener: a private key and a
//! certificate, given as two file paths that must come together.
//!
//! The material only matters where a WebSocket listener is enabled. Given
//! without one it is legal and unused: the node starts, and the operator is
//! warned.
//!
//! Whether a private key can be used is for libp2p's TLS layer to say; the
//! call into it is the private function `tls_server_config`, whose contract
//! is taken on trust.

use crate::io::{
    detail_of, failure_detail, perform, FileStore, IoAction, IoActionView, IoOutcome,
    IoOutcomeView,
};
use crate::text::optional_text;
use libp2p::websocket::tls::{Certificate, Config, Error, PrivateKey};
use vstd::prelude::*;
use vstd::string::*;

verus! {

/// Whether libp2p's TLS layer makes a server configuration of this private
/// key and this certificate, both DER-encoded.
pub uninterp spec fn tls_material_accepted(private_key: Seq<u8>, certificate: Seq<u8>) -> bool;

/// The error of libp2p's TLS layer.
#[verifier::external_type_specification]
#[verifier::external_body]
pub struct ExTlsLayerError(libp2p::websocket::tls::Error);

/// `tls::Config::new` with the private key and a chain of the one
/// certificate. The configuration itself is dropped: what is kept is whether
/// there was one, which depends on the bytes alone and goes by the name
/// `tls_material_accepted`.
#[verifier::external_body]
fn tls_server_config(private_key: &Vec<u8>, certificate: &Vec<u8>) -> (made: Result<(), Error>)
    ensures
        made is Ok <==> tls_material_accepted(private_key@, certificate@),
{
    let key = PrivateKey::new(private_key.clone());
    let chain = vec![Certificate::new(certificate.clone())];
    match Config::new(key, chain) {
        Ok(_) => Ok(()),
        Err(error) => Err(error),
    }
}

/// The `Display` text of an error of libp2p's TLS layer. Nothing is known of
/// the text.
#[verifier::external_body]
fn tls_error_text(error: &Error) -> (text: String) {
    error.to_string()
}

/// The bytes of the server's private key and of its certificate.
#[derive(Clone, PartialEq, Eq)]
pub struct TlsMaterial {
    pub private_key: Vec<u8>,
    pub certificate: Vec<u8>,
}

/// What [`TlsMaterial`] is, as mathematical values.
pub struct TlsMaterialView {
    pub private_key: Seq<u8>,
    pub certificate: Seq<u8>,
}

impl View for TlsMaterial {
    type V = TlsMaterialView;

    open spec fn view(&self) -> TlsMaterialView {
        TlsMaterialView { private_key: self.private_key@, certificate: self.certificate@ }
    }
}

/// What the TLS parameters came to.
#[derive(Clone, PartialEq, Eq)]
pub enum TlsSetup {
    /// No TLS parameters were given.
    Absent,
    /// Both parameters were given without a WebSocket listener: nothing was
    /// read, and the parameters have no effect.
    Unused,
    /// Both files were read, and the TLS layer makes a server configuration
    /// of what they hold.
    Loaded(TlsMaterial),
}

/// What a [`TlsSetup`] is, as mathematical values.
pub enum TlsSetupView {
    Absent,
    Unused,
    Loaded(TlsMaterialView),
}

impl View for TlsSetup {
    type V = TlsSetupView;

    open spec fn view(&self) -> TlsSetupView {
        match self {
            TlsSetup::Absent => TlsSetupView::Absent,
            TlsSetup::Unused => TlsSetupView::Unused,
            TlsSetup::Loaded(material) => TlsSetupView::Loaded(material@),
        }
    }
}

/// Why the TLS parameters were refused.
#[derive(Debug, Clone, PartialEq, Eq)]
pub enum TlsError {
    /// Only one of the private key and the certificate was given.
    IncompleteTlsConfig,
    /// The file at `path` could not be read; `detail` is the host's
    /// description.
    Io { path: String, detail: String },
    /// The private key cannot be used; `detail` is the TLS layer's
    /// description.
    InvalidMaterial { detail: String },
}

/// What a [`TlsError`] is, as mathematical values. The TLS layer's
/// description of unusable material is left out: it is for the operator to
/// read, and nothing depends on it.
pub enum TlsErrorView {
    IncompleteTlsConfig,
    Io { path: Seq<char>, detail: Seq<char> },
    InvalidMaterial,
}

impl View for TlsError {
    type V = TlsErrorView;

    open spec fn view(&self) -> TlsErrorView {
        match self {
            TlsError::IncompleteTlsConfig => TlsErrorView::IncompleteTlsConfig,
            TlsError::Io { path, detail } => TlsErrorView::Io { path: path@, detail: detail@ },
            TlsError::InvalidMaterial { detail } => TlsErrorView::InvalidMaterial,
        }
    }
}

/// Where loading the TLS material stands: the read whose outcome it waits
/// for.
#[derive(Clone, PartialEq, Eq)]
pub enum TlsTask {
    /// Waiting for the private key; the certificate is read after it.
    ReadingPrivateKey { private_key_path: String, certificate_path: String },
    /// Waiting for the certificate; the private key has been read.
    ReadingCertificate { certificate_path: String, private_key: Vec<u8> },
}

/// What a [`TlsTask`] is, as mathematical values.
pub enum TlsTaskView {
    ReadingPrivateKey { private_key_path: Seq<char>, certificate_path: Seq<char> },
    ReadingCertificate { certificate_path: Seq<char>, private_key: Seq<u8> },
}

impl View for TlsTask {
    type V = TlsTaskView;

    open spec fn view(&self) -> TlsTaskView {
        match self {
            TlsTask::ReadingPrivateKey {
                private_key_path,
                certificate_path,
            } => TlsTaskView::ReadingPrivateKey {
                private_key_path: private_key_path@,
                certificate_path: certificate_path@,
            },
            TlsTask::ReadingCertificate {
                certificate_path,
                private_key,
            } => TlsTaskView::ReadingCertificate {
                certificate_path: certificate_path@,
                private_key: private_key@,
            },
        }
    }
}

/// One step of loading the TLS material: the next read for the host, or the
/// end.
#[derive(Clone, PartialEq, Eq)]
pub enum TlsStep {
    /// The host performs `action` and hands the outcome to `task`.
    Perform { task: TlsTask, action: IoAction },
    /// The parameters are settled.
    Finished(TlsSetup),
    /// The parameters are refused.
    Failed(TlsError),
}

/// What a [`TlsStep`] is, as mathematical values.
pub enum TlsStepView {
    Perform { task: TlsTaskView, action: IoActionView },
    Finished(TlsSetupView),
    Failed(TlsErrorView),
}

impl View for TlsStep {
    type V = TlsStepView;

    open spec fn view(&self) -> TlsStepView {
        match self {
            TlsStep::Perform { task, action } => TlsStepView::Perform {
                task: task@,
                action: action@,
            },
            TlsStep::Finished(setup) => TlsStepView::Finished(setup@),
            TlsStep::Failed(error) => TlsStepView::Failed(error@),
        }
    }
}

/// What the TLS parameters ask for. Neither path: nothing. One path alone:
/// an error. Both paths without a WebSocket listener: nothing, and nothing is
/// read. Both paths with one: the private key is read first.
pub open spec fn first_step(
    private_key: Option<Seq<char>>,
    certificate: Option<Seq<char>>,
    websocket: bool,
) -> TlsStepView {
    match (private_key, certificate) {
        (None, None) => TlsStepView::Finished(TlsSetupView::Absent),
        (Some(private_key_path), Some(certificate_path)) => if websocket {
            TlsStepView::Perform {
                task: TlsTaskView::ReadingPrivateKey { private_key_path, certificate_path },
                action: IoActionView::ReadFile { path: private_key_path },
            }
        } else {
            TlsStepView::Finished(TlsSetupView::Unused)
        },
        _ => TlsStepView::Failed(TlsErrorView::IncompleteTlsConfig),
    }
}

/// The end of the loading once both files are read: the material, where the
/// TLS layer makes a server configuration of it, and `InvalidMaterial` where
/// it does not.
pub open spec fn material_step(
    private_key: Seq<u8>,
    certificate: Seq<u8>,
    accepted: bool,
) -> TlsStepView {
    if accepted {
        TlsStepView::Finished(TlsSetupView::Loaded(TlsMaterialView { private_key, certificate }))
    } else {
        TlsStepView::Failed(TlsErrorView::InvalidMaterial)
    }
}

/// The step that follows when `task` learns of `outcome`: a read that hands
/// out bytes leads on, to the certificate or to the end of the loading; any
/// other outcome is an `Io` error that names the file.
pub open spec fn next_step(task: TlsTaskView, outcome: IoOutcomeView) -> TlsStepView {
    match task {
        TlsTaskView::ReadingPrivateKey { private_key_path, certificate_path } => match outcome {
            IoOutcomeView::Data(bytes) => TlsStepView::Perform {
                task: TlsTaskView::ReadingCertificate { certificate_path, private_key: bytes },
                action: IoActionView::ReadFile { path: certificate_path },
            },
            _ => TlsStepView::Failed(
                TlsErrorView::Io { path: private_key_path, detail: failure_detail(outcome) },
            ),
        },
        TlsTaskView::ReadingCertificate { certificate_path, private_key } => match outcome {
            IoOutcomeView::Data(bytes) => material_step(
                private_key,
                bytes,
                tls_material_accepted(private_key, bytes),
            ),
            _ => TlsStepView::Failed(
                TlsErrorView::Io { path: certificate_path, detail: failure_detail(outcome) },
            ),
        },
    }
}

/// Decides what the TLS parameters of the command line ask for.
pub fn tls_config_from_params(
    private_key: Option<String>,
    certificate: Option<String>,
    websocket: bool,
) -> (step: TlsStep)
    ensures
        step@ == first_step(optional_text(private_key), optional_text(certificate), websocket),
{
    match (private_key, certificate) {
        (None, None) => TlsStep::Finished(TlsSetup::Absent),
        (Some(private_key_path), Some(certificate_path)) => {
            if websocket {
                let target = private_key_path.clone();
                TlsStep::Perform {
                    task: TlsTask::ReadingPrivateKey { private_key_path, certificate_path },
                    action: IoAction::ReadFile { path: target },
                }
            } else {
                TlsStep::Finished(TlsSetup::Unused)
            }
        },
        _ => TlsStep::Failed(TlsError::IncompleteTlsConfig),
    }
}

/// Ends the loading once both files are read. `refused` is the TLS layer's
/// description of why it makes no server configuration of the material, and
/// `None` where it makes one.
pub fn finish_loading(private_key: Vec<u8>, certificate: Vec<u8>, refused: Option<String>) -> (step:
    TlsStep)
    ensures
        step@ == material_step(private_key@, certificate@, refused is None),
{
    match refused {
        None => TlsStep::Finished(TlsSetup::Loaded(TlsMaterial { private_key, certificate })),
        Some(detail) => TlsStep::Failed(TlsError::InvalidMaterial { detail }),
    }
}

impl TlsTask {
    /// Takes the outcome of the read that the task is waiting for and says what
    /// follows.
    pub fn advance(self, outcome: IoOutcome) -> (step: TlsStep)
        ensures
            step@ == next_step(self@, outcome@),
    {
        match self {
            TlsTask::ReadingPrivateKey { private_key_path, certificate_path } => match outcome {
                IoOutcome::Data(bytes) => {
                    let target = certificate_path.clone();
                    TlsStep::Perform {
                        task: TlsTask::ReadingCertificate { certificate_path, private_key: bytes },
                        action: IoAction::ReadFile { path: target },
                    }
                },
                other => TlsStep::Failed(
                    TlsError::Io { path: private_key_path, detail: detail_of(other) },
                ),
            },
            TlsTask::ReadingCertificate { certificate_path, private_key } => match outcome {
                IoOutcome::Data(bytes) => {
                    let refused = match tls_server_config(&private_key, &bytes) {
                        Ok(_) => None,
                        Err(error) => Some(tls_error_text(&error)),
                    };
                    finish_loading(private_key, bytes, refused)
                },
                other => TlsStep::Failed(
                    TlsError::Io { path: certificate_path, detail: detail_of(other) },
                ),
            },
        }
    }
}

/// The material that a setup holds, if it holds any.
pub open spec fn setup_material(setup: TlsSetupView) -> Option<TlsMaterialView> {
    match setup {
        TlsSetupView::Loaded(material) => Some(material),
        _ => None,
    }
}

/// The view of optional material.
pub open spec fn optional_material(material: Option<TlsMaterial>) -> Option<TlsMaterialView> {
    match material {
        Some(m) => Some(m@),
        None => None,
    }
}

/// The warning that a setup owes the operator: parameters that were given and
/// have no effect are worth one, anything else is not.
pub open spec fn setup_warning(setup: TlsSetupView) -> Option<Seq<char>> {
    match setup {
        TlsSetupView::Unused => Some(
            "The provided SSL parameters won't have any affect, because you did not activate websockets"@,
        ),
        _ => None,
    }
}

impl TlsSetup {
    /// The warning for the operator, if the setup calls for one.
    pub fn warning(&self) -> (text: Option<String>)
        ensures
            optional_text(text) == setup_warning(self@),
    {
        match self {
            TlsSetup::Unused => Some(
                String::from_str(
                    "The provided SSL parameters won't have any affect, because you did not activate websockets",
                ),
            ),
            _ => None,
        }
    }

    /// The material of the setup, if it holds any.
    pub fn into_material(self) -> (material: Option<TlsMaterial>)
        ensures
            optional_material(material) == setup_material(self@),
    {
        match self {
            TlsSetup::Loaded(material) => Some(material),
            _ => None,
        }
    }
}

/// What is shown to the operator for a TLS error.
pub open spec fn error_message(error: TlsErrorView) -> Seq<char> {
    match error {
        TlsErrorView::IncompleteTlsConfig => "Server private key and certificate both have to be provided"@,
        TlsErrorView::Io { path, detail } => "Could not read TLS file at "@ + path,
        TlsErrorView::InvalidMaterial => "Could not use the TLS private key and certificate"@,
    }
}

impl TlsError {
    /// The message for the operator.
    pub fn message(&self) -> (text: String)
        ensures
            text@ == error_message(self@),
    {
        match self {
            TlsError::IncompleteTlsConfig => String::from_str(
                "Server private key and certificate both have to be provided",
            ),
            TlsError::Io { path, detail } => {
                let mut text = String::from_str("Could not read TLS file at ");
                text.append(path.as_str());
                text
            },
            TlsError::InvalidMaterial { detail } => String::from_str(
                "Could not use the TLS private key and certificate",
            ),
        }
    }
}

/// Where a step ends up when a file store that never fails performs what it
/// asks for, for at most `fuel` reads.
pub open spec fn run(store: FileStore, step: TlsStepView, fuel: nat) -> TlsStepView
    decreases fuel,
{
    match step {
        TlsStepView::Perform { task, action } => if fuel == 0 {
            step
        } else {
            let (after, outcome) = perform(store, action);
            run(after, next_step(task, outcome), (fuel - 1) as nat)
        },
        _ => step,
    }
}

/// One TLS path without the other is refused, whichever of the two is given
/// and whether or not a WebSocket listener is enabled. No path at all is
/// accepted and gives no material.
pub proof fn lemma_tls_paths_come_together(path: Seq<char>, websocket: bool)
    ensures
        first_step(Some(path), None, websocket) == TlsStepView::Failed(
            TlsErrorView::IncompleteTlsConfig,
        ),
        first_step(None, Some(path), websocket) == TlsStepView::Failed(
            TlsErrorView::IncompleteTlsConfig,
        ),
        first_step(None, None, websocket) == TlsStepView::Finished(TlsSetupView::Absent),
        setup_material(TlsSetupView::Absent) is None,
{
}

/// Both TLS paths without a WebSocket listener are accepted: the setup is
/// finished at once, no file is read, no material is made, and the operator
/// is owed a warning.
pub proof fn lemma_tls_without_websocket_is_unused(
    private_key: Seq<char>,
    certificate: Seq<char>,
)
    ensures
        first_step(Some(private_key), Some(certificate), false) == TlsStepView::Finished(
            TlsSetupView::Unused,
        ),
        setup_material(TlsSetupView::Unused) is None,
        setup_warning(TlsSetupView::Unused) is Some,
{
}

/// Material is made of nothing but the two files: with a WebSocket listener
/// and both files in the store, loading ends as `material_step` says of the
/// contents of the private key file and of the certificate file, each in its
/// place. Where the TLS layer accepts them, they are the material.
pub proof fn lemma_tls_material_is_file_contents(
    store: FileStore,
    private_key: Seq<char>,
    certificate: Seq<char>,
)
    requires
        store.contains_key(private_key),
        store.contains_key(certificate),
    ensures
        run(store, first_step(Some(private_key), Some(certificate), true), 2) == material_step(
            store[private_key],
            store[certificate],
            tls_material_accepted(store[private_key], store[certificate]),
        ),
        material_step(store[private_key], store[certificate], true) == TlsStepView::Finished(
            TlsSetupView::Loaded(
                TlsMaterialView {
                    private_key: store[private_key],
                    certificate: store[certificate],
                },
            ),
        ),
{
    reveal_with_fuel(run, 3);
}

/// A file that cannot be read ends the loading with an error that names it;
/// the certificate is not asked for once the private key has failed.
pub proof fn lemma_tls_unreadable_file(task: TlsTaskView, outcome: IoOutcomeView)
    requires
        !(outcome is Data),
    ensures
        next_step(task, outcome) matches TlsStepView::Failed(TlsErrorView::Io { path, detail })
            && path == (match task {
            TlsTaskView::ReadingPrivateKey { private_key_path, certificate_path } => private_key_path,
            TlsTaskView::ReadingCertificate { certificate_path, private_key } => certificate_path,
        }),
{
}

} // verus!
