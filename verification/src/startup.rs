//! Building the handle, stage by stage. Each stage waits for one piece of
//! outside work, and its method decides from the outcome what comes next: the
//! certificate first, then the state, and no handle before both are in order.

use vstd::prelude::*;
use crate::certificate::{
    decide, ensure_identity, CertPlan, CertPlanView, CertProbe, CertProbeView, CertificateError,
    CertificateErrorView,
};
use crate::handle::{AppConfig, AppState};
use crate::identity::identity_of;
use crate::store::{
    completed, load_or_init, load_step, option_view, LoadStep, LoadStepView, LoadedStateView,
    PendingMigration, StateError, StateErrorView, StateSource, StateSourceView,
};

verus! {

/// Why the handle could not be built.
#[derive(Debug)]
pub enum ApiError {
    Certificate(CertificateError),
    State(StateError),
}

pub enum ApiErrorView {
    Certificate(CertificateErrorView),
    State(StateErrorView),
}

impl View for ApiError {
    type V = ApiErrorView;

    open spec fn view(&self) -> ApiErrorView {
        match self {
            ApiError::Certificate(error) => ApiErrorView::Certificate(error@),
            ApiError::State(error) => ApiErrorView::State(error@),
        }
    }
}

/// Waits for the probe of the certificate path.
#[derive(Debug)]
pub struct CertificateStage {
    pub config: AppConfig,
}

/// Waits for a new certificate to be written to the certificate path.
#[derive(Debug)]
pub struct WritingStage {
    pub config: AppConfig,
}

/// Waits for the state file to be read.
#[derive(Debug)]
pub struct StateStage {
    pub config: AppConfig,
}

/// Waits for the legacy state file to be renamed.
#[derive(Debug)]
pub struct BackupStage {
    pub config: AppConfig,
    pub pending: PendingMigration,
}

/// What follows the probe of the certificate.
#[derive(Debug)]
pub enum CertificateStep {
    /// A certificate with this identity is to be made and written.
    Write { stage: WritingStage, identity: String },
    /// The certificate on disk is kept.
    Proceed(StateStage),
}

/// What follows the reading of the state file.
pub enum StateStep {
    /// The legacy file is to be renamed as the stage's `pending` says.
    Rename(BackupStage),
    /// The handle is built.
    Ready(AppState),
}

impl AppState {
    /// Starts building the handle for a configuration.
    pub fn from_config(config: AppConfig) -> (stage: CertificateStage)
        ensures
            stage.config == config,
    {
        CertificateStage { config }
    }
}

impl CertificateStage {
    /// Takes the probe of the configured certificate path: a certificate with
    /// the identity of the configured hardware address is kept, a missing or a
    /// stale one is to be written anew, and an unusable one ends the startup.
    pub fn probed(self, probe: CertProbe) -> (r: Result<CertificateStep, ApiError>)
        ensures
            match decide(probe@, self.config.bifrost.cert_file@, self.config.bridge.mac) {
                Ok(CertPlanView::Keep) => r matches Ok(CertificateStep::Proceed(next))
                    && next.config == self.config,
                Ok(CertPlanView::Generate { identity: wanted }) => r matches Ok(
                    CertificateStep::Write { stage, identity },
                ) && stage.config == self.config && identity@ == wanted,
                Err(refused) => r matches Err(ApiError::Certificate(error)) && error@ == refused,
            },
    {
        let hw = self.config.bridge.mac;
        match ensure_identity(self.config.bifrost.cert_file.as_str(), probe, hw) {
            Ok(CertPlan::Keep) => Ok(CertificateStep::Proceed(StateStage { config: self.config })),
            Ok(CertPlan::Generate { identity }) => Ok(
                CertificateStep::Write { stage: WritingStage { config: self.config }, identity },
            ),
            Err(error) => Err(ApiError::Certificate(error)),
        }
    }
}

impl WritingStage {
    /// Takes the outcome of writing the certificate: `None` where it was
    /// written, the cause where it was not, which ends the startup with an
    /// error that names the certificate path.
    pub fn written(self, failure: Option<String>) -> (r: Result<StateStage, ApiError>)
        ensures
            match failure {
                None => r matches Ok(next) && next.config == self.config,
                Some(cause) => r matches Err(ApiError::Certificate(error)) && error@
                    == (CertificateErrorView {
                    path: self.config.bifrost.cert_file@,
                    cause: cause@,
                }),
            },
    {
        match failure {
            None => Ok(StateStage { config: self.config }),
            Some(cause) => Err(
                ApiError::Certificate(
                    CertificateError { path: self.config.bifrost.cert_file, cause },
                ),
            ),
        }
    }
}

impl StateStage {
    /// Takes what was found at the configured state path: the handle is built
    /// at once over a fresh or a current state, a legacy document asks for its
    /// backup first, and a document that cannot be used ends the startup.
    pub fn read(self, source: StateSource) -> (r: Result<StateStep, ApiError>)
        ensures
            match load_step(source@, self.config.bifrost.state_file@, self.config.bridge.mac) {
                LoadStepView::Done(state) => r matches Ok(StateStep::Ready(handle))
                    && handle.configuration() == self.config && handle.initial_state() == state,
                LoadStepView::NeedsBackup(pending) => r matches Ok(StateStep::Rename(stage))
                    && stage.config == self.config && stage.pending@ == pending,
                LoadStepView::Failed(refused) => r matches Err(ApiError::State(error)) && error@
                    == refused,
            },
    {
        let hw = self.config.bridge.mac;
        match load_or_init(self.config.bifrost.state_file.as_str(), source, hw) {
            LoadStep::Done(state) => Ok(StateStep::Ready(AppState::new(self.config, state))),
            LoadStep::NeedsBackup(pending) => Ok(
                StateStep::Rename(BackupStage { config: self.config, pending }),
            ),
            LoadStep::Failed(error) => Err(ApiError::State(error)),
        }
    }
}

impl BackupStage {
    /// Takes the outcome of the rename: the handle is built over the legacy
    /// document once its file has been renamed, and never if it has not.
    pub fn renamed(self, failure: Option<String>) -> (r: Result<AppState, ApiError>)
        ensures
            match completed(self.pending@, option_view(failure)) {
                Ok(state) => r matches Ok(handle) && handle.configuration() == self.config
                    && handle.initial_state() == state,
                Err(refused) => r matches Err(ApiError::State(error)) && error@ == refused,
            },
    {
        match self.pending.complete(failure) {
            Ok(state) => Ok(AppState::new(self.config, state)),
            Err(error) => Err(ApiError::State(error)),
        }
    }
}

/// On a first start, with neither a certificate nor a state file, the
/// certificate that is written and the state that is seeded carry one and the
/// same identity: that of the configured hardware address.
pub proof fn lemma_first_start_shares_identity(config: AppConfig)
    ensures
        decide(CertProbeView::Missing, config.bifrost.cert_file@, config.bridge.mac) == Ok::<
            CertPlanView,
            CertificateErrorView,
        >(CertPlanView::Generate { identity: identity_of(config.bridge.mac) }),
        load_step(StateSourceView::Absent, config.bifrost.state_file@, config.bridge.mac)
            == LoadStepView::Done(
            LoadedStateView::Seeded { identity: identity_of(config.bridge.mac) },
        ),
{
}

} // verus!
