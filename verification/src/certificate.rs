//! Whether the certificate on disk can be kept, or a new one must be made.

use vstd::prelude::*;
use vstd::string::*;
use crate::identity::{derive_identity, identity_of, lemma_identity_injective, HardwareId};

verus! {

/// What was found at the certificate path.
#[derive(Debug)]
pub enum CertProbe {
    /// No file is there.
    Missing,
    /// A file is there that cannot be read or parsed.
    Unusable { cause: String },
    /// A certificate is there, and this is the identity embedded in it.
    Present { identity: String },
}

pub enum CertProbeView {
    Missing,
    Unusable { cause: Seq<char> },
    Present { identity: Seq<char> },
}

impl View for CertProbe {
    type V = CertProbeView;

    open spec fn view(&self) -> CertProbeView {
        match self {
            CertProbe::Missing => CertProbeView::Missing,
            CertProbe::Unusable { cause } => CertProbeView::Unusable { cause: cause@ },
            CertProbe::Present { identity } => CertProbeView::Present { identity: identity@ },
        }
    }
}

/// What is to be done about the certificate.
#[derive(Debug)]
pub enum CertPlan {
    /// The certificate on disk carries the right identity: nothing is written.
    Keep,
    /// A self-signed certificate with this identity is made and written.
    Generate { identity: String },
}

pub enum CertPlanView {
    Keep,
    Generate { identity: Seq<char> },
}

impl View for CertPlan {
    type V = CertPlanView;

    open spec fn view(&self) -> CertPlanView {
        match self {
            CertPlan::Keep => CertPlanView::Keep,
            CertPlan::Generate { identity } => CertPlanView::Generate { identity: identity@ },
        }
    }
}

/// Certificate material that cannot be used, with its path and the cause.
#[derive(Debug)]
pub struct CertificateError {
    pub path: String,
    pub cause: String,
}

pub struct CertificateErrorView {
    pub path: Seq<char>,
    pub cause: Seq<char>,
}

impl View for CertificateError {
    type V = CertificateErrorView;

    open spec fn view(&self) -> CertificateErrorView {
        CertificateErrorView { path: self.path@, cause: self.cause@ }
    }
}

impl CertificateError {
    /// A one-line diagnostic that names the path and the cause.
    pub fn message(&self) -> (text: String)
        ensures
            text@ == "certificate "@ + self.path@ + ": "@ + self.cause@,
    {
        let mut text = "certificate ".to_owned();
        text.append(self.path.as_str());
        text.append(": ");
        text.append(self.cause.as_str());
        text
    }
}

/// The decision for a probe: a certificate with the identity of `hw` is kept,
/// a missing one or one with another identity is replaced, and one that cannot
/// be read is an error that names the path.
pub open spec fn decide(probe: CertProbeView, path: Seq<char>, hw: HardwareId) -> Result<
    CertPlanView,
    CertificateErrorView,
> {
    match probe {
        CertProbeView::Missing => Ok(CertPlanView::Generate { identity: identity_of(hw) }),
        CertProbeView::Unusable { cause } => Err(CertificateErrorView { path, cause }),
        CertProbeView::Present { identity } => if identity == identity_of(hw) {
            Ok(CertPlanView::Keep)
        } else {
            Ok(CertPlanView::Generate { identity: identity_of(hw) })
        },
    }
}

/// What a later probe of the same path finds once a plan has been carried out.
pub open spec fn probe_after(plan: CertPlanView, before: CertProbeView) -> CertProbeView {
    match plan {
        CertPlanView::Keep => before,
        CertPlanView::Generate { identity } => CertProbeView::Present { identity },
    }
}

/// Decides what to do about the certificate at `path` for the device `hw`.
pub fn ensure_identity(path: &str, probe: CertProbe, hw: HardwareId) -> (r: Result<
    CertPlan,
    CertificateError,
>)
    ensures
        match r {
            Ok(plan) => decide(probe@, path@, hw) == Ok::<CertPlanView, CertificateErrorView>(
                plan@,
            ),
            Err(e) => decide(probe@, path@, hw) == Err::<CertPlanView, CertificateErrorView>(e@),
        },
{
    match probe {
        CertProbe::Missing => Ok(CertPlan::Generate { identity: derive_identity(hw) }),
        CertProbe::Unusable { cause } => Err(CertificateError { path: path.to_owned(), cause }),
        CertProbe::Present { identity } => {
            let wanted = derive_identity(hw);
            if identity == wanted {
                Ok(CertPlan::Keep)
            } else {
                Ok(CertPlan::Generate { identity: wanted })
            }
        },
    }
}

/// Once a plan has been carried out, deciding again keeps the certificate:
/// the second run writes nothing, and the identity on disk is that of `hw`.
pub proof fn lemma_ensure_identity_idempotent(
    probe: CertProbeView,
    path: Seq<char>,
    hw: HardwareId,
)
    ensures
        decide(probe, path, hw) matches Ok(plan) ==> {
            &&& decide(probe_after(plan, probe), path, hw) == Ok::<
                CertPlanView,
                CertificateErrorView,
            >(CertPlanView::Keep)
            &&& probe_after(plan, probe) == CertProbeView::Present { identity: identity_of(hw) }
        },
{
}

/// A certificate made for one hardware address is never kept for another:
/// the decision is to make a new one, with the identity of the new address.
pub proof fn lemma_changed_hardware_regenerates(
    earlier: HardwareId,
    current: HardwareId,
    path: Seq<char>,
)
    requires
        earlier != current,
    ensures
        decide(CertProbeView::Present { identity: identity_of(earlier) }, path, current) == Ok::<
            CertPlanView,
            CertificateErrorView,
        >(CertPlanView::Generate { identity: identity_of(current) }),
{
    lemma_identity_injective(earlier, current);
}

} // verus!
