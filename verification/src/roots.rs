//! Whether the certificate of an authority becomes a trusted root.
use vstd::prelude::*;

verus! {

/// What came of reading a certificate file.
pub enum CertRead {
    /// The bytes of the file.
    Loaded(Vec<u8>),
    NotFound,
    Failed,
}

/// What came of a certificate, its parsing included.
pub enum CertOutcome {
    /// The file was read, and its bytes were taken as a root or refused for
    /// the reason given.
    Parsed(Result<(), String>),
    NotFound,
    Failed,
}

/// What a certificate leads to.
pub enum CertStep {
    /// The certificate is a trusted root.
    Trusted,
    /// The client ends with this reason.
    Refused(String),
    /// The client ends with the error of the reading.
    GiveUp,
    /// The client goes on without the certificate, noting that there is none.
    NoteMissing,
    /// The client goes on without the certificate, reporting the error of the
    /// reading.
    ReportFailure,
}

/// What `rustls::RootCertStore::add` makes of the bytes of a certificate:
/// nothing where it takes them, or why it does not.
pub uninterp spec fn root_outcome(der: Seq<u8>) -> Result<(), Seq<char>>;

/// `rustls::RootCertStore::add` on an empty store, with its error read by the
/// `Display` impl. Claims only that the bytes determine whether it fails and
/// with which text.
#[verifier::external_body]
fn add_root(der: Vec<u8>) -> (r: Result<(), String>)
    ensures
        match r {
            Ok(_) => root_outcome(der@) == Ok::<(), Seq<char>>(()),
            Err(e) => root_outcome(der@) == Err::<(), Seq<char>>(e@),
        },
{
    let mut roots = rustls::RootCertStore::empty();
    match roots.add(rustls::pki_types::CertificateDer::from(der)) {
        Ok(()) => Ok(()),
        Err(error) => Err(error.to_string()),
    }
}

/// Where a certificate that is not there leads: one that was asked for has to
/// be there, the local one does not.
pub open spec fn step_without_cert(asked_for: bool, not_found: bool) -> CertStep {
    if asked_for {
        CertStep::GiveUp
    } else if not_found {
        CertStep::NoteMissing
    } else {
        CertStep::ReportFailure
    }
}

/// Decides what the outcome of a certificate leads to.
pub fn after_cert(asked_for: bool, outcome: CertOutcome) -> (r: CertStep)
    ensures
        match outcome {
            CertOutcome::Parsed(Ok(_)) => r == CertStep::Trusted,
            CertOutcome::Parsed(Err(reason)) => r == CertStep::Refused(reason),
            CertOutcome::NotFound => r == step_without_cert(asked_for, true),
            CertOutcome::Failed => r == step_without_cert(asked_for, false),
        },
{
    match outcome {
        CertOutcome::Parsed(Ok(_)) => CertStep::Trusted,
        CertOutcome::Parsed(Err(reason)) => CertStep::Refused(reason),
        CertOutcome::NotFound => if asked_for {
            CertStep::GiveUp
        } else {
            CertStep::NoteMissing
        },
        CertOutcome::Failed => if asked_for {
            CertStep::GiveUp
        } else {
            CertStep::ReportFailure
        },
    }
}

/// Parses a certificate that was read, and decides what it leads to.
pub fn trust_root(asked_for: bool, read: CertRead) -> (r: CertStep)
    ensures
        match read {
            CertRead::Loaded(der) => match root_outcome(der@) {
                Ok(_) => r == CertStep::Trusted,
                Err(reason) => r matches CertStep::Refused(s) && s@ == reason,
            },
            CertRead::NotFound => r == step_without_cert(asked_for, true),
            CertRead::Failed => r == step_without_cert(asked_for, false),
        },
{
    let outcome = match read {
        CertRead::Loaded(der) => CertOutcome::Parsed(add_root(der)),
        CertRead::NotFound => CertOutcome::NotFound,
        CertRead::Failed => CertOutcome::Failed,
    };
    after_cert(asked_for, outcome)
}

/// A certificate that was asked for has to be there. Without the local one the
/// client goes on, and tells a missing file from one that cannot be read.
pub proof fn law_missing_certificates(not_found: bool)
    ensures
        step_without_cert(true, not_found) == CertStep::GiveUp,
        step_without_cert(false, true) == CertStep::NoteMissing,
        step_without_cert(false, false) == CertStep::ReportFailure,
{
}

/// A certificate is trusted exactly if its bytes are taken, whether it was
/// asked for or not. Whether it was asked for matters only where it is not
/// there, and then exactly one that was ends the client.
pub proof fn law_outcomes_of_certificates(asked_for: bool, outcome: CertOutcome, step: CertStep)
    requires
        call_ensures(after_cert, (asked_for, outcome), step),
    ensures
        step is Trusted <==> (outcome matches CertOutcome::Parsed(taken) && taken is Ok),
        step is Refused <==> (outcome matches CertOutcome::Parsed(taken) && taken is Err),
        outcome matches CertOutcome::Parsed(Err(reason)) ==> step == CertStep::Refused(reason),
        step is GiveUp <==> asked_for && !(outcome is Parsed),
        step is NoteMissing <==> !asked_for && outcome is NotFound,
        step is ReportFailure <==> !asked_for && outcome is Failed,
{
}

} // verus!
