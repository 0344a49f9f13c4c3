//! TLS backend resolution: given one listener's settings, decide whether the
//! listener serves plaintext, and otherwise which files must be read and
//! which error ends the resolution when a step fails.
//!
//! Two interchangeable backends share the contract "optionally produce an
//! acceptor from listener settings, fallibly": one reads a PEM
//! certificate/key pair (with an optional trusted-CA file that turns on
//! mutual authentication), the other a PKCS#12 bundle with a passphrase.
//! Each is modelled as a step machine: a `Want*` state names the one outside
//! action the runtime must perform next (read and parse a file, build the
//! acceptor), and the transition functions below say exactly which state or
//! error every outcome of that action leads to.

use vstd::prelude::*;

use crate::config::ServerSettings;
use crate::error::Error;

verus! {

/// Outcome of reading and parsing one configured file.
#[derive(Debug, Clone, Copy, PartialEq, Eq, Structural)]
pub enum FileOutcome {
    /// The file could not be opened.
    Missing,
    /// The file was read but its content did not parse (for a key file:
    /// it held no usable key).
    Invalid,
    /// The file was read and parsed.
    Loaded,
}

/// State of the PEM certificate/key backend's resolution.
#[derive(Debug)]
pub enum PemResolution {
    /// No certificate configured: no acceptor, the listener serves
    /// plaintext.
    Plain,
    /// Next action: read and parse the certificate chain at `cert_path`.
    WantCert { cert_path: String, key_path: Option<String>, ca_path: Option<String> },
    /// Next action: read and parse the private key at `key_path`.
    WantKey { key_path: String, ca_path: Option<String> },
    /// Next action: read the trusted-CA file at `ca_path` into a trust
    /// store.
    WantCa { ca_path: String },
    /// Next action: build the acceptor; `client_auth` says whether clients
    /// must present a verifiable certificate.
    WantBuild { client_auth: bool },
    /// The acceptor is ready.
    Ready { client_auth: bool },
    /// Resolution failed; the listener must not start.
    Failed { error: Error },
}

impl PemResolution {
    /// The states in which resolution still waits on a file read.
    pub open spec fn wants_file(self) -> bool {
        self is WantCert || self is WantKey || self is WantCa
    }
}

/// Begin resolving the PEM backend for one listener.  With no certificate
/// configured the listener proceeds in plaintext; otherwise the certificate
/// file is read first, whatever else is configured.
pub fn pem_resolution_start(settings: &ServerSettings) -> (r: PemResolution)
    ensures
        !settings.has_tls_material() ==> r is Plain,
        settings.cert_path is None ==> r is Plain,
        settings.cert_path matches Some(cert) ==> (r matches PemResolution::WantCert {
            cert_path,
            key_path,
            ca_path,
        } && cert_path@ == cert@ && key_path == settings.key_path
            && ca_path == settings.ca_path),
{
    match &settings.cert_path {
        None => PemResolution::Plain,
        Some(cert) => PemResolution::WantCert {
            cert_path: cert.clone(),
            key_path: settings.key_path.clone(),
            ca_path: settings.ca_path.clone(),
        },
    }
}

/// Advance the PEM resolution on the outcome of the pending file read.
///
/// A missing file fails with the file-not-found error of that file's role;
/// a present but unparsable file fails with the matching invalid-content
/// error — the two are never conflated.  A certificate loaded without a
/// configured key fails with the missing-key error; a loaded key proceeds
/// to the trusted-CA file when one is configured (mutual authentication)
/// and straight to building the acceptor otherwise.
pub fn pem_resolution_file(state: PemResolution, outcome: FileOutcome) -> (r: PemResolution)
    requires
        state.wants_file(),
    ensures
        (state matches PemResolution::WantCert { cert_path, key_path, ca_path } ==> {
            &&& outcome is Missing ==> (r matches PemResolution::Failed { error }
                && (error matches Error::ServerCertNotFound(p) && p@ == cert_path@))
            &&& outcome is Invalid ==> (r matches PemResolution::Failed { error }
                && (error matches Error::InvalidServerCert(p) && p@ == cert_path@))
            &&& (outcome is Loaded && key_path is None) ==> (r matches PemResolution::Failed {
                error,
            } && error is ServerKeyRequired)
            &&& outcome is Loaded ==> (key_path matches Some(key) ==> (r
                matches PemResolution::WantKey { key_path: k, ca_path: c } && k@ == key@
                && c == ca_path))
        }),
        (state matches PemResolution::WantKey { key_path, ca_path } ==> {
            &&& outcome is Missing ==> (r matches PemResolution::Failed { error }
                && (error matches Error::ServerKeyNotFound(p) && p@ == key_path@))
            &&& outcome is Invalid ==> (r matches PemResolution::Failed { error }
                && (error matches Error::InvalidServerKey(p) && p@ == key_path@))
            &&& (outcome is Loaded && ca_path is None) ==> (r matches PemResolution::WantBuild {
                client_auth,
            } && client_auth == false)
            &&& outcome is Loaded ==> (ca_path matches Some(ca) ==> (r
                matches PemResolution::WantCa { ca_path: c } && c@ == ca@))
        }),
        (state matches PemResolution::WantCa { ca_path } ==> {
            &&& outcome is Missing ==> (r matches PemResolution::Failed { error }
                && (error matches Error::CaFileNotFound(p) && p@ == ca_path@))
            &&& outcome is Invalid ==> (r matches PemResolution::Failed { error }
                && (error matches Error::InvalidCACert(p) && p@ == ca_path@))
            &&& outcome is Loaded ==> (r matches PemResolution::WantBuild { client_auth }
                && client_auth == true)
        }),
{
    match state {
        PemResolution::WantCert { cert_path, key_path, ca_path } => match outcome {
            FileOutcome::Missing => PemResolution::Failed {
                error: Error::ServerCertNotFound(cert_path),
            },
            FileOutcome::Invalid => PemResolution::Failed {
                error: Error::InvalidServerCert(cert_path),
            },
            FileOutcome::Loaded => match key_path {
                None => PemResolution::Failed { error: Error::ServerKeyRequired },
                Some(key) => PemResolution::WantKey { key_path: key, ca_path },
            },
        },
        PemResolution::WantKey { key_path, ca_path } => match outcome {
            FileOutcome::Missing => PemResolution::Failed {
                error: Error::ServerKeyNotFound(key_path),
            },
            FileOutcome::Invalid => PemResolution::Failed {
                error: Error::InvalidServerKey(key_path),
            },
            FileOutcome::Loaded => match ca_path {
                None => PemResolution::WantBuild { client_auth: false },
                Some(ca) => PemResolution::WantCa { ca_path: ca },
            },
        },
        PemResolution::WantCa { ca_path } => match outcome {
            FileOutcome::Missing => PemResolution::Failed {
                error: Error::CaFileNotFound(ca_path),
            },
            FileOutcome::Invalid => PemResolution::Failed { error: Error::InvalidCACert(ca_path) },
            FileOutcome::Loaded => PemResolution::WantBuild { client_auth: true },
        },
        _ => state,
    }
}

/// Advance the PEM resolution on the outcome of building the acceptor: a
/// library failure there is the one TLS-library error of the taxonomy.
pub fn pem_resolution_build(state: PemResolution, built: bool) -> (r: PemResolution)
    requires
        state is WantBuild,
    ensures
        state matches PemResolution::WantBuild { client_auth } ==> {
            &&& built ==> (r matches PemResolution::Ready { client_auth: c } && c == client_auth)
            &&& !built ==> (r matches PemResolution::Failed { error } && error is Tls)
        },
{
    match state {
        PemResolution::WantBuild { client_auth } => {
            if built {
                PemResolution::Ready { client_auth }
            } else {
                PemResolution::Failed { error: Error::Tls }
            }
        },
        _ => state,
    }
}

/// State of the PKCS#12 bundle backend's resolution.
#[derive(Debug)]
pub enum BundleResolution {
    /// No bundle (or no passphrase) configured: no acceptor, the listener
    /// serves plaintext.
    Plain,
    /// Next action: read the bundle file at `bundle_path`.
    WantBundle { bundle_path: String, passphrase: String },
    /// Next action: decode an identity from the bundle bytes with the
    /// passphrase.
    WantIdentity { bundle_path: String, passphrase: String },
    /// Next action: build the acceptor from the decoded identity.
    WantBuild,
    /// The acceptor is ready.
    Ready,
    /// Resolution failed; the listener must not start.
    Failed { error: Error },
}

/// Begin resolving the PKCS#12 backend for one listener: only a bundle path
/// together with a passphrase enables TLS; either one alone leaves the
/// listener in plaintext.
pub fn bundle_resolution_start(settings: &ServerSettings) -> (r: BundleResolution)
    ensures
        !settings.has_tls_material() ==> r is Plain,
        (settings.pkcs12_path is None || settings.pkcs12_pass is None) ==> r is Plain,
        settings.pkcs12_path matches Some(path) ==> (settings.pkcs12_pass matches Some(pass)
            ==> (r matches BundleResolution::WantBundle { bundle_path, passphrase }
            && bundle_path@ == path@ && passphrase@ == pass@)),
{
    match (&settings.pkcs12_path, &settings.pkcs12_pass) {
        (Some(path), Some(pass)) => BundleResolution::WantBundle {
            bundle_path: path.clone(),
            passphrase: pass.clone(),
        },
        _ => BundleResolution::Plain,
    }
}

/// Advance the bundle resolution on the outcome of reading the bundle file:
/// a missing bundle is the certificate-not-found error, an unreadable one
/// the invalid-certificate error.
pub fn bundle_resolution_file(state: BundleResolution, outcome: FileOutcome) -> (r: BundleResolution)
    requires
        state is WantBundle,
    ensures
        state matches BundleResolution::WantBundle { bundle_path, passphrase } ==> {
            &&& outcome is Missing ==> (r matches BundleResolution::Failed { error }
                && (error matches Error::ServerCertNotFound(p) && p@ == bundle_path@))
            &&& outcome is Invalid ==> (r matches BundleResolution::Failed { error }
                && (error matches Error::InvalidServerCert(p) && p@ == bundle_path@))
            &&& outcome is Loaded ==> (r matches BundleResolution::WantIdentity {
                bundle_path: b,
                passphrase: p,
            } && b@ == bundle_path@ && p@ == passphrase@)
        },
{
    match state {
        BundleResolution::WantBundle { bundle_path, passphrase } => match outcome {
            FileOutcome::Missing => BundleResolution::Failed {
                error: Error::ServerCertNotFound(bundle_path),
            },
            FileOutcome::Invalid => BundleResolution::Failed {
                error: Error::InvalidServerCert(bundle_path),
            },
            FileOutcome::Loaded => BundleResolution::WantIdentity { bundle_path, passphrase },
        },
        _ => state,
    }
}

/// Advance the bundle resolution on the outcome of decoding the identity:
/// a bundle that the passphrase does not open, or that holds no identity,
/// is invalid content of the bundle file.
pub fn bundle_resolution_identity(state: BundleResolution, decoded: bool) -> (r: BundleResolution)
    requires
        state is WantIdentity,
    ensures
        state matches BundleResolution::WantIdentity { bundle_path, .. } ==> {
            &&& decoded ==> r is WantBuild
            &&& !decoded ==> (r matches BundleResolution::Failed { error }
                && (error matches Error::InvalidServerCert(p) && p@ == bundle_path@))
        },
{
    match state {
        BundleResolution::WantIdentity { bundle_path, .. } => {
            if decoded {
                BundleResolution::WantBuild
            } else {
                BundleResolution::Failed { error: Error::InvalidServerCert(bundle_path) }
            }
        },
        _ => state,
    }
}

/// Advance the bundle resolution on the outcome of building the acceptor.
pub fn bundle_resolution_build(state: BundleResolution, built: bool) -> (r: BundleResolution)
    requires
        state is WantBuild,
    ensures
        built ==> r is Ready,
        !built ==> (r matches BundleResolution::Failed { error } && error is Tls),
{
    if built {
        BundleResolution::Ready
    } else {
        BundleResolution::Failed { error: Error::Tls }
    }
}

} // verus!
