//! The upload sink's gate: whether object storage is configured well
//! enough to attempt an upload at all. When any of the five required
//! settings is empty the sink degrades to a deliberate no-op; the
//! surrounding process logs which setting was absent and skips the
//! network entirely. When all five are present and the storage client
//! still cannot be constructed, that is a static misconfiguration and
//! the process aborts rather than retry.

use vstd::prelude::*;

verus! {

/// The object storage settings. The five required ones gate the upload;
/// the two tokens are optional and pass through to the storage client.
pub struct StorageConfig {
    pub bucket_name: String,
    pub region: String,
    pub endpoint: String,
    pub access_key: String,
    pub secret_key: String,
    pub security_token: Option<String>,
    pub session_token: Option<String>,
}

/// The first required setting found empty, in the order they are
/// checked.
#[derive(Clone, Copy, PartialEq, Eq, Structural, Debug)]
pub enum MissingSetting {
    BucketName,
    Region,
    Endpoint,
    AccessKey,
    SecretKey,
}

/// Whether an upload goes ahead: skip as a no-op naming the first
/// missing setting, or proceed to the storage client.
#[derive(Clone, Copy, PartialEq, Eq, Structural, Debug)]
pub enum UploadDecision {
    Skip { missing: MissingSetting },
    Proceed,
}

/// What becomes of an upload under a given configuration: the first
/// empty required setting — bucket name, region, endpoint, access key,
/// secret key, in that order — asks for a skip; when all five are
/// present the upload proceeds.
pub open spec fn upload_decision_spec(cfg: StorageConfig) -> UploadDecision {
    if cfg.bucket_name@.len() == 0 {
        UploadDecision::Skip { missing: MissingSetting::BucketName }
    } else if cfg.region@.len() == 0 {
        UploadDecision::Skip { missing: MissingSetting::Region }
    } else if cfg.endpoint@.len() == 0 {
        UploadDecision::Skip { missing: MissingSetting::Endpoint }
    } else if cfg.access_key@.len() == 0 {
        UploadDecision::Skip { missing: MissingSetting::AccessKey }
    } else if cfg.secret_key@.len() == 0 {
        UploadDecision::Skip { missing: MissingSetting::SecretKey }
    } else {
        UploadDecision::Proceed
    }
}

/// Decide whether to upload under this configuration: a no-op skip
/// naming the first missing required setting, or proceed. An upload
/// proceeds exactly when all five required settings are non-empty.
pub fn upload_decision(cfg: &StorageConfig) -> (decision: UploadDecision)
    ensures
        decision == upload_decision_spec(*cfg),
        decision == UploadDecision::Proceed <==> {
            &&& cfg.bucket_name@.len() > 0
            &&& cfg.region@.len() > 0
            &&& cfg.endpoint@.len() > 0
            &&& cfg.access_key@.len() > 0
            &&& cfg.secret_key@.len() > 0
        },
{
    if cfg.bucket_name.as_str().is_empty() {
        UploadDecision::Skip { missing: MissingSetting::BucketName }
    } else if cfg.region.as_str().is_empty() {
        UploadDecision::Skip { missing: MissingSetting::Region }
    } else if cfg.endpoint.as_str().is_empty() {
        UploadDecision::Skip { missing: MissingSetting::Endpoint }
    } else if cfg.access_key.as_str().is_empty() {
        UploadDecision::Skip { missing: MissingSetting::AccessKey }
    } else if cfg.secret_key.as_str().is_empty() {
        UploadDecision::Skip { missing: MissingSetting::SecretKey }
    } else {
        UploadDecision::Proceed
    }
}

} // verus!
