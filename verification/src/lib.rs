use vstd::prelude::*;

pub mod config;
pub mod errors;
pub mod keys;
pub mod ownership;
pub mod port;

verus! {

/// Version tag of the agent API this build speaks.
pub const API_VERSION: &'static str = "v1.0";

/// Whether the vTPM is stubbed out.
pub const STUB_VTPM: bool = false;

/// Whether IMA processing is stubbed out.
pub const STUB_IMA: bool = true;

/// PCR register used for TPM-bound data.
pub const TPM_DATA_PCR: usize = 16;

/// PCR register used for IMA measurements.
pub const IMA_PCR: usize = 10;

/// Configuration file consulted when no override is set in the environment.
pub const DEFAULT_CONFIG: &'static str = "/etc/keylime.conf";

/// Placeholder for the exportable RSA public key.
pub const RSA_PUBLICKEY_EXPORTABLE: &'static str = "rsa placeholder";

/// Directory holding the TPM command-line tools.
pub const TPM_TOOLS_PATH: &'static str = "/usr/local/bin/";

/// Path of the IMA ascii runtime measurement list.
pub const IMA_ML: &'static str = "/sys/kernel/security/ima/ascii_runtime_measurements";

/// Placeholder key material.
pub const KEY: &'static str = "secret";

/// Working directory for transient agent state.
pub const WORK_DIR: &'static str = "/tmp";

/// File name of the revocation notifier certificate.
pub const REV_CERT: &'static str = "RevocationNotifier-cert.crt";

/// Whether the tmpfs work area is mounted securely.
pub const MOUNT_SECURE: bool = true;

/// Length of an agent UUID string.
pub const AGENT_UUID_LEN: usize = 36;

/// Length of an authentication tag.
pub const AUTH_TAG_LEN: usize = 96;

/// Size of an AES cipher block in bytes.
pub const AES_BLOCK_SIZE: usize = 16;

} // verus!
