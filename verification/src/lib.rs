//! Nextcore APLS: Apple Silicon boot mode, product policy, the graphics service
//! cell, the guest virtualization boundary and the host runner. Everything here
//! fails closed: no configuration, envelope shape or probe authorizes macOS
//! boot.

pub mod capture;
pub mod codec;
pub mod digest;
pub mod guest;
pub mod json;
pub mod laws;
pub mod mode;
pub mod orchestration;
pub mod report;
pub mod runner;
pub mod sgpu;
pub mod sgpu_grant;
pub mod sgpu_session;
pub mod text;
pub mod vf_abi;
pub mod vf_policy;
