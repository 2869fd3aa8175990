//! Verified core of a hardware-tuning suite for hybrid Intel laptops: core
//! topology classification, kernel-parameter audits, huge-page geometry and
//! compute-device reporting. Everything that touches the machine (sysfs, mmap,
//! thread pools, GPU and inference runtimes) lives in the companion binary.

pub mod text;
pub mod thread_pinning;
pub mod system_tuner;
pub mod memory;
pub mod compute_offload;
