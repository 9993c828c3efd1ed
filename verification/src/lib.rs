//! LiteDroid: the device model, wire formats and configuration rules of a
//! KVM-based Android emulator, with their contracts proved by Verus.

pub mod constants;
pub mod error;
pub mod text;
pub mod types;
pub mod seqs;
pub mod wire;
pub mod device;
pub mod graphics;
pub mod adb;
pub mod input;
pub mod devices;
pub mod audio;
pub mod config;
pub mod ipc;
pub mod kvm;
pub mod cpuid;
pub mod memory;
pub mod regs;
pub mod storage;
pub mod vring;
pub mod flag;
pub mod vmm;
pub mod scan;
pub mod diagnostics;
pub mod metrics;
pub mod network;
pub mod daemon;
pub mod frontend;
