//! KVM access: capability probing and the hypervisor, VM and vCPU handles.
use vstd::prelude::*;

use kvm_ioctls::VcpuExit as X;

use crate::regs::{registers_from_kvm, registers_to_kvm, system_registers_from_kvm, system_registers_to_kvm, Registers, SystemRegisters};
use crate::cpuid::{kvm_supported_cpuid, vcpu_set_cpuid2, CpuidTable};
use crate::error::{LiteDroidError, Result};
use crate::text::{decimal, has_prefix, hex, str_eq, u64_to_decimal, u64_to_hex};

verus! {

#[verifier::external_type_specification]
#[verifier::external_body]
pub struct ExKvm(kvm_ioctls::Kvm);

#[verifier::external_type_specification]
#[verifier::external_body]
pub struct ExVmFd(kvm_ioctls::VmFd);

#[verifier::external_type_specification]
#[verifier::external_body]
pub struct ExVcpuFd(kvm_ioctls::VcpuFd);

#[verifier::external_type_specification]
#[verifier::external_body]
pub struct ExCap(kvm_ioctls::Cap);

#[verifier::external_type_specification]
#[verifier::external_body]
pub struct ExKvmError(kvm_ioctls::Error);

/// `errno` value: no such file or directory.
pub const ENOENT: i32 = 2;
/// `errno` value: permission denied.
pub const EACCES: i32 = 13;
/// `errno` value: no such device.
pub const ENODEV: i32 = 19;

/// Number of capabilities probed at start-up.
pub const CAPABILITY_COUNT: usize = 56;

/// The name of probed capability `i`.
pub open spec fn capability_name_spec(i: nat) -> Seq<char> {
        if i == 0 { "ADJUST_CLOCK"@ }
        else if i == 1 { "ARM_PMU_V3"@ }
        else if i == 2 { "ARM_PSCI"@ }
        else if i == 3 { "ASYNC_PF"@ }
        else if i == 4 { "CHECK_EXTENSION_VM"@ }
        else if i == 5 { "CLOCKSOURCE"@ }
        else if i == 6 { "COALESCED_MMIO"@ }
        else if i == 7 { "COALESCED_PIO"@ }
        else if i == 8 { "DEVICE_CTRL"@ }
        else if i == 9 { "ENABLE_CAP"@ }
        else if i == 10 { "ENABLE_CAP_VM"@ }
        else if i == 11 { "EXT_CPUID"@ }
        else if i == 12 { "EXT_EMUL_CPUID"@ }
        else if i == 13 { "GET_MSR_FEATURES"@ }
        else if i == 14 { "HLT"@ }
        else if i == 15 { "HYPERV"@ }
        else if i == 16 { "IMMEDIATE_EXIT"@ }
        else if i == 17 { "INTERNAL_ERROR_DATA"@ }
        else if i == 18 { "IOAPIC_POLARITY_IGNORED"@ }
        else if i == 19 { "IOEVENTFD"@ }
        else if i == 20 { "IOEVENTFD_NO_LENGTH"@ }
        else if i == 21 { "IOMMU"@ }
        else if i == 22 { "IRQCHIP"@ }
        else if i == 23 { "IRQFD"@ }
        else if i == 24 { "IRQFD_RESAMPLE"@ }
        else if i == 25 { "IRQ_ROUTING"@ }
        else if i == 26 { "KVMCLOCK_CTRL"@ }
        else if i == 27 { "MAX_VCPUS"@ }
        else if i == 28 { "MAX_VCPU_ID"@ }
        else if i == 29 { "MMU_SHADOW_CACHE_CONTROL"@ }
        else if i == 30 { "MP_STATE"@ }
        else if i == 31 { "MSI_DEVID"@ }
        else if i == 32 { "NR_MEMSLOTS"@ }
        else if i == 33 { "NR_VCPUS"@ }
        else if i == 34 { "PCI_2_3"@ }
        else if i == 35 { "PIT"@ }
        else if i == 36 { "PIT_STATE2"@ }
        else if i == 37 { "PPC_BOOKE_WATCHDOG"@ }
        else if i == 38 { "PPC_EPR"@ }
        else if i == 39 { "PPC_GET_PVINFO"@ }
        else if i == 40 { "PPC_GET_SMMU_INFO"@ }
        else if i == 41 { "PPC_RTAS"@ }
        else if i == 42 { "PV_MMU"@ }
        else if i == 43 { "READONLY_MEM"@ }
        else if i == 44 { "S390_GMAP"@ }
        else if i == 45 { "S390_USER_SIGP"@ }
        else if i == 46 { "SET_IDENTITY_MAP_ADDR"@ }
        else if i == 47 { "SET_TSS_ADDR"@ }
        else if i == 48 { "SIGNAL_MSI"@ }
        else if i == 49 { "SYNC_MMU"@ }
        else if i == 50 { "SYNC_REGS"@ }
        else if i == 51 { "TSC_DEADLINE_TIMER"@ }
        else if i == 52 { "USER_MEMORY"@ }
        else if i == 53 { "USER_NMI"@ }
        else if i == 54 { "VAPIC"@ }
        else if i == 55 { "VM_ATTRIBUTES"@ }
        else { seq![] }
}

/// `k` is where `a` and `b` first differ, and `a` is the smaller there:
/// either `a` ends at `k` while `b` goes on, or both go on and `a`'s
/// character at `k` has the lower code.
pub open spec fn first_difference(a: Seq<char>, b: Seq<char>, k: int) -> bool {
    &&& 0 <= k <= a.len()
    &&& k <= b.len()
    &&& a.subrange(0, k) == b.subrange(0, k)
    &&& ((k == a.len() && k < b.len()) || (k < a.len() && k < b.len() && (a[k] as u32) < (b[k] as u32)))
}

/// `a` comes strictly before `b` in the order of character codes.
pub open spec fn name_before(a: Seq<char>, b: Seq<char>) -> bool {
    exists|k: int| #[trigger] first_difference(a, b, k)
}

proof fn lemma_adjacent_names(i: nat)
    requires
        i + 1 < CAPABILITY_COUNT,
    ensures
        name_before(capability_name_spec(i), capability_name_spec(i + 1)),
{
    if i == 0 {
        reveal_strlit("ADJUST_CLOCK");
        reveal_strlit("ARM_PMU_V3");
        assert(capability_name_spec(0).subrange(0, 1) =~= capability_name_spec(1).subrange(0, 1));
        assert(first_difference(capability_name_spec(0), capability_name_spec(1), 1));
    } else if i == 1 {
        reveal_strlit("ARM_PMU_V3");
        reveal_strlit("ARM_PSCI");
        assert(capability_name_spec(1).subrange(0, 5) =~= capability_name_spec(2).subrange(0, 5));
        assert(first_difference(capability_name_spec(1), capability_name_spec(2), 5));
    } else if i == 2 {
        reveal_strlit("ARM_PSCI");
        reveal_strlit("ASYNC_PF");
        assert(capability_name_spec(2).subrange(0, 1) =~= capability_name_spec(3).subrange(0, 1));
        assert(first_difference(capability_name_spec(2), capability_name_spec(3), 1));
    } else if i == 3 {
        reveal_strlit("ASYNC_PF");
        reveal_strlit("CHECK_EXTENSION_VM");
        assert(capability_name_spec(3).subrange(0, 0) =~= capability_name_spec(4).subrange(0, 0));
        assert(first_difference(capability_name_spec(3), capability_name_spec(4), 0));
    } else if i == 4 {
        reveal_strlit("CHECK_EXTENSION_VM");
        reveal_strlit("CLOCKSOURCE");
        assert(capability_name_spec(4).subrange(0, 1) =~= capability_name_spec(5).subrange(0, 1));
        assert(first_difference(capability_name_spec(4), capability_name_spec(5), 1));
    } else if i == 5 {
        reveal_strlit("CLOCKSOURCE");
        reveal_strlit("COALESCED_MMIO");
        assert(capability_name_spec(5).subrange(0, 1) =~= capability_name_spec(6).subrange(0, 1));
        assert(first_difference(capability_name_spec(5), capability_name_spec(6), 1));
    } else if i == 6 {
        reveal_strlit("COALESCED_MMIO");
        reveal_strlit("COALESCED_PIO");
        assert(capability_name_spec(6).subrange(0, 10) =~= capability_name_spec(7).subrange(0, 10));
        assert(first_difference(capability_name_spec(6), capability_name_spec(7), 10));
    } else if i == 7 {
        reveal_strlit("COALESCED_PIO");
        reveal_strlit("DEVICE_CTRL");
        assert(capability_name_spec(7).subrange(0, 0) =~= capability_name_spec(8).subrange(0, 0));
        assert(first_difference(capability_name_spec(7), capability_name_spec(8), 0));
    } else if i == 8 {
        reveal_strlit("DEVICE_CTRL");
        reveal_strlit("ENABLE_CAP");
        assert(capability_name_spec(8).subrange(0, 0) =~= capability_name_spec(9).subrange(0, 0));
        assert(first_difference(capability_name_spec(8), capability_name_spec(9), 0));
    } else if i == 9 {
        reveal_strlit("ENABLE_CAP");
        reveal_strlit("ENABLE_CAP_VM");
        assert(capability_name_spec(9).subrange(0, 10) =~= capability_name_spec(10).subrange(0, 10));
        assert(first_difference(capability_name_spec(9), capability_name_spec(10), 10));
    } else if i == 10 {
        reveal_strlit("ENABLE_CAP_VM");
        reveal_strlit("EXT_CPUID");
        assert(capability_name_spec(10).subrange(0, 1) =~= capability_name_spec(11).subrange(0, 1));
        assert(first_difference(capability_name_spec(10), capability_name_spec(11), 1));
    } else if i == 11 {
        reveal_strlit("EXT_CPUID");
        reveal_strlit("EXT_EMUL_CPUID");
        assert(capability_name_spec(11).subrange(0, 4) =~= capability_name_spec(12).subrange(0, 4));
        assert(first_difference(capability_name_spec(11), capability_name_spec(12), 4));
    } else if i == 12 {
        reveal_strlit("EXT_EMUL_CPUID");
        reveal_strlit("GET_MSR_FEATURES");
        assert(capability_name_spec(12).subrange(0, 0) =~= capability_name_spec(13).subrange(0, 0));
        assert(first_difference(capability_name_spec(12), capability_name_spec(13), 0));
    } else if i == 13 {
        reveal_strlit("GET_MSR_FEATURES");
        reveal_strlit("HLT");
        assert(capability_name_spec(13).subrange(0, 0) =~= capability_name_spec(14).subrange(0, 0));
        assert(first_difference(capability_name_spec(13), capability_name_spec(14), 0));
    } else if i == 14 {
        reveal_strlit("HLT");
        reveal_strlit("HYPERV");
        assert(capability_name_spec(14).subrange(0, 1) =~= capability_name_spec(15).subrange(0, 1));
        assert(first_difference(capability_name_spec(14), capability_name_spec(15), 1));
    } else if i == 15 {
        reveal_strlit("HYPERV");
        reveal_strlit("IMMEDIATE_EXIT");
        assert(capability_name_spec(15).subrange(0, 0) =~= capability_name_spec(16).subrange(0, 0));
        assert(first_difference(capability_name_spec(15), capability_name_spec(16), 0));
    } else if i == 16 {
        reveal_strlit("IMMEDIATE_EXIT");
        reveal_strlit("INTERNAL_ERROR_DATA");
        assert(capability_name_spec(16).subrange(0, 1) =~= capability_name_spec(17).subrange(0, 1));
        assert(first_difference(capability_name_spec(16), capability_name_spec(17), 1));
    } else if i == 17 {
        reveal_strlit("INTERNAL_ERROR_DATA");
        reveal_strlit("IOAPIC_POLARITY_IGNORED");
        assert(capability_name_spec(17).subrange(0, 1) =~= capability_name_spec(18).subrange(0, 1));
        assert(first_difference(capability_name_spec(17), capability_name_spec(18), 1));
    } else if i == 18 {
        reveal_strlit("IOAPIC_POLARITY_IGNORED");
        reveal_strlit("IOEVENTFD");
        assert(capability_name_spec(18).subrange(0, 2) =~= capability_name_spec(19).subrange(0, 2));
        assert(first_difference(capability_name_spec(18), capability_name_spec(19), 2));
    } else if i == 19 {
        reveal_strlit("IOEVENTFD");
        reveal_strlit("IOEVENTFD_NO_LENGTH");
        assert(capability_name_spec(19).subrange(0, 9) =~= capability_name_spec(20).subrange(0, 9));
        assert(first_difference(capability_name_spec(19), capability_name_spec(20), 9));
    } else if i == 20 {
        reveal_strlit("IOEVENTFD_NO_LENGTH");
        reveal_strlit("IOMMU");
        assert(capability_name_spec(20).subrange(0, 2) =~= capability_name_spec(21).subrange(0, 2));
        assert(first_difference(capability_name_spec(20), capability_name_spec(21), 2));
    } else if i == 21 {
        reveal_strlit("IOMMU");
        reveal_strlit("IRQCHIP");
        assert(capability_name_spec(21).subrange(0, 1) =~= capability_name_spec(22).subrange(0, 1));
        assert(first_difference(capability_name_spec(21), capability_name_spec(22), 1));
    } else if i == 22 {
        reveal_strlit("IRQCHIP");
        reveal_strlit("IRQFD");
        assert(capability_name_spec(22).subrange(0, 3) =~= capability_name_spec(23).subrange(0, 3));
        assert(first_difference(capability_name_spec(22), capability_name_spec(23), 3));
    } else if i == 23 {
        reveal_strlit("IRQFD");
        reveal_strlit("IRQFD_RESAMPLE");
        assert(capability_name_spec(23).subrange(0, 5) =~= capability_name_spec(24).subrange(0, 5));
        assert(first_difference(capability_name_spec(23), capability_name_spec(24), 5));
    } else if i == 24 {
        reveal_strlit("IRQFD_RESAMPLE");
        reveal_strlit("IRQ_ROUTING");
        assert(capability_name_spec(24).subrange(0, 3) =~= capability_name_spec(25).subrange(0, 3));
        assert(first_difference(capability_name_spec(24), capability_name_spec(25), 3));
    } else if i == 25 {
        reveal_strlit("IRQ_ROUTING");
        reveal_strlit("KVMCLOCK_CTRL");
        assert(capability_name_spec(25).subrange(0, 0) =~= capability_name_spec(26).subrange(0, 0));
        assert(first_difference(capability_name_spec(25), capability_name_spec(26), 0));
    } else if i == 26 {
        reveal_strlit("KVMCLOCK_CTRL");
        reveal_strlit("MAX_VCPUS");
        assert(capability_name_spec(26).subrange(0, 0) =~= capability_name_spec(27).subrange(0, 0));
        assert(first_difference(capability_name_spec(26), capability_name_spec(27), 0));
    } else if i == 27 {
        reveal_strlit("MAX_VCPUS");
        reveal_strlit("MAX_VCPU_ID");
        assert(capability_name_spec(27).subrange(0, 8) =~= capability_name_spec(28).subrange(0, 8));
        assert(first_difference(capability_name_spec(27), capability_name_spec(28), 8));
    } else if i == 28 {
        reveal_strlit("MAX_VCPU_ID");
        reveal_strlit("MMU_SHADOW_CACHE_CONTROL");
        assert(capability_name_spec(28).subrange(0, 1) =~= capability_name_spec(29).subrange(0, 1));
        assert(first_difference(capability_name_spec(28), capability_name_spec(29), 1));
    } else if i == 29 {
        reveal_strlit("MMU_SHADOW_CACHE_CONTROL");
        reveal_strlit("MP_STATE");
        assert(capability_name_spec(29).subrange(0, 1) =~= capability_name_spec(30).subrange(0, 1));
        assert(first_difference(capability_name_spec(29), capability_name_spec(30), 1));
    } else if i == 30 {
        reveal_strlit("MP_STATE");
        reveal_strlit("MSI_DEVID");
        assert(capability_name_spec(30).subrange(0, 1) =~= capability_name_spec(31).subrange(0, 1));
        assert(first_difference(capability_name_spec(30), capability_name_spec(31), 1));
    } else if i == 31 {
        reveal_strlit("MSI_DEVID");
        reveal_strlit("NR_MEMSLOTS");
        assert(capability_name_spec(31).subrange(0, 0) =~= capability_name_spec(32).subrange(0, 0));
        assert(first_difference(capability_name_spec(31), capability_name_spec(32), 0));
    } else if i == 32 {
        reveal_strlit("NR_MEMSLOTS");
        reveal_strlit("NR_VCPUS");
        assert(capability_name_spec(32).subrange(0, 3) =~= capability_name_spec(33).subrange(0, 3));
        assert(first_difference(capability_name_spec(32), capability_name_spec(33), 3));
    } else if i == 33 {
        reveal_strlit("NR_VCPUS");
        reveal_strlit("PCI_2_3");
        assert(capability_name_spec(33).subrange(0, 0) =~= capability_name_spec(34).subrange(0, 0));
        assert(first_difference(capability_name_spec(33), capability_name_spec(34), 0));
    } else if i == 34 {
        reveal_strlit("PCI_2_3");
        reveal_strlit("PIT");
        assert(capability_name_spec(34).subrange(0, 1) =~= capability_name_spec(35).subrange(0, 1));
        assert(first_difference(capability_name_spec(34), capability_name_spec(35), 1));
    } else if i == 35 {
        reveal_strlit("PIT");
        reveal_strlit("PIT_STATE2");
        assert(capability_name_spec(35).subrange(0, 3) =~= capability_name_spec(36).subrange(0, 3));
        assert(first_difference(capability_name_spec(35), capability_name_spec(36), 3));
    } else if i == 36 {
        reveal_strlit("PIT_STATE2");
        reveal_strlit("PPC_BOOKE_WATCHDOG");
        assert(capability_name_spec(36).subrange(0, 1) =~= capability_name_spec(37).subrange(0, 1));
        assert(first_difference(capability_name_spec(36), capability_name_spec(37), 1));
    } else if i == 37 {
        reveal_strlit("PPC_BOOKE_WATCHDOG");
        reveal_strlit("PPC_EPR");
        assert(capability_name_spec(37).subrange(0, 4) =~= capability_name_spec(38).subrange(0, 4));
        assert(first_difference(capability_name_spec(37), capability_name_spec(38), 4));
    } else if i == 38 {
        reveal_strlit("PPC_EPR");
        reveal_strlit("PPC_GET_PVINFO");
        assert(capability_name_spec(38).subrange(0, 4) =~= capability_name_spec(39).subrange(0, 4));
        assert(first_difference(capability_name_spec(38), capability_name_spec(39), 4));
    } else if i == 39 {
        reveal_strlit("PPC_GET_PVINFO");
        reveal_strlit("PPC_GET_SMMU_INFO");
        assert(capability_name_spec(39).subrange(0, 8) =~= capability_name_spec(40).subrange(0, 8));
        assert(first_difference(capability_name_spec(39), capability_name_spec(40), 8));
    } else if i == 40 {
        reveal_strlit("PPC_GET_SMMU_INFO");
        reveal_strlit("PPC_RTAS");
        assert(capability_name_spec(40).subrange(0, 4) =~= capability_name_spec(41).subrange(0, 4));
        assert(first_difference(capability_name_spec(40), capability_name_spec(41), 4));
    } else if i == 41 {
        reveal_strlit("PPC_RTAS");
        reveal_strlit("PV_MMU");
        assert(capability_name_spec(41).subrange(0, 1) =~= capability_name_spec(42).subrange(0, 1));
        assert(first_difference(capability_name_spec(41), capability_name_spec(42), 1));
    } else if i == 42 {
        reveal_strlit("PV_MMU");
        reveal_strlit("READONLY_MEM");
        assert(capability_name_spec(42).subrange(0, 0) =~= capability_name_spec(43).subrange(0, 0));
        assert(first_difference(capability_name_spec(42), capability_name_spec(43), 0));
    } else if i == 43 {
        reveal_strlit("READONLY_MEM");
        reveal_strlit("S390_GMAP");
        assert(capability_name_spec(43).subrange(0, 0) =~= capability_name_spec(44).subrange(0, 0));
        assert(first_difference(capability_name_spec(43), capability_name_spec(44), 0));
    } else if i == 44 {
        reveal_strlit("S390_GMAP");
        reveal_strlit("S390_USER_SIGP");
        assert(capability_name_spec(44).subrange(0, 5) =~= capability_name_spec(45).subrange(0, 5));
        assert(first_difference(capability_name_spec(44), capability_name_spec(45), 5));
    } else if i == 45 {
        reveal_strlit("S390_USER_SIGP");
        reveal_strlit("SET_IDENTITY_MAP_ADDR");
        assert(capability_name_spec(45).subrange(0, 1) =~= capability_name_spec(46).subrange(0, 1));
        assert(first_difference(capability_name_spec(45), capability_name_spec(46), 1));
    } else if i == 46 {
        reveal_strlit("SET_IDENTITY_MAP_ADDR");
        reveal_strlit("SET_TSS_ADDR");
        assert(capability_name_spec(46).subrange(0, 4) =~= capability_name_spec(47).subrange(0, 4));
        assert(first_difference(capability_name_spec(46), capability_name_spec(47), 4));
    } else if i == 47 {
        reveal_strlit("SET_TSS_ADDR");
        reveal_strlit("SIGNAL_MSI");
        assert(capability_name_spec(47).subrange(0, 1) =~= capability_name_spec(48).subrange(0, 1));
        assert(first_difference(capability_name_spec(47), capability_name_spec(48), 1));
    } else if i == 48 {
        reveal_strlit("SIGNAL_MSI");
        reveal_strlit("SYNC_MMU");
        assert(capability_name_spec(48).subrange(0, 1) =~= capability_name_spec(49).subrange(0, 1));
        assert(first_difference(capability_name_spec(48), capability_name_spec(49), 1));
    } else if i == 49 {
        reveal_strlit("SYNC_MMU");
        reveal_strlit("SYNC_REGS");
        assert(capability_name_spec(49).subrange(0, 5) =~= capability_name_spec(50).subrange(0, 5));
        assert(first_difference(capability_name_spec(49), capability_name_spec(50), 5));
    } else if i == 50 {
        reveal_strlit("SYNC_REGS");
        reveal_strlit("TSC_DEADLINE_TIMER");
        assert(capability_name_spec(50).subrange(0, 0) =~= capability_name_spec(51).subrange(0, 0));
        assert(first_difference(capability_name_spec(50), capability_name_spec(51), 0));
    } else if i == 51 {
        reveal_strlit("TSC_DEADLINE_TIMER");
        reveal_strlit("USER_MEMORY");
        assert(capability_name_spec(51).subrange(0, 0) =~= capability_name_spec(52).subrange(0, 0));
        assert(first_difference(capability_name_spec(51), capability_name_spec(52), 0));
    } else if i == 52 {
        reveal_strlit("USER_MEMORY");
        reveal_strlit("USER_NMI");
        assert(capability_name_spec(52).subrange(0, 5) =~= capability_name_spec(53).subrange(0, 5));
        assert(first_difference(capability_name_spec(52), capability_name_spec(53), 5));
    } else if i == 53 {
        reveal_strlit("USER_NMI");
        reveal_strlit("VAPIC");
        assert(capability_name_spec(53).subrange(0, 0) =~= capability_name_spec(54).subrange(0, 0));
        assert(first_difference(capability_name_spec(53), capability_name_spec(54), 0));
    } else if i == 54 {
        reveal_strlit("VAPIC");
        reveal_strlit("VM_ATTRIBUTES");
        assert(capability_name_spec(54).subrange(0, 1) =~= capability_name_spec(55).subrange(0, 1));
        assert(first_difference(capability_name_spec(54), capability_name_spec(55), 1));
    }
}

/// The capability table is in strictly ascending order of names, so both
/// lists of the summary come out sorted by name.
pub proof fn lemma_capability_names_ascending()
    ensures
        forall|i: nat|
            i + 1 < CAPABILITY_COUNT ==> #[trigger] name_before(
                capability_name_spec(i),
                capability_name_spec(i + 1),
            ),
{
    assert forall|i: nat| i + 1 < CAPABILITY_COUNT implies #[trigger] name_before(
        capability_name_spec(i),
        capability_name_spec(i + 1),
    ) by {
        lemma_adjacent_names(i);
    }
}

/// The name of probed capability `i`.
pub fn capability_name(i: usize) -> (s: &'static str)
    requires
        i < CAPABILITY_COUNT,
    ensures
        s@ == capability_name_spec(i as nat),
{
    match i {
        0 => "ADJUST_CLOCK",
        1 => "ARM_PMU_V3",
        2 => "ARM_PSCI",
        3 => "ASYNC_PF",
        4 => "CHECK_EXTENSION_VM",
        5 => "CLOCKSOURCE",
        6 => "COALESCED_MMIO",
        7 => "COALESCED_PIO",
        8 => "DEVICE_CTRL",
        9 => "ENABLE_CAP",
        10 => "ENABLE_CAP_VM",
        11 => "EXT_CPUID",
        12 => "EXT_EMUL_CPUID",
        13 => "GET_MSR_FEATURES",
        14 => "HLT",
        15 => "HYPERV",
        16 => "IMMEDIATE_EXIT",
        17 => "INTERNAL_ERROR_DATA",
        18 => "IOAPIC_POLARITY_IGNORED",
        19 => "IOEVENTFD",
        20 => "IOEVENTFD_NO_LENGTH",
        21 => "IOMMU",
        22 => "IRQCHIP",
        23 => "IRQFD",
        24 => "IRQFD_RESAMPLE",
        25 => "IRQ_ROUTING",
        26 => "KVMCLOCK_CTRL",
        27 => "MAX_VCPUS",
        28 => "MAX_VCPU_ID",
        29 => "MMU_SHADOW_CACHE_CONTROL",
        30 => "MP_STATE",
        31 => "MSI_DEVID",
        32 => "NR_MEMSLOTS",
        33 => "NR_VCPUS",
        34 => "PCI_2_3",
        35 => "PIT",
        36 => "PIT_STATE2",
        37 => "PPC_BOOKE_WATCHDOG",
        38 => "PPC_EPR",
        39 => "PPC_GET_PVINFO",
        40 => "PPC_GET_SMMU_INFO",
        41 => "PPC_RTAS",
        42 => "PV_MMU",
        43 => "READONLY_MEM",
        44 => "S390_GMAP",
        45 => "S390_USER_SIGP",
        46 => "SET_IDENTITY_MAP_ADDR",
        47 => "SET_TSS_ADDR",
        48 => "SIGNAL_MSI",
        49 => "SYNC_MMU",
        50 => "SYNC_REGS",
        51 => "TSC_DEADLINE_TIMER",
        52 => "USER_MEMORY",
        53 => "USER_NMI",
        54 => "VAPIC",
        55 => "VM_ATTRIBUTES",
        _ => "",
    }
}

/// The `KVM_CAP_*` number of probed capability `i` (as `linux/kvm.h`
/// numbers them).
pub open spec fn capability_id_spec(i: nat) -> u64 {
        if i == 0 { 39 } // ADJUST_CLOCK
        else if i == 1 { 126 } // ARM_PMU_V3
        else if i == 2 { 87 } // ARM_PSCI
        else if i == 3 { 59 } // ASYNC_PF
        else if i == 4 { 105 } // CHECK_EXTENSION_VM
        else if i == 5 { 8 } // CLOCKSOURCE
        else if i == 6 { 15 } // COALESCED_MMIO
        else if i == 7 { 162 } // COALESCED_PIO
        else if i == 8 { 89 } // DEVICE_CTRL
        else if i == 9 { 54 } // ENABLE_CAP
        else if i == 10 { 98 } // ENABLE_CAP_VM
        else if i == 11 { 7 } // EXT_CPUID
        else if i == 12 { 95 } // EXT_EMUL_CPUID
        else if i == 13 { 153 } // GET_MSR_FEATURES
        else if i == 14 { 1 } // HLT
        else if i == 15 { 44 } // HYPERV
        else if i == 16 { 136 } // IMMEDIATE_EXIT
        else if i == 17 { 40 } // INTERNAL_ERROR_DATA
        else if i == 18 { 97 } // IOAPIC_POLARITY_IGNORED
        else if i == 19 { 36 } // IOEVENTFD
        else if i == 20 { 100 } // IOEVENTFD_NO_LENGTH
        else if i == 21 { 18 } // IOMMU
        else if i == 22 { 0 } // IRQCHIP
        else if i == 23 { 32 } // IRQFD
        else if i == 24 { 82 } // IRQFD_RESAMPLE
        else if i == 25 { 25 } // IRQ_ROUTING
        else if i == 26 { 76 } // KVMCLOCK_CTRL
        else if i == 27 { 66 } // MAX_VCPUS
        else if i == 28 { 128 } // MAX_VCPU_ID
        else if i == 29 { 2 } // MMU_SHADOW_CACHE_CONTROL
        else if i == 30 { 14 } // MP_STATE
        else if i == 31 { 131 } // MSI_DEVID
        else if i == 32 { 10 } // NR_MEMSLOTS
        else if i == 33 { 9 } // NR_VCPUS
        else if i == 34 { 75 } // PCI_2_3
        else if i == 35 { 11 } // PIT
        else if i == 36 { 35 } // PIT_STATE2
        else if i == 37 { 83 } // PPC_BOOKE_WATCHDOG
        else if i == 38 { 86 } // PPC_EPR
        else if i == 39 { 57 } // PPC_GET_PVINFO
        else if i == 40 { 78 } // PPC_GET_SMMU_INFO
        else if i == 41 { 91 } // PPC_RTAS
        else if i == 42 { 13 } // PV_MMU
        else if i == 43 { 81 } // READONLY_MEM
        else if i == 44 { 71 } // S390_GMAP
        else if i == 45 { 106 } // S390_USER_SIGP
        else if i == 46 { 37 } // SET_IDENTITY_MAP_ADDR
        else if i == 47 { 4 } // SET_TSS_ADDR
        else if i == 48 { 77 } // SIGNAL_MSI
        else if i == 49 { 16 } // SYNC_MMU
        else if i == 50 { 74 } // SYNC_REGS
        else if i == 51 { 72 } // TSC_DEADLINE_TIMER
        else if i == 52 { 3 } // USER_MEMORY
        else if i == 53 { 22 } // USER_NMI
        else if i == 54 { 6 } // VAPIC
        else if i == 55 { 101 } // VM_ATTRIBUTES
        else { 0 }
}

/// The `KVM_CAP_*` number of probed capability `i`.
pub fn capability_id(i: usize) -> (id: u64)
    requires
        i < CAPABILITY_COUNT,
    ensures
        id == capability_id_spec(i as nat),
{
    match i {
        0 => 39, // ADJUST_CLOCK
        1 => 126, // ARM_PMU_V3
        2 => 87, // ARM_PSCI
        3 => 59, // ASYNC_PF
        4 => 105, // CHECK_EXTENSION_VM
        5 => 8, // CLOCKSOURCE
        6 => 15, // COALESCED_MMIO
        7 => 162, // COALESCED_PIO
        8 => 89, // DEVICE_CTRL
        9 => 54, // ENABLE_CAP
        10 => 98, // ENABLE_CAP_VM
        11 => 7, // EXT_CPUID
        12 => 95, // EXT_EMUL_CPUID
        13 => 153, // GET_MSR_FEATURES
        14 => 1, // HLT
        15 => 44, // HYPERV
        16 => 136, // IMMEDIATE_EXIT
        17 => 40, // INTERNAL_ERROR_DATA
        18 => 97, // IOAPIC_POLARITY_IGNORED
        19 => 36, // IOEVENTFD
        20 => 100, // IOEVENTFD_NO_LENGTH
        21 => 18, // IOMMU
        22 => 0, // IRQCHIP
        23 => 32, // IRQFD
        24 => 82, // IRQFD_RESAMPLE
        25 => 25, // IRQ_ROUTING
        26 => 76, // KVMCLOCK_CTRL
        27 => 66, // MAX_VCPUS
        28 => 128, // MAX_VCPU_ID
        29 => 2, // MMU_SHADOW_CACHE_CONTROL
        30 => 14, // MP_STATE
        31 => 131, // MSI_DEVID
        32 => 10, // NR_MEMSLOTS
        33 => 9, // NR_VCPUS
        34 => 75, // PCI_2_3
        35 => 11, // PIT
        36 => 35, // PIT_STATE2
        37 => 83, // PPC_BOOKE_WATCHDOG
        38 => 86, // PPC_EPR
        39 => 57, // PPC_GET_PVINFO
        40 => 78, // PPC_GET_SMMU_INFO
        41 => 91, // PPC_RTAS
        42 => 13, // PV_MMU
        43 => 81, // READONLY_MEM
        44 => 71, // S390_GMAP
        45 => 106, // S390_USER_SIGP
        46 => 37, // SET_IDENTITY_MAP_ADDR
        47 => 4, // SET_TSS_ADDR
        48 => 77, // SIGNAL_MSI
        49 => 16, // SYNC_MMU
        50 => 74, // SYNC_REGS
        51 => 72, // TSC_DEADLINE_TIMER
        52 => 3, // USER_MEMORY
        53 => 22, // USER_NMI
        54 => 6, // VAPIC
        55 => 101, // VM_ATTRIBUTES
        _ => 0,
    }
}

/// The result of `KVM_CHECK_EXTENSION` for the raw capability number `c`.
///
/// Calls `Kvm::check_extension_raw`; the answer depends on the host kernel,
/// so nothing is claimed about it.
#[verifier::external_body]
fn kvm_check_extension_raw(kvm: &kvm_ioctls::Kvm, c: u64) -> i32 {
    kvm.check_extension_raw(c)
}

/// Whether a raw `KVM_CHECK_EXTENSION` answer means the capability is
/// offered: a positive answer does (some capabilities answer with a count
/// or a limit).
pub fn capability_flag(raw: i32) -> (b: bool)
    ensures
        b == (raw > 0),
{
    raw > 0
}

/// The names of capabilities `0..n` whose flag is `want`, in table order.
pub open spec fn names_where(flags: Seq<bool>, want: bool, n: nat) -> Seq<Seq<char>>
    decreases n,
{
    if n == 0 {
        seq![]
    } else {
        let prev = names_where(flags, want, (n - 1) as nat);
        if flags[n - 1] == want {
            prev.push(capability_name_spec((n - 1) as nat))
        } else {
            prev
        }
    }
}

/// `names` separated by `", "`.
pub open spec fn join_names(names: Seq<Seq<char>>) -> Seq<char>
    decreases names.len(),
{
    if names.len() == 0 {
        seq![]
    } else if names.len() == 1 {
        names[0]
    } else {
        join_names(names.drop_last()) + seq![',', ' '] + names.last()
    }
}

/// The capability summary: a title line, then a line listing the available
/// capabilities and one listing the unavailable ones, each in table order
/// (ascending order of name, by `lemma_capability_names_ascending`) and left
/// out when empty.
pub open spec fn capability_summary(flags: Seq<bool>) -> Seq<char> {
    let available = names_where(flags, true, CAPABILITY_COUNT as nat);
    let unavailable = names_where(flags, false, CAPABILITY_COUNT as nat);
    "KVM capabilities:"@ + (if available.len() > 0 {
        "\n  \u{2713} "@ + join_names(available)
    } else {
        seq![]
    }) + (if unavailable.len() > 0 {
        "\n  \u{2717} "@ + join_names(unavailable)
    } else {
        seq![]
    })
}

/// The flag of the first capability from `i` on whose name is `name`, or
/// `false` when there is none.
pub open spec fn capability_lookup(flags: Seq<bool>, name: Seq<char>, i: nat) -> bool
    decreases CAPABILITY_COUNT - i,
{
    if i >= CAPABILITY_COUNT {
        false
    } else if capability_name_spec(i) == name {
        flags[i as int]
    } else {
        capability_lookup(flags, name, i + 1)
    }
}

/// Probes KVM capabilities at construction time and remembers which are
/// available on the host.
#[derive(Debug)]
pub struct KvmCapabilities {
    flags: Vec<bool>,
}

impl KvmCapabilities {
    /// For each capability of the table, whether the host offers it.
    pub closed spec fn flags(&self) -> Seq<bool> {
        self.flags@
    }

    /// Probe the underlying KVM device and record every known capability:
    /// capability `i` is asked for by its number `capability_id(i)`, and the
    /// answers become flags through `from_probes`.
    fn new(kvm: &kvm_ioctls::Kvm) -> (c: Self)
        ensures
            c.flags().len() == CAPABILITY_COUNT,
    {
        let mut raw: Vec<i32> = Vec::new();
        let mut i: usize = 0;
        while i < CAPABILITY_COUNT
            invariant
                i <= CAPABILITY_COUNT,
                raw@.len() == i,
            decreases CAPABILITY_COUNT - i,
        {
            raw.push(kvm_check_extension_raw(kvm, capability_id(i)));
            i = i + 1;
        }
        Self::from_probes(&raw)
    }

    /// Capabilities from the raw answers of `KVM_CHECK_EXTENSION`, one per
    /// table entry: a capability is offered when its answer is positive (see
    /// `capability_flag`).
    pub fn from_probes(raw: &Vec<i32>) -> (c: Self)
        requires
            raw@.len() == CAPABILITY_COUNT,
        ensures
            c.flags().len() == CAPABILITY_COUNT,
            forall|i: int| 0 <= i < CAPABILITY_COUNT ==> #[trigger] c.flags()[i] == (raw@[i] > 0),
    {
        let mut flags: Vec<bool> = Vec::new();
        let mut i: usize = 0;
        while i < raw.len()
            invariant
                i <= raw@.len(),
                raw@.len() == CAPABILITY_COUNT,
                flags@.len() == i,
                forall|j: int| 0 <= j < i ==> #[trigger] flags@[j] == (raw@[j] > 0),
            decreases raw@.len() - i,
        {
            flags.push(capability_flag(raw[i]));
            i = i + 1;
        }
        KvmCapabilities { flags }
    }

    /// Capabilities recorded from the given probe results, one per table entry.
    pub fn from_flags(flags: Vec<bool>) -> (c: Self)
        requires
            flags@.len() == CAPABILITY_COUNT,
        ensures
            c.flags() == flags@,
    {
        KvmCapabilities { flags }
    }

    /// Query a single capability by name.
    pub fn is_available(&self, name: &str) -> (r: bool)
        requires
            self.flags().len() == CAPABILITY_COUNT,
        ensures
            r == capability_lookup(self.flags(), name@, 0),
    {
        let mut i: usize = 0;
        while i < CAPABILITY_COUNT
            invariant
                i <= CAPABILITY_COUNT,
                self.flags().len() == CAPABILITY_COUNT,
                capability_lookup(self.flags(), name@, 0) == capability_lookup(
                    self.flags(),
                    name@,
                    i as nat,
                ),
            decreases CAPABILITY_COUNT - i,
        {
            if str_eq(name, capability_name(i)) {
                return self.flags[i];
            }
            i = i + 1;
        }
        false
    }

    /// Return a human-readable summary of all probed capabilities.
    pub fn summary(&self) -> (s: String)
        requires
            self.flags().len() == CAPABILITY_COUNT,
        ensures
            s@ == capability_summary(self.flags()),
    {
        let mut available = String::new();
        let mut unavailable = String::new();
        let mut n_available: usize = 0;
        let mut n_unavailable: usize = 0;
        let mut i: usize = 0;
        proof {
            reveal_strlit(", ");
        }
        while i < CAPABILITY_COUNT
            invariant
                i <= CAPABILITY_COUNT,
                self.flags().len() == CAPABILITY_COUNT,
                n_available == names_where(self.flags(), true, i as nat).len(),
                n_unavailable == names_where(self.flags(), false, i as nat).len(),
                n_available <= i,
                n_unavailable <= i,
                available@ == join_names(names_where(self.flags(), true, i as nat)),
                unavailable@ == join_names(names_where(self.flags(), false, i as nat)),
            decreases CAPABILITY_COUNT - i,
        {
            let name = capability_name(i);
            let ghost pa = names_where(self.flags(), true, i as nat);
            let ghost pu = names_where(self.flags(), false, i as nat);
            proof {
                assert(names_where(self.flags(), true, (i + 1) as nat) == (if self.flags()[i as int] {
                    pa.push(capability_name_spec(i as nat))
                } else {
                    pa
                }));
                assert(names_where(self.flags(), false, (i + 1) as nat) == (if !self.flags()[i as int] {
                    pu.push(capability_name_spec(i as nat))
                } else {
                    pu
                }));
                assert(pa.push(capability_name_spec(i as nat)).drop_last() =~= pa);
                assert(pu.push(capability_name_spec(i as nat)).drop_last() =~= pu);
            }
            if self.flags[i] {
                if n_available > 0 {
                    available.append(", ");
                }
                available.append(name);
                n_available = n_available + 1;
                proof {
                    reveal_strlit(", ");
                    let na = pa.push(capability_name_spec(i as nat));
                    assert(na.drop_last() =~= pa);
                    if pa.len() == 0 {
                        assert(join_names(na) == na[0]);
                    }
                }
            } else {
                if n_unavailable > 0 {
                    unavailable.append(", ");
                }
                unavailable.append(name);
                n_unavailable = n_unavailable + 1;
                proof {
                    reveal_strlit(", ");
                    let nu = pu.push(capability_name_spec(i as nat));
                    assert(nu.drop_last() =~= pu);
                    if pu.len() == 0 {
                        assert(join_names(nu) == nu[0]);
                    }
                }
            }
            i = i + 1;
        }
        let mut s = String::from_str("KVM capabilities:");
        if n_available > 0 {
            s.append("\n  \u{2713} ");
            s.append(available.as_str());
        }
        if n_unavailable > 0 {
            s.append("\n  \u{2717} ");
            s.append(unavailable.as_str());
        }
        s
    }
}

/// Opens `/dev/kvm` through `Kvm::new`; whether it succeeds depends on the
/// host.
#[verifier::external_body]
fn kvm_open() -> core::result::Result<kvm_ioctls::Kvm, kvm_ioctls::Error> {
    kvm_ioctls::Kvm::new()
}

/// The `errno` carried by a KVM error (`Error::errno`).
#[verifier::external_body]
fn kvm_errno(e: &kvm_ioctls::Error) -> i32 {
    e.errno()
}

/// The message of a KVM error, as its `Display` renders it (the system's
/// description of the `errno`).
#[verifier::external_body]
fn kvm_error_text(e: &kvm_ioctls::Error) -> String {
    e.to_string()
}

/// `Kvm::get_api_version`: the API version the host kernel reports.
#[verifier::external_body]
fn kvm_api_version(kvm: &kvm_ioctls::Kvm) -> i32 {
    kvm.get_api_version()
}

/// `Kvm::create_vm`: a new VM, if the host allows one.
#[verifier::external_body]
fn kvm_create_vm(kvm: &kvm_ioctls::Kvm) -> core::result::Result<kvm_ioctls::VmFd, kvm_ioctls::Error> {
    kvm.create_vm()
}

/// `Kvm::check_extension`: whether the host offers `cap`.
#[verifier::external_body]
fn kvm_check_extension(kvm: &kvm_ioctls::Kvm, cap: kvm_ioctls::Cap) -> bool {
    kvm.check_extension(cap)
}

/// `VmFd::create_vcpu` for vCPU `id`.
#[verifier::external_body]
fn vm_create_vcpu(vm: &kvm_ioctls::VmFd, id: u64) -> core::result::Result<kvm_ioctls::VcpuFd, kvm_ioctls::Error> {
    vm.create_vcpu(id)
}

/// `VmFd::create_irq_chip`.
#[verifier::external_body]
fn vm_create_irq_chip(vm: &kvm_ioctls::VmFd) -> core::result::Result<(), kvm_ioctls::Error> {
    vm.create_irq_chip()
}

/// `VmFd::create_pit2` with an all-zero configuration.
#[verifier::external_body]
fn vm_create_pit2(vm: &kvm_ioctls::VmFd) -> core::result::Result<(), kvm_ioctls::Error> {
    vm.create_pit2(kvm_bindings::kvm_pit_config::default())
}

/// `VmFd::set_tss_address`.
#[verifier::external_body]
fn vm_set_tss_address(vm: &kvm_ioctls::VmFd, addr: usize) -> core::result::Result<(), kvm_ioctls::Error> {
    vm.set_tss_address(addr)
}

/// `VmFd::set_identity_map_address`.
#[verifier::external_body]
fn vm_set_identity_map_address(vm: &kvm_ioctls::VmFd, addr: u64) -> core::result::Result<(), kvm_ioctls::Error> {
    vm.set_identity_map_address(addr)
}

/// `VcpuFd::get_regs`; the register values are the guest's, so nothing is
/// claimed of them.
#[verifier::external_body]
fn vcpu_get_regs(vcpu: &kvm_ioctls::VcpuFd) -> core::result::Result<Registers, kvm_ioctls::Error> {
    match vcpu.get_regs() {
        Ok(r) => Ok(registers_from_kvm(&r)),
        Err(e) => Err(e),
    }
}

/// `VcpuFd::set_regs` with the values of `regs`.
#[verifier::external_body]
fn vcpu_set_regs(vcpu: &kvm_ioctls::VcpuFd, regs: &Registers) -> core::result::Result<(), kvm_ioctls::Error> {
    vcpu.set_regs(&registers_to_kvm(regs))
}

/// `VcpuFd::get_sregs`; the register values are the guest's, so nothing is
/// claimed of them.
#[verifier::external_body]
fn vcpu_get_sregs(vcpu: &kvm_ioctls::VcpuFd) -> core::result::Result<SystemRegisters, kvm_ioctls::Error> {
    match vcpu.get_sregs() {
        Ok(k) => Ok(system_registers_from_kvm(&k)),
        Err(e) => Err(e),
    }
}

/// `VcpuFd::set_sregs` with the values of `sregs`.
#[verifier::external_body]
fn vcpu_set_sregs(vcpu: &kvm_ioctls::VcpuFd, sregs: &SystemRegisters) -> core::result::Result<(), kvm_ioctls::Error> {
    vcpu.set_sregs(&system_registers_to_kvm(sregs))
}

/// `VcpuFd::run`, with its exit copied out of the shared run area.
///
/// For an MMIO read, `mmio_read(address, current)` is given the bytes the
/// run area holds for the guest and returns those it reads instead (of the
/// same length), which are placed there before the next run. Why the guest
/// exited depends on the guest, so nothing is claimed about the result.
#[verifier::external_body]
fn vcpu_run<F: Fn(u64, Vec<u8>) -> Vec<u8>>(vcpu: &mut kvm_ioctls::VcpuFd, mmio_read: &F) -> core::result::Result<VcpuExitInfo, kvm_ioctls::Error>
    requires
        forall|a: u64, cur: Vec<u8>| call_requires(*mmio_read, (a, cur)),
        forall|a: u64, cur: Vec<u8>, out: Vec<u8>| call_ensures(*mmio_read, (a, cur), out) ==> out@.len() == cur@.len(),
{
    Ok(match vcpu.run()? {
        X::Hlt => VcpuExitInfo::Hlt,
        X::IoOut(port, d) => VcpuExitInfo::IoOut { port, data: d.to_vec() },
        X::IoIn(port, _) => VcpuExitInfo::IoIn { port },
        X::MmioRead(addr, d) => { let v = mmio_read(addr, d.to_vec()); d.copy_from_slice(&v); VcpuExitInfo::MmioRead { addr, size: d.len() as u8 } },
        X::MmioWrite(addr, d) => VcpuExitInfo::MmioWrite { addr, size: d.len() as u8, data: d.to_vec() },
        X::Exception => VcpuExitInfo::Exception,
        X::Shutdown => VcpuExitInfo::Shutdown,
        X::FailEntry(r, _) => VcpuExitInfo::FailEntry { hardware_entry_failure_reason: r },
        X::InternalError => VcpuExitInfo::InternalError,
        _ => VcpuExitInfo::Unknown,
    })
}

/// The error reported when `/dev/kvm` cannot be opened: a missing device
/// means KVM is unavailable, a refused one means permission is denied, and
/// anything else is reported with the system's message.
pub fn kvm_open_error(errno: i32, detail: String) -> (e: LiteDroidError)
    ensures
        (errno == ENOENT || errno == ENODEV) ==> (e matches LiteDroidError::KvmUnavailable(m)
            && m@ == "/dev/kvm not found \u{2014} is the KVM kernel module loaded?"@),
        errno == EACCES ==> (e matches LiteDroidError::PermissionDenied(m) && m@
            == "Permission denied opening /dev/kvm \u{2014} try adding the user to the 'kvm' group."@),
        (errno != ENOENT && errno != ENODEV && errno != EACCES) ==> (e matches LiteDroidError::KvmUnavailable(m)
            && m@ == "failed to open /dev/kvm: "@ + detail@),
{
    if errno == ENOENT || errno == ENODEV {
        LiteDroidError::KvmUnavailable(
            String::from_str("/dev/kvm not found \u{2014} is the KVM kernel module loaded?"),
        )
    } else if errno == EACCES {
        LiteDroidError::PermissionDenied(
            String::from_str(
                "Permission denied opening /dev/kvm \u{2014} try adding the user to the 'kvm' group.",
            ),
        )
    } else {
        LiteDroidError::KvmUnavailable(String::from_str("failed to open /dev/kvm: ").concat(detail.as_str()))
    }
}

/// `prefix` followed by the message of `e`.
fn with_error_text(prefix: &str, e: &kvm_ioctls::Error) -> (m: String)
    ensures
        has_prefix(m@, prefix@),
{
    let m = String::from_str(prefix).concat(kvm_error_text(e).as_str());
    assert(m@.take(prefix@.len() as int) =~= prefix@);
    m
}

/// How many CPUID table sizes are tried.
pub const CPUID_ATTEMPTS: usize = 4;

/// The number of entries asked for at CPUID query `i`: 256, 128, 64, then 32.
pub open spec fn cpuid_attempt_size(i: nat) -> usize {
    if i == 0 {
        256
    } else if i == 1 {
        128
    } else if i == 2 {
        64
    } else {
        32
    }
}

/// The number of entries asked for at CPUID query `i`.
pub fn cpuid_attempt(i: usize) -> (n: usize)
    requires
        i < CPUID_ATTEMPTS,
    ensures
        n == cpuid_attempt_size(i as nat),
{
    if i == 0 {
        256
    } else if i == 1 {
        128
    } else if i == 2 {
        64
    } else {
        32
    }
}

/// What follows a CPUID query.
pub enum CpuidStep {
    /// The host accepted the table: return it.
    Found(CpuidTable),
    /// The host refused it: ask again for this many entries.
    Retry(usize),
    /// Every size was refused: report this error.
    GiveUp(LiteDroidError),
}

/// Decide what follows CPUID query `attempt`, given its outcome: a table is
/// returned at once; a refusal leads to the next, smaller size, and after
/// the last size to a `KvmIoctl` error carrying the host's last refusal.
pub fn cpuid_step(attempt: usize, outcome: core::result::Result<CpuidTable, kvm_ioctls::Error>) -> (s: CpuidStep)
    requires
        attempt < CPUID_ATTEMPTS,
    ensures
        outcome matches Ok(t) ==> s == CpuidStep::Found(t),
        outcome is Err && attempt + 1 < CPUID_ATTEMPTS ==> s == CpuidStep::Retry(
            cpuid_attempt_size((attempt + 1) as nat),
        ),
        outcome is Err && attempt + 1 == CPUID_ATTEMPTS ==> (s matches CpuidStep::GiveUp(e) && e matches LiteDroidError::KvmIoctl(m)
            && has_prefix(m@, "KVM_GET_SUPPORTED_CPUID failed after retries: "@)),
{
    match outcome {
        Ok(table) => CpuidStep::Found(table),
        Err(error) => {
            if attempt + 1 < CPUID_ATTEMPTS {
                CpuidStep::Retry(cpuid_attempt(attempt + 1))
            } else {
                CpuidStep::GiveUp(
                    LiteDroidError::KvmIoctl(with_error_text("KVM_GET_SUPPORTED_CPUID failed after retries: ", &error)),
                )
            }
        },
    }
}

/// Thin wrapper around `/dev/kvm`.
pub struct Hypervisor {
    kvm: kvm_ioctls::Kvm,
    capabilities: KvmCapabilities,
}

impl Hypervisor {
    /// Open `/dev/kvm` and probe host capabilities.
    ///
    /// When the device cannot be opened, the error is the one
    /// `kvm_open_error` gives for the failure.
    pub fn new() -> (r: Result<Self>)
        ensures
            r matches Ok(h) ==> h.capability_table().flags().len() == CAPABILITY_COUNT,
            r matches Err(e) ==> (e is KvmUnavailable || e is PermissionDenied),
    {
        match kvm_open() {
            Ok(kvm) => {
                let capabilities = KvmCapabilities::new(&kvm);
                Ok(Hypervisor { kvm, capabilities })
            },
            Err(e) => {
                let errno = kvm_errno(&e);
                Err(kvm_open_error(errno, kvm_error_text(&e)))
            },
        }
    }

    /// Create a new KVM virtual machine.
    pub fn create_vm(&self) -> (r: Result<Vm>)
        ensures
            r matches Err(e) ==> (e matches LiteDroidError::VmCreationFailed(m) && has_prefix(
                m@,
                "kvm create_vm failed: "@,
            )),
    {
        match kvm_create_vm(&self.kvm) {
            Ok(vm) => Ok(Vm { vm }),
            Err(e) => Err(LiteDroidError::VmCreationFailed(with_error_text("kvm create_vm failed: ", &e))),
        }
    }

    /// Return the KVM API version reported by the host.
    pub fn get_api_version(&self) -> i32 {
        kvm_api_version(&self.kvm)
    }

    /// Query host-supported CPUID leaves.
    ///
    /// Some KVM implementations, notably WSL2's, reject a large table even
    /// when the host supports a smaller CPUID set, so tables of 256, 128, 64
    /// and 32 entries are tried in turn (`cpuid_attempt_size`); what follows
    /// each query is decided by `cpuid_step`, so the first table the host
    /// accepts is returned.
    pub fn get_supported_cpuid(&self) -> (r: Result<CpuidTable>)
        ensures
            r matches Err(e) ==> (e matches LiteDroidError::KvmIoctl(m) && has_prefix(
                m@,
                "KVM_GET_SUPPORTED_CPUID failed after retries: "@,
            )),
    {
        let mut attempt: usize = 0;
        let mut size: usize = cpuid_attempt(0);
        loop
            invariant
                attempt < CPUID_ATTEMPTS,
                size == cpuid_attempt_size(attempt as nat),
            decreases CPUID_ATTEMPTS - attempt,
        {
            match cpuid_step(attempt, kvm_supported_cpuid(&self.kvm, size)) {
                CpuidStep::Found(table) => return Ok(table),
                CpuidStep::Retry(next) => {
                    attempt = attempt + 1;
                    size = next;
                },
                CpuidStep::GiveUp(e) => return Err(e),
            }
        }
    }

    /// The capability table probed when the hypervisor was opened.
    pub closed spec fn capability_table(&self) -> KvmCapabilities {
        self.capabilities
    }

    /// Immutable reference to the capability table.
    pub fn capabilities(&self) -> (c: &KvmCapabilities)
        ensures
            *c == self.capability_table(),
    {
        &self.capabilities
    }

    /// Check a single KVM capability.
    pub fn check_extension(&self, cap: kvm_ioctls::Cap) -> bool {
        kvm_check_extension(&self.kvm, cap)
    }
}

/// Wrapper around a KVM VM file-descriptor.
pub struct Vm {
    vm: kvm_ioctls::VmFd,
}

impl Vm {
    /// The KVM file descriptor this VM wraps.
    pub closed spec fn vm_fd(&self) -> kvm_ioctls::VmFd {
        self.vm
    }

    /// The KVM file descriptor of this VM.
    pub fn fd(&self) -> (f: &kvm_ioctls::VmFd)
        ensures
            *f == self.vm_fd(),
    {
        &self.vm
    }

    /// Create a new virtual CPU for this VM.
    pub fn create_vcpu(&self, index: u32) -> (r: Result<Vcpu>)
        ensures
            r matches Ok(v) ==> v.index() == index,
            r matches Err(e) ==> (e matches LiteDroidError::VcpuCreationFailed { cpu_index, reason }
                && cpu_index == index && has_prefix(
                reason@,
                "kvm create_vcpu("@ + decimal(index as nat) + ") failed: "@,
            )),
    {
        match vm_create_vcpu(&self.vm, index as u64) {
            Ok(vcpu) => Ok(Vcpu { vcpu, index }),
            Err(e) => {
                let prefix = String::from_str("kvm create_vcpu(").concat(u64_to_decimal(index as u64).as_str()).concat(
                    ") failed: ",
                );
                let reason = with_error_text(prefix.as_str(), &e);
                Err(LiteDroidError::VcpuCreationFailed { cpu_index: index, reason })
            },
        }
    }

    /// Create the standard x86 PIC/IOAPIC interrupt controller.
    pub fn create_irq_chip(&self) -> (r: Result<()>)
        ensures
            r matches Err(e) ==> (e matches LiteDroidError::KvmIoctl(m) && has_prefix(
                m@,
                "KVM_CREATE_IRQCHIP failed: "@,
            )),
    {
        match vm_create_irq_chip(&self.vm) {
            Ok(()) => Ok(()),
            Err(e) => Err(LiteDroidError::KvmIoctl(with_error_text("KVM_CREATE_IRQCHIP failed: ", &e))),
        }
    }

    /// Create the standard x86 programmable interval timer.
    pub fn create_pit(&self) -> (r: Result<()>)
        ensures
            r matches Err(e) ==> (e matches LiteDroidError::KvmIoctl(m) && has_prefix(
                m@,
                "KVM_CREATE_PIT2 failed: "@,
            )),
    {
        match vm_create_pit2(&self.vm) {
            Ok(()) => Ok(()),
            Err(e) => Err(LiteDroidError::KvmIoctl(with_error_text("KVM_CREATE_PIT2 failed: ", &e))),
        }
    }

    /// Set the Task-State Segment address (x86 only).
    pub fn set_tss_addr(&self, addr: usize) -> (r: Result<()>)
        ensures
            r matches Err(e) ==> (e matches LiteDroidError::KvmIoctl(m) && has_prefix(
                m@,
                "KVM_SET_TSS_ADDR("@ + seq!['0', 'x'] + hex(addr as nat) + ") failed: "@,
            )),
    {
        match vm_set_tss_address(&self.vm, addr) {
            Ok(()) => Ok(()),
            Err(e) => {
                let prefix = String::from_str("KVM_SET_TSS_ADDR(").concat(u64_to_hex(addr as u64).as_str()).concat(
                    ") failed: ",
                );
                assert(prefix@ =~= "KVM_SET_TSS_ADDR("@ + seq!['0', 'x'] + hex(addr as nat) + ") failed: "@);
                Err(LiteDroidError::KvmIoctl(with_error_text(prefix.as_str(), &e)))
            },
        }
    }

    /// Set the identity-map page address (x86 only).
    pub fn set_identity_map_addr(&self, addr: u64) -> (r: Result<()>)
        ensures
            r matches Err(e) ==> (e matches LiteDroidError::KvmIoctl(m) && has_prefix(
                m@,
                "KVM_SET_IDENTITY_MAP_ADDR("@ + seq!['0', 'x'] + hex(addr as nat) + ") failed: "@,
            )),
    {
        match vm_set_identity_map_address(&self.vm, addr) {
            Ok(()) => Ok(()),
            Err(e) => {
                let prefix = String::from_str("KVM_SET_IDENTITY_MAP_ADDR(").concat(u64_to_hex(addr).as_str()).concat(
                    ") failed: ",
                );
                assert(prefix@ =~= "KVM_SET_IDENTITY_MAP_ADDR("@ + seq!['0', 'x'] + hex(addr as nat) + ") failed: "@);
                Err(LiteDroidError::KvmIoctl(with_error_text(prefix.as_str(), &e)))
            },
        }
    }
}

/// Owned representation of a KVM vCPU exit reason, safe to store and inspect
/// outside the immediate `Vcpu::run()` call.
#[derive(Debug, Clone)]
pub enum VcpuExitInfo {
    Hlt,
    IoOut { port: u16, data: Vec<u8> },
    IoIn { port: u16 },
    MmioRead { addr: u64, size: u8 },
    MmioWrite { addr: u64, size: u8, data: Vec<u8> },
    Exception,
    Shutdown,
    FailEntry { hardware_entry_failure_reason: u64 },
    InternalError,
    Unknown,
}

/// Wrapper around a single KVM vCPU file-descriptor.
pub struct Vcpu {
    vcpu: kvm_ioctls::VcpuFd,
    index: u32,
}

/// The error of a failed vCPU operation: the vCPU and the reason.
pub open spec fn vcpu_failure(e: LiteDroidError, index: u32, prefix: Seq<char>) -> bool {
    e matches LiteDroidError::VcpuRunFailed { cpu_index, reason } && cpu_index == index && has_prefix(
        reason@,
        prefix,
    )
}

impl Vcpu {
    /// The index this vCPU was created with.
    pub closed spec fn index_spec(&self) -> u32 {
        self.index
    }

    /// Index of this vCPU (0-based).
    #[verifier::when_used_as_spec(index_spec)]
    pub fn index(&self) -> (i: u32)
        ensures
            i == self.index_spec(),
    {
        self.index
    }

    /// Read general-purpose registers.
    pub fn get_regs(&self) -> (r: Result<Registers>)
        ensures
            r matches Err(e) ==> vcpu_failure(e, self.index(), "GET_REGS failed: "@),
    {
        match vcpu_get_regs(&self.vcpu) {
            Ok(regs) => Ok(regs),
            Err(e) => Err(LiteDroidError::VcpuRunFailed { cpu_index: self.index, reason: with_error_text("GET_REGS failed: ", &e) }),
        }
    }

    /// Write general-purpose registers.
    pub fn set_regs(&self, regs: &Registers) -> (r: Result<()>)
        ensures
            r matches Err(e) ==> vcpu_failure(e, self.index(), "SET_REGS failed: "@),
    {
        match vcpu_set_regs(&self.vcpu, regs) {
            Ok(()) => Ok(()),
            Err(e) => Err(LiteDroidError::VcpuRunFailed { cpu_index: self.index, reason: with_error_text("SET_REGS failed: ", &e) }),
        }
    }

    /// Read special / system registers.
    pub fn get_sregs(&self) -> (r: Result<SystemRegisters>)
        ensures
            r matches Err(e) ==> vcpu_failure(e, self.index(), "GET_SREGS failed: "@),
    {
        match vcpu_get_sregs(&self.vcpu) {
            Ok(sregs) => Ok(sregs),
            Err(e) => Err(LiteDroidError::VcpuRunFailed { cpu_index: self.index, reason: with_error_text("GET_SREGS failed: ", &e) }),
        }
    }

    /// Write special / system registers.
    pub fn set_sregs(&self, sregs: &SystemRegisters) -> (r: Result<()>)
        ensures
            r matches Err(e) ==> vcpu_failure(e, self.index(), "SET_SREGS failed: "@),
    {
        match vcpu_set_sregs(&self.vcpu, sregs) {
            Ok(()) => Ok(()),
            Err(e) => Err(LiteDroidError::VcpuRunFailed { cpu_index: self.index, reason: with_error_text("SET_SREGS failed: ", &e) }),
        }
    }

    /// Program the CPUID leaves for this vCPU.
    pub fn set_cpuid(&self, cpuid: &CpuidTable) -> (r: Result<()>)
        ensures
            r matches Err(e) ==> vcpu_failure(e, self.index(), "SET_CPUID failed: "@),
    {
        match vcpu_set_cpuid2(&self.vcpu, cpuid) {
            Ok(()) => Ok(()),
            Err(e) => Err(LiteDroidError::VcpuRunFailed { cpu_index: self.index, reason: with_error_text("SET_CPUID failed: ", &e) }),
        }
    }

    /// Run the vCPU until it exits. Returns an owned summary of the exit
    /// reason; an MMIO read is left with what the run area held.
    pub fn run(&mut self) -> (r: Result<VcpuExitInfo>)
        ensures
            final(self).index() == old(self).index(),
            r matches Err(e) ==> vcpu_failure(e, old(self).index(), "KVM_RUN failed: "@),
    {
        let keep = |_addr: u64, current: Vec<u8>| -> (v: Vec<u8>)
            ensures
                v@ == current@,
            { current };
        self.run_with_mmio(keep)
    }

    /// Run the vCPU and complete MMIO reads before returning to the caller:
    /// `mmio_read(address, current)` gives the bytes the guest reads in
    /// place of those the run area holds.
    pub fn run_with_mmio<F: Fn(u64, Vec<u8>) -> Vec<u8>>(&mut self, mmio_read: F) -> (r: Result<VcpuExitInfo>)
        requires
            forall|a: u64, cur: Vec<u8>| call_requires(mmio_read, (a, cur)),
            forall|a: u64, cur: Vec<u8>, out: Vec<u8>| call_ensures(mmio_read, (a, cur), out) ==> out@.len() == cur@.len(),
        ensures
            final(self).index() == old(self).index(),
            r matches Err(e) ==> vcpu_failure(e, old(self).index(), "KVM_RUN failed: "@),
    {
        match vcpu_run(&mut self.vcpu, &mmio_read) {
            Ok(exit) => Ok(exit),
            Err(e) => Err(LiteDroidError::VcpuRunFailed { cpu_index: self.index, reason: with_error_text("KVM_RUN failed: ", &e) }),
        }
    }
}

} // verus!
