//! CPUID tables and the filtering tailored for Android guest workloads.
use vstd::prelude::*;

use crate::wire::{get_le32, le32, lemma_le32_bytes, read_le32};

verus! {

/// One CPUID leaf as KVM describes it.
#[derive(Debug, Clone, Copy, PartialEq, Eq, Structural)]
pub struct CpuidEntry {
    pub function: u32,
    pub index: u32,
    pub flags: u32,
    pub eax: u32,
    pub ebx: u32,
    pub ecx: u32,
    pub edx: u32,
}

/// A table of CPUID leaves, as exchanged with KVM (`kvm_bindings::CpuId`).
#[verifier::external_body]
pub struct CpuidTable {
    inner: kvm_bindings::CpuId,
}

/// The leaves held by `t`, in order.
pub uninterp spec fn cpuid_entries(t: CpuidTable) -> Seq<CpuidEntry>;

/// `Kvm::get_supported_cpuid` with room for `n` entries. Which leaves the
/// host reports depends on the machine, so nothing is claimed of the table.
#[verifier::external_body]
pub(crate) fn kvm_supported_cpuid(kvm: &kvm_ioctls::Kvm, n: usize) -> core::result::Result<CpuidTable, kvm_ioctls::Error> {
    kvm.get_supported_cpuid(n).map(|inner| CpuidTable { inner })
}

/// `VcpuFd::set_cpuid2` with the leaves of `t`; whether the host accepts them
/// is its own decision, so nothing is claimed of the result.
#[verifier::external_body]
pub(crate) fn vcpu_set_cpuid2(vcpu: &kvm_ioctls::VcpuFd, t: &CpuidTable) -> core::result::Result<(), kvm_ioctls::Error> {
    vcpu.set_cpuid2(&t.inner)
}

/// Number of leaves: the length of `FamStructWrapper::as_slice`.
#[verifier::external_body]
fn cpuid_len(t: &CpuidTable) -> (n: usize)
    ensures
        n == cpuid_entries(*t).len(),
{
    t.inner.as_slice().len()
}

/// Leaf `i`, read from `FamStructWrapper::as_slice`.
#[verifier::external_body]
fn cpuid_get(t: &CpuidTable, i: usize) -> (e: CpuidEntry)
    requires
        i < cpuid_entries(*t).len(),
    ensures
        e == cpuid_entries(*t)[i as int],
{
    let x = &t.inner.as_slice()[i];
    CpuidEntry { function: x.function, index: x.index, flags: x.flags, eax: x.eax, ebx: x.ebx, ecx: x.ecx, edx: x.edx }
}

/// Replaces the four registers of leaf `i` through
/// `FamStructWrapper::as_mut_slice`; everything else stays.
#[verifier::external_body]
fn cpuid_set_registers(t: &mut CpuidTable, i: usize, eax: u32, ebx: u32, ecx: u32, edx: u32)
    requires
        i < cpuid_entries(*old(t)).len(),
    ensures
        cpuid_entries(*final(t)) == cpuid_entries(*old(t)).update(i as int, CpuidEntry {
            eax,
            ebx,
            ecx,
            edx,
            ..cpuid_entries(*old(t))[i as int]
        }),
{
    let x = &mut t.inner.as_mut_slice()[i];
    x.eax = eax;
    x.ebx = ebx;
    x.ecx = ecx;
    x.edx = edx;
}

/// KVM CPUID leaf 0x40000000 — hypervisor vendor signature "KVMKVMKVM".
pub const KVM_CPUID_SIGNATURE: [u8; 12] = [0x4b, 0x56, 0x4d, 0x4b, 0x56, 0x4d, 0x4b, 0x56, 0x4d, 0, 0, 0];

/// Leaf `e` as shown to an Android guest: leaf 0x1 additionally advertises
/// the hypervisor (ECX bit 31), x2APIC (ECX bit 21) and the APIC (EDX bit 9);
/// leaf 0x40000000 names KVM and its highest hypervisor leaf; leaf 0x40000001
/// advertises no hypervisor features; every other leaf is unchanged.
pub open spec fn android_entry(e: CpuidEntry) -> CpuidEntry {
    if e.function == 0x1 {
        CpuidEntry { ecx: e.ecx | 0x80000000u32 | 0x00200000u32, edx: e.edx | 0x200u32, ..e }
    } else if e.function == 0x40000000 {
        CpuidEntry {
            eax: 0x40000001,
            ebx: read_le32(KVM_CPUID_SIGNATURE@, 0),
            ecx: read_le32(KVM_CPUID_SIGNATURE@, 4),
            edx: read_le32(KVM_CPUID_SIGNATURE@, 8),
            ..e
        }
    } else if e.function == 0x40000001 {
        CpuidEntry { eax: 0, ebx: 0, ecx: 0, edx: 0, ..e }
    } else {
        e
    }
}

/// Filtering a leaf that was already filtered changes nothing.
pub proof fn lemma_android_entry_idempotent(e: CpuidEntry)
    ensures
        android_entry(android_entry(e)) == android_entry(e),
{
    let ecx = e.ecx;
    let edx = e.edx;
    assert(((ecx | 0x80000000u32 | 0x00200000u32) | 0x80000000u32 | 0x00200000u32) == (ecx | 0x80000000u32
        | 0x00200000u32)) by (bit_vector);
    assert(((edx | 0x200u32) | 0x200u32) == (edx | 0x200u32)) by (bit_vector);
}

/// What the filter shows the guest: leaf 0x40000000 names KVM, its EBX,
/// ECX and EDX read little-endian spelling "KVMKVMKVM" followed by three
/// zero bytes, with 0x40000001 as the highest hypervisor leaf; leaf
/// 0x40000001 advertises no hypervisor features; leaf 0x1 keeps every bit
/// it had and adds the hypervisor (ECX bit 31), x2APIC (ECX bit 21) and
/// APIC (EDX bit 9) bits; the leaf number and index never change.
pub proof fn lemma_android_leaves(e: CpuidEntry)
    ensures
        android_entry(e).function == e.function,
        android_entry(e).index == e.index,
        e.function == 0x40000000 ==> {
            let r = android_entry(e);
            &&& r.eax == 0x40000001
            &&& le32(r.ebx) + le32(r.ecx) + le32(r.edx) == seq![
                0x4bu8,
                0x56u8,
                0x4du8,
                0x4bu8,
                0x56u8,
                0x4du8,
                0x4bu8,
                0x56u8,
                0x4du8,
                0u8,
                0u8,
                0u8,
            ]
        },
        e.function == 0x40000001 ==> {
            let r = android_entry(e);
            r.eax == 0 && r.ebx == 0 && r.ecx == 0 && r.edx == 0
        },
        e.function == 0x1 ==> {
            let r = android_entry(e);
            &&& r.ecx & e.ecx == e.ecx
            &&& r.edx & e.edx == e.edx
            &&& (r.ecx >> 31u32) & 1 == 1
            &&& (r.ecx >> 21u32) & 1 == 1
            &&& (r.edx >> 9u32) & 1 == 1
            &&& r.eax == e.eax
            &&& r.ebx == e.ebx
        },
        e.function != 0x1 && e.function != 0x40000000 && e.function != 0x40000001 ==> android_entry(e) == e,
{
    let sig = KVM_CPUID_SIGNATURE@;
    assert(sig =~= seq![0x4bu8, 0x56u8, 0x4du8, 0x4bu8, 0x56u8, 0x4du8, 0x4bu8, 0x56u8, 0x4du8, 0u8, 0u8, 0u8]);
    lemma_le32_bytes(sig[0], sig[1], sig[2], sig[3]);
    lemma_le32_bytes(sig[4], sig[5], sig[6], sig[7]);
    lemma_le32_bytes(sig[8], sig[9], sig[10], sig[11]);
    if e.function == 0x40000000 {
        let r = android_entry(e);
        assert(le32(r.ebx) + le32(r.ecx) + le32(r.edx) =~= sig);
    }
    let ecx = e.ecx;
    let edx = e.edx;
    assert(((ecx | 0x80000000u32 | 0x00200000u32) & ecx) == ecx) by (bit_vector);
    assert(((edx | 0x200u32) & edx) == edx) by (bit_vector);
    assert(((ecx | 0x80000000u32 | 0x00200000u32) >> 31u32) & 1 == 1) by (bit_vector);
    assert(((ecx | 0x80000000u32 | 0x00200000u32) >> 21u32) & 1 == 1) by (bit_vector);
    assert(((edx | 0x200u32) >> 9u32) & 1 == 1) by (bit_vector);
}

/// Modify `cpuid` in-place so that the exposed feature set is appropriate for
/// running an Android guest on KVM (see `android_entry`).
pub fn filter_for_android(cpuid: &mut CpuidTable)
    ensures
        cpuid_entries(*final(cpuid)) == cpuid_entries(*old(cpuid)).map_values(|e: CpuidEntry| android_entry(e)),
{
    let ghost before = cpuid_entries(*cpuid);
    let n = cpuid_len(cpuid);
    let mut i: usize = 0;
    while i < n
        invariant
            n == before.len(),
            i <= n,
            cpuid_entries(*cpuid).len() == n,
            forall|k: int| 0 <= k < i ==> cpuid_entries(*cpuid)[k] == android_entry(before[k]),
            forall|k: int| i <= k < n ==> cpuid_entries(*cpuid)[k] == before[k],
        decreases n - i,
    {
        let e = cpuid_get(cpuid, i);
        if e.function == 0x1 {
            cpuid_set_registers(cpuid, i, e.eax, e.ebx, e.ecx | (1u32 << 31u32) | (1u32 << 21u32), e.edx | (1u32 << 9u32));
        } else if e.function == 0x40000000 {
            let sig = KVM_CPUID_SIGNATURE;
            cpuid_set_registers(
                cpuid,
                i,
                0x40000001,
                get_le32(sig.as_slice(), 0),
                get_le32(sig.as_slice(), 4),
                get_le32(sig.as_slice(), 8),
            );
        } else if e.function == 0x40000001 {
            cpuid_set_registers(cpuid, i, 0, 0, 0, 0);
        }
        proof {
            assert((1u32 << 31u32) == 0x80000000u32) by (bit_vector);
            assert((1u32 << 21u32) == 0x00200000u32) by (bit_vector);
            assert((1u32 << 9u32) == 0x200u32) by (bit_vector);
        }
        i = i + 1;
    }
    assert(cpuid_entries(*cpuid) =~= before.map_values(|e: CpuidEntry| android_entry(e)));
}

/// The first leaf 0x1 of `entries` from position `i` on, if any.
pub open spec fn first_leaf1(entries: Seq<CpuidEntry>, i: nat) -> Option<CpuidEntry>
    decreases entries.len() - i,
{
    if i >= entries.len() {
        None
    } else if entries[i as int].function == 0x1 {
        Some(entries[i as int])
    } else {
        first_leaf1(entries, i + 1)
    }
}

/// Determine whether the host CPU supports the **AVX** extension set by
/// inspecting CPUID leaf 1 / ECX bits 27-28.
pub fn supports_avx(cpuid: &CpuidTable) -> (r: bool)
    ensures
        r == (first_leaf1(cpuid_entries(*cpuid), 0) matches Some(e) && (e.ecx >> 27u32) & 1 == 1
            && (e.ecx >> 27u32) & 3 == 3),
{
    let n = cpuid_len(cpuid);
    let mut i: usize = 0;
    while i < n
        invariant
            n == cpuid_entries(*cpuid).len(),
            i <= n,
            first_leaf1(cpuid_entries(*cpuid), 0) == first_leaf1(cpuid_entries(*cpuid), i as nat),
        decreases n - i,
    {
        let e = cpuid_get(cpuid, i);
        if e.function == 0x1 {
            let avx = (e.ecx >> 27u32) & 1 == 1;
            let osxsave = (e.ecx >> 27u32) & 3 == 3;
            return avx && osxsave;
        }
        i = i + 1;
    }
    false
}

/// Determine whether the host CPU supports **SSE4.2** (CPUID leaf 1 / ECX
/// bit 20).
pub fn supports_sse42(cpuid: &CpuidTable) -> (r: bool)
    ensures
        r == (first_leaf1(cpuid_entries(*cpuid), 0) matches Some(e) && (e.ecx >> 20u32) & 1 == 1),
{
    let n = cpuid_len(cpuid);
    let mut i: usize = 0;
    while i < n
        invariant
            n == cpuid_entries(*cpuid).len(),
            i <= n,
            first_leaf1(cpuid_entries(*cpuid), 0) == first_leaf1(cpuid_entries(*cpuid), i as nat),
        decreases n - i,
    {
        let e = cpuid_get(cpuid, i);
        if e.function == 0x1 {
            return (e.ecx >> 20u32) & 1 == 1;
        }
        i = i + 1;
    }
    false
}

} // verus!
