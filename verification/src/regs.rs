//! The vCPU register file as plain values: the library decides what goes in
//! the registers, and these types carry it to and from the hypervisor.
use vstd::prelude::*;

verus! {

#[verifier::external_type_specification]
#[verifier::external_body]
pub struct ExKvmRegs(kvm_bindings::kvm_regs);

#[verifier::external_type_specification]
#[verifier::external_body]
pub struct ExKvmSregs(kvm_bindings::kvm_sregs);

#[verifier::external_type_specification]
#[verifier::external_body]
pub struct ExKvmSegment(kvm_bindings::kvm_segment);

#[verifier::external_type_specification]
#[verifier::external_body]
pub struct ExKvmDtable(kvm_bindings::kvm_dtable);

/// The general-purpose registers of an x86-64 vCPU.
#[derive(Debug, Clone, Copy, PartialEq, Eq, Structural)]
pub struct Registers {
    pub rax: u64,
    pub rbx: u64,
    pub rcx: u64,
    pub rdx: u64,
    pub rsi: u64,
    pub rdi: u64,
    pub rsp: u64,
    pub rbp: u64,
    pub r8: u64,
    pub r9: u64,
    pub r10: u64,
    pub r11: u64,
    pub r12: u64,
    pub r13: u64,
    pub r14: u64,
    pub r15: u64,
    pub rip: u64,
    pub rflags: u64,
}

/// A segment register as the hypervisor describes it.
#[derive(Debug, Clone, Copy, PartialEq, Eq, Structural)]
pub struct Segment {
    pub base: u64,
    pub limit: u32,
    pub selector: u16,
    pub type_: u8,
    pub present: u8,
    pub dpl: u8,
    pub db: u8,
    pub s: u8,
    pub l: u8,
    pub g: u8,
    pub avl: u8,
    pub unusable: u8,
    pub padding: u8,
}

/// A descriptor-table register (GDTR or IDTR).
#[derive(Debug, Clone, Copy)]
pub struct DescriptorTable {
    pub base: u64,
    pub limit: u16,
    pub padding: [u16; 3],
}

/// The special registers of an x86-64 vCPU.
#[derive(Debug, Clone, Copy)]
pub struct SystemRegisters {
    pub cs: Segment,
    pub ds: Segment,
    pub es: Segment,
    pub fs: Segment,
    pub gs: Segment,
    pub ss: Segment,
    pub tr: Segment,
    pub ldt: Segment,
    pub gdt: DescriptorTable,
    pub idt: DescriptorTable,
    pub cr0: u64,
    pub cr2: u64,
    pub cr3: u64,
    pub cr4: u64,
    pub cr8: u64,
    pub efer: u64,
    pub apic_base: u64,
    pub interrupt_bitmap: [u64; 4],
}

/// Copies each field of a `kvm_bindings::kvm_regs` into `Registers`.
#[verifier::external_body]
pub(crate) fn registers_from_kvm(r: &kvm_bindings::kvm_regs) -> Registers {
    Registers {
        rax: r.rax, rbx: r.rbx, rcx: r.rcx, rdx: r.rdx, rsi: r.rsi, rdi: r.rdi, rsp: r.rsp, rbp: r.rbp,
        r8: r.r8, r9: r.r9, r10: r.r10, r11: r.r11, r12: r.r12, r13: r.r13, r14: r.r14, r15: r.r15,
        rip: r.rip, rflags: r.rflags,
    }
}

/// Copies each field of `Registers` into a `kvm_bindings::kvm_regs`.
#[verifier::external_body]
pub(crate) fn registers_to_kvm(r: &Registers) -> kvm_bindings::kvm_regs {
    kvm_bindings::kvm_regs {
        rax: r.rax, rbx: r.rbx, rcx: r.rcx, rdx: r.rdx, rsi: r.rsi, rdi: r.rdi, rsp: r.rsp, rbp: r.rbp,
        r8: r.r8, r9: r.r9, r10: r.r10, r11: r.r11, r12: r.r12, r13: r.r13, r14: r.r14, r15: r.r15,
        rip: r.rip, rflags: r.rflags,
    }
}

/// Copies each field of a `kvm_bindings::kvm_segment` into `Segment`.
#[verifier::external_body]
fn segment_from_kvm(s: &kvm_bindings::kvm_segment) -> Segment {
    Segment {
        base: s.base, limit: s.limit, selector: s.selector, type_: s.type_, present: s.present, dpl: s.dpl,
        db: s.db, s: s.s, l: s.l, g: s.g, avl: s.avl, unusable: s.unusable, padding: s.padding,
    }
}

/// Copies each field of `Segment` into a `kvm_bindings::kvm_segment`.
#[verifier::external_body]
fn segment_to_kvm(s: &Segment) -> kvm_bindings::kvm_segment {
    kvm_bindings::kvm_segment {
        base: s.base, limit: s.limit, selector: s.selector, type_: s.type_, present: s.present, dpl: s.dpl,
        db: s.db, s: s.s, l: s.l, g: s.g, avl: s.avl, unusable: s.unusable, padding: s.padding,
    }
}

/// Copies each field of a `kvm_bindings::kvm_dtable` into `DescriptorTable`.
#[verifier::external_body]
fn dtable_from_kvm(d: &kvm_bindings::kvm_dtable) -> DescriptorTable {
    DescriptorTable { base: d.base, limit: d.limit, padding: d.padding }
}

/// Copies each field of `DescriptorTable` into a `kvm_bindings::kvm_dtable`.
#[verifier::external_body]
fn dtable_to_kvm(d: &DescriptorTable) -> kvm_bindings::kvm_dtable {
    kvm_bindings::kvm_dtable { base: d.base, limit: d.limit, padding: d.padding }
}

/// Copies each field of a `kvm_bindings::kvm_sregs` into `SystemRegisters`.
#[verifier::external_body]
pub(crate) fn system_registers_from_kvm(k: &kvm_bindings::kvm_sregs) -> SystemRegisters {
    SystemRegisters {
        cs: segment_from_kvm(&k.cs), ds: segment_from_kvm(&k.ds), es: segment_from_kvm(&k.es),
        fs: segment_from_kvm(&k.fs), gs: segment_from_kvm(&k.gs), ss: segment_from_kvm(&k.ss),
        tr: segment_from_kvm(&k.tr), ldt: segment_from_kvm(&k.ldt),
        gdt: dtable_from_kvm(&k.gdt), idt: dtable_from_kvm(&k.idt),
        cr0: k.cr0, cr2: k.cr2, cr3: k.cr3, cr4: k.cr4, cr8: k.cr8, efer: k.efer, apic_base: k.apic_base,
        interrupt_bitmap: k.interrupt_bitmap,
    }
}

/// Copies each field of `SystemRegisters` into a `kvm_bindings::kvm_sregs`.
#[verifier::external_body]
pub(crate) fn system_registers_to_kvm(s: &SystemRegisters) -> kvm_bindings::kvm_sregs {
    kvm_bindings::kvm_sregs {
        cs: segment_to_kvm(&s.cs), ds: segment_to_kvm(&s.ds), es: segment_to_kvm(&s.es),
        fs: segment_to_kvm(&s.fs), gs: segment_to_kvm(&s.gs), ss: segment_to_kvm(&s.ss),
        tr: segment_to_kvm(&s.tr), ldt: segment_to_kvm(&s.ldt),
        gdt: dtable_to_kvm(&s.gdt), idt: dtable_to_kvm(&s.idt),
        cr0: s.cr0, cr2: s.cr2, cr3: s.cr3, cr4: s.cr4, cr8: s.cr8, efer: s.efer, apic_base: s.apic_base,
        interrupt_bitmap: s.interrupt_bitmap,
    }
}

} // verus!
