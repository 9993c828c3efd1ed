//! Decisions of the command-line and graphical front ends: the doctor's
//! verdict, device options, and which device profile the panel works on.
use vstd::prelude::*;
use vstd::string::StrSliceExecFns;

use crate::device::DeviceConfig;
use crate::diagnostics::{DiagnosticResult, DiagnosticStatus};
use crate::scan::{chars_of, parse_u64, parse_u64_spec};
use crate::text::{decimal, str_eq, u64_to_decimal};

verus! {

/// Number of results of `rs` with status `s`.
pub open spec fn count_status(rs: Seq<DiagnosticResult>, s: DiagnosticStatus) -> nat
    decreases rs.len(),
{
    if rs.len() == 0 {
        0
    } else {
        count_status(rs.drop_last(), s) + (if rs.last().status == s { 1nat } else { 0nat })
    }
}

/// The closing line of `litedroid doctor` and its exit code: any error
/// fails the run; warnings alone do not.
pub open spec fn doctor_verdict(errors: nat, warnings: nat) -> (Seq<char>, i32) {
    if errors > 0 {
        ("Result: "@ + decimal(errors) + " error(s), "@ + decimal(warnings) + " warning(s)"@, 1)
    } else if warnings > 0 {
        ("Result: "@ + decimal(warnings) + " warning(s)"@, 0)
    } else {
        ("Result: all checks passed"@, 0)
    }
}

/// The closing line and exit code of `litedroid doctor` for `results` (see
/// `doctor_verdict`).
pub fn doctor_summary(results: &Vec<DiagnosticResult>) -> (r: (String, i32))
    requires
        results@.len() <= u32::MAX,
    ensures
        r.0@ == doctor_verdict(
            count_status(results@, DiagnosticStatus::Error),
            count_status(results@, DiagnosticStatus::Warn),
        ).0,
        r.1 == doctor_verdict(
            count_status(results@, DiagnosticStatus::Error),
            count_status(results@, DiagnosticStatus::Warn),
        ).1,
{
    let mut errs: u32 = 0;
    let mut warns: u32 = 0;
    let mut i: usize = 0;
    while i < results.len()
        invariant
            results@.len() <= u32::MAX,
            i <= results@.len(),
            errs == count_status(results@.subrange(0, i as int), DiagnosticStatus::Error),
            warns == count_status(results@.subrange(0, i as int), DiagnosticStatus::Warn),
            errs + warns <= i,
        decreases results@.len() - i,
    {
        proof {
            let p = results@.subrange(0, i + 1);
            assert(p.drop_last() =~= results@.subrange(0, i as int));
        }
        match results[i].status {
            DiagnosticStatus::Error => errs = errs + 1,
            DiagnosticStatus::Warn => warns = warns + 1,
            _ => {},
        }
        i = i + 1;
    }
    assert(results@.subrange(0, results@.len() as int) =~= results@);
    if errs > 0 {
        let line = String::from_str("Result: ").concat(u64_to_decimal(errs as u64).as_str()).concat(
            " error(s), ",
        ).concat(u64_to_decimal(warns as u64).as_str()).concat(" warning(s)");
        (line, 1)
    } else if warns > 0 {
        let line = String::from_str("Result: ").concat(u64_to_decimal(warns as u64).as_str()).concat(" warning(s)");
        (line, 0)
    } else {
        (String::from_str("Result: all checks passed"), 0)
    }
}

/// The `u32` that `t` writes in base ten (as `u32::from_str`).
pub open spec fn parse_u32_spec(t: Seq<char>) -> Option<u32> {
    match parse_u64_spec(t) {
        Some(v) => if v <= u32::MAX {
            Some(v as u32)
        } else {
            None
        },
        None => None,
    }
}

/// The index of the first `x` in `s`, if any.
pub open spec fn first_x(s: Seq<char>) -> Option<int> {
    if exists|i: int| 0 <= i < s.len() && s[i] == 'x' {
        Some(choose|i: int| 0 <= i < s.len() && s[i] == 'x' && forall|j: int| 0 <= j < i ==> s[j] != 'x')
    } else {
        None
    }
}

/// The width and height of a `WIDTHxHEIGHT` resolution: the text before
/// and after its first `x`, each a `u32`.
pub open spec fn resolution_spec(s: Seq<char>) -> Option<(u32, u32)> {
    match first_x(s) {
        Some(i) => match (parse_u32_spec(s.subrange(0, i)), parse_u32_spec(s.subrange(i + 1, s.len() as int))) {
            (Some(w), Some(h)) => Some((w, h)),
            _ => None,
        },
        None => None,
    }
}

/// Parse a `WIDTHxHEIGHT` resolution (see `resolution_spec`).
pub fn parse_resolution(s: &str) -> (r: Option<(u32, u32)>)
    ensures
        r == resolution_spec(s@),
{
    let c = chars_of(s);
    let mut i: usize = 0;
    while i < c.len() && c[i] != 'x'
        invariant
            i <= c@.len(),
            c@ == s@,
            forall|j: int| 0 <= j < i ==> c@[j] != 'x',
        decreases c@.len() - i,
    {
        i = i + 1;
    }
    if i == c.len() {
        assert(!(exists|k: int| 0 <= k < c@.len() && c@[k] == 'x'));
        return None;
    }
    proof {
        let k = first_x(s@)->0;
        assert(k == i) by {
            if k < i {
                assert(c@[k] != 'x');
            } else if k > i {
                assert(s@[i as int] == 'x');
            }
        }
    }
    let mut w: Vec<char> = Vec::new();
    let mut k: usize = 0;
    while k < i
        invariant
            k <= i < c@.len(),
            w@ == c@.subrange(0, k as int),
        decreases i - k,
    {
        w.push(c[k]);
        k = k + 1;
        assert(w@ =~= c@.subrange(0, k as int));
    }
    let mut h: Vec<char> = Vec::new();
    let mut k = i + 1;
    while k < c.len()
        invariant
            i < k <= c@.len(),
            h@ == c@.subrange(i + 1, k as int),
        decreases c@.len() - k,
    {
        h.push(c[k]);
        k = k + 1;
        assert(h@ =~= c@.subrange(i + 1, k as int));
    }
    let wv = match parse_u64(&w) {
        Some(v) => if v <= 0xffff_ffff {
            Some(v as u32)
        } else {
            None
        },
        None => None,
    };
    let hv = match parse_u64(&h) {
        Some(v) => if v <= 0xffff_ffff {
            Some(v as u32)
        } else {
            None
        },
        None => None,
    };
    match (wv, hv) {
        (Some(a), Some(b)) => Some((a, b)),
        _ => None,
    }
}

/// Options of `litedroid device create`.
pub struct DeviceOptions {
    pub name: String,
    pub resolution: Option<String>,
    pub dpi: Option<u32>,
    pub ram: Option<u64>,
    pub cpu: Option<u32>,
}

/// `base` with the options of `device create` applied: the name; the
/// resolution when it parses; the density, RAM and vCPU count when given.
pub fn apply_device_options(base: DeviceConfig, opts: DeviceOptions) -> (c: DeviceConfig)
    ensures
        c.name == opts.name,
        c.display.width == (match opts.resolution {
            Some(r) => match resolution_spec(r@) {
                Some((w, _)) => w,
                None => base.display.width,
            },
            None => base.display.width,
        }),
        c.display.height == (match opts.resolution {
            Some(r) => match resolution_spec(r@) {
                Some((_, h)) => h,
                None => base.display.height,
            },
            None => base.display.height,
        }),
        c.display.dpi == (match opts.dpi {
            Some(d) => d,
            None => base.display.dpi,
        }),
        c.ram_mb == (match opts.ram {
            Some(r) => r,
            None => base.ram_mb,
        }),
        c.vcpu_count == (match opts.cpu {
            Some(n) => n,
            None => base.vcpu_count,
        }),
        c.display.refresh_rate == base.display.refresh_rate,
        c.api_level == base.api_level,
        c.supported_abis == base.supported_abis,
{
    let mut cfg = base;
    cfg.name = opts.name;
    if let Some(r) = &opts.resolution {
        if let Some((w, h)) = parse_resolution(r.as_str()) {
            cfg.display.width = w;
            cfg.display.height = h;
        }
    }
    if let Some(d) = opts.dpi {
        cfg.display.dpi = d;
    }
    if let Some(r) = opts.ram {
        cfg.ram_mb = r;
    }
    if let Some(n) = opts.cpu {
        cfg.vcpu_count = n;
    }
    cfg
}

/// The profile the panel works on: `selected` when a device of that name
/// exists, else the first device, else `selected` unchanged.
pub open spec fn selection_spec(names: Seq<Seq<char>>, selected: Seq<char>) -> Seq<char> {
    if names.contains(selected) || names.len() == 0 {
        selected
    } else {
        names[0]
    }
}

/// The profile the panel works on (see `selection_spec`).
pub fn choose_selection(names: &Vec<String>, selected: String) -> (s: String)
    ensures
        s@ == selection_spec(names@.map_values(|n: String| n@), selected@),
{
    let ghost views = names@.map_values(|n: String| n@);
    let mut i: usize = 0;
    while i < names.len()
        invariant
            i <= names@.len(),
            views == names@.map_values(|n: String| n@),
            forall|j: int| 0 <= j < i ==> views[j] != selected@,
        decreases names@.len() - i,
    {
        if str_eq(names[i].as_str(), selected.as_str()) {
            assert(views[i as int] == selected@);
            assert(views.contains(selected@));
            return selected;
        }
        i = i + 1;
    }
    assert(!views.contains(selected@));
    if names.len() == 0 {
        selected
    } else {
        names[0].clone()
    }
}

/// Whether the panel starts the selected device on its own, given whether
/// it already tried: only when the daemon answers, a device profile exists
/// and no attempt was made before.
pub open spec fn auto_start_due(attempted: bool, daemon_online: bool, device_count: nat) -> bool {
    daemon_online && device_count > 0 && !attempted
}

/// Decide whether the panel starts the selected device on its own now (see
/// `auto_start_due`), and record in `attempted` that it did.
pub fn take_auto_start(attempted: &mut bool, daemon_online: bool, device_count: usize) -> (b: bool)
    ensures
        b == auto_start_due(*old(attempted), daemon_online, device_count as nat),
        *final(attempted) == (*old(attempted) || b),
{
    let due = daemon_online && device_count > 0 && !*attempted;
    if due {
        *attempted = true;
    }
    due
}

/// How many automatic starts the panel makes over a session in which each
/// refresh sees the daemon's state and the number of profiles of `seen`,
/// starting from `attempted`.
pub open spec fn auto_starts(seen: Seq<(bool, nat)>, attempted: bool) -> nat
    decreases seen.len(),
{
    if seen.len() == 0 {
        0
    } else {
        let due = auto_start_due(attempted, seen[0].0, seen[0].1);
        (if due { 1nat } else { 0nat }) + auto_starts(seen.drop_first(), attempted || due)
    }
}

/// The panel starts a device on its own at most once per session, and never
/// after an attempt was made.
pub proof fn lemma_auto_start_at_most_once(seen: Seq<(bool, nat)>, attempted: bool)
    ensures
        auto_starts(seen, attempted) <= (if attempted { 0nat } else { 1nat }),
    decreases seen.len(),
{
    if seen.len() > 0 {
        let due = auto_start_due(attempted, seen[0].0, seen[0].1);
        lemma_auto_start_at_most_once(seen.drop_first(), attempted || due);
    }
}

/// The name the panel gives a new device profile when `existing` exist.
pub fn new_profile_name(existing: usize) -> (n: String)
    requires
        existing < usize::MAX,
    ensures
        n@ == "PixelLite-"@ + decimal((existing + 1) as nat),
{
    let next = (existing + 1) as u64;
    String::from_str("PixelLite-").concat(u64_to_decimal(next).as_str())
}

} // verus!
