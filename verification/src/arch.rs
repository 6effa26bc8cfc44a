//! Microarchitecture detection and per-architecture parameters.
//!
//! The architecture is derived from the word that CPUID leaf 1 returns in
//! EAX: family, model, extended family and extended model combine into
//! display values which a small fixed table maps to an architecture. The
//! surrounding application performs the CPUID instruction and hands the raw
//! EAX word in.

use vstd::prelude::*;

verus! {

/// A detected Intel server microarchitecture.
#[derive(Debug, Clone, Copy, PartialEq, Eq, Hash, Structural)]
pub enum CpuArchitecture {
    Skylake,
    Haswell,
    Broadwell,
    CascadeLake,
    IceLake,
    Unknown,
}

/// The stepping field of CPUID leaf 1 EAX.
pub open spec fn stepping_of(eax: u32) -> u32 {
    eax & 0xF
}

/// The display family of CPUID leaf 1 EAX: the base family, plus the
/// extended family when the base family is 0xF.
pub open spec fn display_family_of(eax: u32) -> u32 {
    let family = (eax >> 8) & 0xF;
    if family == 0xF {
        (family + ((eax >> 20) & 0xFF)) as u32
    } else {
        family
    }
}

/// The display model of CPUID leaf 1 EAX: for families 6 and 0xF the
/// extended model forms the high nibble.
pub open spec fn display_model_of(eax: u32) -> u32 {
    let family = (eax >> 8) & 0xF;
    let model = (eax >> 4) & 0xF;
    if family == 0x6 || family == 0xF {
        ((((eax >> 16) & 0xF) << 4) + model) as u32
    } else {
        model
    }
}

/// The architecture that a family/model/stepping triple denotes.
///
/// Model 0x55 is Cascade Lake from stepping 5 on and Skylake-SP below;
/// unknown models of at least 0x4E fall back to Skylake as the closest
/// compatible architecture; everything outside family 6 is unknown.
pub open spec fn arch_of_family_model(family: u32, model: u32, stepping: u32) -> CpuArchitecture {
    if family != 0x6 {
        CpuArchitecture::Unknown
    } else if model == 0x3C || model == 0x3F || model == 0x45 || model == 0x46 {
        CpuArchitecture::Haswell
    } else if model == 0x3D || model == 0x47 || model == 0x4F || model == 0x56 {
        CpuArchitecture::Broadwell
    } else if model == 0x4E || model == 0x5E {
        CpuArchitecture::Skylake
    } else if model == 0x55 {
        if stepping >= 5 {
            CpuArchitecture::CascadeLake
        } else {
            CpuArchitecture::Skylake
        }
    } else if model == 0x7D || model == 0x7E || model == 0x6A || model == 0x6C {
        CpuArchitecture::IceLake
    } else if model >= 0x4E {
        CpuArchitecture::Skylake
    } else {
        CpuArchitecture::Unknown
    }
}

/// Detect the microarchitecture from the EAX word of CPUID leaf 1.
pub fn detect_architecture(eax: u32) -> (r: CpuArchitecture)
    ensures
        r == arch_of_family_model(display_family_of(eax), display_model_of(eax), stepping_of(eax)),
{
    let stepping = eax & 0xF;
    let model = (eax >> 4) & 0xF;
    let family = (eax >> 8) & 0xF;
    let extended_model = (eax >> 16) & 0xF;
    let extended_family = (eax >> 20) & 0xFF;

    proof {
        assert((eax >> 8) & 0xF < 16 && (eax >> 4) & 0xF < 16 && (eax >> 16) & 0xF < 16 && (eax
            >> 20) & 0xFF < 256) by (bit_vector);
    }

    let display_family: u32 = if family == 0xF {
        family + extended_family
    } else {
        family
    };

    let display_model: u32 = if family == 0x6 || family == 0xF {
        proof {
            assert(extended_model < 16 ==> (extended_model << 4) == extended_model * 16)
                by (bit_vector);
        }
        (extended_model << 4) + model
    } else {
        model
    };

    if display_family != 0x6 {
        return CpuArchitecture::Unknown;
    }

    if display_model == 0x3C || display_model == 0x3F || display_model == 0x45 || display_model
        == 0x46 {
        CpuArchitecture::Haswell
    } else if display_model == 0x3D || display_model == 0x47 || display_model == 0x4F
        || display_model == 0x56 {
        CpuArchitecture::Broadwell
    } else if display_model == 0x4E || display_model == 0x5E {
        CpuArchitecture::Skylake
    } else if display_model == 0x55 {
        if stepping >= 5 {
            CpuArchitecture::CascadeLake
        } else {
            CpuArchitecture::Skylake
        }
    } else if display_model == 0x7D || display_model == 0x7E || display_model == 0x6A
        || display_model == 0x6C {
        CpuArchitecture::IceLake
    } else if display_model >= 0x4E {
        CpuArchitecture::Skylake
    } else {
        CpuArchitecture::Unknown
    }
}

impl CpuArchitecture {
    /// The architecture's display name.
    pub fn name(&self) -> (r: &'static str)
        ensures
            *self is Skylake ==> r@ == "Skylake"@,
            *self is Haswell ==> r@ == "Haswell"@,
            *self is Broadwell ==> r@ == "Broadwell"@,
            *self is CascadeLake ==> r@ == "Cascade Lake"@,
            *self is IceLake ==> r@ == "Ice Lake"@,
            *self is Unknown ==> r@ == "Unknown"@,
    {
        match self {
            CpuArchitecture::Skylake => "Skylake",
            CpuArchitecture::Haswell => "Haswell",
            CpuArchitecture::Broadwell => "Broadwell",
            CpuArchitecture::CascadeLake => "Cascade Lake",
            CpuArchitecture::IceLake => "Ice Lake",
            CpuArchitecture::Unknown => "Unknown",
        }
    }

    /// Whether this architecture programs IRP counters through MSRs; older
    /// parts reach them through PCI configuration space instead.
    pub open spec fn irp_uses_msr(self) -> bool {
        self is Skylake || self is CascadeLake || self is IceLake
    }

    /// The architecture-specific L2 eviction events, as
    /// `(event, umask, name)` triples.
    pub fn l2_eviction_events(&self) -> (r: Vec<(u8, u8, &'static str)>)
        ensures
            r@.len() == 2,
            r@[0].0 == 0xF2 && r@[1].0 == 0xF2,
            (*self is Haswell || *self is Broadwell) ==> r@[0].1 == 0x05 && r@[1].1 == 0x06,
            !(*self is Haswell || *self is Broadwell) ==> r@[0].1 == 0x01 && r@[1].1 == 0x02,
            !(*self is Haswell || *self is Broadwell) ==> r@[0].2@ == "L2OutSilent"@ && r@[1].2@
                == "L2OutNonSilent"@,
    {
        match self {
            CpuArchitecture::Haswell | CpuArchitecture::Broadwell => {
                vec![(0xF2u8, 0x05u8, "L2OutClean"), (0xF2u8, 0x06u8, "L2OutDirty")]
            },
            _ => {
                vec![(0xF2u8, 0x01u8, "L2OutSilent"), (0xF2u8, 0x02u8, "L2OutNonSilent")]
            },
        }
    }

    /// The architecture-specific L2 prefetch events, as
    /// `(event, umask, name)` triples.
    pub fn l2_prefetch_events(&self) -> (r: Vec<(u8, u8, &'static str)>)
        ensures
            r@.len() == 2,
            r@[0].0 == 0x24 && r@[1].0 == 0x24,
            (*self is Haswell || *self is Broadwell) ==> r@[0].1 == 0x30 && r@[1].1 == 0x50,
            !(*self is Haswell || *self is Broadwell) ==> r@[0].1 == 0x38 && r@[1].1 == 0xD8,
            r@[0].2@ == "L2PrefetchMiss"@ && r@[1].2@ == "L2PrefetchHit"@,
    {
        match self {
            CpuArchitecture::Haswell | CpuArchitecture::Broadwell => {
                vec![(0x24u8, 0x30u8, "L2PrefetchMiss"), (0x24u8, 0x50u8, "L2PrefetchHit")]
            },
            _ => {
                vec![(0x24u8, 0x38u8, "L2PrefetchMiss"), (0x24u8, 0xD8u8, "L2PrefetchHit")]
            },
        }
    }

    /// Whether this architecture supports off-core response events.
    pub fn supports_offcore_response(&self) -> (r: bool)
        ensures
            r == !(*self is Unknown),
    {
        match self {
            CpuArchitecture::Unknown => false,
            _ => true,
        }
    }

    /// The number of CHA boxes of this architecture, if known.
    pub open spec fn cha_count_spec(self) -> Option<u32> {
        match self {
            CpuArchitecture::Skylake => Some(14u32),
            CpuArchitecture::CascadeLake => Some(26u32),
            CpuArchitecture::Haswell => Some(18u32),
            CpuArchitecture::Broadwell => Some(14u32),
            CpuArchitecture::IceLake => Some(24u32),
            CpuArchitecture::Unknown => None,
        }
    }

    /// The number of CHA boxes of this architecture, if known.
    pub fn cha_count(&self) -> (r: Option<u32>)
        ensures
            r == self.cha_count_spec(),
            *self is Skylake ==> r == Some(14u32),
            *self is CascadeLake ==> r == Some(26u32),
            *self is Haswell ==> r == Some(18u32),
            *self is Broadwell ==> r == Some(14u32),
            *self is IceLake ==> r == Some(24u32),
            *self is Unknown ==> r is None,
            r is Some ==> 0 < r->0 <= 28,
    {
        match self {
            CpuArchitecture::Skylake => Some(14),
            CpuArchitecture::CascadeLake => Some(26),
            CpuArchitecture::Haswell => Some(18),
            CpuArchitecture::Broadwell => Some(14),
            CpuArchitecture::IceLake => Some(24),
            CpuArchitecture::Unknown => None,
        }
    }
}

/// The memory-bandwidth scaling factor reported by CPUID leaf 0xF sub-leaf 1
/// in EBX; a reported factor of zero falls back to one.
pub fn get_mbm_scaling_factor(ebx: u32) -> (r: u32)
    ensures
        ebx == 0 ==> r == 1,
        ebx != 0 ==> r == ebx,
        r > 0,
{
    if ebx == 0 {
        1
    } else {
        ebx
    }
}

} // verus!
