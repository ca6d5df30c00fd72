//! Constants of the kernel counter interface: counter classes, their
//! enable masks, PMU version codes and the hardware counter-slot maximum.

use vstd::prelude::*;

verus! {

// Counter class numbers.
pub const KPC_CLASS_FIXED: u32 = 0;
pub const KPC_CLASS_CONFIGURABLE: u32 = 1;
pub const KPC_CLASS_POWER: u32 = 2;
pub const KPC_CLASS_RAWPMU: u32 = 3;

// Counter class enable masks, one bit per class.
pub const KPC_CLASS_FIXED_MASK: u32 = 1u32 << KPC_CLASS_FIXED;
pub const KPC_CLASS_CONFIGURABLE_MASK: u32 = 1u32 << KPC_CLASS_CONFIGURABLE;
pub const KPC_CLASS_POWER_MASK: u32 = 1u32 << KPC_CLASS_POWER;
pub const KPC_CLASS_RAWPMU_MASK: u32 = 1u32 << KPC_CLASS_RAWPMU;

// PMU version codes as the kernel reports them; zero means the query failed.
pub const KPC_PMU_ERROR: u32 = 0;
pub const KPC_PMU_INTEL_V3: u32 = 1;
pub const KPC_PMU_ARM_APPLE: u32 = 2;
pub const KPC_PMU_INTEL_V2: u32 = 3;
pub const KPC_PMU_ARM_V2: u32 = 4;

/// The most counter registers any supported hardware exposes; snapshot
/// buffers and register maps are sized to this.
pub const KPC_MAX_COUNTERS: usize = 32;

} // verus!
