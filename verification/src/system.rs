//! The processor and the memory.
use vstd::prelude::*;
use crate::config::SysInfoConfig;
use crate::template::{Requires, Variable};

verus! {

/// The refresh request of `sysinfo`, carried as an opaque value.
#[verifier::external_type_specification]
#[verifier::external_body]
pub struct ExRefreshKind(sysinfo::RefreshKind);

/// The part of a refresh request that concerns processors, carried as an opaque value.
#[verifier::external_type_specification]
#[verifier::external_body]
pub struct ExCpuRefreshKind(sysinfo::CpuRefreshKind);

/// The part of a refresh request that concerns memory, carried as an opaque value.
#[verifier::external_type_specification]
#[verifier::external_body]
pub struct ExMemoryRefreshKind(sysinfo::MemoryRefreshKind);

/// What is asked of the processors.
pub struct CpuParts {
    pub usage: bool,
    pub frequency: bool,
}

/// What is asked of the memory.
pub struct MemoryParts {
    pub ram: bool,
    pub swap: bool,
}

/// What is asked of the system.
pub struct SystemParts {
    pub processes: bool,
    pub memory: Option<MemoryParts>,
    pub cpu: Option<CpuParts>,
}

/// What a request asks of the processors: the values of its getters.
pub uninterp spec fn cpu_parts(kind: sysinfo::CpuRefreshKind) -> CpuParts;

/// What a request asks of the memory: the values of its getters.
pub uninterp spec fn memory_parts(kind: sysinfo::MemoryRefreshKind) -> MemoryParts;

/// What a request asks of the system: which of its getters give a part, and that part.
pub uninterp spec fn system_parts(kind: sysinfo::RefreshKind) -> SystemParts;

/// `CpuRefreshKind::nothing` asks for neither the usage nor the frequency.
pub assume_specification[ sysinfo::CpuRefreshKind::nothing ]() -> (kind: sysinfo::CpuRefreshKind)
    ensures
        cpu_parts(kind) == (CpuParts { usage: false, frequency: false }),
;

/// `CpuRefreshKind::with_cpu_usage` asks for the usage too.
pub assume_specification[ sysinfo::CpuRefreshKind::with_cpu_usage ](
    kind: sysinfo::CpuRefreshKind,
) -> (more: sysinfo::CpuRefreshKind)
    ensures
        cpu_parts(more) == (CpuParts { usage: true, ..cpu_parts(kind) }),
;

/// `MemoryRefreshKind::nothing` asks for neither main memory nor swap space.
pub assume_specification[ sysinfo::MemoryRefreshKind::nothing ]() -> (kind:
    sysinfo::MemoryRefreshKind)
    ensures
        memory_parts(kind) == (MemoryParts { ram: false, swap: false }),
;

/// `MemoryRefreshKind::with_ram` asks for main memory too.
pub assume_specification[ sysinfo::MemoryRefreshKind::with_ram ](
    kind: sysinfo::MemoryRefreshKind,
) -> (more: sysinfo::MemoryRefreshKind)
    ensures
        memory_parts(more) == (MemoryParts { ram: true, ..memory_parts(kind) }),
;

/// `MemoryRefreshKind::with_swap` asks for swap space too.
pub assume_specification[ sysinfo::MemoryRefreshKind::with_swap ](
    kind: sysinfo::MemoryRefreshKind,
) -> (more: sysinfo::MemoryRefreshKind)
    ensures
        memory_parts(more) == (MemoryParts { swap: true, ..memory_parts(kind) }),
;

/// `RefreshKind::nothing` asks for nothing.
pub assume_specification[ sysinfo::RefreshKind::nothing ]() -> (kind: sysinfo::RefreshKind)
    ensures
        system_parts(kind) == (SystemParts { processes: false, memory: None, cpu: None }),
;

/// `RefreshKind::with_cpu` asks of the processors what it is given, and of the rest what it asked.
pub assume_specification[ sysinfo::RefreshKind::with_cpu ](
    kind: sysinfo::RefreshKind,
    part: sysinfo::CpuRefreshKind,
) -> (more: sysinfo::RefreshKind)
    ensures
        system_parts(more) == (SystemParts { cpu: Some(cpu_parts(part)), ..system_parts(kind) }),
;

/// `RefreshKind::with_memory` asks of the memory what it is given, and of the rest what it asked.
pub assume_specification[ sysinfo::RefreshKind::with_memory ](
    kind: sysinfo::RefreshKind,
    part: sysinfo::MemoryRefreshKind,
) -> (more: sysinfo::RefreshKind)
    ensures
        system_parts(more) == (SystemParts {
            memory: Some(memory_parts(part)),
            ..system_parts(kind)
        }),
;

/// What has to be asked of the system: the usage of the processors if it is wanted, main memory if
/// its usage is wanted, swap space with it if that counts as memory, and nothing else.
pub open spec fn system_request(wanted: Requires, config: SysInfoConfig) -> SystemParts {
    SystemParts {
        processes: false,
        memory: if wanted.has(Variable::RamUsage) {
            Some(MemoryParts { ram: true, swap: config.include_swap_in_ram })
        } else {
            None
        },
        cpu: if wanted.has(Variable::CpuUsage) {
            Some(CpuParts { usage: true, frequency: false })
        } else {
            None
        },
    }
}

/// The refresh request for what is wanted.
pub fn refresh_kind(wanted: Requires, config: &SysInfoConfig) -> (kind: sysinfo::RefreshKind)
    ensures
        system_parts(kind) == system_request(wanted, *config),
{
    let mut refresh = sysinfo::RefreshKind::nothing();
    if wanted.contains(Variable::CpuUsage) {
        refresh = refresh.with_cpu(sysinfo::CpuRefreshKind::nothing().with_cpu_usage());
    }
    if wanted.contains(Variable::RamUsage) {
        let memory = if config.include_swap_in_ram {
            sysinfo::MemoryRefreshKind::nothing().with_ram().with_swap()
        } else {
            sysinfo::MemoryRefreshKind::nothing().with_ram()
        };
        refresh = refresh.with_memory(memory);
    }
    refresh
}

/// What the system says of itself: the usage of all processors, and sizes in bytes.
#[derive(Clone, Copy, Debug)]
pub struct SystemSample<T> {
    pub global_cpu_usage: T,
    pub used_memory: u64,
    pub total_memory: u64,
    pub used_swap: u64,
    pub total_swap: u64,
}

impl<T> SystemSample<T> {
    /// The memory in use.
    pub open spec fn used(self, include_swap: bool) -> nat {
        if include_swap {
            (self.used_memory + self.used_swap) as nat
        } else {
            self.used_memory as nat
        }
    }

    /// The memory there is.
    pub open spec fn total(self, include_swap: bool) -> nat {
        if include_swap {
            (self.total_memory + self.total_swap) as nat
        } else {
            self.total_memory as nat
        }
    }

    /// There is memory, and the percentage can be reckoned in 64 bits.
    pub open spec fn has_percentage(self, include_swap: bool) -> bool {
        &&& self.used(include_swap) * 100 <= u64::MAX
        &&& 0 < self.total(include_swap) <= u64::MAX
    }

    /// How much of the memory is in use, in percent, rounded down.
    pub open spec fn percentage(self, include_swap: bool) -> nat {
        self.used(include_swap) * 100 / self.total(include_swap)
    }

    /// How much of the memory is in use, in percent; none if it cannot be reckoned.
    pub fn ram_usage(&self, include_swap: bool) -> (percent: Option<u64>)
        ensures
            match percent {
                Some(value) => self.has_percentage(include_swap) && value == self.percentage(
                    include_swap,
                ),
                None => !self.has_percentage(include_swap),
            },
    {
        let used: u64;
        let total: u64;
        if include_swap {
            match (
                self.used_memory.checked_add(self.used_swap),
                self.total_memory.checked_add(self.total_swap),
            ) {
                (Some(all_used), Some(all)) => {
                    used = all_used;
                    total = all;
                },
                _ => {
                    return None;
                },
            }
        } else {
            used = self.used_memory;
            total = self.total_memory;
        }
        if total == 0 {
            return None;
        }
        match used.checked_mul(100) {
            Some(scaled) => Some(scaled / total),
            None => None,
        }
    }
}

} // verus!
