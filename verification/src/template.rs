//! The template that the panel shows, and the readings that it calls for.
use vstd::prelude::*;

verus! {

/// A reading that a template can show.
#[derive(Clone, Copy, Debug, PartialEq, Eq, Structural)]
pub enum Variable {
    CpuUsage,
    RamUsage,
    CpuTemp,
    GpuTemp,
    GpuUsage,
    DlSpeed,
    UlSpeed,
    PublicIpv4,
    PublicIpv6,
}

/// A piece of a template.
#[derive(Debug)]
pub enum Segment {
    /// Text that is shown as it stands.
    Literal(String),
    /// A reading.
    Variable(Variable),
    /// A name in braces that stands for no reading.
    Unknown(String),
}

/// A template, as the row of its pieces.
#[derive(Debug)]
pub struct Template {
    pub segments: Vec<Segment>,
}

/// A set of variables: those whose readings are wanted.
#[derive(Clone, Copy, Debug)]
pub struct Requires {
    pub cpu_usage: bool,
    pub ram_usage: bool,
    pub cpu_temp: bool,
    pub gpu_temp: bool,
    pub gpu_usage: bool,
    pub dl_speed: bool,
    pub ul_speed: bool,
    pub public_ipv4: bool,
    pub public_ipv6: bool,
}

impl Requires {
    /// `variable` is in the set.
    pub open spec fn has(self, variable: Variable) -> bool {
        match variable {
            Variable::CpuUsage => self.cpu_usage,
            Variable::RamUsage => self.ram_usage,
            Variable::CpuTemp => self.cpu_temp,
            Variable::GpuTemp => self.gpu_temp,
            Variable::GpuUsage => self.gpu_usage,
            Variable::DlSpeed => self.dl_speed,
            Variable::UlSpeed => self.ul_speed,
            Variable::PublicIpv4 => self.public_ipv4,
            Variable::PublicIpv6 => self.public_ipv6,
        }
    }

    /// The empty set.
    pub fn nothing() -> (set: Requires)
        ensures
            forall|variable: Variable| !set.has(variable),
    {
        Requires {
            cpu_usage: false,
            ram_usage: false,
            cpu_temp: false,
            gpu_temp: false,
            gpu_usage: false,
            dl_speed: false,
            ul_speed: false,
            public_ipv4: false,
            public_ipv6: false,
        }
    }

    /// Puts `variable` into the set.
    pub fn insert(&mut self, variable: Variable)
        ensures
            forall|other: Variable|
                final(self).has(other) == (old(self).has(other) || other == variable),
    {
        match variable {
            Variable::CpuUsage => self.cpu_usage = true,
            Variable::RamUsage => self.ram_usage = true,
            Variable::CpuTemp => self.cpu_temp = true,
            Variable::GpuTemp => self.gpu_temp = true,
            Variable::GpuUsage => self.gpu_usage = true,
            Variable::DlSpeed => self.dl_speed = true,
            Variable::UlSpeed => self.ul_speed = true,
            Variable::PublicIpv4 => self.public_ipv4 = true,
            Variable::PublicIpv6 => self.public_ipv6 = true,
        }
    }

    /// Whether `variable` is in the set.
    pub fn contains(&self, variable: Variable) -> (found: bool)
        ensures
            found == self.has(variable),
    {
        match variable {
            Variable::CpuUsage => self.cpu_usage,
            Variable::RamUsage => self.ram_usage,
            Variable::CpuTemp => self.cpu_temp,
            Variable::GpuTemp => self.gpu_temp,
            Variable::GpuUsage => self.gpu_usage,
            Variable::DlSpeed => self.dl_speed,
            Variable::UlSpeed => self.ul_speed,
            Variable::PublicIpv4 => self.public_ipv4,
            Variable::PublicIpv6 => self.public_ipv6,
        }
    }
}

} // verus!
