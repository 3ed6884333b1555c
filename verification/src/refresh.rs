//! One refresh of the readings, as a conversation with the sources.
//!
//! A refresh asks the outside world for one thing at a time. `Refresh::step` takes the answer to
//! what was asked last, puts what it says into the readings, and gives the next thing to ask,
//! until it gives `Action::Done`.
use vstd::prelude::*;
use crate::command::CommandOutput;
use crate::config::SysInfoConfig;
use crate::data;
use crate::data::{Data, DataView};
use crate::gpu;
use crate::network;
use crate::network::{InterfaceEntry, NetworkSample};
use crate::public_ip;
use crate::public_ip::IpVersion;
use crate::reading;
use crate::reading::Speed;
use crate::retry;
use crate::sensors;
use crate::sensors::Component;
use crate::system;
use crate::system::SystemSample;
use crate::template::{Requires, Variable};

verus! {

/// What to ask next.
pub enum Action {
    /// List the network interfaces.
    ScanInterfaces,
    /// Refresh the figures of the system as told, and read them.
    RefreshSystem(sysinfo::RefreshKind),
    /// Refresh the figures of the networks, and read them.
    RefreshNetworks,
    /// Round so many bytes to tenths of a megabyte.
    RoundTraffic { received: u64, transmitted: u64 },
    /// Refresh the sensors, and read them.
    RefreshComponents,
    /// Read the files in which the kernel says how busy graphics cards are.
    ReadGpuUsage,
    /// Run `nvidia-smi`.
    QueryNvidiaSmi,
    /// Run `curl`.
    FetchPublicIp(IpVersion),
    /// Nothing: the refresh is complete.
    Done,
}

/// The answer to what was asked last.
pub enum Event<T> {
    /// Nothing has been asked yet.
    Started,
    /// The interfaces there are.
    Interfaces(Vec<InterfaceEntry>),
    /// The figures of the system.
    System(SystemSample<T>),
    /// The figures of the networks.
    Networks(Vec<NetworkSample>),
    /// The traffic in tenths of a megabyte.
    Rounded { received: u64, transmitted: u64 },
    /// The sensors.
    Components(Vec<Component<T>>),
    /// The contents of the files that could be read.
    GpuUsage(Vec<String>),
    /// What `nvidia-smi` says: the temperature and the load.
    Nvidia(Option<(Option<T>, Option<u64>)>),
    /// The outcome of `curl`.
    PublicIp(Option<CommandOutput>),
}

/// What a refresh is waiting for.
#[derive(Clone, Copy, Debug)]
pub enum Stage {
    Start,
    Interfaces,
    System,
    Networks,
    /// The traffic, of which the bytes are known, in tenths of a megabyte.
    Rounding { received: u64, transmitted: u64 },
    Components,
    /// What `nvidia-smi` says, for the temperature.
    NvidiaForTemp,
    /// The kernel's files; `nvidia` is the load that `nvidia-smi` told, if it has been asked.
    GpuUsage { nvidia: Option<Option<u64>> },
    /// What `nvidia-smi` says, for the load.
    NvidiaForUsage,
    /// The first address; `due` if the addresses were due for a refresh.
    Ipv4 { due: bool },
    /// The second address; `failed` if there was a first one to fetch, and that failed.
    Ipv6 { failed: bool },
    Done,
}

/// A refresh that is under way.
pub struct Refresh<'a> {
    pub wanted: Requires,
    pub config: &'a SysInfoConfig,
    pub stage: Stage,
}

/// What an `Action` stands for.
pub enum Request {
    ScanInterfaces,
    RefreshSystem(system::SystemParts),
    RefreshNetworks,
    RoundTraffic { received: u64, transmitted: u64 },
    RefreshComponents,
    ReadGpuUsage,
    QueryNvidiaSmi,
    FetchPublicIp(IpVersion),
    Done,
}

impl View for Action {
    type V = Request;

    open spec fn view(&self) -> Request {
        match *self {
            Action::ScanInterfaces => Request::ScanInterfaces,
            Action::RefreshSystem(kind) => Request::RefreshSystem(system::system_parts(kind)),
            Action::RefreshNetworks => Request::RefreshNetworks,
            Action::RoundTraffic { received, transmitted } => Request::RoundTraffic {
                received,
                transmitted,
            },
            Action::RefreshComponents => Request::RefreshComponents,
            Action::ReadGpuUsage => Request::ReadGpuUsage,
            Action::QueryNvidiaSmi => Request::QueryNvidiaSmi,
            Action::FetchPublicIp(version) => Request::FetchPublicIp(version),
            Action::Done => Request::Done,
        }
    }
}

/// Where a step leads: what is waited for, the readings, and what to ask.
#[verifier::ext_equal]
pub struct Outcome<T> {
    pub stage: Stage,
    pub data: DataView<T>,
    pub request: Request,
}

// ---------------------------------------------------------------------------
// What a step does
// ---------------------------------------------------------------------------

/// The traffic of the networks is wanted.
pub open spec fn wants_traffic(wanted: Requires) -> bool {
    wanted.has(Variable::DlSpeed) || wanted.has(Variable::UlSpeed)
}

/// A temperature is wanted.
pub open spec fn wants_sensors(wanted: Requires) -> bool {
    wanted.has(Variable::CpuTemp) || wanted.has(Variable::GpuTemp)
}

/// The list of interfaces is too old at the time `now`.
pub open spec fn scan_due<T>(data: DataView<T>, now: u128) -> bool {
    now > data.last_interface_scan + data::INTERFACE_SCAN_INTERVAL
}

/// The temperature that `nvidia-smi` told.
pub open spec fn nvidia_temp<T>(reading: Option<(Option<T>, Option<u64>)>) -> Option<T> {
    match reading {
        Some((temp, _)) => temp,
        None => None,
    }
}

/// The load that `nvidia-smi` told.
pub open spec fn nvidia_load<T>(reading: Option<(Option<T>, Option<u64>)>) -> Option<u64> {
    match reading {
        Some((_, load)) => load,
        None => None,
    }
}

/// Ask for the figures of the system.
pub open spec fn to_system<T>(
    wanted: Requires,
    config: SysInfoConfig,
    data: DataView<T>,
) -> Outcome<T> {
    Outcome {
        stage: Stage::System,
        data,
        request: Request::RefreshSystem(system::system_request(wanted, config)),
    }
}

/// Ask for the traffic if it is wanted; if not there is none.
pub open spec fn to_networks<T>(wanted: Requires, data: DataView<T>, now: u128) -> Outcome<T> {
    if wants_traffic(wanted) {
        Outcome { stage: Stage::Networks, data, request: Request::RefreshNetworks }
    } else {
        to_components(
            wanted,
            DataView { download_speed: None, upload_speed: None, ..data },
            now,
        )
    }
}

/// Ask for the sensors if a temperature is wanted; if not there are no temperatures.
pub open spec fn to_components<T>(wanted: Requires, data: DataView<T>, now: u128) -> Outcome<T> {
    if wants_sensors(wanted) {
        Outcome { stage: Stage::Components, data, request: Request::RefreshComponents }
    } else {
        to_gpu_usage(wanted, DataView { cpu_temp: None, gpu_temp: None, ..data }, now, None)
    }
}

/// Ask how busy the graphics card is if that is wanted; if not it is not known.
pub open spec fn to_gpu_usage<T>(
    wanted: Requires,
    data: DataView<T>,
    now: u128,
    nvidia: Option<Option<u64>>,
) -> Outcome<T> {
    if wanted.has(Variable::GpuUsage) {
        Outcome { stage: Stage::GpuUsage { nvidia }, data, request: Request::ReadGpuUsage }
    } else {
        to_addresses(wanted, DataView { gpu_usage: None, ..data }, now)
    }
}

/// Ask for the first address that is wanted and either missing or, at the time `now`, due.
pub open spec fn to_addresses<T>(wanted: Requires, data: DataView<T>, now: u128) -> Outcome<T> {
    let due = now >= data.next_ip_fetch;
    if wanted.has(Variable::PublicIpv4) && (data.public_ipv4 is None || due) {
        Outcome {
            stage: Stage::Ipv4 { due },
            data,
            request: Request::FetchPublicIp(IpVersion::V4),
        }
    } else if wanted.has(Variable::PublicIpv6) && (data.public_ipv6 is None || due) {
        Outcome {
            stage: Stage::Ipv6 { failed: false },
            data,
            request: Request::FetchPublicIp(IpVersion::V6),
        }
    } else {
        to_end(wanted, data)
    }
}

/// When to fetch again, at the time `now`: after `delay` if a fetch failed, and the delays grow;
/// if none failed, when the addresses have had their time, and the delays start anew.
pub open spec fn scheduled<T>(data: DataView<T>, now: u128, delay: u128, failed: bool) -> DataView<
    T,
> {
    if failed {
        DataView {
            next_ip_fetch: (now + delay) as u128,
            retry_interval: retry::grown(data::ip_retry(), data.retry_interval),
            ..data
        }
    } else {
        DataView {
            next_ip_fetch: (now + data::IP_REFRESH_INTERVAL) as u128,
            retry_interval: data::ip_retry().initial,
            ..data
        }
    }
}

/// Nothing more to ask; an address that is not wanted is forgotten.
pub open spec fn to_end<T>(wanted: Requires, data: DataView<T>) -> Outcome<T> {
    Outcome {
        stage: Stage::Done,
        data: DataView {
            public_ipv4: if wanted.has(Variable::PublicIpv4) {
                data.public_ipv4
            } else {
                None
            },
            public_ipv6: if wanted.has(Variable::PublicIpv6) {
                data.public_ipv6
            } else {
                None
            },
            ..data
        },
        request: Request::Done,
    }
}

/// `event` answers what is waited for, its figures are such that the sums can be reckoned in 64
/// bits, and what was to be rounded is rounded right.
pub open spec fn acceptable<T>(
    wanted: Requires,
    config: SysInfoConfig,
    stage: Stage,
    data: DataView<T>,
    event: Event<T>,
) -> bool {
    match (stage, event) {
        (Stage::Start, Event::Started) => true,
        (Stage::Interfaces, Event::Interfaces(_)) => true,
        (Stage::System, Event::System(sample)) => wanted.has(Variable::RamUsage)
            ==> sample.has_percentage(config.include_swap_in_ram),
        (Stage::Networks, Event::Networks(samples)) => {
            &&& network::transmitted(samples@, data.physical_interfaces) <= u64::MAX
            &&& network::received(samples@, data.physical_interfaces) <= u64::MAX
        },
        (
            Stage::Rounding { received, transmitted },
            Event::Rounded { received: down, transmitted: up },
        ) => reading::may_round(received, down) && reading::may_round(transmitted, up),
        (Stage::Components, Event::Components(_)) => true,
        (Stage::NvidiaForTemp, Event::Nvidia(_)) => true,
        (Stage::GpuUsage { .. }, Event::GpuUsage(_)) => true,
        (Stage::NvidiaForUsage, Event::Nvidia(_)) => true,
        (Stage::Ipv4 { .. }, Event::PublicIp(_)) => true,
        (Stage::Ipv6 { .. }, Event::PublicIp(_)) => true,
        _ => false,
    }
}

/// What the answer `event`, given at the time `now`, leads to. If an address could not be fetched,
/// the retry schedule has chosen `delay`.
pub open spec fn next<T>(
    wanted: Requires,
    config: SysInfoConfig,
    stage: Stage,
    data: DataView<T>,
    event: Event<T>,
    now: u128,
    delay: u128,
) -> Outcome<T> {
    match (stage, event) {
        (Stage::Start, _) => if wants_traffic(wanted) && scan_due(data, now) {
            Outcome { stage: Stage::Interfaces, data, request: Request::ScanInterfaces }
        } else {
            to_system(wanted, config, data)
        },
        (Stage::Interfaces, Event::Interfaces(entries)) => to_system(
            wanted,
            config,
            DataView {
                physical_interfaces: network::physical(config, entries@),
                last_interface_scan: now,
                ..data
            },
        ),
        (Stage::System, Event::System(sample)) => to_networks(
            wanted,
            DataView {
                cpu_usage: if wanted.has(Variable::CpuUsage) {
                    Some(sample.global_cpu_usage)
                } else {
                    None
                },
                ram_usage: if wanted.has(Variable::RamUsage) {
                    Some(sample.percentage(config.include_swap_in_ram) as u64)
                } else {
                    None
                },
                ..data
            },
            now,
        ),
        (Stage::Networks, Event::Networks(samples)) => {
            let received = network::received(samples@, data.physical_interfaces) as u64;
            let transmitted = network::transmitted(samples@, data.physical_interfaces) as u64;
            Outcome {
                stage: Stage::Rounding { received, transmitted },
                data,
                request: Request::RoundTraffic { received, transmitted },
            }
        },
        (
            Stage::Rounding { received, transmitted },
            Event::Rounded { received: down, transmitted: up },
        ) => to_components(
            wanted,
            DataView {
                download_speed: if wanted.has(Variable::DlSpeed) {
                    Some(Speed { bytes: received, tenths: down })
                } else {
                    None
                },
                upload_speed: if wanted.has(Variable::UlSpeed) {
                    Some(Speed { bytes: transmitted, tenths: up })
                } else {
                    None
                },
                ..data
            },
            now,
        ),
        (Stage::Components, Event::Components(components)) => {
            let cooled = DataView {
                cpu_temp: if wanted.has(Variable::CpuTemp) {
                    sensors::cpu_temperature(components@)
                } else {
                    None
                },
                gpu_temp: if wanted.has(Variable::GpuTemp) {
                    sensors::gpu_temperature(components@)
                } else {
                    None
                },
                ..data
            };
            if wanted.has(Variable::GpuTemp) && cooled.gpu_temp is None {
                Outcome {
                    stage: Stage::NvidiaForTemp,
                    data: cooled,
                    request: Request::QueryNvidiaSmi,
                }
            } else {
                to_gpu_usage(wanted, cooled, now, None)
            }
        },
        (Stage::NvidiaForTemp, Event::Nvidia(reading)) => to_gpu_usage(
            wanted,
            DataView { gpu_temp: nvidia_temp(reading), ..data },
            now,
            Some(nvidia_load(reading)),
        ),
        (Stage::GpuUsage { nvidia }, Event::GpuUsage(contents)) => match (
            gpu::first_number(contents@),
            nvidia,
        ) {
            (None, None) => Outcome {
                stage: Stage::NvidiaForUsage,
                data,
                request: Request::QueryNvidiaSmi,
            },
            (None, Some(load)) => to_addresses(wanted, DataView { gpu_usage: load, ..data }, now),
            (usage, _) => to_addresses(wanted, DataView { gpu_usage: usage, ..data }, now),
        },
        (Stage::NvidiaForUsage, Event::Nvidia(reading)) => to_addresses(
            wanted,
            DataView { gpu_usage: nvidia_load(reading), ..data },
            now,
        ),
        (Stage::Ipv4 { due }, Event::PublicIp(output)) => {
            let address = public_ip::fetched(output);
            let told = DataView { public_ipv4: address, ..data };
            if wanted.has(Variable::PublicIpv6) && (data.public_ipv6 is None || due) {
                Outcome {
                    stage: Stage::Ipv6 { failed: address is None },
                    data: told,
                    request: Request::FetchPublicIp(IpVersion::V6),
                }
            } else {
                to_end(wanted, scheduled(told, now, delay, address is None))
            }
        },
        (Stage::Ipv6 { failed }, Event::PublicIp(output)) => {
            let address = public_ip::fetched(output);
            let told = DataView { public_ipv6: address, ..data };
            to_end(wanted, scheduled(told, now, delay, failed || address is None))
        },
        _ => Outcome { stage, data, request: Request::Done },
    }
}

// ---------------------------------------------------------------------------
// Doing it
// ---------------------------------------------------------------------------

/// The time to try again, where the schedule has chosen `delay` (or, if it has chosen none, when
/// the addresses have had their time).
pub fn retry_at(now: u128, delay: Option<u128>) -> (time: u128)
    requires
        now + (match delay {
            Some(chosen) => chosen,
            None => data::IP_REFRESH_INTERVAL,
        }) <= u128::MAX,
    ensures
        time == now + (match delay {
            Some(chosen) => chosen,
            None => data::IP_REFRESH_INTERVAL,
        }),
{
    now + delay.unwrap_or(data::IP_REFRESH_INTERVAL)
}

impl<'a> Refresh<'a> {
    /// Where this refresh stands, with the readings `data` and `action` as what to ask.
    pub open spec fn outcome<T>(self, data: Data<T>, action: Action) -> Outcome<T> {
        Outcome { stage: self.stage, data: data@, request: action@ }
    }

    /// This is a later state of `before`: a refresh of the same variables under the same settings.
    pub open spec fn continues(self, before: Refresh<'a>) -> bool {
        self.wanted == before.wanted && self.config == before.config
    }

    /// Starts a refresh of the readings of `wanted`.
    pub fn new(wanted: Requires, config: &'a SysInfoConfig) -> (refresh: Self)
        ensures
            refresh.wanted == wanted,
            refresh.config == config,
            refresh.stage == Stage::Start,
    {
        Refresh { wanted, config, stage: Stage::Start }
    }

    /// Whether `event` can be handed to `step`.
    pub fn accepts<T: Copy>(&self, data: &Data<T>, event: &Event<T>) -> (yes: bool)
        ensures
            yes == acceptable(self.wanted, *self.config, self.stage, data@, *event),
    {
        match (self.stage, event) {
            (Stage::Start, Event::Started) => true,
            (Stage::Interfaces, Event::Interfaces(_)) => true,
            (Stage::System, Event::System(sample)) => {
                !self.wanted.contains(Variable::RamUsage) || sample.ram_usage(
                    self.config.include_swap_in_ram,
                ).is_some()
            },
            (Stage::Networks, Event::Networks(samples)) => {
                network::traffic(samples, &data.physical_interfaces).is_some()
            },
            (
                Stage::Rounding { received, transmitted },
                Event::Rounded { received: down, transmitted: up },
            ) => {
                reading::rounds_to(received, *down) && reading::rounds_to(transmitted, *up)
            },
            (Stage::Components, Event::Components(_)) => true,
            (Stage::NvidiaForTemp, Event::Nvidia(_)) => true,
            (Stage::GpuUsage { .. }, Event::GpuUsage(_)) => true,
            (Stage::NvidiaForUsage, Event::Nvidia(_)) => true,
            (Stage::Ipv4 { .. }, Event::PublicIp(_)) => true,
            (Stage::Ipv6 { .. }, Event::PublicIp(_)) => true,
            _ => false,
        }
    }

    /// Goes on to the figures of the system.
    fn ask_system(&mut self) -> (action: Action)
        ensures
            final(self).continues(*old(self)),
            final(self).stage == Stage::System,
            action@ == Request::RefreshSystem(
                system::system_request(old(self).wanted, *old(self).config),
            ),
    {
        self.stage = Stage::System;
        Action::RefreshSystem(system::refresh_kind(self.wanted, self.config))
    }

    /// Goes on to the traffic, or past it.
    fn ask_networks<T: Copy>(&mut self, data: &mut Data<T>, now: u128) -> (action: Action)
        requires
            old(data).well_formed(),
        ensures
            final(self).continues(*old(self)),
            final(data).well_formed(),
            final(self).outcome(*final(data), action) == to_networks(
                old(self).wanted,
                old(data)@,
                now,
            ),
    {
        if self.wanted.contains(Variable::DlSpeed) || self.wanted.contains(Variable::UlSpeed) {
            self.stage = Stage::Networks;
            Action::RefreshNetworks
        } else {
            data.download_speed = None;
            data.upload_speed = None;
            self.ask_components(data, now)
        }
    }

    /// Goes on to the sensors, or past them.
    fn ask_components<T: Copy>(&mut self, data: &mut Data<T>, now: u128) -> (action: Action)
        requires
            old(data).well_formed(),
        ensures
            final(self).continues(*old(self)),
            final(data).well_formed(),
            final(self).outcome(*final(data), action) == to_components(
                old(self).wanted,
                old(data)@,
                now,
            ),
    {
        if self.wanted.contains(Variable::CpuTemp) || self.wanted.contains(Variable::GpuTemp) {
            self.stage = Stage::Components;
            Action::RefreshComponents
        } else {
            data.cpu_temp = None;
            data.gpu_temp = None;
            self.ask_gpu_usage(data, now, None)
        }
    }

    /// Goes on to the usage of the graphics card, or past it.
    fn ask_gpu_usage<T: Copy>(
        &mut self,
        data: &mut Data<T>,
        now: u128,
        nvidia: Option<Option<u64>>,
    ) -> (action: Action)
        requires
            old(data).well_formed(),
        ensures
            final(self).continues(*old(self)),
            final(data).well_formed(),
            final(self).outcome(*final(data), action) == to_gpu_usage(
                old(self).wanted,
                old(data)@,
                now,
                nvidia,
            ),
    {
        if self.wanted.contains(Variable::GpuUsage) {
            self.stage = Stage::GpuUsage { nvidia };
            Action::ReadGpuUsage
        } else {
            data.gpu_usage = None;
            self.ask_addresses(data, now)
        }
    }

    /// Goes on to the addresses, or past them.
    fn ask_addresses<T: Copy>(&mut self, data: &mut Data<T>, now: u128) -> (action: Action)
        requires
            old(data).well_formed(),
        ensures
            final(self).continues(*old(self)),
            final(data).well_formed(),
            final(self).outcome(*final(data), action) == to_addresses(
                old(self).wanted,
                old(data)@,
                now,
            ),
    {
        let due = now >= data.next_ip_fetch;
        if self.wanted.contains(Variable::PublicIpv4) && (data.public_ipv4.is_none() || due) {
            self.stage = Stage::Ipv4 { due };
            Action::FetchPublicIp(IpVersion::V4)
        } else if self.wanted.contains(Variable::PublicIpv6) && (data.public_ipv6.is_none()
            || due) {
            self.stage = Stage::Ipv6 { failed: false };
            Action::FetchPublicIp(IpVersion::V6)
        } else {
            self.end(data)
        }
    }

    /// Sets the time of the next fetch, and gives the delay that was chosen.
    fn schedule<T: Copy>(data: &mut Data<T>, now: u128, failed: bool) -> (delay: Ghost<u128>)
        requires
            old(data).well_formed(),
            now <= data::CLOCK_MAX,
        ensures
            final(data).well_formed(),
            retry::may_delay(old(data)@.retry_interval, delay@ as nat),
            final(data)@ == scheduled(old(data)@, now, delay@, failed),
    {
        if failed {
            let delay = retry::next_delay(&mut data.ip_backoff);
            data.next_ip_fetch = retry_at(now, delay);
            Ghost(delay->0)
        } else {
            let ghost interval = old(data)@.retry_interval;
            retry::reset(&mut data.ip_backoff);
            data.next_ip_fetch = now + data::IP_REFRESH_INTERVAL;
            Ghost(interval as u128)
        }
    }

    /// Forgets the addresses that are not wanted, and ends.
    fn end<T: Copy>(&mut self, data: &mut Data<T>) -> (action: Action)
        requires
            old(data).well_formed(),
        ensures
            final(self).continues(*old(self)),
            final(data).well_formed(),
            final(self).outcome(*final(data), action) == to_end(old(self).wanted, old(data)@),
    {
        if !self.wanted.contains(Variable::PublicIpv4) {
            data.public_ipv4 = None;
        }
        if !self.wanted.contains(Variable::PublicIpv6) {
            data.public_ipv6 = None;
        }
        self.stage = Stage::Done;
        Action::Done
    }

    /// Takes the answer to what was asked last, given at the time `now`, into the readings, and
    /// says what to ask next.
    pub fn step<T: Copy>(&mut self, data: &mut Data<T>, event: Event<T>, now: u128) -> (action:
        Action)
        requires
            old(data).well_formed(),
            acceptable(old(self).wanted, *old(self).config, old(self).stage, old(data)@, event),
            now <= data::CLOCK_MAX,
        ensures
            final(self).continues(*old(self)),
            final(data).well_formed(),
            exists|delay: u128|
                #[trigger] retry::may_delay(old(data)@.retry_interval, delay as nat)
                    && final(self).outcome(*final(data), action) == next(
                    old(self).wanted,
                    *old(self).config,
                    old(self).stage,
                    old(data)@,
                    event,
                    now,
                    delay,
                ),
    {
        let ghost interval = old(data)@.retry_interval;
        assert(retry::may_delay(interval, (interval as u128) as nat));
        match (self.stage, event) {
            (Stage::Start, _) => {
                if (self.wanted.contains(Variable::DlSpeed) || self.wanted.contains(
                    Variable::UlSpeed,
                )) && now > data.last_interface_scan && now - data.last_interface_scan
                    > data::INTERFACE_SCAN_INTERVAL {
                    self.stage = Stage::Interfaces;
                    Action::ScanInterfaces
                } else {
                    self.ask_system()
                }
            },
            (Stage::Interfaces, Event::Interfaces(entries)) => {
                data.physical_interfaces =
                Data::<T>::detect_physical_interfaces(self.config, &entries);
                data.last_interface_scan = now;
                self.ask_system()
            },
            (Stage::System, Event::System(sample)) => {
                data.cpu_usage = if self.wanted.contains(Variable::CpuUsage) {
                    Some(sample.global_cpu_usage)
                } else {
                    None
                };
                data.ram_usage = if self.wanted.contains(Variable::RamUsage) {
                    sample.ram_usage(self.config.include_swap_in_ram)
                } else {
                    None
                };
                self.ask_networks(data, now)
            },
            (Stage::Networks, Event::Networks(samples)) => {
                match network::traffic(&samples, &data.physical_interfaces) {
                    Some((transmitted, received)) => {
                        self.stage = Stage::Rounding { received, transmitted };
                        Action::RoundTraffic { received, transmitted }
                    },
                    None => Action::Done,
                }
            },
            (
                Stage::Rounding { received, transmitted },
                Event::Rounded { received: down, transmitted: up },
            ) => {
                data.download_speed = if self.wanted.contains(Variable::DlSpeed) {
                    Some(Speed { bytes: received, tenths: down })
                } else {
                    None
                };
                data.upload_speed = if self.wanted.contains(Variable::UlSpeed) {
                    Some(Speed { bytes: transmitted, tenths: up })
                } else {
                    None
                };
                self.ask_components(data, now)
            },
            (Stage::Components, Event::Components(components)) => {
                data.cpu_temp = if self.wanted.contains(Variable::CpuTemp) {
                    Data::<T>::find_cpu_temp(&components)
                } else {
                    None
                };
                data.gpu_temp = if self.wanted.contains(Variable::GpuTemp) {
                    Data::<T>::find_gpu_temp(&components)
                } else {
                    None
                };
                if self.wanted.contains(Variable::GpuTemp) && data.gpu_temp.is_none() {
                    self.stage = Stage::NvidiaForTemp;
                    Action::QueryNvidiaSmi
                } else {
                    self.ask_gpu_usage(data, now, None)
                }
            },
            (Stage::NvidiaForTemp, Event::Nvidia(reading)) => {
                let (temp, load) = match reading {
                    Some((temp, load)) => (temp, load),
                    None => (None, None),
                };
                data.gpu_temp = temp;
                self.ask_gpu_usage(data, now, Some(load))
            },
            (Stage::GpuUsage { nvidia }, Event::GpuUsage(contents)) => {
                let usage = Data::<T>::find_gpu_usage_sysfs(&contents);
                if usage.is_some() {
                    data.gpu_usage = usage;
                    self.ask_addresses(data, now)
                } else {
                    match nvidia {
                        Some(load) => {
                            data.gpu_usage = load;
                            self.ask_addresses(data, now)
                        },
                        None => {
                            self.stage = Stage::NvidiaForUsage;
                            Action::QueryNvidiaSmi
                        },
                    }
                }
            },
            (Stage::NvidiaForUsage, Event::Nvidia(reading)) => {
                data.gpu_usage = match reading {
                    Some((_, load)) => load,
                    None => None,
                };
                self.ask_addresses(data, now)
            },
            (Stage::Ipv4 { due }, Event::PublicIp(output)) => {
                data.public_ipv4 = Data::<T>::fetch_public_ip(&output);
                let failed = data.public_ipv4.is_none();
                if self.wanted.contains(Variable::PublicIpv6) && (data.public_ipv6.is_none()
                    || due) {
                    self.stage = Stage::Ipv6 { failed };
                    Action::FetchPublicIp(IpVersion::V6)
                } else {
                    let delay = Self::schedule(data, now, failed);
                    assert(retry::may_delay(interval, delay@ as nat));
                    self.end(data)
                }
            },
            (Stage::Ipv6 { failed }, Event::PublicIp(output)) => {
                data.public_ipv6 = Data::<T>::fetch_public_ip(&output);
                let any_failed = failed || data.public_ipv6.is_none();
                let delay = Self::schedule(data, now, any_failed);
                assert(retry::may_delay(interval, delay@ as nat));
                self.end(data)
            },
            _ => Action::Done,
        }
    }
}

} // verus!
