//! What a refresh does, in terms of what the machine answers and of what is made of each answer.
use vstd::prelude::*;
use crate::config::SysInfoConfig;
use crate::data::{Data, DataView};
use crate::network;
use crate::network::InterfaceEntry;
use crate::public_ip::IpVersion;
use crate::reading::Speed;
use crate::refresh;
use crate::refresh::{Action, Event, Refresh, Request, Stage};
use crate::retry;
use crate::system;
use crate::system::{CpuParts, MemoryParts, SystemParts, SystemSample};
use crate::template::Requires;
use crate::whole;
use crate::whole::Answers;

verus! {

// ---------------------------------------------------------------------------
// The readings and the actions
// ---------------------------------------------------------------------------

/// What readings stand for is what is stored, field by field.
pub proof fn law_readings_stand_for_what_is_stored<T>(data: Data<T>)
    ensures
        data@.physical_interfaces.len() == data.physical_interfaces@.len(),
        forall|i: int|
            0 <= i < data.physical_interfaces@.len() ==> #[trigger] data@.physical_interfaces[i]
                == data.physical_interfaces@[i]@,
        data@.last_interface_scan == data.last_interface_scan,
        data@.next_ip_fetch == data.next_ip_fetch,
        data@.retry_interval == retry::retry_interval(data.ip_backoff),
        data@.cpu_usage == data.cpu_usage,
        data@.ram_usage == data.ram_usage,
        data@.download_speed == data.download_speed,
        data@.upload_speed == data.upload_speed,
        data@.cpu_temp == data.cpu_temp,
        data@.gpu_temp == data.gpu_temp,
        data@.gpu_usage == data.gpu_usage,
        same_text(data@.public_ipv4, data.public_ipv4),
        same_text(data@.public_ipv6, data.public_ipv6),
{
}

/// `t` is the text of `string`, and there is one if and only if there is the other.
pub open spec fn same_text(t: Option<Seq<char>>, string: Option<String>) -> bool {
    match string {
        Some(s) => t == Some(s@),
        None => t is None,
    }
}

/// What an action stands for is what it asks, and what a state of a refresh stands for is what it
/// waits for, the readings and the action.
pub proof fn law_actions_stand_for_what_they_ask<'a, T>(
    refresh: Refresh<'a>,
    data: Data<T>,
    action: Action,
)
    ensures
        match action {
            Action::ScanInterfaces => action@ == Request::ScanInterfaces,
            Action::RefreshSystem(kind) => action@ == Request::RefreshSystem(
                system::system_parts(kind),
            ),
            Action::RefreshNetworks => action@ == Request::RefreshNetworks,
            Action::RoundTraffic { received, transmitted } => action@ == (Request::RoundTraffic {
                received,
                transmitted,
            }),
            Action::RefreshComponents => action@ == Request::RefreshComponents,
            Action::ReadGpuUsage => action@ == Request::ReadGpuUsage,
            Action::QueryNvidiaSmi => action@ == Request::QueryNvidiaSmi,
            Action::FetchPublicIp(version) => action@ == Request::FetchPublicIp(version),
            Action::Done => action@ == Request::Done,
        },
        refresh.outcome(data, action).stage == refresh.stage,
        refresh.outcome(data, action).data == data@,
        refresh.outcome(data, action).request == action@,
{
}

/// A refresh goes on with the same set of variables and the same settings, and readings are in
/// order as long as the delays after failures start at half a second and double up to five minutes.
pub proof fn law_refresh_goes_on_as_it_began<'a, T>(
    refresh: Refresh<'a>,
    before: Refresh<'a>,
    data: Data<T>,
)
    ensures
        refresh.continues(before) <==> refresh.wanted == before.wanted && refresh.config
            == before.config,
        data.well_formed() <==> retry::retry_settings(data.ip_backoff) == Some(
            retry::RetrySettings { initial: 500_000_000, cap: 300_000_000_000, growth: 2 },
        ) && 500_000_000 <= retry::retry_interval(data.ip_backoff) <= 300_000_000_000,
{
}

/// Each request gets the answer that belongs to it.
pub proof fn law_each_request_has_its_answer<T>(answers: Answers<T>, request: Request)
    ensures
        match request {
            Request::ScanInterfaces => whole::answer(answers, request) == Event::<T>::Interfaces(
                answers.interfaces,
            ),
            Request::RefreshSystem(_) => whole::answer(answers, request) == Event::System(
                answers.system,
            ),
            Request::RefreshNetworks => whole::answer(answers, request) == Event::<T>::Networks(
                answers.networks,
            ),
            Request::RoundTraffic { received, transmitted } => whole::answer(answers, request)
                == (Event::<T>::Rounded {
                received: (answers.tenths)(received),
                transmitted: (answers.tenths)(transmitted),
            }),
            Request::RefreshComponents => whole::answer(answers, request) == Event::Components(
                answers.components,
            ),
            Request::ReadGpuUsage => whole::answer(answers, request) == Event::<T>::GpuUsage(
                answers.contents,
            ),
            Request::QueryNvidiaSmi => whole::answer(answers, request) == Event::Nvidia(
                answers.nvidia,
            ),
            Request::FetchPublicIp(version) => whole::answer(answers, request)
                == Event::<T>::PublicIp(
                if version is V4 {
                    answers.ipv4
                } else {
                    answers.ipv6
                },
            ),
            Request::Done => true,
        },
{
}

/// New readings are unknown. The interfaces are those that count among the ones that are listed,
/// the list is from now, a fetch of the addresses is due at once, and the first delay after a
/// failure is around half a second; the delays double up to five minutes.
pub proof fn law_new_readings_are_unknown<T: Copy>(
    config: SysInfoConfig,
    entries: Vec<InterfaceEntry>,
    now: u128,
    interfaces: Vec<String>,
    data: Data<T>,
)
    requires
        call_ensures(Data::<T>::new, (&config, &entries, now), data),
        call_ensures(Data::<T>::detect_physical_interfaces, (&config, &entries), interfaces),
    ensures
        data.physical_interfaces@.len() == interfaces@.len(),
        forall|i: int|
            0 <= i < interfaces@.len() ==> (#[trigger] data.physical_interfaces@[i])@
                == interfaces@[i]@,
        data.last_interface_scan == now,
        data.next_ip_fetch == now,
        retry::retry_interval(data.ip_backoff) == 500_000_000,
        retry::retry_settings(data.ip_backoff) == Some(
            retry::RetrySettings { initial: 500_000_000, cap: 300_000_000_000, growth: 2 },
        ),
        data.cpu_usage is None,
        data.ram_usage is None,
        data.download_speed is None,
        data.upload_speed is None,
        data.cpu_temp is None,
        data.gpu_temp is None,
        data.gpu_usage is None,
        data.public_ipv4 is None,
        data.public_ipv6 is None,
{
    let stored = network::texts(data.physical_interfaces@);
    let detected = network::texts(interfaces@);
    assert(stored == data@.physical_interfaces);
    assert(stored.len() == data.physical_interfaces@.len());
    assert(detected.len() == interfaces@.len());
    assert forall|i: int| 0 <= i < interfaces@.len() implies (
    #[trigger] data.physical_interfaces@[i])@ == interfaces@[i]@ by {
        assert(stored[i] == data.physical_interfaces@[i]@);
        assert(detected[i] == interfaces@[i]@);
    }
}

/// Only the answer to what is waited for is taken, and it is taken unless its figures cannot be
/// reckoned with: memory whose usage is wanted of which there is none, sums beyond 64 bits, or
/// traffic that is not rounded to the nearest tenth.
pub proof fn law_answers_are_taken_if_they_can_be_reckoned_with<'a, T: Copy>(
    refresh: Refresh<'a>,
    data: Data<T>,
    event: Event<T>,
    yes: bool,
)
    requires
        call_ensures(Refresh::accepts::<T>, (&refresh, &data, &event), yes),
    ensures
        yes == (match refresh.stage {
            Stage::Start => event is Started,
            Stage::Interfaces => event is Interfaces,
            Stage::System => event is System && (refresh.wanted.ram_usage ==> {
                let sample = event->System_0;
                if refresh.config.include_swap_in_ram {
                    (sample.used_memory + sample.used_swap) * 100 <= u64::MAX && 0
                        < sample.total_memory + sample.total_swap <= u64::MAX
                } else {
                    sample.used_memory * 100 <= u64::MAX && 0 < sample.total_memory
                }
            }),
            Stage::Networks => event is Networks && network::transmitted(
                event->Networks_0@,
                data@.physical_interfaces,
            ) <= u64::MAX && network::received(event->Networks_0@, data@.physical_interfaces)
                <= u64::MAX,
            Stage::Rounding { received, transmitted } => event is Rounded && (received
                <= 4_503_599_627_370_496 ==> -50_000 <= event->Rounded_received * 100_000
                - received <= 50_000) && (transmitted <= 4_503_599_627_370_496 ==> -50_000
                <= event->Rounded_transmitted * 100_000 - transmitted <= 50_000),
            Stage::Components => event is Components,
            Stage::NvidiaForTemp => event is Nvidia,
            Stage::GpuUsage { .. } => event is GpuUsage,
            Stage::NvidiaForUsage => event is Nvidia,
            Stage::Ipv4 { .. } => event is PublicIp,
            Stage::Ipv6 { .. } => event is PublicIp,
            Stage::Done => false,
        }),
{
}

/// A retry is due after the delay that was chosen, or after five minutes if none was.
pub proof fn law_retry_is_after_the_delay(now: u128, delay: Option<u128>, time: u128)
    requires
        call_ensures(refresh::retry_at, (now, delay), time),
    ensures
        delay matches Some(chosen) ==> time == now + chosen,
        delay is None ==> time == now + 300_000_000_000,
{
}

/// A delay is at least half the interval, and at most one and a half times the interval and a
/// nanosecond; the interval then grows by its factor, up to its cap.
pub proof fn law_delays_are_around_the_interval(
    settings: retry::RetrySettings,
    interval: nat,
    delay: nat,
)
    ensures
        retry::may_delay(interval, delay) <==> interval <= 2 * delay + 1 && delay <= interval
            + interval / 2 + 1,
        retry::grown(settings, interval) <= settings.cap,
        interval * settings.growth < settings.cap ==> retry::grown(settings, interval) == interval
            * settings.growth,
        interval * settings.growth >= settings.cap ==> retry::grown(settings, interval)
            == settings.cap,
{
}

// ---------------------------------------------------------------------------
// What is asked
// ---------------------------------------------------------------------------

/// Each source is asked only when what it tells is needed: the interfaces, if traffic is wanted
/// and the list is more than ten seconds old; `nvidia-smi`, if what was asked before has not told;
/// an address, if it is wanted and either missing or due. What is asked of the system is what is
/// wanted of it, and the traffic that is to be rounded is what the networks have told.
pub proof fn law_sources_are_asked_when_needed<T>(
    wanted: Requires,
    config: SysInfoConfig,
    stage: Stage,
    data: DataView<T>,
    event: Event<T>,
    now: u128,
    delay: u128,
)
    requires
        refresh::acceptable(wanted, config, stage, data, event),
    ensures
        ({
            let outcome = refresh::next(wanted, config, stage, data, event, now, delay);
            match outcome.request {
                Request::ScanInterfaces => {
                    &&& wanted.dl_speed || wanted.ul_speed
                    &&& now > data.last_interface_scan + 10_000_000_000
                },
                Request::RefreshSystem(parts) => {
                    &&& parts.memory is Some <==> wanted.ram_usage
                    &&& parts.memory matches Some(memory) ==> memory.ram && (memory.swap
                        <==> config.include_swap_in_ram)
                    &&& parts.cpu is Some <==> wanted.cpu_usage
                    &&& parts.cpu matches Some(cpu) ==> cpu.usage && !cpu.frequency
                    &&& !parts.processes
                },
                Request::RefreshNetworks => wanted.dl_speed || wanted.ul_speed,
                Request::RoundTraffic { received, transmitted } => {
                    &&& event is Networks
                    &&& received == network::received(
                        event->Networks_0@,
                        data.physical_interfaces,
                    )
                    &&& transmitted == network::transmitted(
                        event->Networks_0@,
                        data.physical_interfaces,
                    )
                },
                Request::RefreshComponents => wanted.cpu_temp || wanted.gpu_temp,
                Request::ReadGpuUsage => wanted.gpu_usage,
                Request::QueryNvidiaSmi => {
                    ||| event is Components && wanted.gpu_temp && outcome.data.gpu_temp is None
                    ||| event is GpuUsage
                },
                Request::FetchPublicIp(IpVersion::V4) => {
                    &&& wanted.public_ipv4
                    &&& data.public_ipv4 is None || now >= data.next_ip_fetch
                },
                Request::FetchPublicIp(IpVersion::V6) => {
                    &&& wanted.public_ipv6
                    &&& data.public_ipv6 is None || now >= data.next_ip_fetch || (
                    stage matches Stage::Ipv4 { due } && due)
                },
                Request::Done => true,
            }
        }),
{
}

/// The addresses are remembered as due, when the first is asked for, if and only if they are.
pub proof fn law_due_is_remembered<T>(
    wanted: Requires,
    config: SysInfoConfig,
    stage: Stage,
    data: DataView<T>,
    event: Event<T>,
    now: u128,
    delay: u128,
)
    requires
        refresh::acceptable(wanted, config, stage, data, event),
    ensures
        refresh::next(wanted, config, stage, data, event, now, delay).stage matches Stage::Ipv4 {
            due,
        } ==> due == (now >= data.next_ip_fetch),
{
}

// ---------------------------------------------------------------------------
// What a step changes
// ---------------------------------------------------------------------------

/// A reading stays as it was, or is dropped because it is not wanted.
pub open spec fn kept_or_dropped<A>(before: Option<A>, after: Option<A>, wanted: bool) -> bool {
    after == before || !wanted && after is None
}

/// The figures of the system set the usage of the processors and of the memory, and nothing else
/// sets them.
pub proof fn law_system_sets_its_readings<T>(
    wanted: Requires,
    config: SysInfoConfig,
    stage: Stage,
    data: DataView<T>,
    event: Event<T>,
    now: u128,
    delay: u128,
    percent: Option<u64>,
)
    requires
        refresh::acceptable(wanted, config, stage, data, event),
        event matches Event::System(sample) ==> call_ensures(
            SystemSample::<T>::ram_usage,
            (&sample, config.include_swap_in_ram),
            percent,
        ),
    ensures
        ({
            let after = refresh::next(wanted, config, stage, data, event, now, delay).data;
            match event {
                Event::System(sample) => {
                    &&& after.cpu_usage == (if wanted.cpu_usage {
                        Some(sample.global_cpu_usage)
                    } else {
                        None
                    })
                    &&& after.ram_usage == (if wanted.ram_usage {
                        percent
                    } else {
                        None
                    })
                },
                _ => after.cpu_usage == data.cpu_usage && after.ram_usage == data.ram_usage,
            }
        }),
{
}

/// The list of interfaces sets those that count, and the rounded traffic sets the speeds; nothing
/// else sets them.
pub proof fn law_networks_set_their_readings<T: Copy>(
    wanted: Requires,
    config: SysInfoConfig,
    stage: Stage,
    data: DataView<T>,
    event: Event<T>,
    now: u128,
    delay: u128,
    detected: Vec<String>,
)
    requires
        refresh::acceptable(wanted, config, stage, data, event),
        event matches Event::Interfaces(entries) ==> call_ensures(
            Data::<T>::detect_physical_interfaces,
            (&config, &entries),
            detected,
        ),
    ensures
        ({
            let after = refresh::next(wanted, config, stage, data, event, now, delay).data;
            &&& event is Interfaces ==> {
                &&& after.last_interface_scan == now
                &&& after.physical_interfaces.len() == detected@.len()
                &&& forall|i: int|
                    0 <= i < detected@.len() ==> #[trigger] after.physical_interfaces[i]
                        == detected@[i]@
            }
            &&& event !is Interfaces ==> {
                &&& after.last_interface_scan == data.last_interface_scan
                &&& after.physical_interfaces == data.physical_interfaces
            }
            &&& match (stage, event) {
                (
                    Stage::Rounding { received, transmitted },
                    Event::Rounded { received: down, transmitted: up },
                ) => {
                    &&& after.download_speed == (if wanted.dl_speed {
                        Some(Speed { bytes: received, tenths: down })
                    } else {
                        None
                    })
                    &&& after.upload_speed == (if wanted.ul_speed {
                        Some(Speed { bytes: transmitted, tenths: up })
                    } else {
                        None
                    })
                },
                _ => {
                    let traffic = wanted.dl_speed || wanted.ul_speed;
                    &&& kept_or_dropped(data.download_speed, after.download_speed, traffic)
                    &&& kept_or_dropped(data.upload_speed, after.upload_speed, traffic)
                },
            }
        }),
{
    if let Event::Interfaces(entries) = event {
        let after = refresh::next(wanted, config, stage, data, event, now, delay).data;
        assert(after.physical_interfaces == network::texts(detected@));
        assert(network::texts(detected@).len() == detected@.len());
        assert forall|i: int| 0 <= i < detected@.len() implies #[trigger] network::texts(
            detected@,
        )[i] == detected@[i]@ by {}
    }
}

/// The sensors set the temperatures, `nvidia-smi` that of the graphics card if the sensors did not,
/// the kernel's files its usage, and `nvidia-smi` that if the files did not; nothing else sets
/// them.
pub proof fn law_sensors_set_their_readings<T: Copy>(
    wanted: Requires,
    config: SysInfoConfig,
    stage: Stage,
    data: DataView<T>,
    event: Event<T>,
    now: u128,
    delay: u128,
    cpu: Option<T>,
    gpu: Option<T>,
    usage: Option<u64>,
)
    requires
        refresh::acceptable(wanted, config, stage, data, event),
        event matches Event::Components(components) ==> call_ensures(
            Data::<T>::find_cpu_temp,
            (&components,),
            cpu,
        ) && call_ensures(Data::<T>::find_gpu_temp, (&components,), gpu),
        event matches Event::GpuUsage(contents) ==> call_ensures(
            Data::<T>::find_gpu_usage_sysfs,
            (&contents,),
            usage,
        ),
    ensures
        ({
            let outcome = refresh::next(wanted, config, stage, data, event, now, delay);
            let after = outcome.data;
            let sensed = wanted.cpu_temp || wanted.gpu_temp;
            &&& event is Components ==> after.cpu_temp == (if wanted.cpu_temp {
                cpu
            } else {
                None
            })
            &&& event !is Components ==> kept_or_dropped(data.cpu_temp, after.cpu_temp, sensed)
            &&& match (stage, event) {
                (_, Event::Components(_)) => after.gpu_temp == (if wanted.gpu_temp {
                    gpu
                } else {
                    None
                }),
                (Stage::NvidiaForTemp, Event::Nvidia(Some((temperature, _)))) => after.gpu_temp
                    == temperature,
                (Stage::NvidiaForTemp, Event::Nvidia(None)) => after.gpu_temp is None,
                _ => kept_or_dropped(data.gpu_temp, after.gpu_temp, sensed),
            }
            &&& match (stage, event) {
                (Stage::GpuUsage { nvidia }, _) => match (usage, nvidia) {
                    (Some(_), _) => after.gpu_usage == usage,
                    (None, Some(load)) => after.gpu_usage == load,
                    (None, None) => outcome.request is QueryNvidiaSmi,
                },
                (Stage::NvidiaForUsage, Event::Nvidia(Some((_, load)))) => after.gpu_usage == load,
                (Stage::NvidiaForUsage, Event::Nvidia(None)) => after.gpu_usage is None,
                _ => kept_or_dropped(data.gpu_usage, after.gpu_usage, wanted.gpu_usage),
            }
            &&& outcome.stage matches Stage::GpuUsage { nvidia } ==> match (stage, event) {
                (Stage::NvidiaForTemp, Event::Nvidia(Some((_, load)))) => nvidia == Some(load),
                (Stage::NvidiaForTemp, Event::Nvidia(None)) => nvidia == Some(None::<u64>),
                _ => nvidia is None,
            }
        }),
{
}

/// The answers of `curl` set the addresses, and after the last of them the time of the next fetch
/// is set; nothing else sets them.
pub proof fn law_answers_set_the_addresses<T: Copy>(
    wanted: Requires,
    config: SysInfoConfig,
    stage: Stage,
    data: DataView<T>,
    event: Event<T>,
    now: u128,
    delay: u128,
    address: Option<String>,
)
    requires
        refresh::acceptable(wanted, config, stage, data, event),
        stage is Ipv4 ==> wanted.public_ipv4,
        stage is Ipv6 ==> wanted.public_ipv6,
        event matches Event::PublicIp(output) ==> call_ensures(
            Data::<T>::fetch_public_ip,
            (&output,),
            address,
        ),
        now + delay <= u128::MAX,
        now + 300_000_000_000 <= u128::MAX,
    ensures
        ({
            let outcome = refresh::next(wanted, config, stage, data, event, now, delay);
            let after = outcome.data;
            let failed = address is None || (stage matches Stage::Ipv6 { failed } && failed);
            &&& stage is Ipv4 ==> same_text(after.public_ipv4, address)
            &&& stage !is Ipv4 ==> kept_or_dropped(
                data.public_ipv4,
                after.public_ipv4,
                wanted.public_ipv4,
            )
            &&& stage is Ipv6 ==> same_text(after.public_ipv6, address)
            &&& stage !is Ipv6 ==> kept_or_dropped(
                data.public_ipv6,
                after.public_ipv6,
                wanted.public_ipv6,
            )
            &&& outcome.request is Done ==> {
                &&& !wanted.public_ipv4 ==> after.public_ipv4 is None
                &&& !wanted.public_ipv6 ==> after.public_ipv6 is None
            }
            &&& event !is PublicIp || outcome.request !is Done ==> {
                &&& after.next_ip_fetch == data.next_ip_fetch
                &&& after.retry_interval == data.retry_interval
            }
            &&& event is PublicIp && outcome.request is Done && !failed ==> {
                &&& after.next_ip_fetch == now + 300_000_000_000
                &&& after.retry_interval == 500_000_000
            }
            &&& event is PublicIp && outcome.request is Done && failed ==> {
                &&& after.next_ip_fetch == now + delay
                &&& after.retry_interval == (if data.retry_interval * 2 >= 300_000_000_000 {
                    300_000_000_000
                } else {
                    data.retry_interval * 2
                })
            }
            &&& stage is Ipv4 && outcome.request !is Done ==> outcome.stage == (Stage::Ipv6 {
                failed: address is None,
            })
            &&& stage !is Ipv4 && outcome.stage is Ipv6 ==> outcome.stage == (Stage::Ipv6 {
                failed: false,
            })
        }),
{
}

/// What is asked next, from the `from`-th source on: the networks, the sensors, the kernel's files,
/// the first address, the second; the first of them that is needed.
pub open spec fn next_needed<T>(
    wanted: Requires,
    data: DataView<T>,
    now: u128,
    from: int,
) -> Request {
    let due = now >= data.next_ip_fetch;
    if from <= 0 && (wanted.dl_speed || wanted.ul_speed) {
        Request::RefreshNetworks
    } else if from <= 1 && (wanted.cpu_temp || wanted.gpu_temp) {
        Request::RefreshComponents
    } else if from <= 2 && wanted.gpu_usage {
        Request::ReadGpuUsage
    } else if from <= 3 && wanted.public_ipv4 && (data.public_ipv4 is None || due) {
        Request::FetchPublicIp(IpVersion::V4)
    } else if from <= 4 && wanted.public_ipv6 && (data.public_ipv6 is None || due) {
        Request::FetchPublicIp(IpVersion::V6)
    } else {
        Request::Done
    }
}

/// The sources are asked in one order, and none that is needed is left out: the interfaces and the
/// system first, then the networks, the sensors, the kernel's files and the addresses, with
/// `nvidia-smi` after the sensors or after the files if they have not told.
pub proof fn law_no_source_that_is_needed_is_left_out<T>(
    wanted: Requires,
    config: SysInfoConfig,
    stage: Stage,
    data: DataView<T>,
    event: Event<T>,
    now: u128,
    delay: u128,
)
    requires
        refresh::acceptable(wanted, config, stage, data, event),
    ensures
        ({
            let outcome = refresh::next(wanted, config, stage, data, event, now, delay);
            match stage {
                Stage::Start => if (wanted.dl_speed || wanted.ul_speed) && now
                    > data.last_interface_scan + 10_000_000_000 {
                    outcome.request is ScanInterfaces
                } else {
                    outcome.request is RefreshSystem
                },
                Stage::Interfaces => outcome.request is RefreshSystem,
                Stage::System => outcome.request == next_needed(wanted, data, now, 0),
                Stage::Networks => outcome.request is RoundTraffic,
                Stage::Rounding { .. } => outcome.request == next_needed(wanted, data, now, 1),
                Stage::Components => outcome.request == (if wanted.gpu_temp
                    && outcome.data.gpu_temp is None {
                    Request::QueryNvidiaSmi
                } else {
                    next_needed(wanted, data, now, 2)
                }),
                Stage::NvidiaForTemp => outcome.request == next_needed(wanted, data, now, 2),
                Stage::GpuUsage { .. } => outcome.request is QueryNvidiaSmi || outcome.request
                    == next_needed(wanted, data, now, 3),
                Stage::NvidiaForUsage => outcome.request == next_needed(wanted, data, now, 3),
                Stage::Ipv4 { due } => outcome.request == (if wanted.public_ipv6 && (
                data.public_ipv6 is None || due) {
                    Request::FetchPublicIp(IpVersion::V6)
                } else {
                    Request::Done
                }),
                Stage::Ipv6 { .. } => outcome.request is Done,
                Stage::Done => false,
            }
        }),
{
}

// ---------------------------------------------------------------------------
// What is left
// ---------------------------------------------------------------------------

/// The usage of the processors is what the system says, and that of the memory what is reckoned
/// of what the system says, if they are wanted; if not they are not known.
pub proof fn law_refresh_reads_the_system<T>(
    wanted: Requires,
    config: SysInfoConfig,
    data: DataView<T>,
    answers: Answers<T>,
    delay: u128,
    rounds: nat,
    percent: Option<u64>,
)
    requires
        rounds >= 9,
        call_ensures(
            SystemSample::<T>::ram_usage,
            (&answers.system, config.include_swap_in_ram),
            percent,
        ),
        wanted.ram_usage ==> percent is Some,
    ensures
        ({
            let end = whole::conversation(wanted, config, data, answers, delay, rounds);
            &&& end.request is Done
            &&& end.data.cpu_usage == (if wanted.cpu_usage {
                Some(answers.system.global_cpu_usage)
            } else {
                None
            })
            &&& end.data.ram_usage == (if wanted.ram_usage {
                percent
            } else {
                None
            })
        }),
{
    whole::law_refresh(wanted, config, data, answers, delay, rounds);
}

/// If traffic is wanted and the list of interfaces is more than ten seconds old, those that count
/// are found anew among the ones that are listed; if not they stay. The speeds that are wanted are
/// what those interfaces have received and sent; the others are not known.
pub proof fn law_refresh_reads_the_traffic<T: Copy>(
    wanted: Requires,
    config: SysInfoConfig,
    data: DataView<T>,
    answers: Answers<T>,
    delay: u128,
    rounds: nat,
    detected: Vec<String>,
    names: Vec<String>,
    totals: Option<(u64, u64)>,
)
    requires
        rounds >= 9,
        call_ensures(
            Data::<T>::detect_physical_interfaces,
            (&config, &answers.interfaces),
            detected,
        ),
        ({
            let due = (wanted.dl_speed || wanted.ul_speed) && answers.started
                > data.last_interface_scan + 10_000_000_000;
            if due {
                names@ == detected@
            } else {
                &&& names@.len() == data.physical_interfaces.len()
                &&& forall|i: int|
                    0 <= i < names@.len() ==> (#[trigger] names@[i])@
                        == data.physical_interfaces[i]
            }
        }),
        call_ensures(network::traffic, (&answers.networks, &names), totals),
        totals is Some,
    ensures
        ({
            let end = whole::conversation(wanted, config, data, answers, delay, rounds);
            let due = (wanted.dl_speed || wanted.ul_speed) && answers.started
                > data.last_interface_scan + 10_000_000_000;
            let (up, down) = totals->0;
            &&& end.data.physical_interfaces.len() == names@.len()
            &&& forall|i: int|
                0 <= i < names@.len() ==> #[trigger] end.data.physical_interfaces[i]
                    == names@[i]@
            &&& end.data.last_interface_scan == (if due {
                (answers.clock)(Request::ScanInterfaces)
            } else {
                data.last_interface_scan
            })
            &&& end.data.download_speed == (if wanted.dl_speed {
                Some(Speed { bytes: down, tenths: (answers.tenths)(down) })
            } else {
                None
            })
            &&& end.data.upload_speed == (if wanted.ul_speed {
                Some(Speed { bytes: up, tenths: (answers.tenths)(up) })
            } else {
                None
            })
        }),
{
    whole::law_refresh(wanted, config, data, answers, delay, rounds);
    let end = whole::conversation(wanted, config, data, answers, delay, rounds);
    let texts = network::texts(names@);
    assert(texts.len() == names@.len());
    assert forall|i: int| 0 <= i < names@.len() implies #[trigger] texts[i] == names@[i]@ by {}
    assert(end.data.physical_interfaces =~= texts);
}

/// The temperature of the processor is what the sensors say; that of the graphics card is what the
/// sensors say, or else `nvidia-smi`; its usage is what the kernel's files say, or else
/// `nvidia-smi`. What is not wanted is not known.
pub proof fn law_refresh_reads_the_sensors<T: Copy>(
    wanted: Requires,
    config: SysInfoConfig,
    data: DataView<T>,
    answers: Answers<T>,
    delay: u128,
    rounds: nat,
    cpu: Option<T>,
    gpu: Option<T>,
    usage: Option<u64>,
)
    requires
        rounds >= 9,
        call_ensures(Data::<T>::find_cpu_temp, (&answers.components,), cpu),
        call_ensures(Data::<T>::find_gpu_temp, (&answers.components,), gpu),
        call_ensures(Data::<T>::find_gpu_usage_sysfs, (&answers.contents,), usage),
    ensures
        ({
            let end = whole::conversation(wanted, config, data, answers, delay, rounds);
            &&& end.data.cpu_temp == (if wanted.cpu_temp {
                cpu
            } else {
                None
            })
            &&& !wanted.gpu_temp ==> end.data.gpu_temp is None
            &&& wanted.gpu_temp && gpu is Some ==> end.data.gpu_temp == gpu
            &&& wanted.gpu_temp && gpu is None ==> match answers.nvidia {
                Some((temperature, _)) => end.data.gpu_temp == temperature,
                None => end.data.gpu_temp is None,
            }
            &&& !wanted.gpu_usage ==> end.data.gpu_usage is None
            &&& wanted.gpu_usage && usage is Some ==> end.data.gpu_usage == usage
            &&& wanted.gpu_usage && usage is None ==> match answers.nvidia {
                Some((_, load)) => end.data.gpu_usage == load,
                None => end.data.gpu_usage is None,
            }
        }),
{
    whole::law_refresh(wanted, config, data, answers, delay, rounds);
}

/// The last thing that is asked before it is decided whether to fetch addresses, where the sensors
/// and the kernel's files tell `gpu` and `usage` of the graphics card and the interfaces that count
/// have received and sent so many bytes.
pub open spec fn asked_before_addresses<T>(
    wanted: Requires,
    config: SysInfoConfig,
    gpu: Option<T>,
    usage: Option<u64>,
    received: u64,
    transmitted: u64,
) -> Request {
    if wanted.gpu_usage && usage is None && !(wanted.gpu_temp && gpu is None) {
        Request::QueryNvidiaSmi
    } else if wanted.gpu_usage {
        Request::ReadGpuUsage
    } else if wanted.gpu_temp && gpu is None {
        Request::QueryNvidiaSmi
    } else if wanted.cpu_temp || wanted.gpu_temp {
        Request::RefreshComponents
    } else if wanted.dl_speed || wanted.ul_speed {
        Request::RoundTraffic { received, transmitted }
    } else {
        Request::RefreshSystem(
            SystemParts {
                processes: false,
                memory: if wanted.ram_usage {
                    Some(MemoryParts { ram: true, swap: config.include_swap_in_ram })
                } else {
                    None
                },
                cpu: if wanted.cpu_usage {
                    Some(CpuParts { usage: true, frequency: false })
                } else {
                    None
                },
            },
        )
    }
}

/// An address that is not wanted is not known. One that is wanted is fetched if it is missing or
/// due, and is then what the answer says, even if that is nothing; if not it stays. If anything is
/// fetched, the next fetch is due five minutes after the last answer and the delays start anew, or
/// if a fetch failed, after the delay that was chosen, and the next delay is around twice as long,
/// up to five minutes. If nothing is fetched, nothing of that changes.
pub proof fn law_refresh_fetches_addresses<T: Copy>(
    wanted: Requires,
    config: SysInfoConfig,
    data: DataView<T>,
    answers: Answers<T>,
    delay: u128,
    rounds: nat,
    gpu: Option<T>,
    usage: Option<u64>,
    received: u64,
    transmitted: u64,
    first: Option<String>,
    second: Option<String>,
)
    requires
        rounds >= 9,
        call_ensures(Data::<T>::find_gpu_temp, (&answers.components,), gpu),
        call_ensures(Data::<T>::find_gpu_usage_sysfs, (&answers.contents,), usage),
        ({
            let end = whole::conversation(wanted, config, data, answers, delay, rounds);
            &&& received == network::received(answers.networks@, end.data.physical_interfaces)
            &&& transmitted == network::transmitted(
                answers.networks@,
                end.data.physical_interfaces,
            )
        }),
        call_ensures(Data::<T>::fetch_public_ip, (&answers.ipv4,), first),
        call_ensures(Data::<T>::fetch_public_ip, (&answers.ipv6,), second),
        forall|request: Request|
            #[trigger] (answers.clock)(request) + delay <= u128::MAX && (answers.clock)(request)
                + 300_000_000_000 <= u128::MAX,
    ensures
        ({
            let end = whole::conversation(wanted, config, data, answers, delay, rounds);
            let now = (answers.clock)(
                asked_before_addresses(wanted, config, gpu, usage, received, transmitted),
            );
            let due = now >= data.next_ip_fetch;
            let fetches_first = wanted.public_ipv4 && (data.public_ipv4 is None || due);
            let fetches_second = wanted.public_ipv6 && (data.public_ipv6 is None || due);
            let failed = fetches_first && first is None || fetches_second && second is None;
            let last = (answers.clock)(
                Request::FetchPublicIp(
                    if fetches_second {
                        IpVersion::V6
                    } else {
                        IpVersion::V4
                    },
                ),
            );
            &&& fetches_first ==> same_text(end.data.public_ipv4, first)
            &&& !fetches_first ==> end.data.public_ipv4 == (if wanted.public_ipv4 {
                data.public_ipv4
            } else {
                None
            })
            &&& fetches_second ==> same_text(end.data.public_ipv6, second)
            &&& !fetches_second ==> end.data.public_ipv6 == (if wanted.public_ipv6 {
                data.public_ipv6
            } else {
                None
            })
            &&& !fetches_first && !fetches_second ==> end.data.next_ip_fetch == data.next_ip_fetch
                && end.data.retry_interval == data.retry_interval
            &&& (fetches_first || fetches_second) && !failed ==> end.data.next_ip_fetch == last
                + 300_000_000_000 && end.data.retry_interval == 500_000_000
            &&& failed ==> end.data.next_ip_fetch == last + delay && end.data.retry_interval == (
            if data.retry_interval * 2 >= 300_000_000_000 {
                300_000_000_000
            } else {
                data.retry_interval * 2
            })
        }),
{
    whole::law_refresh(wanted, config, data, answers, delay, rounds);
}

} // verus!
