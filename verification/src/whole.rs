//! What a refresh does from its start to its end.
use vstd::prelude::*;
use crate::command::CommandOutput;
use crate::config::SysInfoConfig;
use crate::data::DataView;
use crate::gpu;
use crate::network;
use crate::network::{InterfaceEntry, NetworkSample};
use crate::public_ip;
use crate::public_ip::IpVersion;
use crate::reading::Speed;
use crate::refresh;
use crate::refresh::{Event, Outcome, Request, Stage};
use crate::sensors;
use crate::sensors::Component;
use crate::system::SystemSample;
use crate::template::{Requires, Variable};

verus! {

/// Everything that the sources would say if they were asked, and when they would say it. No source
/// is asked twice in a refresh.
pub struct Answers<T> {
    /// When the refresh starts.
    pub started: u128,
    /// When the answer to each request is there.
    pub clock: spec_fn(Request) -> u128,
    pub interfaces: Vec<InterfaceEntry>,
    pub system: SystemSample<T>,
    pub networks: Vec<NetworkSample>,
    /// So many bytes in tenths of a megabyte.
    pub tenths: spec_fn(u64) -> u64,
    pub components: Vec<Component<T>>,
    pub contents: Vec<String>,
    pub nvidia: Option<(Option<T>, Option<u64>)>,
    pub ipv4: Option<CommandOutput>,
    pub ipv6: Option<CommandOutput>,
}

/// The answer to `request`.
pub open spec fn answer<T>(answers: Answers<T>, request: Request) -> Event<T> {
    match request {
        Request::ScanInterfaces => Event::Interfaces(answers.interfaces),
        Request::RefreshSystem(_) => Event::System(answers.system),
        Request::RefreshNetworks => Event::Networks(answers.networks),
        Request::RoundTraffic { received, transmitted } => Event::Rounded {
            received: (answers.tenths)(received),
            transmitted: (answers.tenths)(transmitted),
        },
        Request::RefreshComponents => Event::Components(answers.components),
        Request::ReadGpuUsage => Event::GpuUsage(answers.contents),
        Request::QueryNvidiaSmi => Event::Nvidia(answers.nvidia),
        Request::FetchPublicIp(IpVersion::V4) => Event::PublicIp(answers.ipv4),
        Request::FetchPublicIp(IpVersion::V6) => Event::PublicIp(answers.ipv6),
        Request::Done => Event::Started,
    }
}

/// A refresh that has come to `outcome`, up to `rounds` answers later.
pub open spec fn talk<T>(
    wanted: Requires,
    config: SysInfoConfig,
    answers: Answers<T>,
    delay: u128,
    outcome: Outcome<T>,
    rounds: nat,
) -> Outcome<T>
    decreases rounds,
{
    if rounds == 0 || outcome.request is Done {
        outcome
    } else {
        talk(
            wanted,
            config,
            answers,
            delay,
            refresh::next(
                wanted,
                config,
                outcome.stage,
                outcome.data,
                answer(answers, outcome.request),
                (answers.clock)(outcome.request),
                delay,
            ),
            (rounds - 1) as nat,
        )
    }
}

/// A refresh from its start.
pub open spec fn conversation<T>(
    wanted: Requires,
    config: SysInfoConfig,
    data: DataView<T>,
    answers: Answers<T>,
    delay: u128,
    rounds: nat,
) -> Outcome<T> {
    talk(
        wanted,
        config,
        answers,
        delay,
        refresh::next(wanted, config, Stage::Start, data, Event::Started, answers.started, delay),
        rounds,
    )
}

/// The list of interfaces is asked for.
pub open spec fn scans<T>(wanted: Requires, data: DataView<T>, answers: Answers<T>) -> bool {
    refresh::wants_traffic(wanted) && refresh::scan_due(data, answers.started)
}

/// The interfaces that count when the traffic is added up.
pub open spec fn interfaces<T>(
    wanted: Requires,
    config: SysInfoConfig,
    data: DataView<T>,
    answers: Answers<T>,
) -> Seq<Seq<char>> {
    if scans(wanted, data, answers) {
        network::physical(config, answers.interfaces@)
    } else {
        data.physical_interfaces
    }
}

/// The bytes received by the interfaces `names`.
pub open spec fn received<T>(answers: Answers<T>, names: Seq<Seq<char>>) -> u64 {
    network::received(answers.networks@, names) as u64
}

/// The bytes sent by the interfaces `names`.
pub open spec fn transmitted<T>(answers: Answers<T>, names: Seq<Seq<char>>) -> u64 {
    network::transmitted(answers.networks@, names) as u64
}

/// So many bytes as a speed.
pub open spec fn speed<T>(answers: Answers<T>, bytes: u64) -> Speed {
    Speed { bytes, tenths: (answers.tenths)(bytes) }
}

/// `a`, or else `b`.
pub open spec fn or_else<A>(a: Option<A>, b: Option<A>) -> Option<A> {
    match a {
        Some(_) => a,
        None => b,
    }
}

/// `value` if it is wanted.
pub open spec fn if_wanted<A>(wanted: Requires, variable: Variable, value: Option<A>) -> Option<
    A,
> {
    if wanted.has(variable) {
        value
    } else {
        None
    }
}

/// All readings but the addresses: what is wanted is as the sources say, and nothing else is kept.
pub open spec fn readings<T>(
    wanted: Requires,
    config: SysInfoConfig,
    data: DataView<T>,
    answers: Answers<T>,
) -> DataView<T> {
    let names = interfaces(wanted, config, data, answers);
    DataView {
        physical_interfaces: names,
        last_interface_scan: if scans(wanted, data, answers) {
            (answers.clock)(Request::ScanInterfaces)
        } else {
            data.last_interface_scan
        },
        cpu_usage: if_wanted(wanted, Variable::CpuUsage, Some(answers.system.global_cpu_usage)),
        ram_usage: if_wanted(
            wanted,
            Variable::RamUsage,
            Some(answers.system.percentage(config.include_swap_in_ram) as u64),
        ),
        download_speed: if_wanted(
            wanted,
            Variable::DlSpeed,
            Some(speed(answers, received(answers, names))),
        ),
        upload_speed: if_wanted(
            wanted,
            Variable::UlSpeed,
            Some(speed(answers, transmitted(answers, names))),
        ),
        cpu_temp: if_wanted(
            wanted,
            Variable::CpuTemp,
            sensors::cpu_temperature(answers.components@),
        ),
        gpu_temp: if_wanted(
            wanted,
            Variable::GpuTemp,
            or_else(
                sensors::gpu_temperature(answers.components@),
                refresh::nvidia_temp(answers.nvidia),
            ),
        ),
        gpu_usage: if_wanted(
            wanted,
            Variable::GpuUsage,
            or_else(
                gpu::first_number(answers.contents@),
                refresh::nvidia_load(answers.nvidia),
            ),
        ),
        ..data
    }
}

/// The address of a version is fetched: it is wanted, and it is missing or due.
pub open spec fn fetches<T>(
    wanted: Requires,
    data: DataView<T>,
    now: u128,
    version: IpVersion,
) -> bool {
    match version {
        IpVersion::V4 => wanted.has(Variable::PublicIpv4) && (data.public_ipv4 is None || now
            >= data.next_ip_fetch),
        IpVersion::V6 => wanted.has(Variable::PublicIpv6) && (data.public_ipv6 is None || now
            >= data.next_ip_fetch),
    }
}

/// The addresses, where the time is `now` when it is decided whether to fetch them.
///
/// What is not wanted is forgotten. What is fetched is as the answer says. If anything is fetched,
/// the time of the next fetch is set: soon if any fetch failed, and if none did when the addresses
/// have had their time.
pub open spec fn with_addresses<T>(
    wanted: Requires,
    data: DataView<T>,
    answers: Answers<T>,
    now: u128,
    delay: u128,
) -> DataView<T> {
    let fetches_v4 = fetches(wanted, data, now, IpVersion::V4);
    let fetches_v6 = fetches(wanted, data, now, IpVersion::V6);
    let told = DataView {
        public_ipv4: if fetches_v4 {
            public_ip::fetched(answers.ipv4)
        } else {
            if_wanted(wanted, Variable::PublicIpv4, data.public_ipv4)
        },
        public_ipv6: if fetches_v6 {
            public_ip::fetched(answers.ipv6)
        } else {
            if_wanted(wanted, Variable::PublicIpv6, data.public_ipv6)
        },
        ..data
    };
    let failed = (fetches_v4 && public_ip::fetched(answers.ipv4) is None) || (fetches_v6
        && public_ip::fetched(answers.ipv6) is None);
    if fetches_v6 {
        refresh::scheduled(
            told,
            (answers.clock)(Request::FetchPublicIp(IpVersion::V6)),
            delay,
            failed,
        )
    } else if fetches_v4 {
        refresh::scheduled(
            told,
            (answers.clock)(Request::FetchPublicIp(IpVersion::V4)),
            delay,
            failed,
        )
    } else {
        told
    }
}

/// What is asked of the traffic of the interfaces `names`.
pub open spec fn rounding<T>(answers: Answers<T>, names: Seq<Seq<char>>) -> Request {
    Request::RoundTraffic {
        received: received(answers, names),
        transmitted: transmitted(answers, names),
    }
}

/// When it is decided whether to fetch addresses: when the last answer before that is there. The
/// interfaces that count are `names`.
pub open spec fn decided_at<T>(
    wanted: Requires,
    config: SysInfoConfig,
    answers: Answers<T>,
    names: Seq<Seq<char>>,
) -> u128 {
    let asks_for_temp = wanted.has(Variable::GpuTemp) && sensors::gpu_temperature(
        answers.components@,
    ) is None;
    let asks_for_usage = wanted.has(Variable::GpuUsage) && gpu::first_number(
        answers.contents@,
    ) is None;
    if asks_for_usage && !asks_for_temp {
        (answers.clock)(Request::QueryNvidiaSmi)
    } else if wanted.has(Variable::GpuUsage) {
        (answers.clock)(Request::ReadGpuUsage)
    } else if asks_for_temp {
        (answers.clock)(Request::QueryNvidiaSmi)
    } else if refresh::wants_sensors(wanted) {
        (answers.clock)(Request::RefreshComponents)
    } else if refresh::wants_traffic(wanted) {
        (answers.clock)(rounding(answers, names))
    } else {
        (answers.clock)(
            Request::RefreshSystem(crate::system::system_request(wanted, config)),
        )
    }
}

/// The readings after a refresh.
pub open spec fn refreshed<T>(
    wanted: Requires,
    config: SysInfoConfig,
    data: DataView<T>,
    answers: Answers<T>,
    delay: u128,
) -> DataView<T> {
    with_addresses(
        wanted,
        readings(wanted, config, data, answers),
        answers,
        decided_at(wanted, config, answers, interfaces(wanted, config, data, answers)),
        delay,
    )
}

/// A refresh that has come to an end.
pub open spec fn ended<T>(data: DataView<T>) -> Outcome<T> {
    Outcome { stage: Stage::Done, data, request: Request::Done }
}

/// From the addresses on.
proof fn lemma_addresses<T>(
    wanted: Requires,
    config: SysInfoConfig,
    answers: Answers<T>,
    delay: u128,
    data: DataView<T>,
    now: u128,
    rounds: nat,
)
    requires
        rounds >= 2,
    ensures
        talk(wanted, config, answers, delay, refresh::to_addresses(wanted, data, now), rounds)
            == ended(with_addresses(wanted, data, answers, now, delay)),
{
    reveal_with_fuel(talk, 3);
}

/// From the usage of the graphics card on.
proof fn lemma_gpu_usage<T>(
    wanted: Requires,
    config: SysInfoConfig,
    answers: Answers<T>,
    delay: u128,
    data: DataView<T>,
    now: u128,
    nvidia: Option<Option<u64>>,
    rounds: nat,
)
    requires
        rounds >= (if nvidia is Some {
            3nat
        } else {
            4nat
        }),
        nvidia is Some ==> nvidia == Some(refresh::nvidia_load(answers.nvidia)),
    ensures
        ({
            let number = gpu::first_number(answers.contents@);
            let told = DataView {
                gpu_usage: if_wanted(
                    wanted,
                    Variable::GpuUsage,
                    or_else(number, refresh::nvidia_load(answers.nvidia)),
                ),
                ..data
            };
            let time = if !wanted.has(Variable::GpuUsage) {
                now
            } else if number is None && nvidia is None {
                (answers.clock)(Request::QueryNvidiaSmi)
            } else {
                (answers.clock)(Request::ReadGpuUsage)
            };
            talk(
                wanted,
                config,
                answers,
                delay,
                refresh::to_gpu_usage(wanted, data, now, nvidia),
                rounds,
            ) == ended(with_addresses(wanted, told, answers, time, delay))
        }),
{
    reveal_with_fuel(talk, 3);
    let number = gpu::first_number(answers.contents@);
    let told = DataView {
        gpu_usage: if_wanted(
            wanted,
            Variable::GpuUsage,
            or_else(number, refresh::nvidia_load(answers.nvidia)),
        ),
        ..data
    };
    if !wanted.has(Variable::GpuUsage) {
        lemma_addresses(wanted, config, answers, delay, told, now, rounds);
    } else if number is None && nvidia is None {
        lemma_addresses(
            wanted,
            config,
            answers,
            delay,
            told,
            (answers.clock)(Request::QueryNvidiaSmi),
            (rounds - 2) as nat,
        );
    } else {
        lemma_addresses(
            wanted,
            config,
            answers,
            delay,
            told,
            (answers.clock)(Request::ReadGpuUsage),
            (rounds - 1) as nat,
        );
    }
}

/// The readings with the temperatures and the usage of the graphics card.
spec fn with_sensors<T>(wanted: Requires, data: DataView<T>, answers: Answers<T>) -> DataView<T> {
    DataView {
        cpu_temp: if_wanted(
            wanted,
            Variable::CpuTemp,
            sensors::cpu_temperature(answers.components@),
        ),
        gpu_temp: if_wanted(
            wanted,
            Variable::GpuTemp,
            or_else(
                sensors::gpu_temperature(answers.components@),
                refresh::nvidia_temp(answers.nvidia),
            ),
        ),
        gpu_usage: if_wanted(
            wanted,
            Variable::GpuUsage,
            or_else(
                gpu::first_number(answers.contents@),
                refresh::nvidia_load(answers.nvidia),
            ),
        ),
        ..data
    }
}

/// From the sensors on.
proof fn lemma_components<T>(
    wanted: Requires,
    config: SysInfoConfig,
    answers: Answers<T>,
    delay: u128,
    data: DataView<T>,
    now: u128,
    rounds: nat,
)
    requires
        rounds >= 5,
        refresh::wants_sensors(wanted) || wanted.has(Variable::GpuUsage) || now == decided_at(
            wanted,
            config,
            answers,
            data.physical_interfaces,
        ),
    ensures
        talk(wanted, config, answers, delay, refresh::to_components(wanted, data, now), rounds)
            == ended(
            with_addresses(
                wanted,
                with_sensors(wanted, data, answers),
                answers,
                decided_at(wanted, config, answers, data.physical_interfaces),
                delay,
            ),
        ),
{
    reveal_with_fuel(talk, 3);
    let sensed = sensors::gpu_temperature(answers.components@);
    let cooled = DataView {
        cpu_temp: if_wanted(
            wanted,
            Variable::CpuTemp,
            sensors::cpu_temperature(answers.components@),
        ),
        gpu_temp: if_wanted(
            wanted,
            Variable::GpuTemp,
            or_else(sensed, refresh::nvidia_temp(answers.nvidia)),
        ),
        ..data
    };
    if !refresh::wants_sensors(wanted) {
        lemma_gpu_usage(wanted, config, answers, delay, cooled, now, None, rounds);
    } else if wanted.has(Variable::GpuTemp) && sensed is None {
        lemma_gpu_usage(
            wanted,
            config,
            answers,
            delay,
            cooled,
            (answers.clock)(Request::QueryNvidiaSmi),
            Some(refresh::nvidia_load(answers.nvidia)),
            (rounds - 2) as nat,
        );
    } else {
        lemma_gpu_usage(
            wanted,
            config,
            answers,
            delay,
            cooled,
            (answers.clock)(Request::RefreshComponents),
            None,
            (rounds - 1) as nat,
        );
    }
}

/// The readings with the traffic.
spec fn with_traffic<T>(wanted: Requires, data: DataView<T>, answers: Answers<T>) -> DataView<T> {
    DataView {
        download_speed: if_wanted(
            wanted,
            Variable::DlSpeed,
            Some(speed(answers, received(answers, data.physical_interfaces))),
        ),
        upload_speed: if_wanted(
            wanted,
            Variable::UlSpeed,
            Some(speed(answers, transmitted(answers, data.physical_interfaces))),
        ),
        ..data
    }
}

/// From the traffic on.
proof fn lemma_networks<T>(
    wanted: Requires,
    config: SysInfoConfig,
    answers: Answers<T>,
    delay: u128,
    data: DataView<T>,
    rounds: nat,
)
    requires
        rounds >= 7,
    ensures
        talk(
            wanted,
            config,
            answers,
            delay,
            refresh::to_networks(
                wanted,
                data,
                (answers.clock)(
                    Request::RefreshSystem(crate::system::system_request(wanted, config)),
                ),
            ),
            rounds,
        ) == ended(
            with_addresses(
                wanted,
                with_sensors(wanted, with_traffic(wanted, data, answers), answers),
                answers,
                decided_at(wanted, config, answers, data.physical_interfaces),
                delay,
            ),
        ),
{
    reveal_with_fuel(talk, 3);
    let told = with_traffic(wanted, data, answers);
    let now = (answers.clock)(
        Request::RefreshSystem(crate::system::system_request(wanted, config)),
    );
    if refresh::wants_traffic(wanted) {
        lemma_components(
            wanted,
            config,
            answers,
            delay,
            told,
            (answers.clock)(rounding(answers, data.physical_interfaces)),
            (rounds - 2) as nat,
        );
    } else {
        lemma_components(wanted, config, answers, delay, told, now, rounds);
    }
}

/// A refresh is over after at most nine answers, and leaves the readings as `refreshed` says:
/// each of them is what the sources say if it is wanted and nothing if it is not, and an address
/// is fetched only if it is missing or due.
pub proof fn law_refresh<T>(
    wanted: Requires,
    config: SysInfoConfig,
    data: DataView<T>,
    answers: Answers<T>,
    delay: u128,
    rounds: nat,
)
    requires
        rounds >= 9,
    ensures
        conversation(wanted, config, data, answers, delay, rounds) == ended(
            refreshed(wanted, config, data, answers, delay),
        ),
{
    reveal_with_fuel(talk, 3);
    let scanned = if scans(wanted, data, answers) {
        DataView {
            physical_interfaces: network::physical(config, answers.interfaces@),
            last_interface_scan: (answers.clock)(Request::ScanInterfaces),
            ..data
        }
    } else {
        data
    };
    let sampled = DataView {
        cpu_usage: if_wanted(wanted, Variable::CpuUsage, Some(answers.system.global_cpu_usage)),
        ram_usage: if_wanted(
            wanted,
            Variable::RamUsage,
            Some(answers.system.percentage(config.include_swap_in_ram) as u64),
        ),
        ..scanned
    };
    if scans(wanted, data, answers) {
        lemma_networks(wanted, config, answers, delay, sampled, (rounds - 2) as nat);
    } else {
        lemma_networks(wanted, config, answers, delay, sampled, (rounds - 1) as nat);
    }
    assert(with_sensors(wanted, with_traffic(wanted, sampled, answers), answers) =~= readings(
        wanted,
        config,
        data,
        answers,
    ));
}

} // verus!
