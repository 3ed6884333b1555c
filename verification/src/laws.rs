//! What holds of the readings, whatever the sources say.
use vstd::prelude::*;
use vstd::arithmetic::power2::pow2;
use crate::config::SysInfoConfig;
use crate::data;
use crate::data::DataView;
use crate::gpu;
use crate::network;
use crate::network::{InterfaceEntry, NetworkSample};
use crate::public_ip;
use crate::public_ip::IpVersion;
use crate::reading;
use crate::reading::{Reading, Rounded};
use crate::refresh;
use crate::refresh::{Event, Request, Stage};
use crate::render;
use crate::render::SpanView;
use crate::retry;
use crate::sensors;
use crate::system::SystemSample;
use crate::template::{Requires, Segment, Variable};
use crate::text;
use crate::whole;
use crate::whole::Answers;

verus! {

// ---------------------------------------------------------------------------
// What a refresh asks
// ---------------------------------------------------------------------------

/// A refresh of `wanted` can come to wait for what `stage` says.
pub open spec fn reachable(wanted: Requires, stage: Stage) -> bool {
    match stage {
        Stage::Interfaces => refresh::wants_traffic(wanted),
        Stage::Networks => refresh::wants_traffic(wanted),
        Stage::Rounding { .. } => refresh::wants_traffic(wanted),
        Stage::Components => refresh::wants_sensors(wanted),
        Stage::NvidiaForTemp => wanted.has(Variable::GpuTemp),
        Stage::GpuUsage { .. } => wanted.has(Variable::GpuUsage),
        Stage::NvidiaForUsage => wanted.has(Variable::GpuUsage),
        Stage::Ipv4 { .. } => wanted.has(Variable::PublicIpv4),
        Stage::Ipv6 { .. } => wanted.has(Variable::PublicIpv6),
        _ => true,
    }
}

/// Something that is wanted calls for `request`.
pub open spec fn called_for(wanted: Requires, config: SysInfoConfig, request: Request) -> bool {
    match request {
        Request::ScanInterfaces => refresh::wants_traffic(wanted),
        Request::RefreshSystem(parts) => parts == crate::system::system_request(wanted, config),
        Request::RefreshNetworks => refresh::wants_traffic(wanted),
        Request::RoundTraffic { .. } => refresh::wants_traffic(wanted),
        Request::RefreshComponents => refresh::wants_sensors(wanted),
        Request::ReadGpuUsage => wanted.has(Variable::GpuUsage),
        Request::QueryNvidiaSmi => wanted.has(Variable::GpuTemp) || wanted.has(Variable::GpuUsage),
        Request::FetchPublicIp(IpVersion::V4) => wanted.has(Variable::PublicIpv4),
        Request::FetchPublicIp(IpVersion::V6) => wanted.has(Variable::PublicIpv6),
        Request::Done => true,
    }
}

/// `stage` waits for the answer to `request`.
pub open spec fn waits_for(stage: Stage, request: Request) -> bool {
    match stage {
        Stage::Start => false,
        Stage::Interfaces => request is ScanInterfaces,
        Stage::System => request is RefreshSystem,
        Stage::Networks => request is RefreshNetworks,
        Stage::Rounding { received, transmitted } => request == (Request::RoundTraffic {
            received,
            transmitted,
        }),
        Stage::Components => request is RefreshComponents,
        Stage::NvidiaForTemp => request is QueryNvidiaSmi,
        Stage::GpuUsage { .. } => request is ReadGpuUsage,
        Stage::NvidiaForUsage => request is QueryNvidiaSmi,
        Stage::Ipv4 { .. } => request == Request::FetchPublicIp(IpVersion::V4),
        Stage::Ipv6 { .. } => request == Request::FetchPublicIp(IpVersion::V6),
        Stage::Done => request is Done,
    }
}

/// How far a refresh has come.
pub open spec fn progress(stage: Stage) -> nat {
    match stage {
        Stage::Start => 0,
        Stage::Interfaces => 1,
        Stage::System => 2,
        Stage::Networks => 3,
        Stage::Rounding { .. } => 4,
        Stage::Components => 5,
        Stage::NvidiaForTemp => 6,
        Stage::GpuUsage { .. } => 7,
        Stage::NvidiaForUsage => 8,
        Stage::Ipv4 { .. } => 9,
        Stage::Ipv6 { .. } => 10,
        Stage::Done => 11,
    }
}

/// Only the sources that the wanted readings need are asked, and each step waits for the answer to
/// what it asks.
pub proof fn law_only_wanted_sources_are_asked<T>(
    wanted: Requires,
    config: SysInfoConfig,
    stage: Stage,
    data: DataView<T>,
    event: Event<T>,
    now: u128,
    delay: u128,
)
    requires
        reachable(wanted, stage),
        refresh::acceptable(wanted, config, stage, data, event),
    ensures
        ({
            let outcome = refresh::next(wanted, config, stage, data, event, now, delay);
            &&& reachable(wanted, outcome.stage)
            &&& called_for(wanted, config, outcome.request)
            &&& waits_for(outcome.stage, outcome.request)
        }),
{
}

/// Every step brings a refresh further, so no stage comes twice and a refresh always ends.
pub proof fn law_every_step_is_progress<T>(
    wanted: Requires,
    config: SysInfoConfig,
    stage: Stage,
    data: DataView<T>,
    event: Event<T>,
    now: u128,
    delay: u128,
)
    requires
        refresh::acceptable(wanted, config, stage, data, event),
    ensures
        progress(stage) < progress(
            refresh::next(wanted, config, stage, data, event, now, delay).stage,
        ) <= 11,
{
}

/// The delay that the retry schedule chooses bears on the last step of a refresh only.
pub proof fn law_delay_bears_on_the_last_step_only<T>(
    wanted: Requires,
    config: SysInfoConfig,
    stage: Stage,
    data: DataView<T>,
    event: Event<T>,
    now: u128,
    delay: u128,
    other: u128,
)
    requires
        refresh::next(wanted, config, stage, data, event, now, delay).request !is Done,
    ensures
        refresh::next(wanted, config, stage, data, event, now, delay) == refresh::next(
            wanted,
            config,
            stage,
            data,
            event,
            now,
            other,
        ),
{
}

/// The answer to what is waited for is taken, if its figures can be added up in 64 bits and the
/// traffic is rounded right.
pub proof fn law_answers_are_accepted<T>(
    wanted: Requires,
    config: SysInfoConfig,
    stage: Stage,
    data: DataView<T>,
    request: Request,
    answers: Answers<T>,
)
    requires
        waits_for(stage, request),
        stage !is Done,
        stage is System && wanted.has(Variable::RamUsage) ==> answers.system.has_percentage(
            config.include_swap_in_ram,
        ),
        stage is Networks ==> network::transmitted(answers.networks@, data.physical_interfaces)
            <= u64::MAX && network::received(answers.networks@, data.physical_interfaces)
            <= u64::MAX,
        stage matches Stage::Rounding { received, transmitted } ==> reading::may_round(
            received,
            (answers.tenths)(received),
        ) && reading::may_round(transmitted, (answers.tenths)(transmitted)),
    ensures
        refresh::acceptable(wanted, config, stage, data, whole::answer(answers, request)),
{
}

/// `nvidia-smi` has been asked, or will not be asked any more.
pub open spec fn nvidia_settled(stage: Stage) -> bool {
    match stage {
        Stage::NvidiaForTemp => true,
        Stage::GpuUsage { nvidia } => nvidia is Some,
        Stage::NvidiaForUsage => true,
        Stage::Ipv4 { .. } => true,
        Stage::Ipv6 { .. } => true,
        Stage::Done => true,
        _ => false,
    }
}

/// `nvidia-smi` is asked at most once in a refresh, and only if the sensors tell no temperature of
/// the graphics card that is wanted, or the kernel's files no usage that is wanted.
pub proof fn law_nvidia_is_asked_once_and_late<T>(
    wanted: Requires,
    config: SysInfoConfig,
    stage: Stage,
    data: DataView<T>,
    event: Event<T>,
    now: u128,
    delay: u128,
)
    requires
        reachable(wanted, stage),
        refresh::acceptable(wanted, config, stage, data, event),
    ensures
        ({
            let outcome = refresh::next(wanted, config, stage, data, event, now, delay);
            &&& outcome.request is QueryNvidiaSmi ==> {
                &&& !nvidia_settled(stage)
                &&& nvidia_settled(outcome.stage)
                &&& match event {
                    Event::Components(components) => wanted.has(Variable::GpuTemp)
                        && sensors::gpu_temperature(components@) is None,
                    Event::GpuUsage(contents) => wanted.has(Variable::GpuUsage)
                        && gpu::first_number(contents@) is None,
                    _ => false,
                }
            }
            &&& nvidia_settled(stage) ==> nvidia_settled(outcome.stage)
        }),
{
}

// ---------------------------------------------------------------------------
// What a refresh leaves
// ---------------------------------------------------------------------------

/// There is a reading of `variable`.
pub open spec fn known<T>(data: DataView<T>, variable: Variable) -> bool {
    match variable {
        Variable::CpuUsage => data.cpu_usage is Some,
        Variable::RamUsage => data.ram_usage is Some,
        Variable::CpuTemp => data.cpu_temp is Some,
        Variable::GpuTemp => data.gpu_temp is Some,
        Variable::GpuUsage => data.gpu_usage is Some,
        Variable::DlSpeed => data.download_speed is Some,
        Variable::UlSpeed => data.upload_speed is Some,
        Variable::PublicIpv4 => data.public_ipv4 is Some,
        Variable::PublicIpv6 => data.public_ipv6 is Some,
    }
}

/// A refresh leaves no reading that is not wanted.
pub proof fn law_unwanted_readings_are_dropped<T>(
    wanted: Requires,
    config: SysInfoConfig,
    data: DataView<T>,
    answers: Answers<T>,
    delay: u128,
    variable: Variable,
)
    requires
        !wanted.has(variable),
    ensures
        !known(whole::refreshed(wanted, config, data, answers, delay), variable),
{
}

/// A refresh leaves a reading of the processors, the memory and the traffic if it is wanted.
pub proof fn law_wanted_figures_are_known<T>(
    wanted: Requires,
    config: SysInfoConfig,
    data: DataView<T>,
    answers: Answers<T>,
    delay: u128,
    variable: Variable,
)
    requires
        wanted.has(variable),
        variable is CpuUsage || variable is RamUsage || variable is DlSpeed || variable is UlSpeed,
    ensures
        known(whole::refreshed(wanted, config, data, answers, delay), variable),
{
}

/// What was known before a refresh bears on nothing that it leaves but the interfaces, the
/// addresses and when to fetch them.
pub proof fn law_readings_are_fresh<T>(
    wanted: Requires,
    config: SysInfoConfig,
    data: DataView<T>,
    other: DataView<T>,
    answers: Answers<T>,
    delay: u128,
)
    requires
        data.physical_interfaces == other.physical_interfaces,
        data.last_interface_scan == other.last_interface_scan,
    ensures
        ({
            let a = whole::refreshed(wanted, config, data, answers, delay);
            let b = whole::refreshed(wanted, config, other, answers, delay);
            a == (DataView {
                next_ip_fetch: a.next_ip_fetch,
                retry_interval: a.retry_interval,
                public_ipv4: a.public_ipv4,
                public_ipv6: a.public_ipv6,
                ..b
            })
        }),
{
}

// ---------------------------------------------------------------------------
// Public addresses
// ---------------------------------------------------------------------------

/// An address that is wanted and known stays as it is until it is due; if nothing is fetched, the
/// time of the next fetch and the retry interval stay too.
pub proof fn law_address_is_kept_until_due<T>(
    wanted: Requires,
    data: DataView<T>,
    answers: Answers<T>,
    now: u128,
    delay: u128,
)
    requires
        now < data.next_ip_fetch,
    ensures
        ({
            let after = whole::with_addresses(wanted, data, answers, now, delay);
            &&& wanted.has(Variable::PublicIpv4) && data.public_ipv4 is Some
                ==> after.public_ipv4 == data.public_ipv4
            &&& wanted.has(Variable::PublicIpv6) && data.public_ipv6 is Some
                ==> after.public_ipv6 == data.public_ipv6
            &&& !whole::fetches(wanted, data, now, IpVersion::V4) && !whole::fetches(
                wanted,
                data,
                now,
                IpVersion::V6,
            ) ==> after.next_ip_fetch == data.next_ip_fetch && after.retry_interval
                == data.retry_interval
        }),
{
}

/// An address that is wanted and missing is fetched whatever the time, and so is one that is due;
/// what is left of it is what the answer says.
pub proof fn law_missing_or_due_address_is_fetched<T>(
    wanted: Requires,
    data: DataView<T>,
    answers: Answers<T>,
    now: u128,
    delay: u128,
)
    ensures
        ({
            let after = whole::with_addresses(wanted, data, answers, now, delay);
            let due = now >= data.next_ip_fetch;
            &&& wanted.has(Variable::PublicIpv4) && (data.public_ipv4 is None || due)
                ==> after.public_ipv4 == public_ip::fetched(answers.ipv4)
            &&& wanted.has(Variable::PublicIpv6) && (data.public_ipv6 is None || due)
                ==> after.public_ipv6 == public_ip::fetched(answers.ipv6)
        }),
{
}

/// An address that one refresh did not want is fetched anew by the next refresh that wants it,
/// whatever was known before and whenever the next fetch would be due.
pub proof fn law_dropped_address_is_fetched_anew<T>(
    first: Requires,
    second: Requires,
    config: SysInfoConfig,
    later_config: SysInfoConfig,
    data: DataView<T>,
    answers: Answers<T>,
    later_answers: Answers<T>,
    delay: u128,
    later_delay: u128,
    rounds: nat,
)
    requires
        rounds >= 9,
    ensures
        ({
            let between = whole::conversation(first, config, data, answers, delay, rounds).data;
            let after = whole::conversation(
                second,
                later_config,
                between,
                later_answers,
                later_delay,
                rounds,
            ).data;
            let decided = whole::decided_at(
                second,
                later_config,
                later_answers,
                whole::interfaces(second, later_config, between, later_answers),
            );
            &&& !first.has(Variable::PublicIpv4) && second.has(Variable::PublicIpv4) ==> {
                &&& whole::fetches(second, between, decided, IpVersion::V4)
                &&& after.public_ipv4 == public_ip::fetched(later_answers.ipv4)
            }
            &&& !first.has(Variable::PublicIpv6) && second.has(Variable::PublicIpv6) ==> {
                &&& whole::fetches(second, between, decided, IpVersion::V6)
                &&& after.public_ipv6 == public_ip::fetched(later_answers.ipv6)
            }
        }),
{
    whole::law_refresh(first, config, data, answers, delay, rounds);
    let between = whole::refreshed(first, config, data, answers, delay);
    whole::law_refresh(second, later_config, between, later_answers, later_delay, rounds);
}

/// When the addresses that are fetched are there, the next fetch is due five minutes later, and
/// the retry interval is the first one again.
pub proof fn law_success_sets_the_cadence<T>(
    wanted: Requires,
    data: DataView<T>,
    answers: Answers<T>,
    now: u128,
    delay: u128,
)
    requires
        whole::fetches(wanted, data, now, IpVersion::V4) || whole::fetches(
            wanted,
            data,
            now,
            IpVersion::V6,
        ),
        whole::fetches(wanted, data, now, IpVersion::V4) ==> public_ip::fetched(
            answers.ipv4,
        ) is Some,
        whole::fetches(wanted, data, now, IpVersion::V6) ==> public_ip::fetched(
            answers.ipv6,
        ) is Some,
        forall|request: Request| #[trigger] (answers.clock)(request) <= data::CLOCK_MAX,
    ensures
        ({
            let after = whole::with_addresses(wanted, data, answers, now, delay);
            let last = if whole::fetches(wanted, data, now, IpVersion::V6) {
                (answers.clock)(Request::FetchPublicIp(IpVersion::V6))
            } else {
                (answers.clock)(Request::FetchPublicIp(IpVersion::V4))
            };
            &&& after.next_ip_fetch == last + 300_000_000_000
            &&& after.retry_interval == 500_000_000
        }),
{
}

/// When an address that is fetched is not there, the next fetch is due after a delay around the
/// retry interval, and the retry interval becomes twice as long, up to five minutes.
pub proof fn law_failure_backs_off<T>(
    wanted: Requires,
    data: DataView<T>,
    answers: Answers<T>,
    now: u128,
    delay: u128,
)
    requires
        (whole::fetches(wanted, data, now, IpVersion::V4) && public_ip::fetched(
            answers.ipv4,
        ) is None) || (whole::fetches(wanted, data, now, IpVersion::V6) && public_ip::fetched(
            answers.ipv6,
        ) is None),
        forall|request: Request| #[trigger] (answers.clock)(request) <= data::CLOCK_MAX,
        data.retry_interval <= 300_000_000_000,
        retry::may_delay(data.retry_interval, delay as nat),
    ensures
        ({
            let after = whole::with_addresses(wanted, data, answers, now, delay);
            let last = if whole::fetches(wanted, data, now, IpVersion::V6) {
                (answers.clock)(Request::FetchPublicIp(IpVersion::V6))
            } else {
                (answers.clock)(Request::FetchPublicIp(IpVersion::V4))
            };
            &&& last + data.retry_interval / 2 <= after.next_ip_fetch
            &&& after.next_ip_fetch <= last + data.retry_interval + data.retry_interval / 2 + 1
            &&& after.retry_interval == (if data.retry_interval * 2 >= 300_000_000_000 {
                300_000_000_000
            } else {
                data.retry_interval * 2
            })
        }),
{
}

/// The retry interval after `failures` failures in a row.
pub open spec fn interval_after(failures: nat) -> nat
    decreases failures,
{
    if failures == 0 {
        data::ip_retry().initial
    } else {
        retry::grown(data::ip_retry(), interval_after((failures - 1) as nat))
    }
}

/// The retry interval grows exponentially: after `n` failures in a row it is half a second times
/// two to the power of `n`, or five minutes if that is less.
pub proof fn law_backoff_is_exponential(failures: nat)
    ensures
        interval_after(failures) == (if 500_000_000 * pow2(failures) >= 300_000_000_000 {
            300_000_000_000
        } else {
            500_000_000 * pow2(failures)
        }),
    decreases failures,
{
    vstd::arithmetic::power2::lemma2_to64();
    if failures > 0 {
        let before = (failures - 1) as nat;
        law_backoff_is_exponential(before);
        vstd::arithmetic::power2::lemma_pow2_unfold(failures);
    }
}

/// An address that was read is not empty, and has no white space at its ends.
pub proof fn law_address_is_trimmed(answer: Seq<char>)
    ensures
        match public_ip::address_in(answer) {
            Some(address) => {
                &&& address.len() > 0
                &&& !text::white_space(address.first())
                &&& !text::white_space(address.last())
            },
            None => forall|i: int|
                0 <= i < answer.len() ==> text::white_space(#[trigger] answer[i]),
        },
{
    lemma_trimmed_start(answer);
    lemma_trimmed_end(text::trimmed_start(answer));
}

/// What is left of a text without the white space it starts with.
proof fn lemma_trimmed_start(t: Seq<char>)
    ensures
        text::trimmed_start(t).len() > 0 ==> !text::white_space(text::trimmed_start(t).first()),
        text::trimmed_start(t).len() == 0 ==> forall|i: int|
            0 <= i < t.len() ==> text::white_space(#[trigger] t[i]),
    decreases t.len(),
{
    if t.len() > 0 && text::white_space(t.first()) {
        lemma_trimmed_start(t.drop_first());
        assert forall|i: int|
            text::trimmed_start(t).len() == 0 && 0 <= i < t.len() implies text::white_space(
            #[trigger] t[i],
        ) by {
            if i > 0 {
                assert(t.drop_first()[i - 1] == t[i]);
            }
        }
    }
}

/// What is left of a text without the white space it ends with.
proof fn lemma_trimmed_end(t: Seq<char>)
    ensures
        text::trimmed_end(t).len() > 0 ==> {
            &&& !text::white_space(text::trimmed_end(t).last())
            &&& text::trimmed_end(t).first() == t.first()
        },
        text::trimmed_end(t).len() == 0 ==> forall|i: int|
            0 <= i < t.len() ==> text::white_space(#[trigger] t[i]),
    decreases t.len(),
{
    if t.len() > 0 && text::white_space(t.last()) {
        lemma_trimmed_end(t.drop_last());
        assert forall|i: int|
            text::trimmed_end(t).len() == 0 && 0 <= i < t.len() implies text::white_space(
            #[trigger] t[i],
        ) by {
            if i < t.len() - 1 {
                assert(t.drop_last()[i] == t[i]);
            }
        }
    }
}

// ---------------------------------------------------------------------------
// Interfaces and traffic
// ---------------------------------------------------------------------------

/// An interface counts if and only if it is listed with a device behind it, it is among those to
/// include if any are named, and it is not among those to exclude.
pub proof fn law_physical_interfaces(
    config: SysInfoConfig,
    entries: Seq<InterfaceEntry>,
    name: Seq<char>,
)
    ensures
        network::physical(config, entries).contains(name) <==> {
            &&& exists|i: int|
                0 <= i < entries.len() && (#[trigger] entries[i]).name@ == name
                    && entries[i].has_device
            &&& network::included(config.include_interfaces, name)
            &&& !network::excluded(config.exclude_interfaces, name)
        },
{
    let keep = |e: InterfaceEntry| network::counts(config, e);
    let kept = entries.filter(keep);
    broadcast use vstd::seq_lib::group_filter_ensures;
    if network::physical(config, entries).contains(name) {
        let i = choose|i: int|
            0 <= i < network::physical(config, entries).len() && network::physical(
                config,
                entries,
            )[i] == name;
        assert(kept[i].name@ == name);
        assert(keep(kept[i]));
        assert(kept.contains(kept[i]));
        entries.lemma_filter_contains_rev(keep, kept[i]);
        let k = choose|k: int| 0 <= k < entries.len() && entries[k] == kept[i];
        assert(entries[k].name@ == name);
    }
    if network::included(config.include_interfaces, name) && !network::excluded(
        config.exclude_interfaces,
        name,
    ) && exists|i: int|
        0 <= i < entries.len() && (#[trigger] entries[i]).name@ == name && entries[i].has_device {
        let i = choose|i: int|
            0 <= i < entries.len() && (#[trigger] entries[i]).name@ == name
                && entries[i].has_device;
        assert(keep(entries[i]));
        assert(kept.contains(entries[i]));
        let k = choose|k: int| 0 <= k < kept.len() && kept[k] == entries[i];
        assert(network::physical(config, entries)[k] == name);
    }
}

/// The interfaces that count keep the order in which they are listed.
pub proof fn law_interfaces_keep_their_order(
    config: SysInfoConfig,
    first: Seq<InterfaceEntry>,
    second: Seq<InterfaceEntry>,
)
    ensures
        network::physical(config, first + second) == network::physical(config, first)
            + network::physical(config, second),
{
    let keep = |e: InterfaceEntry| network::counts(config, e);
    Seq::filter_distributes_over_add(first, second, keep);
    assert(network::physical(config, first + second) =~= network::physical(config, first)
        + network::physical(config, second));
}

/// Taking a sample out takes away what it adds.
proof fn lemma_traffic_without(samples: Seq<NetworkSample>, names: Seq<Seq<char>>, i: int)
    requires
        0 <= i < samples.len(),
    ensures
        network::transmitted(samples, names) == network::transmitted(samples.remove(i), names) + (
        if names.contains(samples[i].name@) {
            samples[i].transmitted as nat
        } else {
            0
        }),
        network::received(samples, names) == network::received(samples.remove(i), names) + (
        if names.contains(samples[i].name@) {
            samples[i].received as nat
        } else {
            0
        }),
    decreases samples.len(),
{
    if i == samples.len() - 1 {
        assert(samples.remove(i) == samples.drop_last());
    } else {
        lemma_traffic_without(samples.drop_last(), names, i);
        assert(samples.remove(i).drop_last() == samples.drop_last().remove(i));
        assert(samples.remove(i).last() == samples.last());
    }
}

/// The traffic does not depend on the order in which the interfaces are gone through.
pub proof fn law_traffic_does_not_depend_on_order(
    samples: Seq<NetworkSample>,
    other: Seq<NetworkSample>,
    names: Seq<Seq<char>>,
)
    requires
        samples.to_multiset() == other.to_multiset(),
    ensures
        network::transmitted(samples, names) == network::transmitted(other, names),
        network::received(samples, names) == network::received(other, names),
    decreases samples.len(),
{
    samples.to_multiset_ensures();
    other.to_multiset_ensures();
    if samples.len() > 0 {
        let last = samples.last();
        assert(samples.contains(last));
        assert(other.to_multiset().count(last) > 0);
        assert(other.contains(last));
        let i = choose|i: int| 0 <= i < other.len() && other[i] == last;
        lemma_traffic_without(other, names, i);
        lemma_traffic_without(samples, names, samples.len() - 1);
        assert(samples.remove(samples.len() - 1) == samples.drop_last());
        assert(samples.drop_last().to_multiset() =~= samples.to_multiset().remove(last));
        assert(other.remove(i).to_multiset() =~= other.to_multiset().remove(last));
        law_traffic_does_not_depend_on_order(samples.drop_last(), other.remove(i), names);
    } else {
        assert(other.len() == 0);
    }
}

// ---------------------------------------------------------------------------
// Sensors
// ---------------------------------------------------------------------------

/// A part of a label is enough for it to match.
pub proof fn law_part_of_a_label_matches<T>(
    before: Seq<char>,
    part: Seq<char>,
    after: Seq<char>,
    reading: Option<T>,
)
    ensures
        sensors::reading_for(part, seq![before + part + after], seq![reading]) == reading,
{
    let label = before + part + after;
    assert(label.subrange(before.len() as int, (before.len() + part.len()) as int) == part);
    assert(text::occurs_at(label, part, before.len() as int));
    assert(seq![label].first() == label);
}

/// An earlier part goes before a later one, wherever the sensors stand: the answer is the reading
/// of the first part that leads to one.
pub proof fn law_earlier_part_goes_first<T>(
    parts: Seq<Seq<char>>,
    labels: Seq<Seq<char>>,
    readings: Seq<Option<T>>,
    k: int,
)
    requires
        0 <= k < parts.len(),
        sensors::reading_for(parts[k], labels, readings) is Some,
        forall|j: int|
            0 <= j < k ==> sensors::reading_for(#[trigger] parts[j], labels, readings) is None,
    ensures
        sensors::first_reading(parts, labels, readings) == sensors::reading_for(
            parts[k],
            labels,
            readings,
        ),
    decreases parts.len(),
{
    if k > 0 {
        assert(sensors::reading_for(parts[0], labels, readings) is None);
        let rest = parts.drop_first();
        assert forall|j: int| 0 <= j < k - 1 implies sensors::reading_for(
            #[trigger] rest[j],
            labels,
            readings,
        ) is None by {
            assert(rest[j] == parts[j + 1]);
        }
        law_earlier_part_goes_first(rest, labels, readings, k - 1);
    }
}

/// A part leads to a sensor whose label holds it, the first one there is.
proof fn lemma_reading_for<T>(
    part: Seq<char>,
    labels: Seq<Seq<char>>,
    readings: Seq<Option<T>>,
)
    requires
        labels.len() == readings.len(),
        sensors::reading_for(part, labels, readings) is Some,
    ensures
        exists|i: int|
            0 <= i < labels.len() && text::contains_text(#[trigger] labels[i], part) && readings[i]
                == sensors::reading_for(part, labels, readings) && forall|j: int|
                0 <= j < i ==> !text::contains_text(#[trigger] labels[j], part),
    decreases labels.len(),
{
    if text::contains_text(labels.first(), part) {
        assert(text::contains_text(labels[0], part));
    } else {
        let labels_after = labels.drop_first();
        let readings_after = readings.drop_first();
        lemma_reading_for(part, labels_after, readings_after);
        let i = choose|i: int|
            0 <= i < labels_after.len() && text::contains_text(#[trigger] labels_after[i], part)
                && readings_after[i] == sensors::reading_for(part, labels_after, readings_after)
                && forall|j: int|
                0 <= j < i ==> !text::contains_text(#[trigger] labels_after[j], part);
        assert(labels[i + 1] == labels_after[i]);
        assert forall|j: int| 0 <= j < i + 1 implies !text::contains_text(
            #[trigger] labels[j],
            part,
        ) by {
            if j > 0 {
                assert(labels[j] == labels_after[j - 1]);
            }
        }
    }
}

/// A temperature that is found is one that a sensor reports, and the label of that sensor holds
/// one of the parts that were looked for; it is the first label to hold it.
pub proof fn law_reading_is_reported<T>(
    parts: Seq<Seq<char>>,
    labels: Seq<Seq<char>>,
    readings: Seq<Option<T>>,
)
    requires
        labels.len() == readings.len(),
        sensors::first_reading(parts, labels, readings) is Some,
    ensures
        exists|k: int, i: int|
            0 <= k < parts.len() && 0 <= i < labels.len() && #[trigger] text::contains_text(
                labels[i],
                parts[k],
            ) && readings[i] == sensors::first_reading(parts, labels, readings) && forall|j: int|
                0 <= j < i ==> !text::contains_text(#[trigger] labels[j], parts[k]),
    decreases parts.len(),
{
    if sensors::reading_for(parts.first(), labels, readings) is Some {
        lemma_reading_for(parts.first(), labels, readings);
        let i = choose|i: int|
            0 <= i < labels.len() && text::contains_text(#[trigger] labels[i], parts.first())
                && readings[i] == sensors::reading_for(parts.first(), labels, readings)
                && forall|j: int|
                0 <= j < i ==> !text::contains_text(#[trigger] labels[j], parts.first());
        assert(text::contains_text(labels[i], parts[0]));
    } else {
        let rest = parts.drop_first();
        law_reading_is_reported(rest, labels, readings);
        let (k, i) = choose|k: int, i: int|
            0 <= k < rest.len() && 0 <= i < labels.len() && #[trigger] text::contains_text(
                labels[i],
                rest[k],
            ) && readings[i] == sensors::first_reading(rest, labels, readings) && forall|j: int|
                0 <= j < i ==> !text::contains_text(#[trigger] labels[j], rest[k]);
        assert(parts[k + 1] == rest[k]);
        assert(text::contains_text(labels[i], parts[k + 1]));
    }
}

// ---------------------------------------------------------------------------
// Memory and texts
// ---------------------------------------------------------------------------

/// As long as no more memory is used than there is, its usage is at most one hundred percent.
pub proof fn law_usage_is_a_percentage<T>(sample: SystemSample<T>, include_swap: bool)
    requires
        sample.used(include_swap) <= sample.total(include_swap),
        sample.has_percentage(include_swap),
    ensures
        sample.percentage(include_swap) <= 100,
{
    let used = sample.used(include_swap);
    let total = sample.total(include_swap);
    assert(used * 100 / total <= 100) by (nonlinear_arith)
        requires
            used <= total,
            0 < total,
    ;
}

/// Swap space bears on the usage only if it counts as memory.
pub proof fn law_swap_counts_only_if_set<T>(
    sample: SystemSample<T>,
    other: SystemSample<T>,
)
    requires
        sample.used_memory == other.used_memory,
        sample.total_memory == other.total_memory,
    ensures
        sample.has_percentage(false) == other.has_percentage(false),
        sample.percentage(false) == other.percentage(false),
{
}

/// The digits of a number stand for that number.
proof fn lemma_decimal_digits(number: nat)
    ensures
        text::decimal_digits(number).len() > 0,
        forall|i: int|
            0 <= i < text::decimal_digits(number).len() ==> text::is_digit(
                #[trigger] text::decimal_digits(number)[i],
            ),
        text::digits_value(text::decimal_digits(number)) == number,
    decreases number,
{
    if number < 10 {
        let digits = text::decimal_digits(number);
        assert(digits.drop_last() == Seq::<char>::empty());
        assert(text::digits_value(digits.drop_last()) == 0);
    } else {
        lemma_decimal_digits(number / 10);
        let digits = text::decimal_digits(number);
        assert(digits.drop_last() == text::decimal_digits(number / 10));
    }
}

/// A number that is written in decimal is read back as it was.
pub proof fn law_written_numbers_are_read_back(number: u64)
    ensures
        text::number_in(text::decimal_digits(number as nat)) == Some(number),
{
    lemma_decimal_digits(number as nat);
    let digits = text::decimal_digits(number as nat);
    assert(text::is_digit(digits[0]));
}

/// A field is as wide as its text, and at least as wide as it has to be; what stands before the
/// text is spaces.
pub proof fn law_field_is_aligned_right(written: Seq<char>, width: nat)
    ensures
        text::padded(written, width).len() == (if written.len() < width {
            width
        } else {
            written.len()
        }),
        text::padded(written, width).skip(text::padded(written, width).len() - written.len())
            == written,
        forall|i: int|
            0 <= i < text::padded(written, width).len() - written.len() ==> #[trigger] text::padded(
                written,
                width,
            )[i] == ' ',
{
    assert(text::padded(written, width).skip(text::padded(written, width).len() - written.len())
        =~= written);
}

// ---------------------------------------------------------------------------
// What is shown
// ---------------------------------------------------------------------------

/// How wide the text for a reading is, where it does not outgrow its field.
pub open spec fn usual_width(variable: Variable) -> nat {
    match variable {
        Variable::CpuUsage => 3,
        Variable::RamUsage => 3,
        Variable::GpuUsage => 3,
        _ => 4,
    }
}

/// The number is shown with one or two digits and no sign.
pub open spec fn short(rounded: Rounded) -> bool {
    rounded matches Rounded::Number { negative, magnitude } && !negative && magnitude <= 99
}

/// The reading of `variable`, if it is known, is one that does not outgrow its field: a percentage
/// or a temperature that is shown as a number from 0 to 99, or a speed of at most 99.9 megabytes.
pub open spec fn reading_fits<V>(variable: Variable, data: DataView<Reading<V>>) -> bool {
    match variable {
        Variable::CpuUsage => data.cpu_usage matches Some(v) ==> short(v.rounded),
        Variable::RamUsage => data.ram_usage matches Some(v) ==> v <= 99,
        Variable::CpuTemp => data.cpu_temp matches Some(t) ==> short(t.rounded),
        Variable::GpuTemp => data.gpu_temp matches Some(t) ==> short(t.rounded),
        Variable::GpuUsage => data.gpu_usage matches Some(v) ==> v <= 99,
        Variable::DlSpeed => data.download_speed matches Some(speed) ==> speed.tenths <= 999,
        Variable::UlSpeed => data.upload_speed matches Some(speed) ==> speed.tenths <= 999,
        _ => false,
    }
}

/// A number up to 99 takes one or two digits, and one below ten takes one.
proof fn lemma_short_numbers(number: nat)
    requires
        number <= 99,
    ensures
        1 <= text::decimal_digits(number).len() <= 2,
        number < 10 ==> text::decimal_digits(number).len() == 1,
{
    reveal_with_fuel(text::decimal_digits, 3);
}

/// A speed of at most 99.9 takes three or four characters.
proof fn lemma_short_tenths(tenths: u64)
    requires
        tenths <= 999,
    ensures
        3 <= reading::tenths_text(tenths).len() <= 4,
{
    reveal_strlit(".");
    lemma_short_numbers((tenths / 10) as nat);
    lemma_short_numbers((tenths % 10) as nat);
}

/// As long as a reading does not outgrow its field, its text is as wide as the text that stands
/// for it when it is not known: three characters for a percentage, four for a temperature or a
/// speed.
pub proof fn law_texts_are_equally_wide<V>(variable: Variable, data: DataView<Reading<V>>)
    requires
        reading_fits(variable, data),
    ensures
        render::text_for(variable, data).len() == usual_width(variable),
{
    reveal_strlit("%");
    reveal_strlit("--%");
    reveal_strlit("°C");
    reveal_strlit("--°C");
    reveal_strlit(" -.-");
    assert forall|number: nat| number <= 99 implies 1 <= #[trigger] text::decimal_digits(
        number,
    ).len() <= 2 by {
        lemma_short_numbers(number);
    }
    assert forall|tenths: u64| tenths <= 999 implies 3 <= #[trigger] reading::tenths_text(
        tenths,
    ).len() <= 4 by {
        lemma_short_tenths(tenths);
    }
}

/// The speeds, if they are known, are rounded right.
pub open spec fn speeds_are_rounded<T>(data: DataView<T>) -> bool {
    &&& data.download_speed matches Some(speed) ==> reading::may_round(speed.bytes, speed.tenths)
    &&& data.upload_speed matches Some(speed) ==> reading::may_round(speed.bytes, speed.tenths)
}

/// Every step of a refresh keeps the speeds rounded right.
pub proof fn law_speeds_stay_rounded<T>(
    wanted: Requires,
    config: SysInfoConfig,
    stage: Stage,
    data: DataView<T>,
    event: Event<T>,
    now: u128,
    delay: u128,
)
    requires
        speeds_are_rounded(data),
        refresh::acceptable(wanted, config, stage, data, event),
    ensures
        speeds_are_rounded(refresh::next(wanted, config, stage, data, event, now, delay).data),
{
}

/// A number of bytes is rounded in one way only, unless it lies halfway between two tenths of a
/// megabyte.
pub proof fn law_speed_is_rounded_in_one_way(bytes: u64, tenths: u64, other: u64)
    requires
        bytes <= reading::EXACT_BYTES,
        bytes as u128 % reading::TENTH != reading::TENTH / 2,
        reading::may_round(bytes, tenths),
        reading::may_round(bytes, other),
    ensures
        tenths == other,
{
}

/// `a` and `b` have the same reading of `variable`.
pub open spec fn same_reading<T>(variable: Variable, a: DataView<T>, b: DataView<T>) -> bool {
    match variable {
        Variable::CpuUsage => a.cpu_usage == b.cpu_usage,
        Variable::RamUsage => a.ram_usage == b.ram_usage,
        Variable::CpuTemp => a.cpu_temp == b.cpu_temp,
        Variable::GpuTemp => a.gpu_temp == b.gpu_temp,
        Variable::GpuUsage => a.gpu_usage == b.gpu_usage,
        Variable::DlSpeed => a.download_speed == b.download_speed,
        Variable::UlSpeed => a.upload_speed == b.upload_speed,
        Variable::PublicIpv4 => a.public_ipv4 == b.public_ipv4,
        Variable::PublicIpv6 => a.public_ipv6 == b.public_ipv6,
    }
}

/// What is shown for a variable depends on its own reading alone: on the other readings neither
/// its text, nor whether that is lent, nor its colour.
pub proof fn law_only_its_own_reading_is_shown<V>(
    variable: Variable,
    a: DataView<Reading<V>>,
    b: DataView<Reading<V>>,
)
    requires
        same_reading(variable, a, b),
    ensures
        render::text_for(variable, a) == render::text_for(variable, b),
        render::lent(variable, a) == render::lent(variable, b),
        render::tinted(variable, a) == render::tinted(variable, b),
{
}

/// `a` and `b` have the same reading of each variable in `segments`.
pub open spec fn same_readings<T>(
    segments: Seq<Segment>,
    a: DataView<T>,
    b: DataView<T>,
) -> bool {
    forall|i: int|
        0 <= i < segments.len() ==> match #[trigger] segments[i] {
            Segment::Variable(variable) => same_reading(variable, a, b),
            _ => true,
        }
}

/// A template made of two parts shows what the first part shows, and then what the second shows.
pub proof fn law_parts_are_shown_in_turn<V>(
    first: Seq<Segment>,
    second: Seq<Segment>,
    data: DataView<Reading<V>>,
)
    ensures
        render::rendered(first + second, data) == render::rendered(first, data)
            + render::rendered(second, data),
{
    assert(render::rendered(first + second, data) =~= render::rendered(first, data)
        + render::rendered(second, data));
}

/// A template without segments shows nothing.
pub proof fn law_empty_template_shows_nothing<V>(data: DataView<Reading<V>>)
    ensures
        render::rendered(Seq::<Segment>::empty(), data) == Seq::<SpanView<V>>::empty(),
{
}

/// What a template shows depends only on the readings of the variables in it; so a template
/// without variables shows the same whatever the readings.
pub proof fn law_only_readings_in_the_template_are_shown<V>(
    segments: Seq<Segment>,
    a: DataView<Reading<V>>,
    b: DataView<Reading<V>>,
)
    requires
        same_readings(segments, a, b),
    ensures
        render::rendered(segments, a) == render::rendered(segments, b),
{
    assert forall|i: int| 0 <= i < segments.len() implies render::span_for(
        #[trigger] segments[i],
        a,
    ) == render::span_for(segments[i], b) by {
        if let Segment::Variable(variable) = segments[i] {
            law_only_its_own_reading_is_shown(variable, a, b);
        }
    }
    assert(render::rendered(segments, a) =~= render::rendered(segments, b));
}

} // verus!
