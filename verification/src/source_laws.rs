//! What is made of the answers of the machine, in terms of what goes in and what comes out.
use vstd::prelude::*;
use crate::command::CommandOutput;
use crate::config::SysInfoConfig;
use crate::data::Data;
use crate::gpu;
use crate::network;
use crate::network::{InterfaceEntry, NetworkSample};
use crate::public_ip;
use crate::public_ip::IpVersion;
use crate::sensors;
use crate::sensors::Component;
use crate::system;
use crate::system::SystemSample;
use crate::template::{Requires, Variable};
use crate::text;
use crate::text_laws;

verus! {

// ---------------------------------------------------------------------------
// The processor and the memory
// ---------------------------------------------------------------------------

/// Each mark of a set says whether one variable is in it.
pub proof fn law_each_mark_is_one_variable(set: Requires, variable: Variable, found: bool)
    requires
        call_ensures(Requires::contains, (&set, variable), found),
    ensures
        found == set.has(variable),
        found == (match variable {
            Variable::CpuUsage => set.cpu_usage,
            Variable::RamUsage => set.ram_usage,
            Variable::CpuTemp => set.cpu_temp,
            Variable::GpuTemp => set.gpu_temp,
            Variable::GpuUsage => set.gpu_usage,
            Variable::DlSpeed => set.dl_speed,
            Variable::UlSpeed => set.ul_speed,
            Variable::PublicIpv4 => set.public_ipv4,
            Variable::PublicIpv6 => set.public_ipv6,
        }),
{
}

/// The memory is asked for if and only if its usage is wanted, whatever else is wanted, and with
/// it the swap space if and only if that counts; the processors are asked for if and only if their
/// usage is wanted, and for nothing but that. Nothing else is asked for.
pub proof fn law_system_is_asked_for_what_is_wanted(
    wanted: Requires,
    config: SysInfoConfig,
    kind: sysinfo::RefreshKind,
)
    requires
        call_ensures(system::refresh_kind, (wanted, &config), kind),
    ensures
        system::system_parts(kind).memory is Some <==> wanted.ram_usage,
        system::system_parts(kind).memory matches Some(memory) ==> memory.ram && (memory.swap
            <==> config.include_swap_in_ram),
        system::system_parts(kind).cpu is Some <==> wanted.cpu_usage,
        system::system_parts(kind).cpu matches Some(cpu) ==> cpu.usage && !cpu.frequency,
        !system::system_parts(kind).processes,
{
}

/// The percentage of memory in use is the largest whole number of hundredths of all memory that is
/// not more than what is used. Swap space counts on both sides if it counts, even if none of it is
/// used, and on neither if it does not. A percentage is there whenever there is memory and the
/// figures are not beyond 64 bits.
pub proof fn law_usage_is_used_of_total<T>(
    sample: SystemSample<T>,
    include_swap: bool,
    percent: Option<u64>,
)
    requires
        call_ensures(SystemSample::<T>::ram_usage, (&sample, include_swap), percent),
    ensures
        include_swap ==> (percent matches Some(p) ==> p * (sample.total_memory
            + sample.total_swap) <= (sample.used_memory + sample.used_swap) * 100 < (p + 1) * (
        sample.total_memory + sample.total_swap)),
        !include_swap ==> (percent matches Some(p) ==> p * sample.total_memory
            <= sample.used_memory * 100 < (p + 1) * sample.total_memory),
        include_swap ==> (percent is Some <==> (sample.used_memory + sample.used_swap) * 100
            <= u64::MAX && 0 < sample.total_memory + sample.total_swap <= u64::MAX),
        !include_swap ==> (percent is Some <==> sample.used_memory * 100 <= u64::MAX && 0
            < sample.total_memory),
{
    if percent is Some {
        lemma_percentage(sample.used(include_swap), sample.total(include_swap));
    }
}

/// What a quotient is.
proof fn lemma_percentage(used: nat, total: nat)
    requires
        0 < total,
    ensures
        (used * 100 / total) * total <= used * 100 < (used * 100 / total + 1) * total,
{
    vstd::arithmetic::div_mod::lemma_fundamental_div_mod((used * 100) as int, total as int);
    vstd::arithmetic::div_mod::lemma_mod_bound((used * 100) as int, total as int);
    let q = (used * 100) as int / total as int;
    assert(q * total == total * q) by (nonlinear_arith);
    assert((q + 1) * total == q * total + total) by (nonlinear_arith);
}

// ---------------------------------------------------------------------------
// Public addresses
// ---------------------------------------------------------------------------

/// Reading an answer loses nothing but the white space around it; there is no address only where
/// there is nothing else.
pub proof fn law_address_is_all_but_white_space(
    before: Seq<char>,
    kept: Seq<char>,
    after: Seq<char>,
    answer: &str,
    address: Option<String>,
)
    requires
        text_laws::blank(before),
        text_laws::tight(kept),
        text_laws::blank(after),
        answer@ == before + kept + after,
        call_ensures(public_ip::read_address, (answer,), address),
    ensures
        kept.len() == 0 ==> address is None,
        kept.len() > 0 ==> (address matches Some(a) && a@ == kept),
{
    text_laws::lemma_trimmed(before, kept, after);
}

/// A command that could not be started or did not end well leaves no address; one that did leaves
/// all that it wrote but the white space around it.
pub proof fn law_fetched_address_is_what_was_written<T: Copy>(
    before: Seq<char>,
    kept: Seq<char>,
    after: Seq<char>,
    output: Option<CommandOutput>,
    address: Option<String>,
)
    requires
        text_laws::blank(before),
        text_laws::tight(kept),
        text_laws::blank(after),
        output matches Some(done) ==> text::utf8_lossy(done.stdout@) == before + kept + after,
        call_ensures(Data::<T>::fetch_public_ip, (&output,), address),
    ensures
        output is None ==> address is None,
        output matches Some(done) && !done.success ==> address is None,
        output matches Some(done) && done.success && kept.len() == 0 ==> address is None,
        output matches Some(done) && done.success && kept.len() > 0 ==> (address matches Some(a)
            && a@ == kept),
{
    text_laws::lemma_trimmed(before, kept, after);
}

/// `curl` is held to the version that is asked for, fails silently on an error, gives up after
/// five seconds, and is sent to the service that answers with the address of who asks.
pub proof fn law_curl_is_told_what_to_fetch<T: Copy>(
    version: IpVersion,
    arguments: Vec<&'static str>,
)
    requires
        call_ensures(Data::<T>::public_ip_arguments, (version,), arguments),
    ensures
        arguments@.len() == 5,
        arguments@[0]@ == (if version is V4 {
            "-4"@
        } else {
            "-6"@
        }),
        arguments@[1]@ == "-sf"@,
        arguments@[2]@ == "--max-time"@,
        arguments@[3]@ == "5"@,
        arguments@[4]@ == "https://icanhazip.com"@,
{
    let texts = arguments@.map_values(|a: &'static str| a@);
    assert(texts.len() == arguments@.len());
    assert forall|i: int| 0 <= i < arguments@.len() implies #[trigger] texts[i]
        == arguments@[i]@ by {}
    assert(texts[0] == arguments@[0]@);
    assert(texts[1] == arguments@[1]@);
    assert(texts[2] == arguments@[2]@);
    assert(texts[3] == arguments@[3]@);
    assert(texts[4] == arguments@[4]@);
}

// ---------------------------------------------------------------------------
// The graphics card
// ---------------------------------------------------------------------------

/// The first number among some texts is that of the first text that is a number.
proof fn lemma_first_number(contents: Seq<String>, i: int)
    requires
        0 <= i <= contents.len(),
        forall|j: int|
            0 <= j < i ==> text::number_in(text::trimmed((#[trigger] contents[j])@)) is None,
        i < contents.len() ==> text::number_in(text::trimmed(contents[i]@)) is Some,
    ensures
        gpu::first_number(contents) == (if i < contents.len() {
            text::number_in(text::trimmed(contents[i]@))
        } else {
            None
        }),
    decreases i,
{
    if i > 0 {
        assert(text::number_in(text::trimmed(contents[0]@)) is None);
        let rest = contents.drop_first();
        assert forall|j: int| 0 <= j < i - 1 implies text::number_in(
            text::trimmed((#[trigger] rest[j])@),
        ) is None by {
            assert(rest[j] == contents[j + 1]);
        }
        if i < contents.len() {
            assert(rest[i - 1] == contents[i]);
        }
        lemma_first_number(rest, i - 1);
    }
}

/// The usage is the number that the first file with a number holds, whatever number that is: zero
/// is one as any other. It is not known only if no file holds a number. Here `parts[j]` is what a
/// file holds without the white space around it, and `numbers[j]` is what that is as a number.
pub proof fn law_usage_is_the_first_number<T: Copy>(
    contents: Vec<String>,
    parts: Seq<&str>,
    numbers: Seq<Option<u64>>,
    i: int,
    usage: Option<u64>,
)
    requires
        parts.len() == contents@.len(),
        numbers.len() == contents@.len(),
        forall|j: int|
            0 <= j < contents@.len() ==> exists|whole: &str|
                whole@ == (#[trigger] contents@[j])@ && #[trigger] call_ensures(
                    text::trim,
                    (whole,),
                    parts[j],
                ) && call_ensures(text::parse_u64, (parts[j],), numbers[j]),
        0 <= i <= contents@.len(),
        forall|j: int| 0 <= j < i ==> (#[trigger] numbers[j]) is None,
        i < contents@.len() ==> numbers[i] is Some,
        call_ensures(Data::<T>::find_gpu_usage_sysfs, (&contents,), usage),
    ensures
        i < contents@.len() ==> usage == numbers[i],
        i == contents@.len() ==> usage is None,
{
    assert forall|j: int| 0 <= j < contents@.len() implies text::number_in(
        text::trimmed((#[trigger] contents@[j])@),
    ) == numbers[j] by {
        let whole = choose|whole: &str|
            whole@ == contents@[j]@ && #[trigger] call_ensures(text::trim, (whole,), parts[j])
                && call_ensures(text::parse_u64, (parts[j],), numbers[j]);
        assert(parts[j]@ == text::trimmed(contents@[j]@));
    }
    lemma_first_number(contents@, i);
}

/// `nvidia-smi` is asked for the temperature and the load, in that order, as bare numbers.
pub proof fn law_nvidia_smi_is_told_what_to_report<T: Copy>(arguments: Vec<&'static str>)
    requires
        call_ensures(Data::<T>::nvidia_arguments, (), arguments),
    ensures
        arguments@.len() == 2,
        arguments@[0]@ == "--query-gpu=temperature.gpu,utilization.gpu"@,
        arguments@[1]@ == "--format=csv,noheader,nounits"@,
{
    let texts = arguments@.map_values(|a: &'static str| a@);
    assert(texts.len() == arguments@.len());
    assert(texts[0] == arguments@[0]@);
    assert(texts[1] == arguments@[1]@);
}

/// A comma with a space after it stands nowhere in `t`.
pub open spec fn undivided(t: Seq<char>) -> bool {
    forall|j: int| 0 <= j && j + 1 < t.len() ==> !(#[trigger] t[j] == ',' && t[j + 1] == ' ')
}

/// The characters that divide a report.
proof fn lemma_comma()
    ensures
        ", "@ == seq![',', ' '],
{
    reveal_strlit(", ");
    assert(", "@ =~= seq![',', ' ']);
}

/// What is undivided holds no mark.
proof fn lemma_undivided(t: Seq<char>)
    requires
        undivided(t),
    ensures
        !text_laws::stands_in(t, ", "@),
{
    lemma_comma();
    assert forall|j: int| !text_laws::stands_at(t, ", "@, j) by {
        if text_laws::stands_at(t, ", "@, j) {
            assert(t[j + 0] == ", "@[0]);
            assert(t[j + 1] == ", "@[1]);
        }
    }
}

/// The fields of a report in which both stand, with white space around them.
proof fn lemma_report_fields(
    a: Seq<char>,
    temperature: Seq<char>,
    b: Seq<char>,
    c: Seq<char>,
    load: Seq<char>,
    d: Seq<char>,
)
    requires
        text_laws::blank(a),
        text_laws::blank(b),
        text_laws::blank(c),
        text_laws::blank(d),
        text_laws::tight(temperature),
        text_laws::tight(load),
        temperature.len() == 0 ==> b.len() == 0,
        load.len() > 0,
        undivided(temperature + b),
    ensures
        gpu::report_fields(a + (temperature + b + ", "@ + (c + load)) + d) == Some(
            (temperature, load),
        ),
{
    lemma_comma();
    let head = temperature + b;
    let tail = c + load;
    let mark = ", "@;
    let core = head + mark + tail;
    assert(core[core.len() - 1] == load[load.len() - 1]);
    if temperature.len() > 0 {
        assert(core[0] == temperature[0]);
    } else {
        assert(core[0] == mark[0]);
    }
    text_laws::lemma_trimmed(a, core, d);
    assert forall|j: int| #[trigger] text_laws::stands_at(core, mark, j) implies head.len()
        <= j by {
        assert(core[j + 0] == mark[0]);
        assert(core[j + 1] == mark[1]);
        if 0 <= j < head.len() {
            assert(core[j] == head[j]);
            if j + 1 < head.len() {
                assert(core[j + 1] == head[j + 1]);
            } else {
                assert(core[j + 1] == mark[0]);
            }
        }
    }
    text_laws::lemma_split(head, mark, tail);
    let none = Seq::<char>::empty();
    text_laws::lemma_trimmed(none, temperature, b);
    assert(none + temperature + b =~= head);
    text_laws::lemma_trimmed(c, load, none);
    assert(c + load + none =~= tail);
}

/// A report gives the temperature as it stands before the first comma and space, and the load as
/// the number that stands after, each without the white space around it.
pub proof fn law_report_gives_both_fields<T, F: Fn(&str) -> Option<T>>(
    parse: F,
    a: Seq<char>,
    temperature: Seq<char>,
    b: Seq<char>,
    c: Seq<char>,
    load: &str,
    d: Seq<char>,
    number: Option<u64>,
    report: &str,
    reading: (Option<T>, Option<u64>),
)
    requires
        text_laws::blank(a),
        text_laws::blank(b),
        text_laws::blank(c),
        text_laws::blank(d),
        text_laws::tight(temperature),
        text_laws::tight(load@),
        temperature.len() == 0 ==> b.len() == 0,
        load@.len() > 0,
        undivided(temperature + b),
        report@ == a + (temperature + b + ", "@ + (c + load@)) + d,
        call_ensures(text::parse_u64, (load,), number),
        call_ensures(gpu::read_report::<T, F>, (report, &parse), reading),
    ensures
        exists|field: &str|
            field@ == temperature && #[trigger] call_ensures(parse, (field,), reading.0),
        reading.1 == number,
{
    lemma_report_fields(a, temperature, b, c, load@, d);
    let field = choose|field: &str|
        field@ == temperature && call_ensures(parse, (field,), reading.0);
    assert(call_ensures(parse, (field,), reading.0));
}

/// A report in which no comma and space stand between other characters gives neither field.
pub proof fn law_report_without_fields_gives_none<T, F: Fn(&str) -> Option<T>>(
    parse: F,
    before: Seq<char>,
    kept: Seq<char>,
    after: Seq<char>,
    report: &str,
    reading: (Option<T>, Option<u64>),
)
    requires
        text_laws::blank(before),
        text_laws::tight(kept),
        text_laws::blank(after),
        undivided(kept),
        report@ == before + kept + after,
        call_ensures(gpu::read_report::<T, F>, (report, &parse), reading),
    ensures
        reading.0 is None,
        reading.1 is None,
{
    text_laws::lemma_trimmed(before, kept, after);
    lemma_undivided(kept);
    text_laws::lemma_contains(kept, ", "@);
}

/// `nvidia-smi` tells nothing if it could not be started or did not end well; if it did, it tells
/// what its report gives: here, one with both fields in it.
pub proof fn law_nvidia_smi_tells_what_it_reports<T: Copy, F: Fn(&str) -> Option<T>>(
    parse: F,
    a: Seq<char>,
    temperature: Seq<char>,
    b: Seq<char>,
    c: Seq<char>,
    load: &str,
    d: Seq<char>,
    number: Option<u64>,
    output: Option<CommandOutput>,
    reading: Option<(Option<T>, Option<u64>)>,
)
    requires
        text_laws::blank(a),
        text_laws::blank(b),
        text_laws::blank(c),
        text_laws::blank(d),
        text_laws::tight(temperature),
        text_laws::tight(load@),
        temperature.len() == 0 ==> b.len() == 0,
        load@.len() > 0,
        undivided(temperature + b),
        output matches Some(done) ==> text::utf8_lossy(done.stdout@) == a + (temperature + b
            + ", "@ + (c + load@)) + d,
        call_ensures(text::parse_u64, (load,), number),
        call_ensures(Data::<T>::query_nvidia_smi::<F>, (&output, &parse), reading),
    ensures
        reading is Some <==> (output matches Some(done) && done.success),
        reading matches Some(pair) ==> pair.1 == number && exists|field: &str|
            field@ == temperature && #[trigger] call_ensures(parse, (field,), pair.0),
{
    lemma_report_fields(a, temperature, b, c, load@, d);
    if let Some(pair) = reading {
        let field = choose|field: &str|
            field@ == temperature && call_ensures(parse, (field,), pair.0);
        assert(call_ensures(parse, (field,), pair.0));
    }
}

/// A report of `nvidia-smi` without both fields tells that neither is known.
pub proof fn law_nvidia_smi_may_tell_neither<T: Copy, F: Fn(&str) -> Option<T>>(
    parse: F,
    before: Seq<char>,
    kept: Seq<char>,
    after: Seq<char>,
    output: CommandOutput,
    reading: Option<(Option<T>, Option<u64>)>,
)
    requires
        text_laws::blank(before),
        text_laws::tight(kept),
        text_laws::blank(after),
        undivided(kept),
        output.success,
        text::utf8_lossy(output.stdout@) == before + kept + after,
        call_ensures(Data::<T>::query_nvidia_smi::<F>, (&Some(output), &parse), reading),
    ensures
        reading == Some((None::<T>, None::<u64>)),
{
    text_laws::lemma_trimmed(before, kept, after);
    lemma_undivided(kept);
    text_laws::lemma_contains(kept, ", "@);
}

// ---------------------------------------------------------------------------
// Interfaces and traffic
// ---------------------------------------------------------------------------

/// `name` is one of `names`.
pub open spec fn named(names: Seq<String>, name: Seq<char>) -> bool {
    exists|k: int| 0 <= k < names.len() && (#[trigger] names[k])@ == name
}

/// The texts of some names hold a name if it is one of them.
proof fn lemma_named(names: Seq<String>, name: Seq<char>)
    ensures
        network::texts(names).contains(name) == named(names, name),
{
    let texts = network::texts(names);
    assert forall|k: int| 0 <= k < names.len() implies #[trigger] texts[k] == names[k]@ by {}
    if named(names, name) {
        let k = choose|k: int| 0 <= k < names.len() && (#[trigger] names[k])@ == name;
        assert(texts[k] == name);
    }
    if texts.contains(name) {
        let k = choose|k: int| 0 <= k < texts.len() && texts[k] == name;
        assert(names[k]@ == name);
    }
}

/// The settings let an interface of that name count: it is one of the names to include, if any are
/// set, and none of the names to exclude.
pub open spec fn let_count(config: SysInfoConfig, name: Seq<char>) -> bool {
    &&& config.include_interfaces matches Some(names) ==> named(names@, name)
    &&& config.exclude_interfaces matches Some(names) ==> !named(names@, name)
}

/// An interface counts if a device stands behind it and the settings let it count.
proof fn lemma_counts(config: SysInfoConfig, entry: InterfaceEntry)
    ensures
        network::counts(config, entry) == (entry.has_device && let_count(config, entry.name@)),
{
    if let Some(names) = config.include_interfaces {
        lemma_named(names@, entry.name@);
    }
    if let Some(names) = config.exclude_interfaces {
        lemma_named(names@, entry.name@);
    }
}

/// What counts of one more interface.
proof fn lemma_physical_push(
    config: SysInfoConfig,
    entries: Seq<InterfaceEntry>,
    entry: InterfaceEntry,
)
    ensures
        network::physical(config, Seq::<InterfaceEntry>::empty()).len() == 0,
        network::physical(config, entries.push(entry)) == (if entry.has_device && let_count(
            config,
            entry.name@,
        ) {
            network::physical(config, entries).push(entry.name@)
        } else {
            network::physical(config, entries)
        }),
{
    reveal(Seq::filter);
    lemma_counts(config, entry);
    assert(entries.push(entry).drop_last() == entries);
    let kept = entries.filter(|e: InterfaceEntry| network::counts(config, e));
    assert(kept.push(entry).map_values(|e: InterfaceEntry| e.name@) =~= kept.map_values(
        |e: InterfaceEntry| e.name@,
    ).push(entry.name@));
}

/// Among the interfaces that count are those with a device behind them that are named in the list
/// to include, if there is one, and are not named in the list to exclude, at any place in it; and
/// no others.
pub proof fn law_interfaces_that_count<T: Copy>(
    config: SysInfoConfig,
    entries: Vec<InterfaceEntry>,
    interfaces: Vec<String>,
    name: Seq<char>,
)
    requires
        call_ensures(Data::<T>::detect_physical_interfaces, (&config, &entries), interfaces),
    ensures
        named(interfaces@, name) <==> {
            &&& exists|i: int|
                0 <= i < entries@.len() && (#[trigger] entries@[i]).name@ == name
                    && entries@[i].has_device
            &&& config.include_interfaces matches Some(names) ==> exists|k: int|
                0 <= k < names@.len() && (#[trigger] names@[k])@ == name
            &&& config.exclude_interfaces matches Some(names) ==> forall|k: int|
                0 <= k < names@.len() ==> (#[trigger] names@[k])@ != name
        },
{
    lemma_named(interfaces@, name);
    lemma_physical_holds(config, entries@, name);
}

/// Which names are among the interfaces that count.
proof fn lemma_physical_holds(
    config: SysInfoConfig,
    entries: Seq<InterfaceEntry>,
    name: Seq<char>,
)
    ensures
        network::physical(config, entries).contains(name) <==> let_count(config, name) && exists|
            i: int,
        |
            0 <= i < entries.len() && (#[trigger] entries[i]).name@ == name
                && entries[i].has_device,
    decreases entries.len(),
{
    if entries.len() == 0 {
        reveal(Seq::filter);
    } else {
        let fewer = entries.drop_last();
        let last = entries.last();
        lemma_physical_holds(config, fewer, name);
        lemma_physical_push(config, fewer, last);
        assert(fewer.push(last) =~= entries);
        let before = network::physical(config, fewer);
        let after = network::physical(config, entries);
        if before.contains(name) {
            let k = choose|k: int| 0 <= k < before.len() && before[k] == name;
            assert(after[k] == name);
            let i = choose|i: int|
                0 <= i < fewer.len() && (#[trigger] fewer[i]).name@ == name && fewer[i].has_device;
            assert(entries[i] == fewer[i]);
        }
        if after.contains(name) && !before.contains(name) {
            let k = choose|k: int| 0 <= k < after.len() && after[k] == name;
            assert(k == before.len()) by {
                if k < before.len() {
                    assert(before[k] == name);
                }
            }
            assert(entries[entries.len() - 1].name@ == name);
        }
        if let_count(config, name) && !before.contains(name) && exists|i: int|
            0 <= i < entries.len() && (#[trigger] entries[i]).name@ == name
                && entries[i].has_device {
            let i = choose|i: int|
                0 <= i < entries.len() && (#[trigger] entries[i]).name@ == name
                    && entries[i].has_device;
            if i < fewer.len() {
                assert(fewer[i] == entries[i]);
            } else {
                assert(after[before.len() as int] == name);
            }
        }
    }
}

/// One more interface at the end of the list is one more at the end of those that count, if a
/// device stands behind it and the settings let it count, and changes nothing if not. Of an empty
/// list none count.
pub proof fn law_interfaces_are_taken_one_by_one<T: Copy>(
    config: SysInfoConfig,
    entries: Vec<InterfaceEntry>,
    interfaces: Vec<String>,
    more_entries: Vec<InterfaceEntry>,
    more_interfaces: Vec<String>,
)
    requires
        more_entries@.len() == entries@.len() + 1,
        more_entries@.take(entries@.len() as int) == entries@,
        call_ensures(Data::<T>::detect_physical_interfaces, (&config, &entries), interfaces),
        call_ensures(
            Data::<T>::detect_physical_interfaces,
            (&config, &more_entries),
            more_interfaces,
        ),
    ensures
        entries@.len() == 0 ==> interfaces@.len() == 0,
        ({
            let entry = more_entries@[entries@.len() as int];
            let n = interfaces@.len() as int;
            &&& more_interfaces@.len() == (if entry.has_device && let_count(config, entry.name@) {
                n + 1
            } else {
                n
            })
            &&& forall|i: int|
                0 <= i < n ==> (#[trigger] more_interfaces@[i])@ == interfaces@[i]@
            &&& entry.has_device && let_count(config, entry.name@) ==> more_interfaces@[n]@
                == entry.name@
        }),
{
    let entry = more_entries@[entries@.len() as int];
    lemma_physical_push(config, entries@, entry);
    assert(more_entries@ =~= entries@.push(entry));
    if entries@.len() == 0 {
        assert(entries@ =~= Seq::<InterfaceEntry>::empty());
    }
    let texts = network::texts(interfaces@);
    let more_texts = network::texts(more_interfaces@);
    assert(texts.len() == interfaces@.len());
    assert(more_texts.len() == more_interfaces@.len());
    let n = interfaces@.len() as int;
    assert forall|i: int| 0 <= i < n implies (#[trigger] more_interfaces@[i])@
        == interfaces@[i]@ by {
        assert(more_texts[i] == more_interfaces@[i]@);
        assert(texts[i] == interfaces@[i]@);
    }
    if entry.has_device && let_count(config, entry.name@) {
        assert(more_texts[n] == more_interfaces@[n]@);
    }
}

/// The traffic of one more interface is added, sent to sent and received to received, if it is one
/// of those that count, and not if it is none; no interfaces have no traffic.
pub proof fn law_traffic_is_added_up(
    samples: Seq<NetworkSample>,
    names: Seq<Seq<char>>,
    sample: NetworkSample,
)
    ensures
        network::transmitted(Seq::<NetworkSample>::empty(), names) == 0,
        network::received(Seq::<NetworkSample>::empty(), names) == 0,
        (exists|k: int| 0 <= k < names.len() && #[trigger] names[k] == sample.name@) ==> {
            &&& network::transmitted(samples.push(sample), names) == network::transmitted(
                samples,
                names,
            ) + sample.transmitted
            &&& network::received(samples.push(sample), names) == network::received(
                samples,
                names,
            ) + sample.received
        },
        (forall|k: int| 0 <= k < names.len() ==> #[trigger] names[k] != sample.name@) ==> {
            &&& network::transmitted(samples.push(sample), names) == network::transmitted(
                samples,
                names,
            )
            &&& network::received(samples.push(sample), names) == network::received(
                samples,
                names,
            )
        },
{
    assert(samples.push(sample).drop_last() =~= samples);
    assert(samples.push(sample).last() == sample);
}

/// One more sample adds what it says to the totals if its interface is one of those that count.
/// There are totals as long as neither is beyond 64 bits.
pub proof fn law_totals_grow_by_each_sample(
    samples: Vec<NetworkSample>,
    more_samples: Vec<NetworkSample>,
    names: Vec<String>,
    totals: Option<(u64, u64)>,
    more_totals: Option<(u64, u64)>,
)
    requires
        more_samples@.len() == samples@.len() + 1,
        more_samples@.take(samples@.len() as int) == samples@,
        call_ensures(network::traffic, (&samples, &names), totals),
        call_ensures(network::traffic, (&more_samples, &names), more_totals),
    ensures
        samples@.len() == 0 ==> totals == Some((0u64, 0u64)),
        totals is None ==> more_totals is None,
        totals matches Some((up, down)) ==> {
            let sample = more_samples@[samples@.len() as int];
            let counted = named(names@, sample.name@);
            let more_up = up + (if counted {
                sample.transmitted as int
            } else {
                0
            });
            let more_down = down + (if counted {
                sample.received as int
            } else {
                0
            });
            more_totals == (if more_up <= u64::MAX && more_down <= u64::MAX {
                Some((more_up as u64, more_down as u64))
            } else {
                None
            })
        },
{
    let sample = more_samples@[samples@.len() as int];
    let texts = network::texts(names@);
    assert(more_samples@ =~= samples@.push(sample));
    lemma_named(names@, sample.name@);
    law_traffic_is_added_up(samples@, texts, sample);
    if samples@.len() == 0 {
        assert(samples@ =~= Seq::<NetworkSample>::empty());
    }
}

// ---------------------------------------------------------------------------
// Sensors
// ---------------------------------------------------------------------------

/// The first of `labels` that `part` stands in is the one at `i`.
pub open spec fn leads_to(part: Seq<char>, labels: Seq<Seq<char>>, i: int) -> bool {
    &&& 0 <= i < labels.len()
    &&& text_laws::stands_in(labels[i], part)
    &&& forall|j: int| 0 <= j < i ==> !text_laws::stands_in(#[trigger] labels[j], part)
}

/// None of `parts` before the one at `k` leads to a sensor that reports a temperature.
pub open spec fn leads_nowhere_before<T>(
    parts: Seq<Seq<char>>,
    labels: Seq<Seq<char>>,
    readings: Seq<Option<T>>,
    k: int,
) -> bool {
    forall|j: int, i: int|
        0 <= j < k && #[trigger] leads_to(parts[j], labels, i) ==> readings[i] is None
}

/// A part leads to the reading of the first label that it stands in.
proof fn lemma_reading_at<T>(
    part: Seq<char>,
    labels: Seq<Seq<char>>,
    readings: Seq<Option<T>>,
    i: int,
)
    requires
        labels.len() == readings.len(),
        leads_to(part, labels, i),
    ensures
        sensors::reading_for(part, labels, readings) == readings[i],
    decreases i,
{
    text_laws::lemma_contains(labels[0], part);
    if i > 0 {
        assert(!text_laws::stands_in(labels[0], part));
        let rest = labels.drop_first();
        assert(rest[i - 1] == labels[i]);
        assert forall|j: int| 0 <= j < i - 1 implies !text_laws::stands_in(
            #[trigger] rest[j],
            part,
        ) by {
            assert(rest[j] == labels[j + 1]);
        }
        lemma_reading_at(part, rest, readings.drop_first(), i - 1);
    }
}

/// A part that leads to no sensor with a temperature leads to no temperature.
proof fn lemma_no_reading<T>(
    part: Seq<char>,
    labels: Seq<Seq<char>>,
    readings: Seq<Option<T>>,
)
    requires
        labels.len() == readings.len(),
        forall|i: int| #[trigger] leads_to(part, labels, i) ==> readings[i] is None,
    ensures
        sensors::reading_for(part, labels, readings) is None,
    decreases labels.len(),
{
    if labels.len() > 0 {
        text_laws::lemma_contains(labels[0], part);
        if text_laws::stands_in(labels[0], part) {
            assert(leads_to(part, labels, 0));
        } else {
            let rest = labels.drop_first();
            let rest_readings = readings.drop_first();
            assert forall|i: int| #[trigger] leads_to(
                part,
                rest,
                i,
            ) implies rest_readings[i] is None by {
                assert(rest[i] == labels[i + 1]);
                assert forall|j: int| 0 <= j < i + 1 implies !text_laws::stands_in(
                    #[trigger] labels[j],
                    part,
                ) by {
                    if j > 0 {
                        assert(labels[j] == rest[j - 1]);
                    }
                }
                assert(leads_to(part, labels, i + 1));
            }
            lemma_no_reading(part, rest, rest_readings);
        }
    }
}

/// The parts are tried one after the other.
proof fn lemma_first_reading<T>(
    parts: Seq<Seq<char>>,
    labels: Seq<Seq<char>>,
    readings: Seq<Option<T>>,
    k: int,
)
    requires
        labels.len() == readings.len(),
        0 <= k <= parts.len(),
        leads_nowhere_before(parts, labels, readings, k),
    ensures
        sensors::first_reading(parts, labels, readings) == sensors::first_reading(
            parts.skip(k),
            labels,
            readings,
        ),
    decreases k,
{
    if k == 0 {
        assert(parts.skip(0) =~= parts);
    } else {
        lemma_no_reading(parts[0], labels, readings);
        let rest = parts.drop_first();
        assert forall|j: int, i: int|
            0 <= j < k - 1 && #[trigger] leads_to(
                rest[j],
                labels,
                i,
            ) implies readings[i] is None by {
            assert(rest[j] == parts[j + 1]);
            assert(leads_to(parts[j + 1], labels, i));
        }
        lemma_first_reading(rest, labels, readings, k - 1);
        assert(rest.skip(k - 1) =~= parts.skip(k));
    }
}

/// The answer is the temperature of the sensor that the first part leads to that leads to one with
/// a temperature; if no part does, there is none.
proof fn lemma_found<T>(
    parts: Seq<Seq<char>>,
    labels: Seq<Seq<char>>,
    readings: Seq<Option<T>>,
    k: int,
    i: int,
)
    requires
        labels.len() == readings.len(),
    ensures
        0 <= k < parts.len() && leads_nowhere_before(parts, labels, readings, k) && leads_to(
            parts[k],
            labels,
            i,
        ) && readings[i] is Some ==> sensors::first_reading(parts, labels, readings)
            == readings[i],
        leads_nowhere_before(parts, labels, readings, parts.len() as int)
            ==> sensors::first_reading(parts, labels, readings) is None,
{
    if 0 <= k < parts.len() && leads_nowhere_before(parts, labels, readings, k) && leads_to(
        parts[k],
        labels,
        i,
    ) && readings[i] is Some {
        lemma_first_reading(parts, labels, readings, k);
        assert(parts.skip(k).first() == parts[k]);
        lemma_reading_at(parts[k], labels, readings, i);
    }
    if leads_nowhere_before(parts, labels, readings, parts.len() as int) {
        lemma_first_reading(parts, labels, readings, parts.len() as int);
        assert(parts.skip(parts.len() as int).len() == 0);
    }
}

/// The labels in small letters.
pub open spec fn small_labels<T>(components: Seq<Component<T>>) -> Seq<Seq<char>> {
    Seq::new(components.len(), |i: int| text::lowercase(components[i].label@))
}

/// The temperatures that are reported.
pub open spec fn reports<T>(components: Seq<Component<T>>) -> Seq<Option<T>> {
    Seq::new(components.len(), |i: int| components[i].temperature)
}

/// Searching goes by the parts first and by the sensors second: the answer is the temperature of
/// the first sensor whose label holds a part, for the first part for which that sensor reports
/// one. If there is no such part there is no answer.
pub proof fn law_parts_are_tried_in_order<T: Copy>(
    parts: Vec<&str>,
    labels: Vec<String>,
    components: Vec<Component<T>>,
    reading: Option<T>,
    k: int,
    i: int,
)
    requires
        labels@.len() == components@.len(),
        call_ensures(sensors::find_temp::<T>, (&parts, &labels, &components), reading),
    ensures
        ({
            let marks = Seq::new(parts@.len(), |n: int| parts@[n]@);
            let names = Seq::new(labels@.len(), |n: int| labels@[n]@);
            &&& 0 <= k < marks.len() && leads_nowhere_before(marks, names, reports(components@), k)
                && leads_to(marks[k], names, i) && components@[i].temperature is Some ==> reading
                == components@[i].temperature
            &&& leads_nowhere_before(marks, names, reports(components@), marks.len() as int)
                ==> reading is None
        }),
{
    let marks = Seq::new(parts@.len(), |n: int| parts@[n]@);
    let names = Seq::new(labels@.len(), |n: int| labels@[n]@);
    assert(marks =~= parts@.map_values(|p: &str| p@));
    assert(names =~= labels@.map_values(|l: String| l@));
    assert(reports(components@) =~= sensors::temperatures(components@));
    lemma_found(marks, names, reports(components@), k, i);
}

/// What marks a sensor of the processor, best first.
pub open spec fn processor_marks() -> Seq<Seq<char>> {
    seq![
        "coretemp"@,
        "k10temp"@,
        "zenpower"@,
        "cpu_thermal"@,
        "soc_thermal"@,
        "cpu"@,
        "package"@,
        "tctl"@,
        "tdie"@,
        "core"@,
    ]
}

/// What marks a sensor of the graphics card, best first.
pub open spec fn graphics_marks() -> Seq<Seq<char>> {
    seq![
        "amdgpu"@,
        "radeon"@,
        "nouveau"@,
        "nvidia"@,
        "gpu"@,
        "edge"@,
        "junction"@,
        "mem"@,
    ]
}

/// The temperature of the processor is that of the first sensor whose label, in small letters,
/// holds a mark of the processor, for the best mark for which that sensor reports one; if there is
/// no such mark it is not known.
pub proof fn law_processor_temperature_goes_by_the_best_mark<T: Copy>(
    components: Vec<Component<T>>,
    reading: Option<T>,
    k: int,
    i: int,
)
    requires
        call_ensures(Data::<T>::find_cpu_temp, (&components,), reading),
    ensures
        ({
            let marks = processor_marks();
            let labels = small_labels(components@);
            let readings = reports(components@);
            &&& 0 <= k < marks.len() && leads_nowhere_before(marks, labels, readings, k)
                && leads_to(marks[k], labels, i) && components@[i].temperature is Some ==> reading
                == components@[i].temperature
            &&& leads_nowhere_before(marks, labels, readings, marks.len() as int)
                ==> reading is None
        }),
{
    assert(sensors::cpu_labels() =~= processor_marks());
    assert(small_labels(components@) =~= sensors::lowered(components@));
    assert(reports(components@) =~= sensors::temperatures(components@));
    lemma_found(processor_marks(), small_labels(components@), reports(components@), k, i);
}

/// The temperature of the graphics card is that of the first sensor whose label, in small letters,
/// holds a mark of the graphics card, for the best mark for which that sensor reports one; if
/// there is no such mark it is not known.
pub proof fn law_graphics_temperature_goes_by_the_best_mark<T: Copy>(
    components: Vec<Component<T>>,
    reading: Option<T>,
    k: int,
    i: int,
)
    requires
        call_ensures(Data::<T>::find_gpu_temp, (&components,), reading),
    ensures
        ({
            let marks = graphics_marks();
            let labels = small_labels(components@);
            let readings = reports(components@);
            &&& 0 <= k < marks.len() && leads_nowhere_before(marks, labels, readings, k)
                && leads_to(marks[k], labels, i) && components@[i].temperature is Some ==> reading
                == components@[i].temperature
            &&& leads_nowhere_before(marks, labels, readings, marks.len() as int)
                ==> reading is None
        }),
{
    assert(sensors::gpu_labels() =~= graphics_marks());
    assert(small_labels(components@) =~= sensors::lowered(components@));
    assert(reports(components@) =~= sensors::temperatures(components@));
    lemma_found(graphics_marks(), small_labels(components@), reports(components@), k, i);
}

} // verus!
