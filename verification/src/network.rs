//! Which network interfaces count, and how much has gone through them.
use vstd::prelude::*;
use crate::config::SysInfoConfig;
use crate::data::Data;

verus! {

/// An interface that the machine lists, and whether a device stands behind it.
#[derive(Debug)]
pub struct InterfaceEntry {
    pub name: String,
    pub has_device: bool,
}

/// What has gone through an interface since it was last asked, in bytes.
#[derive(Debug)]
pub struct NetworkSample {
    pub name: String,
    pub transmitted: u64,
    pub received: u64,
}

/// The texts of `names`.
pub open spec fn texts(names: Seq<String>) -> Seq<Seq<char>> {
    names.map_values(|n: String| n@)
}

/// `list` is not set, or holds `name`.
pub open spec fn included(list: Option<Vec<String>>, name: Seq<char>) -> bool {
    match list {
        Some(names) => texts(names@).contains(name),
        None => true,
    }
}

/// `list` is set and holds `name`.
pub open spec fn excluded(list: Option<Vec<String>>, name: Seq<char>) -> bool {
    match list {
        Some(names) => texts(names@).contains(name),
        None => false,
    }
}

/// The interface counts: a device stands behind it, the settings include it if they say which ones
/// to include, and they do not exclude it.
pub open spec fn counts(config: SysInfoConfig, entry: InterfaceEntry) -> bool {
    &&& entry.has_device
    &&& included(config.include_interfaces, entry.name@)
    &&& !excluded(config.exclude_interfaces, entry.name@)
}

/// The names of the interfaces that count, in the order of `entries`.
pub open spec fn physical(config: SysInfoConfig, entries: Seq<InterfaceEntry>) -> Seq<Seq<char>> {
    entries.filter(|e: InterfaceEntry| counts(config, e)).map_values(|e: InterfaceEntry| e.name@)
}

/// What the interfaces named in `names` have sent, all together.
pub open spec fn transmitted(samples: Seq<NetworkSample>, names: Seq<Seq<char>>) -> nat
    decreases samples.len(),
{
    if samples.len() == 0 {
        0
    } else {
        transmitted(samples.drop_last(), names) + (if names.contains(samples.last().name@) {
            samples.last().transmitted as nat
        } else {
            0
        })
    }
}

/// What the interfaces named in `names` have received, all together.
pub open spec fn received(samples: Seq<NetworkSample>, names: Seq<Seq<char>>) -> nat
    decreases samples.len(),
{
    if samples.len() == 0 {
        0
    } else {
        received(samples.drop_last(), names) + (if names.contains(samples.last().name@) {
            samples.last().received as nat
        } else {
            0
        })
    }
}

/// Whether `names` holds `name`.
pub(crate) fn holds(names: &Vec<String>, name: &String) -> (found: bool)
    ensures
        found == texts(names@).contains(name@),
{
    let mut i: usize = 0;
    while i < names.len()
        invariant
            i <= names.len(),
            forall|j: int| 0 <= j < i ==> texts(names@)[j] != name@,
        decreases names.len() - i,
    {
        assert(texts(names@)[i as int] == names[i as int]@);
        if names[i] == *name {
            return true;
        }
        i = i + 1;
    }
    false
}

/// Whether the interface counts.
fn entry_counts(config: &SysInfoConfig, entry: &InterfaceEntry) -> (yes: bool)
    ensures
        yes == counts(*config, *entry),
{
    if !entry.has_device {
        return false;
    }
    if let Some(names) = &config.include_interfaces {
        if !holds(names, &entry.name) {
            return false;
        }
    }
    if let Some(names) = &config.exclude_interfaces {
        if holds(names, &entry.name) {
            return false;
        }
    }
    true
}

/// The bytes sent and received by the interfaces in `names`; none if either is beyond `u64::MAX`.
pub fn traffic(samples: &Vec<NetworkSample>, names: &Vec<String>) -> (totals: Option<(u64, u64)>)
    ensures
        match totals {
            Some((up, down)) => {
                &&& up == transmitted(samples@, texts(names@))
                &&& down == received(samples@, texts(names@))
            },
            None => transmitted(samples@, texts(names@)) > u64::MAX || received(
                samples@,
                texts(names@),
            ) > u64::MAX,
        },
{
    let ghost wanted = texts(names@);
    let mut up: u64 = 0;
    let mut down: u64 = 0;
    let mut i: usize = 0;
    while i < samples.len()
        invariant
            i <= samples.len(),
            wanted == texts(names@),
            up == transmitted(samples@.take(i as int), wanted),
            down == received(samples@.take(i as int), wanted),
        decreases samples.len() - i,
    {
        proof {
            lemma_traffic_grows(samples@, wanted, i + 1);
        }
        assert(samples@.take(i + 1).drop_last() == samples@.take(i as int));
        if holds(names, &samples[i].name) {
            match (up.checked_add(samples[i].transmitted), down.checked_add(samples[i].received)) {
                (Some(more_up), Some(more_down)) => {
                    up = more_up;
                    down = more_down;
                },
                _ => {
                    return None;
                },
            }
        }
        i = i + 1;
    }
    assert(samples@.take(samples@.len() as int) == samples@);
    Some((up, down))
}

/// More samples never make a smaller total.
proof fn lemma_traffic_grows(samples: Seq<NetworkSample>, names: Seq<Seq<char>>, n: int)
    requires
        0 <= n <= samples.len(),
    ensures
        transmitted(samples.take(n), names) <= transmitted(samples, names),
        received(samples.take(n), names) <= received(samples, names),
    decreases samples.len(),
{
    if n < samples.len() {
        lemma_traffic_grows(samples.drop_last(), names, n);
        assert(samples.drop_last().take(n) == samples.take(n));
    } else {
        assert(samples.take(n) == samples);
    }
}

/// Filtering goes on from one entry to the next.
proof fn lemma_physical_push(
    config: SysInfoConfig,
    entries: Seq<InterfaceEntry>,
    entry: InterfaceEntry,
)
    ensures
        physical(config, entries.push(entry)) == (if counts(config, entry) {
            physical(config, entries).push(entry.name@)
        } else {
            physical(config, entries)
        }),
{
    reveal(Seq::filter);
    assert(entries.push(entry).drop_last() == entries);
    let kept = entries.filter(|e: InterfaceEntry| counts(config, e));
    assert(kept.push(entry).map_values(|e: InterfaceEntry| e.name@) =~= kept.map_values(
        |e: InterfaceEntry| e.name@,
    ).push(entry.name@));
}

impl<T: Copy> Data<T> {
    /// The interfaces that count, among those that the machine lists.
    pub fn detect_physical_interfaces(
        config: &SysInfoConfig,
        entries: &Vec<InterfaceEntry>,
    ) -> (interfaces: Vec<String>)
        ensures
            texts(interfaces@) == physical(*config, entries@),
    {
        let mut interfaces: Vec<String> = Vec::new();
        let mut i: usize = 0;
        proof {
            reveal(Seq::filter);
            assert(texts(interfaces@) =~= physical(*config, entries@.take(0)));
        }
        while i < entries.len()
            invariant
                i <= entries.len(),
                texts(interfaces@) == physical(*config, entries@.take(i as int)),
            decreases entries.len() - i,
        {
            let entry = &entries[i];
            proof {
                lemma_physical_push(*config, entries@.take(i as int), *entry);
                assert(entries@.take(i as int).push(*entry) == entries@.take(i + 1));
            }
            if entry_counts(config, entry) {
                let ghost before = interfaces@;
                interfaces.push(entry.name.clone());
                assert(texts(interfaces@) =~= texts(before).push(entry.name@));
            }
            i = i + 1;
        }
        assert(entries@.take(entries@.len() as int) == entries@);
        interfaces
    }
}

} // verus!
