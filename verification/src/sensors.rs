//! Finding the temperature of the processor and of the graphics card among the sensors.
use vstd::prelude::*;
use crate::data::Data;
use crate::text;

verus! {

/// A sensor: what it is called, and the temperature it reports, if it reports one.
#[derive(Debug)]
pub struct Component<T> {
    pub label: String,
    pub temperature: Option<T>,
}

/// The labels of `components`, in small letters.
pub open spec fn lowered<T>(components: Seq<Component<T>>) -> Seq<Seq<char>> {
    components.map_values(|c: Component<T>| text::lowercase(c.label@))
}

/// The temperatures of `components`.
pub open spec fn temperatures<T>(components: Seq<Component<T>>) -> Seq<Option<T>> {
    components.map_values(|c: Component<T>| c.temperature)
}

/// The temperature that belongs to the first of `labels` that holds `part`: none if no label holds
/// it, and none if that sensor reports none.
pub open spec fn reading_for<T>(
    part: Seq<char>,
    labels: Seq<Seq<char>>,
    readings: Seq<Option<T>>,
) -> Option<T>
    decreases labels.len(),
{
    if labels.len() == 0 {
        None
    } else if text::contains_text(labels.first(), part) {
        readings.first()
    } else {
        reading_for(part, labels.drop_first(), readings.drop_first())
    }
}

/// The first temperature that any of `parts`, taken in order, leads to.
pub open spec fn first_reading<T>(
    parts: Seq<Seq<char>>,
    labels: Seq<Seq<char>>,
    readings: Seq<Option<T>>,
) -> Option<T>
    decreases parts.len(),
{
    if parts.len() == 0 {
        None
    } else {
        match reading_for(parts.first(), labels, readings) {
            Some(reading) => Some(reading),
            None => first_reading(parts.drop_first(), labels, readings),
        }
    }
}

/// What marks a sensor of the processor, best first.
pub open spec fn cpu_labels() -> Seq<Seq<char>> {
    seq![
        "coretemp"@,
        "k10temp"@,
        "zenpower"@,
        "cpu_thermal"@,
        "soc_thermal"@,
        "cpu"@,
        "package"@,
        "tctl"@,
        "tdie"@,
        "core"@,
    ]
}

/// What marks a sensor of the graphics card, best first.
pub open spec fn gpu_labels() -> Seq<Seq<char>> {
    seq![
        "amdgpu"@,
        "radeon"@,
        "nouveau"@,
        "nvidia"@,
        "gpu"@,
        "edge"@,
        "junction"@,
        "mem"@,
    ]
}

/// The temperature of the processor, by what the sensors report.
pub open spec fn cpu_temperature<T>(components: Seq<Component<T>>) -> Option<T> {
    first_reading(cpu_labels(), lowered(components), temperatures(components))
}

/// The temperature of the graphics card, by what the sensors report.
pub open spec fn gpu_temperature<T>(components: Seq<Component<T>>) -> Option<T> {
    first_reading(gpu_labels(), lowered(components), temperatures(components))
}

/// The temperature that belongs to the first label that holds `part`.
fn find_reading<T: Copy>(
    part: &str,
    labels: &Vec<String>,
    components: &Vec<Component<T>>,
) -> (reading: Option<T>)
    requires
        labels.len() == components.len(),
    ensures
        reading == reading_for(
            part@,
            labels@.map_values(|l: String| l@),
            temperatures(components@),
        ),
{
    let ghost names = labels@.map_values(|l: String| l@);
    let ghost readings = temperatures(components@);
    assert(names.skip(0) == names);
    assert(readings.skip(0) == readings);
    let mut i: usize = 0;
    while i < labels.len()
        invariant
            i <= labels.len(),
            labels.len() == components.len(),
            names == labels@.map_values(|l: String| l@),
            readings == temperatures(components@),
            reading_for(part@, names, readings) == reading_for(
                part@,
                names.skip(i as int),
                readings.skip(i as int),
            ),
        decreases labels.len() - i,
    {
        assert(names.skip(i as int).first() == labels[i as int]@);
        assert(readings.skip(i as int).first() == components[i as int].temperature);
        if text::contains(labels[i].as_str(), part) {
            return components[i].temperature;
        }
        assert(names.skip(i as int).drop_first() == names.skip(i + 1));
        assert(readings.skip(i as int).drop_first() == readings.skip(i + 1));
        i = i + 1;
    }
    None
}

/// Searches sensors whose labels have been put into small letters.
///
/// Each of `parts` is looked for in turn. It leads to the first sensor whose label holds it; if
/// that sensor reports a temperature, that is the answer, and if not, the next part is looked for.
pub fn find_temp<T: Copy>(
    parts: &Vec<&str>,
    labels: &Vec<String>,
    components: &Vec<Component<T>>,
) -> (reading: Option<T>)
    requires
        labels.len() == components.len(),
    ensures
        reading == first_reading(
            parts@.map_values(|p: &str| p@),
            labels@.map_values(|l: String| l@),
            temperatures(components@),
        ),
{
    let ghost marks = parts@.map_values(|p: &str| p@);
    let ghost names = labels@.map_values(|l: String| l@);
    let ghost readings = temperatures(components@);
    assert(marks.skip(0) == marks);
    let mut k: usize = 0;
    while k < parts.len()
        invariant
            k <= parts.len(),
            labels.len() == components.len(),
            marks == parts@.map_values(|p: &str| p@),
            names == labels@.map_values(|l: String| l@),
            readings == temperatures(components@),
            first_reading(marks, names, readings) == first_reading(
                marks.skip(k as int),
                names,
                readings,
            ),
        decreases parts.len() - k,
    {
        assert(marks.skip(k as int).first() == parts[k as int]@);
        let reading = find_reading(parts[k], labels, components);
        if reading.is_some() {
            return reading;
        }
        assert(marks.skip(k as int).drop_first() == marks.skip(k + 1));
        k = k + 1;
    }
    None
}

/// The labels of `components`, put into small letters.
fn lower_labels<T>(components: &Vec<Component<T>>) -> (labels: Vec<String>)
    ensures
        labels.len() == components.len(),
        labels@.map_values(|l: String| l@) == lowered(components@),
{
    let mut labels: Vec<String> = Vec::new();
    let mut i: usize = 0;
    while i < components.len()
        invariant
            i <= components.len(),
            labels.len() == i,
            forall|j: int| 0 <= j < i ==> (#[trigger] labels@[j])@ == lowered(components@)[j],
        decreases components.len() - i,
    {
        labels.push(components[i].label.as_str().to_lowercase());
        i = i + 1;
    }
    assert(labels@.map_values(|l: String| l@) =~= lowered(components@));
    labels
}

impl<T: Copy> Data<T> {
    /// The temperature of the processor.
    pub fn find_cpu_temp(components: &Vec<Component<T>>) -> (reading: Option<T>)
        ensures
            reading == cpu_temperature(components@),
    {
        let parts: Vec<&str> = vec![
            "coretemp",
            "k10temp",
            "zenpower",
            "cpu_thermal",
            "soc_thermal",
            "cpu",
            "package",
            "tctl",
            "tdie",
            "core",
        ];
        let labels = lower_labels(components);
        assert(parts@.map_values(|p: &str| p@) =~= cpu_labels());
        find_temp(&parts, &labels, components)
    }

    /// The temperature of the graphics card.
    pub fn find_gpu_temp(components: &Vec<Component<T>>) -> (reading: Option<T>)
        ensures
            reading == gpu_temperature(components@),
    {
        let parts: Vec<&str> = vec![
            "amdgpu",
            "radeon",
            "nouveau",
            "nvidia",
            "gpu",
            "edge",
            "junction",
            "mem",
        ];
        let labels = lower_labels(components);
        assert(parts@.map_values(|p: &str| p@) =~= gpu_labels());
        find_temp(&parts, &labels, components)
    }
}

} // verus!
