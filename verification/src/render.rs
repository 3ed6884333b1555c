//! Showing the readings.
use std::borrow::Cow;
use vstd::prelude::*;
use vstd::string::StringExecFns;
use crate::data::{Data, DataView};
use crate::reading;
use crate::reading::{Reading, Speed};
use crate::template::{Segment, Template, Variable};
use crate::text;

verus! {

/// A number to judge.
#[derive(Clone, Copy, Debug)]
pub enum Quantity<V> {
    /// The value of a reading with a fraction.
    Value(V),
    /// A whole number.
    Whole(u64),
}

/// The colour of a text.
#[derive(Clone, Copy, Debug)]
pub enum Tint<V> {
    /// That of any text.
    Plain,
    /// Red.
    Red,
    /// The one that the theme has for `value`, with `low` and `high` as its thresholds.
    Threshold { value: Quantity<V>, low: u32, high: u32 },
}

/// A piece of what is shown. Its text is lent where it is stored as it is shown.
#[derive(Debug)]
pub struct Span<'a, V> {
    pub text: Cow<'a, str>,
    /// Whether it is set in a font whose characters are all of one width.
    pub mono: bool,
    pub tint: Tint<V>,
}

/// What a `Span` stands for.
#[verifier::ext_equal]
pub struct SpanView<V> {
    pub text: Seq<char>,
    /// The text is lent, not made.
    pub lent: bool,
    pub mono: bool,
    pub tint: Tint<V>,
}

impl<'a, V> View for Span<'a, V> {
    type V = SpanView<V>;

    open spec fn view(&self) -> SpanView<V> {
        SpanView {
            text: self.text@,
            lent: self.text is Borrowed,
            mono: self.mono,
            tint: self.tint,
        }
    }
}

// ---------------------------------------------------------------------------
// What is shown
// ---------------------------------------------------------------------------

/// `written`, aligned to the right in a field of `width` characters, followed by `unit`.
pub open spec fn field(written: Seq<char>, width: nat, unit: Seq<char>) -> Seq<char> {
    text::padded(written, width) + unit
}

/// A usage with a fraction, as it is shown.
pub open spec fn usage_text<V>(usage: Option<Reading<V>>) -> Seq<char> {
    match usage {
        Some(v) => field(reading::rounded_text(v.rounded), 2, "%"@),
        None => "--%"@,
    }
}

/// A percentage, as it is shown.
pub open spec fn percentage_text(percent: Option<u64>) -> Seq<char> {
    match percent {
        Some(v) => field(text::decimal_digits(v as nat), 2, "%"@),
        None => "--%"@,
    }
}

/// A temperature, as it is shown.
pub open spec fn temp_text<V>(temp: Option<Reading<V>>) -> Seq<char> {
    match temp {
        Some(t) => field(reading::rounded_text(t.rounded), 2, "°C"@),
        None => "--°C"@,
    }
}

/// A speed, as it is shown: in megabytes, to one decimal place.
pub open spec fn speed_text(speed: Option<Speed>) -> Seq<char> {
    match speed {
        Some(speed) => text::padded(reading::tenths_text(speed.tenths), 4),
        None => " -.-"@,
    }
}

/// An address, as it is shown.
pub open spec fn address_text(address: Option<Seq<char>>) -> Seq<char> {
    match address {
        Some(ip) => ip,
        None => "--"@,
    }
}

/// The text for `variable`.
pub open spec fn text_for<V>(variable: Variable, data: DataView<Reading<V>>) -> Seq<char> {
    match variable {
        Variable::CpuUsage => usage_text(data.cpu_usage),
        Variable::RamUsage => percentage_text(data.ram_usage),
        Variable::CpuTemp => temp_text(data.cpu_temp),
        Variable::GpuTemp => temp_text(data.gpu_temp),
        Variable::GpuUsage => percentage_text(data.gpu_usage),
        Variable::DlSpeed => speed_text(data.download_speed),
        Variable::UlSpeed => speed_text(data.upload_speed),
        Variable::PublicIpv4 => address_text(data.public_ipv4),
        Variable::PublicIpv6 => address_text(data.public_ipv6),
    }
}

/// The colour for a reading, if there is one to judge.
pub open spec fn judged<V>(reading: Option<Reading<V>>, low: u32, high: u32) -> Tint<V> {
    match reading {
        Some(v) => Tint::Threshold { value: Quantity::Value(v.value), low, high },
        None => Tint::Plain,
    }
}

/// The colour for a percentage, if there is one to judge.
pub open spec fn judged_whole<V>(percent: Option<u64>, low: u32, high: u32) -> Tint<V> {
    match percent {
        Some(v) => Tint::Threshold { value: Quantity::Whole(v), low, high },
        None => Tint::Plain,
    }
}

/// The colour of the text for `variable`.
pub open spec fn tinted<V>(variable: Variable, data: DataView<Reading<V>>) -> Tint<V> {
    match variable {
        Variable::CpuUsage => judged(data.cpu_usage, 50, 80),
        Variable::RamUsage => judged_whole(data.ram_usage, 50, 80),
        Variable::CpuTemp => judged(data.cpu_temp, 60, 80),
        Variable::GpuTemp => judged(data.gpu_temp, 60, 85),
        Variable::GpuUsage => judged_whole(data.gpu_usage, 50, 80),
        _ => Tint::Plain,
    }
}

/// The text for `variable` is lent, not made: it is an address as it is stored, or the text that
/// stands for a reading that is not known.
pub open spec fn lent<V>(variable: Variable, data: DataView<Reading<V>>) -> bool {
    match variable {
        Variable::CpuUsage => data.cpu_usage is None,
        Variable::RamUsage => data.ram_usage is None,
        Variable::CpuTemp => data.cpu_temp is None,
        Variable::GpuTemp => data.gpu_temp is None,
        Variable::GpuUsage => data.gpu_usage is None,
        Variable::DlSpeed => data.download_speed is None,
        Variable::UlSpeed => data.upload_speed is None,
        Variable::PublicIpv4 => true,
        Variable::PublicIpv6 => true,
    }
}

/// What is shown for `segment`.
pub open spec fn span_for<V>(segment: Segment, data: DataView<Reading<V>>) -> SpanView<V> {
    match segment {
        Segment::Literal(literal) => SpanView {
            text: literal@,
            lent: true,
            mono: false,
            tint: Tint::Plain,
        },
        Segment::Variable(variable) => SpanView {
            text: text_for(variable, data),
            lent: lent(variable, data),
            mono: true,
            tint: tinted(variable, data),
        },
        Segment::Unknown(name) => SpanView {
            text: "{"@ + name@ + "}"@,
            lent: false,
            mono: false,
            tint: Tint::Red,
        },
    }
}

/// What is shown for `segments`: one span for each, in order.
pub open spec fn rendered<V>(segments: Seq<Segment>, data: DataView<Reading<V>>) -> Seq<
    SpanView<V>,
> {
    Seq::new(segments.len(), |i: int| span_for(segments[i], data))
}

/// What `spans` stand for.
pub open spec fn span_views<V>(spans: Seq<Span<V>>) -> Seq<SpanView<V>> {
    Seq::new(spans.len(), |i: int| spans[i]@)
}

// ---------------------------------------------------------------------------
// Showing it
// ---------------------------------------------------------------------------

/// Writes a usage with a fraction, or that there is none.
fn write_usage<V: Copy>(usage: Option<Reading<V>>) -> (shown: Cow<'static, str>)
    ensures
        shown@ == usage_text(usage),
        shown is Borrowed <==> usage is None,
{
    match usage {
        Some(v) => Cow::Owned(
            text::pad_left(reading::write_rounded(v.rounded), 2).concat("%"),
        ),
        None => Cow::Borrowed("--%"),
    }
}

/// Writes a percentage, or that there is none.
fn write_percentage(percent: Option<u64>) -> (shown: Cow<'static, str>)
    ensures
        shown@ == percentage_text(percent),
        shown is Borrowed <==> percent is None,
{
    match percent {
        Some(v) => Cow::Owned(text::pad_left(text::decimal(v as u128), 2).concat("%")),
        None => Cow::Borrowed("--%"),
    }
}

/// Writes a temperature, or that there is none.
fn write_temp<V: Copy>(temp: Option<Reading<V>>) -> (shown: Cow<'static, str>)
    ensures
        shown@ == temp_text(temp),
        shown is Borrowed <==> temp is None,
{
    match temp {
        Some(t) => Cow::Owned(
            text::pad_left(reading::write_rounded(t.rounded), 2).concat("°C"),
        ),
        None => Cow::Borrowed("--°C"),
    }
}

/// Writes a speed, or that there is none.
fn write_speed(speed: Option<Speed>) -> (shown: Cow<'static, str>)
    ensures
        shown@ == speed_text(speed),
        shown is Borrowed <==> speed is None,
{
    match speed {
        Some(speed) => Cow::Owned(text::pad_left(reading::write_tenths(speed.tenths), 4)),
        None => Cow::Borrowed(" -.-"),
    }
}

/// Lends an address, or the text for one that is not known.
fn lend_address<'data>(address: &'data Option<String>) -> (shown: Cow<'data, str>)
    ensures
        shown@ == address_text(crate::public_ip::text_of(*address)),
        shown is Borrowed,
{
    match address {
        Some(ip) => Cow::Borrowed(ip.as_str()),
        None => Cow::Borrowed("--"),
    }
}

/// The colour for a reading.
fn judge<V: Copy>(reading: Option<Reading<V>>, low: u32, high: u32) -> (tint: Tint<V>)
    ensures
        tint == judged(reading, low, high),
{
    match reading {
        Some(v) => Tint::Threshold { value: Quantity::Value(v.value), low, high },
        None => Tint::Plain,
    }
}

/// The colour for a percentage.
fn judge_whole<V: Copy>(percent: Option<u64>, low: u32, high: u32) -> (tint: Tint<V>)
    ensures
        tint == judged_whole::<V>(percent, low, high),
{
    match percent {
        Some(v) => Tint::Threshold { value: Quantity::Whole(v), low, high },
        None => Tint::Plain,
    }
}

impl Template {
    /// What the panel shows: one span for each segment, in order.
    pub fn render<'a, V: Copy>(&'a self, data: &'a Data<Reading<V>>) -> (spans: Vec<Span<'a, V>>)
        ensures
            span_views(spans@) == rendered(self.segments@, data@),
    {
        let mut spans: Vec<Span<'a, V>> = Vec::new();
        let mut i: usize = 0;
        while i < self.segments.len()
            invariant
                i <= self.segments.len(),
                spans.len() == i,
                forall|j: int|
                    0 <= j < i ==> (#[trigger] spans[j])@ == span_for(self.segments[j], data@),
            decreases self.segments.len() - i,
        {
            let span = match &self.segments[i] {
                Segment::Literal(literal) => Span {
                    text: Cow::Borrowed(literal.as_str()),
                    mono: false,
                    tint: Tint::Plain,
                },
                Segment::Variable(variable) => {
                    let (shown, tint) = self.resolve_variable(*variable, data);
                    Span { text: shown, mono: true, tint }
                },
                Segment::Unknown(name) => Span {
                    text: Cow::Owned("{".to_owned().concat(name.as_str()).concat("}")),
                    mono: false,
                    tint: Tint::Red,
                },
            };
            assert(span@ =~= span_for(self.segments[i as int], data@));
            spans.push(span);
            i = i + 1;
        }
        assert(span_views(spans@) =~= rendered(self.segments@, data@));
        spans
    }

    /// The text for a variable, and its colour. An address is lent as it is stored.
    pub fn resolve_variable<'data, V: Copy>(
        &self,
        variable: Variable,
        data: &'data Data<Reading<V>>,
    ) -> (shown: (Cow<'data, str>, Tint<V>))
        ensures
            shown.0@ == text_for(variable, data@),
            shown.0 is Borrowed <==> lent(variable, data@),
            shown.1 == tinted(variable, data@),
    {
        match variable {
            Variable::CpuUsage => (write_usage(data.cpu_usage), judge(data.cpu_usage, 50, 80)),
            Variable::RamUsage => (
                write_percentage(data.ram_usage),
                judge_whole(data.ram_usage, 50, 80),
            ),
            Variable::CpuTemp => (write_temp(data.cpu_temp), judge(data.cpu_temp, 60, 80)),
            Variable::GpuTemp => (write_temp(data.gpu_temp), judge(data.gpu_temp, 60, 85)),
            Variable::GpuUsage => (
                write_percentage(data.gpu_usage),
                judge_whole(data.gpu_usage, 50, 80),
            ),
            Variable::DlSpeed => (write_speed(data.download_speed), Tint::Plain),
            Variable::UlSpeed => (write_speed(data.upload_speed), Tint::Plain),
            Variable::PublicIpv4 => (lend_address(&data.public_ipv4), Tint::Plain),
            Variable::PublicIpv6 => (lend_address(&data.public_ipv6), Tint::Plain),
        }
    }
}

} // verus!
