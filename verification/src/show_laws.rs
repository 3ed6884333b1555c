//! What the panel shows of the readings, in terms of what goes in and what comes out.
use std::borrow::Cow;
use vstd::prelude::*;
use crate::data::Data;
use crate::reading;
use crate::reading::Reading;
use crate::render;
use crate::render::{Quantity, Span, Tint};
use crate::template::{Segment, Template, Variable};
use crate::text;
use crate::text_laws;

verus! {

/// `shown` is `written`, aligned to the right in a field of `width` characters, and then `unit`.
pub open spec fn in_field(
    shown: Seq<char>,
    written: Seq<char>,
    width: nat,
    unit: Seq<char>,
) -> bool {
    let n = shown.len() - unit.len();
    &&& n >= 0
    &&& text_laws::aligned(shown.take(n), written, width)
    &&& shown.skip(n) == unit
}

/// What is written into a field stands in it.
proof fn lemma_field(written: Seq<char>, width: nat, unit: Seq<char>)
    ensures
        in_field(text::padded(written, width) + unit, written, width, unit),
{
    let shown = text::padded(written, width) + unit;
    let n = shown.len() - unit.len();
    text_laws::lemma_padded(written, width);
    assert(shown.take(n) =~= text::padded(written, width));
    assert(shown.skip(n) =~= unit);
}

/// The characters of the texts that stand beside numbers or for them.
proof fn lemma_characters()
    ensures
        "%"@ == seq!['%'],
        "°C"@ == seq!['°', 'C'],
        "--%"@ == seq!['-', '-', '%'],
        "--°C"@ == seq!['-', '-', '°', 'C'],
        " -.-"@ == seq![' ', '-', '.', '-'],
        "--"@ == seq!['-', '-'],
        "{"@ == seq!['{'],
        "}"@ == seq!['}'],
{
    reveal_strlit("%");
    reveal_strlit("°C");
    reveal_strlit("--%");
    reveal_strlit("--°C");
    reveal_strlit(" -.-");
    reveal_strlit("--");
    reveal_strlit("{");
    reveal_strlit("}");
    assert("%"@ =~= seq!['%']);
    assert("°C"@ =~= seq!['°', 'C']);
    assert("--%"@ =~= seq!['-', '-', '%']);
    assert("--°C"@ =~= seq!['-', '-', '°', 'C']);
    assert(" -.-"@ =~= seq![' ', '-', '.', '-']);
    assert("--"@ =~= seq!['-', '-']);
    assert("{"@ =~= seq!['{']);
    assert("}"@ =~= seq!['}']);
}

/// The reading of a variable that has a fraction.
pub open spec fn fractional<V>(data: Data<Reading<V>>, variable: Variable) -> Option<Reading<V>> {
    match variable {
        Variable::CpuUsage => data.cpu_usage,
        Variable::CpuTemp => data.cpu_temp,
        Variable::GpuTemp => data.gpu_temp,
        _ => None,
    }
}

/// A reading with a fraction is shown as the rounded number, in two characters or more, with its
/// unit, and is judged by its value; one that is not known is shown by two dashes with the unit,
/// and not judged.
pub proof fn law_rounded_readings_are_shown<V: Copy>(
    template: Template,
    variable: Variable,
    data: Data<Reading<V>>,
    shown: (Cow<'_, str>, Tint<V>),
    written: String,
)
    requires
        variable is CpuUsage || variable is CpuTemp || variable is GpuTemp,
        call_ensures(Template::resolve_variable::<V>, (&template, variable, &data), shown),
        fractional(data, variable) matches Some(known) ==> call_ensures(
            reading::write_rounded,
            (known.rounded,),
            written,
        ),
    ensures
        ({
            let unit = if variable is CpuUsage {
                seq!['%']
            } else {
                seq!['°', 'C']
            };
            let (low, high) = match variable {
                Variable::CpuUsage => (50u32, 80u32),
                Variable::CpuTemp => (60u32, 80u32),
                _ => (60u32, 85u32),
            };
            match fractional(data, variable) {
                Some(known) => {
                    &&& in_field(shown.0@, written@, 2, unit)
                    &&& shown.0 is Owned
                    &&& shown.1 == (Tint::Threshold {
                        value: Quantity::Value(known.value),
                        low,
                        high,
                    })
                },
                None => {
                    &&& shown.0@ == seq!['-', '-'] + unit
                    &&& shown.0 is Borrowed
                    &&& shown.1 == Tint::<V>::Plain
                },
            }
        }),
{
    lemma_characters();
    lemma_field(written@, 2, "%"@);
    lemma_field(written@, 2, "°C"@);
    assert(seq!['-', '-', '%'] =~= seq!['-', '-'] + seq!['%']);
    assert(seq!['-', '-', '°', 'C'] =~= seq!['-', '-'] + seq!['°', 'C']);
}

/// A whole percentage is shown as its digits, in two characters or more, with a percent sign, and
/// is judged as it is; one that is not known is shown by two dashes with the sign, and not judged.
pub proof fn law_percentages_are_shown<V: Copy>(
    template: Template,
    variable: Variable,
    data: Data<Reading<V>>,
    shown: (Cow<'_, str>, Tint<V>),
    written: String,
)
    requires
        variable is RamUsage || variable is GpuUsage,
        call_ensures(Template::resolve_variable::<V>, (&template, variable, &data), shown),
        (if variable is RamUsage {
            data.ram_usage
        } else {
            data.gpu_usage
        }) matches Some(percent) ==> call_ensures(text::decimal, (percent as u128,), written),
    ensures
        match (if variable is RamUsage {
            data.ram_usage
        } else {
            data.gpu_usage
        }) {
            Some(percent) => {
                &&& in_field(shown.0@, written@, 2, seq!['%'])
                &&& shown.0 is Owned
                &&& shown.1 == (Tint::<V>::Threshold {
                    value: Quantity::Whole(percent),
                    low: 50,
                    high: 80,
                })
            },
            None => {
                &&& shown.0@ == seq!['-', '-', '%']
                &&& shown.0 is Borrowed
                &&& shown.1 == Tint::<V>::Plain
            },
        },
{
    lemma_characters();
    lemma_field(written@, 2, "%"@);
}

/// A speed is shown as its tenths, in four characters or more, and is not judged; one that is not
/// known is shown by dashes around a point.
pub proof fn law_speeds_are_shown<V: Copy>(
    template: Template,
    variable: Variable,
    data: Data<Reading<V>>,
    shown: (Cow<'_, str>, Tint<V>),
    written: String,
)
    requires
        variable is DlSpeed || variable is UlSpeed,
        call_ensures(Template::resolve_variable::<V>, (&template, variable, &data), shown),
        (if variable is DlSpeed {
            data.download_speed
        } else {
            data.upload_speed
        }) matches Some(speed) ==> call_ensures(reading::write_tenths, (speed.tenths,), written),
    ensures
        (if variable is DlSpeed {
            data.download_speed
        } else {
            data.upload_speed
        }) is Some ==> text_laws::aligned(shown.0@, written@, 4) && shown.0 is Owned,
        (if variable is DlSpeed {
            data.download_speed
        } else {
            data.upload_speed
        }) is None ==> shown.0@ == seq![' ', '-', '.', '-'] && shown.0 is Borrowed,
        shown.1 == Tint::<V>::Plain,
{
    lemma_characters();
    text_laws::lemma_padded(written@, 4);
}

/// An address is shown as it is, lent and not judged; one that is not known is shown by two
/// dashes.
pub proof fn law_addresses_are_shown<V: Copy>(
    template: Template,
    variable: Variable,
    data: Data<Reading<V>>,
    shown: (Cow<'_, str>, Tint<V>),
)
    requires
        variable is PublicIpv4 || variable is PublicIpv6,
        call_ensures(Template::resolve_variable::<V>, (&template, variable, &data), shown),
    ensures
        match (if variable is PublicIpv4 {
            data.public_ipv4
        } else {
            data.public_ipv6
        }) {
            Some(address) => shown.0@ == address@,
            None => shown.0@ == seq!['-', '-'],
        },
        shown.0 is Borrowed,
        shown.1 == Tint::<V>::Plain,
{
    lemma_characters();
}

/// A template is shown piece by piece, in order: text as it stands, a variable by what it is
/// resolved to and in a font of one width, and a name that stands for no variable in its braces
/// and in red. Here `resolved` is what the variable at `i` is resolved to.
pub proof fn law_template_is_shown_piece_by_piece<V: Copy>(
    template: Template,
    data: Data<Reading<V>>,
    spans: Vec<Span<'_, V>>,
    i: int,
    resolved: (Cow<'_, str>, Tint<V>),
)
    requires
        call_ensures(Template::render::<V>, (&template, &data), spans),
        0 <= i < template.segments@.len(),
        template.segments@[i] matches Segment::Variable(variable) ==> call_ensures(
            Template::resolve_variable::<V>,
            (&template, variable, &data),
            resolved,
        ),
    ensures
        spans@.len() == template.segments@.len(),
        match template.segments@[i] {
            Segment::Literal(literal) => {
                &&& spans@[i].text@ == literal@
                &&& spans@[i].text is Borrowed
                &&& !spans@[i].mono
                &&& spans@[i].tint == Tint::<V>::Plain
            },
            Segment::Variable(_) => {
                &&& spans@[i].text@ == resolved.0@
                &&& spans@[i].text is Borrowed <==> resolved.0 is Borrowed
                &&& spans@[i].mono
                &&& spans@[i].tint == resolved.1
            },
            Segment::Unknown(name) => {
                &&& spans@[i].text@ == seq!['{'] + name@ + seq!['}']
                &&& !spans@[i].mono
                &&& spans@[i].tint == Tint::<V>::Red
            },
        },
{
    lemma_characters();
    let views = render::span_views(spans@);
    assert(views.len() == spans@.len());
    assert(render::rendered(template.segments@, data@).len() == template.segments@.len());
    assert(views[i] == spans@[i]@);
    assert(views[i] == render::span_for(template.segments@[i], data@));
}

/// A template without pieces shows nothing.
pub proof fn law_nothing_is_shown_of_nothing<V: Copy>(
    template: Template,
    data: Data<Reading<V>>,
    spans: Vec<Span<'_, V>>,
)
    requires
        call_ensures(Template::render::<V>, (&template, &data), spans),
        template.segments@.len() == 0,
    ensures
        spans@.len() == 0,
{
    assert(render::span_views(spans@).len() == spans@.len());
    assert(render::rendered(template.segments@, data@).len() == template.segments@.len());
}

} // verus!
