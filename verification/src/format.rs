//! The metric text: one line for each reading that a device gave.

use vstd::prelude::*;
use crate::decode::FieldSpec;
use crate::decode::Reading;
use crate::models::Metrics;
use crate::text::escaped;
use crate::text::push_escaped;

verus! {

/// One metric line: the metric's name, the label `name` with the role of the
/// device between double quotes, a space, the value, and a line feed.
pub open spec fn line_text(metric: Seq<char>, label: Seq<char>, value: Seq<char>) -> Seq<char> {
    metric + "{name=\""@ + escaped(label) + "\"} "@ + value + "\n"@
}

/// The text that a reading adds under a metric's name: one line for a value,
/// with a switch written as `1` or `0`, and nothing for a reading that is
/// absent.
pub open spec fn metric_line(metric: Seq<char>, label: Seq<char>, reading: Reading) -> Seq<char> {
    match reading {
        Reading::Absent => Seq::<char>::empty(),
        Reading::Flag(on) => line_text(
            metric,
            label,
            if on {
                "1"@
            } else {
                "0"@
            },
        ),
        Reading::Number(number) => line_text(metric, label, number.text()),
    }
}

/// The lines of the first `count` fields of a section, in the order of the
/// layout.
pub open spec fn section_lines(
    layout: Seq<FieldSpec>,
    readings: Seq<Reading>,
    label: Seq<char>,
    count: nat,
) -> Seq<char>
    decreases count,
{
    if count == 0 {
        Seq::<char>::empty()
    } else {
        section_lines(layout, readings, label, (count - 1) as nat) + metric_line(
            layout[count - 1].name@,
            label,
            readings[count - 1],
        )
    }
}

/// Writes the line of one reading at the end of `out`.
pub fn push_metric(out: &mut String, metric: &str, label: &str, reading: &Reading)
    ensures
        final(out)@ == old(out)@ + metric_line(metric@, label@, *reading),
{
    match reading {
        Reading::Absent => {
            assert(out@ =~= old(out)@ + metric_line(metric@, label@, *reading));
        },
        Reading::Flag(on) => {
            push_line(
                out,
                metric,
                label,
                if *on {
                    "1"
                } else {
                    "0"
                },
            );
        },
        Reading::Number(number) => {
            let mut value = String::new();
            number.push_text(&mut value);
            assert(value@ =~= number.text());
            push_line(out, metric, label, value.as_str());
        },
    }
}

/// Writes one metric line at the end of `out`.
fn push_line(out: &mut String, metric: &str, label: &str, value: &str)
    ensures
        final(out)@ == old(out)@ + line_text(metric@, label@, value@),
{
    out.append(metric);
    out.append("{name=\"");
    push_escaped(out, label);
    out.append("\"} ");
    out.append(value);
    out.append("\n");
    assert(out@ =~= old(out)@ + line_text(metric@, label@, value@));
}

/// Renders the record of a device as metric text under the given label.
pub fn format_metrics(m: &Metrics, name: &str) -> (text: String)
    ensures
        text@ == m.lines(name@),
{
    let mut text = String::new();
    match &m.batman {
        Some(battery) => {
            battery.push_lines(&mut text, name);
        },
        None => {},
    }
    m.cache.push_lines(&mut text, name);
    m.powerflow.push_lines(&mut text, name);
    m.powerflow2.push_lines(&mut text, name);
    assert(text@ =~= m.lines(name@));
    text
}

/// A record without a battery section renders without any line of the
/// battery; the lines of the cache and of the power flow are all there.
pub proof fn lemma_secondary_has_no_battery_lines(m: Metrics, label: Seq<char>)
    requires
        m.batman is None,
    ensures
        m.lines(label) == m.cache.lines(label) + m.powerflow.lines(label) + m.powerflow2.lines(
            label,
        ),
{
    assert(m.lines(label) =~= m.cache.lines(label) + m.powerflow.lines(label)
        + m.powerflow2.lines(label));
}

/// Rendering is a function of the record and the label alone: two renderings
/// of the same record under the same label are the same text.
pub proof fn lemma_format_is_deterministic(
    m: Metrics,
    label: Seq<char>,
    first: String,
    second: String,
)
    requires
        first@ == m.lines(label),
        second@ == m.lines(label),
    ensures
        first@ == second@,
{
}

} // verus!
