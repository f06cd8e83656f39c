//! Monitor records, built from what each enumerated display reports, and the
//! lines the list operation prints.

use vstd::prelude::*;

verus! {

/// What one enumerated display reports, after a best-effort refresh of its
/// capability metadata: its model name, if known, and the input-source entry
/// of its capability database, if the database has one for `INPUT_SELECT`.
/// A display whose refresh failed simply reports no entry.
pub struct DisplayReport {
    /// The display's model name, if the platform knows one.
    pub model_name: Option<String>,
    /// The capability database's entry for the input-source feature.
    pub input_source: Option<InputSourceFeature>,
}

/// The input-source entry of a display's capability database.
pub struct InputSourceFeature {
    /// Whether the feature is of the non-continuous (enumerated-value) kind.
    pub non_continuous: bool,
    /// The feature's value map: each VCP value with its human-readable name,
    /// if any, in the order the database yields them.
    pub values: Vec<(u8, Option<String>)>,
}

/// A monitor as the list operation presents it: a name and the labels of the
/// input sources it offers.
pub struct Monitor {
    pub name: String,
    pub inputs: Vec<String>,
}

/// The mathematical value of a [`Monitor`].
pub struct MonitorView {
    pub name: Seq<char>,
    pub inputs: Seq<Seq<char>>,
}

impl View for Monitor {
    type V = MonitorView;

    open spec fn view(&self) -> MonitorView {
        MonitorView {
            name: self.name@,
            inputs: self.inputs@.map_values(|s: String| s@),
        }
    }
}

/// The named values of a value map, in order: the name of each entry that has
/// one, skipping the nameless entries.
pub open spec fn spec_named_values(values: Seq<(u8, Option<String>)>) -> Seq<Seq<char>>
    decreases values.len(),
{
    if values.len() == 0 {
        Seq::empty()
    } else {
        spec_named_values(values.drop_last()) + match values.last().1 {
            Some(name) => seq![name@],
            None => Seq::empty(),
        }
    }
}

/// The monitor record a single display report yields: the model name, or an
/// empty name where none is known, and the named values of the input-source
/// feature where that feature is of the non-continuous kind.
pub open spec fn spec_monitor_of(report: DisplayReport) -> MonitorView {
    MonitorView {
        name: match report.model_name {
            Some(name) => name@,
            None => Seq::empty(),
        },
        inputs: match report.input_source {
            Some(feature) => if feature.non_continuous {
                spec_named_values(feature.values@)
            } else {
                Seq::empty()
            },
            None => Seq::empty(),
        },
    }
}

/// The monitor records a whole enumeration yields, in order: one per report
/// whose capability database has an input-source entry.
pub open spec fn spec_monitors(reports: Seq<DisplayReport>) -> Seq<MonitorView>
    decreases reports.len(),
{
    if reports.len() == 0 {
        Seq::empty()
    } else {
        spec_monitors(reports.drop_last()) + if reports.last().input_source is Some {
            seq![spec_monitor_of(reports.last())]
        } else {
            Seq::empty()
        }
    }
}

/// Builds the monitor records of an enumeration: one per display whose
/// capability database has an input-source entry, carrying the model name
/// (empty where unknown) and the named, non-continuous input values in the
/// order the database yields them.
pub fn get_monitors(reports: &Vec<DisplayReport>) -> (monitors: Vec<Monitor>)
    ensures
        monitors@.map_values(|m: Monitor| m@) == spec_monitors(reports@),
{
    let mut monitors: Vec<Monitor> = Vec::new();
    let mut i: usize = 0;
    while i < reports.len()
        invariant
            i <= reports.len(),
            monitors@.map_values(|m: Monitor| m@) == spec_monitors(reports@.take(i as int)),
        decreases reports.len() - i,
    {
        let report = &reports[i];
        let name: String = match &report.model_name {
            Some(name) => name.clone(),
            None => String::new(),
        };
        match &report.input_source {
            Some(feature) => {
                let inputs: Vec<String> = if feature.non_continuous {
                    named_values(&feature.values)
                } else {
                    Vec::new()
                };
                let monitor = Monitor { name, inputs };
                proof {
                    assert(monitor@.inputs =~~= spec_monitor_of(reports@[i as int]).inputs);
                    assert(monitor@ == spec_monitor_of(reports@[i as int]));
                }
                monitors.push(monitor);
            },
            None => {},
        }
        proof {
            assert(reports@.take(i + 1int).drop_last() =~= reports@.take(i as int));
            assert(reports@.take(i + 1int).last() == reports@[i as int]);
            assert(monitors@.map_values(|m: Monitor| m@) =~= spec_monitors(
                reports@.take(i + 1int),
            ));
        }
        i = i + 1;
    }
    proof {
        assert(reports@.take(reports@.len() as int) =~= reports@);
    }
    monitors
}

/// The header line the list operation prints for a monitor: the monitor's
/// name, in quotes, in a fixed sentence.
pub open spec fn spec_header_line(name: Seq<char>) -> Seq<char> {
    "Found the following inputs available on \""@ + name + "\":"@
}

/// An input label as the list operation prints it: in quotes.
pub open spec fn spec_quoted(label: Seq<char>) -> Seq<char> {
    "\""@ + label + "\""@
}

/// Each label of a sequence, quoted, in order.
pub open spec fn spec_quoted_lines(labels: Seq<Seq<char>>) -> Seq<Seq<char>>
    decreases labels.len(),
{
    if labels.len() == 0 {
        Seq::empty()
    } else {
        spec_quoted_lines(labels.drop_last()) + seq![spec_quoted(labels.last())]
    }
}

/// The lines the list operation prints for one monitor: its header line, then
/// one quoted line per input label, in order.
pub open spec fn spec_monitor_lines(monitor: MonitorView) -> Seq<Seq<char>> {
    seq![spec_header_line(monitor.name)] + spec_quoted_lines(monitor.inputs)
}

/// The lines the list operation prints: those of each monitor, in order.
pub open spec fn spec_list_lines(monitors: Seq<MonitorView>) -> Seq<Seq<char>>
    decreases monitors.len(),
{
    if monitors.len() == 0 {
        Seq::empty()
    } else {
        spec_list_lines(monitors.drop_last()) + spec_monitor_lines(monitors.last())
    }
}

/// Renders the list operation's output: for each monitor a header line naming
/// it, followed by one line per input label, in order.
pub fn list(monitors: &Vec<Monitor>) -> (lines: Vec<String>)
    ensures
        lines@.map_values(|s: String| s@) == spec_list_lines(
            monitors@.map_values(|m: Monitor| m@),
        ),
{
    let ghost views = monitors@.map_values(|m: Monitor| m@);
    let mut lines: Vec<String> = Vec::new();
    let mut i: usize = 0;
    while i < monitors.len()
        invariant
            i <= monitors.len(),
            views == monitors@.map_values(|m: Monitor| m@),
            lines@.map_values(|s: String| s@) == spec_list_lines(views.take(i as int)),
        decreases monitors.len() - i,
    {
        let monitor = &monitors[i];
        let header = "Found the following inputs available on \"".to_owned().concat(
            monitor.name.as_str(),
        ).concat("\":");
        assert(header@ =~= spec_header_line(views[i as int].name));
        lines.push(header);
        let mut j: usize = 0;
        while j < monitor.inputs.len()
            invariant
                j <= monitor.inputs.len(),
                monitor == &monitors[i as int],
                i < monitors.len(),
                views == monitors@.map_values(|m: Monitor| m@),
                lines@.map_values(|s: String| s@) == spec_list_lines(views.take(i as int))
                    + seq![spec_header_line(views[i as int].name)] + spec_quoted_lines(
                    views[i as int].inputs.take(j as int),
                ),
            decreases monitor.inputs.len() - j,
        {
            let line = "\"".to_owned().concat(monitor.inputs[j].as_str()).concat("\"");
            assert(line@ =~= spec_quoted(views[i as int].inputs[j as int]));
            let ghost prev = lines@.map_values(|s: String| s@);
            lines.push(line);
            proof {
                assert(lines@.map_values(|s: String| s@) =~~= prev + seq![line@]);
                assert(views[i as int].inputs.take(j + 1int).drop_last() =~= views[
                    i as int
                ].inputs.take(j as int));
                assert(views[i as int].inputs.take(j + 1int).last() == views[
                    i as int
                ].inputs[j as int]);
                assert(prev + seq![line@] =~~= spec_list_lines(views.take(i as int)) + seq![
                    spec_header_line(views[i as int].name),
                ] + spec_quoted_lines(views[i as int].inputs.take(j + 1int)));
            }
            j = j + 1;
        }
        proof {
            assert(views[i as int].inputs.take(views[i as int].inputs.len() as int) =~= views[
                i as int
            ].inputs);
            assert(views.take(i + 1int).drop_last() =~= views.take(i as int));
            assert(views.take(i + 1int).last() == views[i as int]);
            assert(lines@.map_values(|s: String| s@) =~~= spec_list_lines(views.take(i + 1int)));
        }
        i = i + 1;
    }
    proof {
        assert(views.take(views.len() as int) =~= views);
    }
    lines
}

/// Collects the named values of a value map, in order.
fn named_values(values: &Vec<(u8, Option<String>)>) -> (names: Vec<String>)
    ensures
        names@.map_values(|s: String| s@) == spec_named_values(values@),
{
    let mut names: Vec<String> = Vec::new();
    let mut j: usize = 0;
    while j < values.len()
        invariant
            j <= values.len(),
            names@.map_values(|s: String| s@) == spec_named_values(values@.take(j as int)),
        decreases values.len() - j,
    {
        match &values[j].1 {
            Some(name) => names.push(name.clone()),
            None => {},
        }
        proof {
            assert(values@.take(j + 1int).drop_last() =~= values@.take(j as int));
            assert(values@.take(j + 1int).last() == values@[j as int]);
            assert(names@.map_values(|s: String| s@) =~= spec_named_values(
                values@.take(j + 1int),
            ));
        }
        j = j + 1;
    }
    proof {
        assert(values@.take(values@.len() as int) =~= values@);
    }
    names
}

} // verus!
