//! The switch operation: deciding, from an enumeration of displays, which
//! set-feature commands to issue to move a named monitor to a named input.

use vstd::prelude::*;
use crate::inputs::{INPUT_SELECT, spec_input_code, input_code};
use crate::monitors::DisplayReport;

verus! {

/// One DDC/CI set-feature command the switch operation decided on: set the
/// given VCP feature of the display at `display` (its position in the
/// enumeration) to `value`.
#[derive(Clone, Copy, Debug, PartialEq, Eq, Structural)]
pub struct VcpCommand {
    pub display: usize,
    pub feature: u8,
    pub value: u16,
}

/// Why a switch request was rejected.
#[derive(Debug)]
pub enum SwitchError {
    /// The requested input label is not in the static input-code table.
    UnknownInput { label: String },
}

impl SwitchError {
    /// The diagnostic an error prints.
    pub open spec fn spec_message(self) -> Seq<char> {
        match self {
            SwitchError::UnknownInput { label } => "unknown input: \""@ + label@ + "\""@,
        }
    }

    /// Renders the diagnostic the error stands for.
    pub fn message(&self) -> (r: String)
        ensures
            r@ == self.spec_message(),
    {
        match self {
            SwitchError::UnknownInput { label } => {
                let r = "unknown input: \"".to_owned().concat(label.as_str()).concat("\"");
                proof {
                    assert(r@ =~= self.spec_message());
                }
                r
            },
        }
    }
}

/// Whether a display report names the requested monitor: it has a model name
/// and that name equals the request exactly.
pub open spec fn spec_matches(report: DisplayReport, monitor: Seq<char>) -> bool {
    report.model_name is Some && report.model_name.unwrap()@ == monitor
}

/// The commands a switch request issues: one per matching display, in
/// enumeration order, each setting the input-select feature to `code`.
pub open spec fn spec_plan(reports: Seq<DisplayReport>, monitor: Seq<char>, code: u16) -> Seq<
    VcpCommand,
>
    decreases reports.len(),
{
    if reports.len() == 0 {
        Seq::empty()
    } else {
        spec_plan(reports.drop_last(), monitor, code) + if spec_matches(
            reports.last(),
            monitor,
        ) {
            seq![
                VcpCommand {
                    display: (reports.len() - 1) as usize,
                    feature: INPUT_SELECT,
                    value: code,
                },
            ]
        } else {
            Seq::empty()
        }
    }
}

/// Decides a switch request. An input label absent from the static table is
/// reported as an unknown-input error; a known label yields the full plan of
/// set-feature commands, one per display whose model name equals the request,
/// and an empty plan — success with nothing to do — where none matches.
pub fn switch(reports: &Vec<DisplayReport>, monitor: &String, input: &String) -> (r: Result<
    Vec<VcpCommand>,
    SwitchError,
>)
    ensures
        r is Ok <==> spec_input_code(input@) is Some,
        (match r {
            Ok(plan) => plan@ == spec_plan(
                reports@,
                monitor@,
                spec_input_code(input@).unwrap(),
            ),
            Err(SwitchError::UnknownInput { label }) => label@ == input@,
        }),
{
    let code = match input_code(input) {
        Some(code) => code,
        None => {
            return Err(SwitchError::UnknownInput { label: input.clone() });
        },
    };
    let mut plan: Vec<VcpCommand> = Vec::new();
    let mut i: usize = 0;
    while i < reports.len()
        invariant
            i <= reports.len(),
            code == spec_input_code(input@).unwrap(),
            plan@ == spec_plan(reports@.take(i as int), monitor@, code),
        decreases reports.len() - i,
    {
        match &reports[i].model_name {
            Some(name) => {
                if *name == *monitor {
                    plan.push(VcpCommand { display: i, feature: INPUT_SELECT, value: code });
                }
            },
            None => {},
        }
        proof {
            assert(reports@.take(i + 1int).drop_last() =~= reports@.take(i as int));
            assert(reports@.take(i + 1int).last() == reports@[i as int]);
            assert(plan@ =~= spec_plan(reports@.take(i + 1int), monitor@, code));
        }
        i = i + 1;
    }
    proof {
        assert(reports@.take(reports@.len() as int) =~= reports@);
    }
    Ok(plan)
}

/// Every command of a switch plan sets the input-select feature to the
/// requested code on a display that names the requested monitor; the plan
/// walks the enumeration in order, touching each display at most once; and
/// every display that names the monitor is covered by a command.
pub proof fn lemma_plan_commands(reports: Seq<DisplayReport>, monitor: Seq<char>, code: u16)
    requires
        reports.len() <= usize::MAX,
    ensures
        forall|k: int|
            0 <= k < spec_plan(reports, monitor, code).len() ==> {
                let c = #[trigger] spec_plan(reports, monitor, code)[k];
                &&& c.feature == INPUT_SELECT
                &&& c.value == code
                &&& c.display < reports.len()
                &&& spec_matches(reports[c.display as int], monitor)
            },
        forall|k1: int, k2: int|
            0 <= k1 < k2 < spec_plan(reports, monitor, code).len() ==> spec_plan(
                reports,
                monitor,
                code,
            )[k1].display < spec_plan(reports, monitor, code)[k2].display,
        forall|i: int|
            0 <= i < reports.len() && spec_matches(#[trigger] reports[i], monitor) ==> exists|
                k: int,
            |
                0 <= k < spec_plan(reports, monitor, code).len() && (#[trigger] spec_plan(
                    reports,
                    monitor,
                    code,
                )[k]).display == i,
    decreases reports.len(),
{
    if reports.len() > 0 {
        let prefix = reports.drop_last();
        let plan = spec_plan(reports, monitor, code);
        let prefix_plan = spec_plan(prefix, monitor, code);
        lemma_plan_commands(prefix, monitor, code);
        assert forall|i: int|
            0 <= i < reports.len() && spec_matches(#[trigger] reports[i], monitor) implies exists|
            k: int,
        | 0 <= k < plan.len() && (#[trigger] plan[k]).display == i by {
            if i < reports.len() - 1 {
                assert(spec_matches(prefix[i], monitor));
                let k = choose|k: int|
                    0 <= k < prefix_plan.len() && (#[trigger] prefix_plan[k]).display == i;
                assert(plan[k].display == i);
            } else {
                assert(plan[prefix_plan.len() as int].display == i);
            }
        }
    }
}

/// A switch against zero displays that name the requested monitor issues zero
/// set-feature commands: it succeeds with an empty plan.
pub proof fn lemma_no_match_empty_plan(reports: Seq<DisplayReport>, monitor: Seq<char>, code: u16)
    requires
        forall|i: int| 0 <= i < reports.len() ==> !spec_matches(#[trigger] reports[i], monitor),
    ensures
        spec_plan(reports, monitor, code) == Seq::<VcpCommand>::empty(),
    decreases reports.len(),
{
    if reports.len() > 0 {
        let prefix = reports.drop_last();
        assert forall|i: int| 0 <= i < prefix.len() implies !spec_matches(
            #[trigger] prefix[i],
            monitor,
        ) by {
            assert(prefix[i] == reports[i]);
        }
        lemma_no_match_empty_plan(prefix, monitor, code);
        assert(spec_plan(reports, monitor, code) =~= Seq::<VcpCommand>::empty());
    }
}

/// A switch with exactly one display naming the requested monitor issues
/// exactly one set-feature command, aimed at that display alone.
pub proof fn lemma_single_match_single_command(
    reports: Seq<DisplayReport>,
    monitor: Seq<char>,
    code: u16,
    i: int,
)
    requires
        reports.len() <= usize::MAX,
        0 <= i < reports.len(),
        spec_matches(reports[i], monitor),
        forall|j: int|
            0 <= j < reports.len() && j != i ==> !spec_matches(#[trigger] reports[j], monitor),
    ensures
        spec_plan(reports, monitor, code) == seq![
            VcpCommand { display: i as usize, feature: INPUT_SELECT, value: code },
        ],
    decreases reports.len(),
{
    let prefix = reports.drop_last();
    if i == reports.len() - 1 {
        assert forall|j: int| 0 <= j < prefix.len() implies !spec_matches(
            #[trigger] prefix[j],
            monitor,
        ) by {
            assert(prefix[j] == reports[j]);
        }
        lemma_no_match_empty_plan(prefix, monitor, code);
        assert(spec_plan(reports, monitor, code) =~= seq![
            VcpCommand { display: i as usize, feature: INPUT_SELECT, value: code },
        ]);
    } else {
        assert(prefix[i] == reports[i]);
        lemma_single_match_single_command(prefix, monitor, code, i);
        assert(!spec_matches(reports.last(), monitor));
        assert(spec_plan(reports, monitor, code) =~= seq![
            VcpCommand { display: i as usize, feature: INPUT_SELECT, value: code },
        ]);
    }
}

} // verus!
