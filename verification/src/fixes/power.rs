//! Changes to a power scheme, as the command lines that make them.

use vstd::prelude::*;

verus! {

/// The program that takes the command lines.
pub const POWER_PROGRAM: &'static str = "powercfg";

/// The arguments of the three runs that set `setting` of `subgroup` in
/// `scheme` to `value`: once for mains power, once for battery power, and
/// once to make the scheme the active one.
pub open spec fn power_commands(
    scheme: Seq<char>,
    subgroup: Seq<char>,
    setting: Seq<char>,
    value: Seq<char>,
) -> Seq<Seq<Seq<char>>> {
    seq![
        seq!["/setacvalueindex"@, scheme, subgroup, setting, value],
        seq!["/setdcvalueindex"@, scheme, subgroup, setting, value],
        seq!["/setactive"@, scheme],
    ]
}

/// The arguments of one run that sets a value: the switch, then the scheme,
/// the subgroup, the setting and the value.
fn set_value_arguments(
    switch: &str,
    scheme: &str,
    subgroup: &str,
    setting: &str,
    value: &str,
) -> (arguments: Vec<String>)
    ensures
        arguments.deep_view() == seq![switch@, scheme@, subgroup@, setting@, value@],
{
    let mut arguments: Vec<String> = Vec::new();
    arguments.push(switch.to_owned());
    arguments.push(scheme.to_owned());
    arguments.push(subgroup.to_owned());
    arguments.push(setting.to_owned());
    arguments.push(value.to_owned());
    arguments
}

/// The arguments with which `POWER_PROGRAM` is to be run, run by run, to
/// set `setting` of `subgroup` in `scheme` to `value`.
pub fn set_power_setting(
    scheme: &str,
    subgroup: &str,
    setting: &str,
    value: &str,
) -> (commands: Vec<Vec<String>>)
    ensures
        commands.deep_view() == power_commands(scheme@, subgroup@, setting@, value@),
{
    let mut activate: Vec<String> = Vec::new();
    activate.push("/setactive".to_owned());
    activate.push(scheme.to_owned());
    proof {
        assert(activate.deep_view() =~= seq!["/setactive"@, scheme@]);
    }
    let mut commands: Vec<Vec<String>> = Vec::new();
    commands.push(set_value_arguments("/setacvalueindex", scheme, subgroup, setting, value));
    commands.push(set_value_arguments("/setdcvalueindex", scheme, subgroup, setting, value));
    commands.push(activate);
    commands
}

} // verus!
