use vstd::prelude::*;

use crate::options::RunOptions;

verus! {

/// The name under which a run is tracked: the logical subcommand when one is set,
/// the executable name otherwise.
pub open spec fn logical_name(opts: RunOptions, tool_name: Seq<char>) -> Seq<char> {
    match opts.rtk_command_name {
        Some(name) => name@,
        None => tool_name,
    }
}

/// Label of the command as the user would have typed it.
pub open spec fn original_label(tool_name: Seq<char>, args_display: Seq<char>) -> Seq<char> {
    tool_name + " "@ + args_display
}

/// Label of the command as run through rtk.
pub open spec fn rtk_label(opts: RunOptions, tool_name: Seq<char>, args_display: Seq<char>) -> Seq<char> {
    "rtk "@ + logical_name(opts, tool_name) + " "@ + args_display
}


/// The rtk label is `rtk` followed by the original label, with the logical name in
/// place of the executable when one is set.
pub proof fn rtk_label_wraps_original(opts: RunOptions, tool_name: Seq<char>, args_display: Seq<char>)
    ensures
        opts.rtk_command_name is None ==> rtk_label(opts, tool_name, args_display) == "rtk "@
            + original_label(tool_name, args_display),
        opts.rtk_command_name matches Some(name) ==> rtk_label(opts, tool_name, args_display)
            == "rtk "@ + original_label(name@, args_display),
        original_label(tool_name, args_display) == tool_name + " "@ + args_display,
{
    assert(original_label(tool_name, args_display) =~= tool_name + " "@ + args_display);
    match opts.rtk_command_name {
        Some(name) => {
            assert(rtk_label(opts, tool_name, args_display) =~= "rtk "@ + original_label(
                name@,
                args_display,
            ));
        },
        None => {
            assert(rtk_label(opts, tool_name, args_display) =~= "rtk "@ + original_label(
                tool_name,
                args_display,
            ));
        },
    }
}

/// The pair of labels (original command, rtk command) that a run is tracked under.
pub fn tracking_labels(tool_name: &str, args_display: &str, opts: &RunOptions) -> (r: (String, String))
    ensures
        r.0@ == original_label(tool_name@, args_display@),
        r.1@ == rtk_label(*opts, tool_name@, args_display@),
{
    let mut original = String::from_str(tool_name);
    original.append(" ");
    original.append(args_display);

    let name: &str = match opts.rtk_command_name {
        Some(n) => n,
        None => tool_name,
    };
    let mut rtk = String::from_str("rtk ");
    rtk.append(name);
    rtk.append(" ");
    rtk.append(args_display);
    (original, rtk)
}

} // verus!
