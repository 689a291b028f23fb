//! What the generated text is, as functions of the command tree.
//!
//! Every function here is a definition over character sequences; the writers
//! of the parent module are proved to produce exactly this text.

use vstd::prelude::*;
use crate::command::{ArgumentView, CommandView};
use crate::nu::{classify, CompletionCategory};
use crate::text::{escape_quotes, first_line};

verus! {

/// The full name of a subcommand called `child` under the command whose full
/// name is `parent`.
pub open spec fn child_name(parent: Seq<char>, child: Seq<char>) -> Seq<char> {
    parent + seq![' '] + child
}

/// The name of the completion function for the argument `id` of the command
/// whose full name is `name`.
pub open spec fn completer_name(name: Seq<char>, id: Seq<char>) -> Seq<char> {
    "nu-complete "@ + name + " --"@ + id
}

/// Whether the values of `arg` are completed from a closed set: it expects
/// free text and lists its possible values.
pub open spec fn has_choices(arg: ArgumentView) -> bool {
    classify(arg.value_hint) == CompletionCategory::PlainText && arg.possible_values is Some
}

/// Whether a completion function is defined for `arg`: it is visible and its
/// values are completed from a closed set.
pub open spec fn has_completer(arg: ArgumentView) -> bool {
    !arg.hidden && has_choices(arg)
}

/// The values of a completion function as the items of a list: each one in
/// double quotes, with the quotes inside it escaped, and followed by a comma.
pub open spec fn quoted_values(values: Seq<Seq<char>>) -> Seq<char>
    decreases values.len(),
{
    if values.len() == 0 {
        Seq::empty()
    } else {
        quoted_values(values.drop_last()) + "\""@ + escape_quotes(values.last()) + "\", "@
    }
}

/// The definition of the completion function for the argument `id` of the
/// command whose full name is `name`: a function without parameters that
/// returns the list of `values`, followed by an empty line.
pub open spec fn completer_definition(
    name: Seq<char>,
    id: Seq<char>,
    values: Seq<Seq<char>>,
) -> Seq<char> {
    "def '"@ + completer_name(name, id) + "' [] {\n"@ + "  [ "@ + quoted_values(values) + "]\n"@
        + "}\n"@ + "\n"@
}

/// The definition of the completion function for `arg`, where it has one.
pub open spec fn argument_completer(arg: ArgumentView, name: Seq<char>) -> Seq<char> {
    if has_completer(arg) {
        completer_definition(name, arg.id, arg.possible_values->0)
    } else {
        Seq::empty()
    }
}

/// The completion functions for the arguments `args`, in order.
pub open spec fn argument_completers(args: Seq<ArgumentView>, name: Seq<char>) -> Seq<char>
    decreases args.len(),
{
    if args.len() == 0 {
        Seq::empty()
    } else {
        argument_completers(args.drop_last(), name) + argument_completer(args.last(), name)
    }
}

/// What `cmd` itself adds to the completion functions: those for its
/// arguments, or nothing where it is hidden.
pub open spec fn node_completers(cmd: CommandView, name: Seq<char>) -> Seq<char> {
    if cmd.hidden {
        Seq::empty()
    } else {
        argument_completers(cmd.args, name)
    }
}

/// The completion functions of `cmd` and of every command below it, in
/// pre-order.
pub open spec fn tree_completers(cmd: CommandView, name: Seq<char>) -> Seq<char>
    decreases cmd,
{
    node_completers(cmd, name) + forest_completers(cmd.subcommands, name)
}

/// The completion functions of the trees `subs`, in order, as subcommands of
/// the command whose full name is `parent`.
pub open spec fn forest_completers(subs: Seq<CommandView>, parent: Seq<char>) -> Seq<char>
    decreases subs,
{
    if subs.len() == 0 {
        Seq::empty()
    } else {
        forest_completers(subs.drop_last(), parent) + tree_completers(
            subs.last(),
            child_name(parent, subs.last().name),
        )
    }
}

/// The type written for the value of `arg`: the name of its category, then,
/// where its values are completed from a closed set, `@` and the quoted name
/// of its completion function.
pub open spec fn value_type(arg: ArgumentView, name: Seq<char>) -> Seq<char> {
    if has_choices(arg) {
        classify(arg.value_hint).name() + "@'"@ + completer_name(name, arg.id) + "'"@
    } else {
        classify(arg.value_hint).name()
    }
}

/// The marker before the name of a positional that accepts several values.
pub open spec fn splat_marker(arg: ArgumentView) -> Seq<char> {
    if arg.multiple_values {
        "..."@
    } else {
        Seq::empty()
    }
}

/// The marker behind the name of a positional that may be left out.
pub open spec fn optional_marker(arg: ArgumentView) -> Seq<char> {
    if arg.required {
        Seq::empty()
    } else {
        "?"@
    }
}

/// How `arg` is declared in a signature. The form follows from which flags
/// the argument has and from whether it takes a value: a named argument shows
/// its long flag, then its short flag in brackets, then a colon and its type
/// where it takes a value. An argument with neither flag is declared by its
/// identifier between its markers, and always with a type.
pub open spec fn declaration(arg: ArgumentView, name: Seq<char>) -> Seq<char> {
    match (arg.long, arg.short, arg.takes_value) {
        (Some(long), Some(short), true) => "--"@ + long + "(-"@ + seq![short] + ")"@ + ": "@
            + value_type(arg, name),
        (Some(long), Some(short), false) => "--"@ + long + "(-"@ + seq![short] + ")"@,
        (Some(long), None, true) => "--"@ + long + ": "@ + value_type(arg, name),
        (Some(long), None, false) => "--"@ + long,
        (None, Some(short), true) => "-"@ + seq![short] + ": "@ + value_type(arg, name),
        (None, Some(short), false) => "-"@ + seq![short],
        (None, None, _) => splat_marker(arg) + arg.id + optional_marker(arg) + ": "@ + value_type(
            arg,
            name,
        ),
    }
}

/// The first line of the help text of `arg`; empty where it has none.
pub open spec fn help_summary(arg: ArgumentView) -> Seq<char> {
    match arg.help {
        Some(help) => first_line(help),
        None => Seq::empty(),
    }
}

/// The line of a signature that declares `arg`.
pub open spec fn parameter_line(arg: ArgumentView, name: Seq<char>) -> Seq<char> {
    "  "@ + declaration(arg, name) + " # "@ + help_summary(arg) + "\n"@
}

/// Whether `arg` is listed among the positionals (`positional` is true) or
/// among the named arguments (`positional` is false) of a signature.
pub open spec fn listed(arg: ArgumentView, positional: bool) -> bool {
    !arg.hidden && arg.positional == positional
}

/// The lines of the arguments of `args` that are listed for `positional`, in
/// the order of `args`.
pub open spec fn parameter_lines(
    args: Seq<ArgumentView>,
    name: Seq<char>,
    positional: bool,
) -> Seq<char>
    decreases args.len(),
{
    if args.len() == 0 {
        Seq::empty()
    } else if listed(args.last(), positional) {
        parameter_lines(args.drop_last(), name, positional) + parameter_line(args.last(), name)
    } else {
        parameter_lines(args.drop_last(), name, positional)
    }
}

/// The comment above a signature: the first line of the description, where
/// there is one.
pub open spec fn comment_line(about: Option<Seq<char>>) -> Seq<char> {
    match about {
        Some(about) => "# "@ + first_line(about) + "\n"@,
        None => Seq::empty(),
    }
}

/// The signature of `cmd` under the full name `name`: the comment, the opening
/// line, the positionals, the named arguments, and the closing line.
pub open spec fn signature_block(cmd: CommandView, name: Seq<char>) -> Seq<char> {
    comment_line(cmd.about) + "export extern '"@ + name + "' [\n"@ + parameter_lines(
        cmd.args,
        name,
        true,
    ) + parameter_lines(cmd.args, name, false) + "]\n"@
}

/// What `cmd` itself adds to the signatures: its signature and an empty line,
/// or nothing where it is hidden.
pub open spec fn node_signature(cmd: CommandView, name: Seq<char>) -> Seq<char> {
    if cmd.hidden {
        Seq::empty()
    } else {
        signature_block(cmd, name) + "\n"@
    }
}

/// The signatures of `cmd` and of every command below it, in pre-order.
pub open spec fn tree_signatures(cmd: CommandView, name: Seq<char>) -> Seq<char>
    decreases cmd,
{
    node_signature(cmd, name) + forest_signatures(cmd.subcommands, name)
}

/// The signatures of the trees `subs`, in order, as subcommands of the command
/// whose full name is `parent`.
pub open spec fn forest_signatures(subs: Seq<CommandView>, parent: Seq<char>) -> Seq<char>
    decreases subs,
{
    if subs.len() == 0 {
        Seq::empty()
    } else {
        forest_signatures(subs.drop_last(), parent) + tree_signatures(
            subs.last(),
            child_name(parent, subs.last().name),
        )
    }
}

/// The whole text generated for the program `app`: every completion function,
/// then every signature.
pub open spec fn module_text(app: CommandView) -> Seq<char> {
    tree_completers(app, app.name) + tree_signatures(app, app.name)
}

} // verus!
