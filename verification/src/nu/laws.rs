//! Laws of the generated text, each proved from the definitions of
//! [`format`](super::format).

use vstd::prelude::*;
use crate::command::{ArgumentView, CommandView, ValueHint};
use crate::nu::format::{
    argument_completer, argument_completers, child_name, comment_line, completer_definition,
    completer_name, forest_completers, forest_signatures, has_completer, help_summary,
    module_text, node_completers, node_signature, parameter_line, parameter_lines,
    signature_block, tree_completers, tree_signatures, value_type,
};
use crate::nu::classify;

verus! {

/// Every value hint falls in exactly one category: the four kinds of path are
/// completed as paths, `Other` as anything, and every remaining hint as free
/// text.
pub proof fn lemma_categories(hint: ValueHint)
    ensures
        classify(hint) is Path <==> (hint is AnyPath || hint is FilePath || hint is DirPath
            || hint is ExecutablePath),
        classify(hint) is Any <==> hint is Other,
        classify(hint) is PlainText <==> (hint is Unknown || hint is CommandName
            || hint is CommandString || hint is CommandWithArguments || hint is Username
            || hint is Hostname || hint is Url || hint is EmailAddress),
{
}

/// A completion function is defined for an argument if and only if the
/// argument is visible, expects free text and lists its possible values.
pub proof fn lemma_completer_defined(arg: ArgumentView, name: Seq<char>)
    ensures
        argument_completer(arg, name).len() > 0 <==> (!arg.hidden && classify(arg.value_hint)
            is PlainText && arg.possible_values is Some),
{
    reveal_strlit("def '");
}

/// For a visible argument whose list of possible values, where it has one, is
/// not empty: a completion function is defined if and only if the argument
/// expects free text and has such a list.
pub proof fn lemma_completer_defined_for_choices(arg: ArgumentView, name: Seq<char>)
    requires
        !arg.hidden,
        arg.possible_values matches Some(values) ==> values.len() > 0,
    ensures
        argument_completer(arg, name).len() > 0 <==> (classify(arg.value_hint) is PlainText && (
        arg.possible_values matches Some(values) && values.len() > 0)),
{
    lemma_completer_defined(arg, name);
}

/// The type of a visible argument names a completion function exactly when
/// that function is defined, and then it names that very function.
pub proof fn lemma_type_names_defined_completer(arg: ArgumentView, name: Seq<char>)
    requires
        !arg.hidden,
    ensures
        has_completer(arg) ==> {
            &&& argument_completer(arg, name) == completer_definition(
                name,
                arg.id,
                arg.possible_values->0,
            )
            &&& value_type(arg, name) == classify(arg.value_hint).name() + "@'"@ + completer_name(
                name,
                arg.id,
            ) + "'"@
        },
        !has_completer(arg) ==> {
            &&& argument_completer(arg, name) == Seq::<char>::empty()
            &&& value_type(arg, name) == classify(arg.value_hint).name()
        },
{
}

/// Under one command, different identifiers give completion functions with
/// different names.
pub proof fn lemma_completer_names_differ(name: Seq<char>, first: Seq<char>, second: Seq<char>)
    requires
        first != second,
    ensures
        completer_name(name, first) != completer_name(name, second),
{
    let prefix = "nu-complete "@ + name + " --"@;
    if prefix + first == prefix + second {
        assert((prefix + first).skip(prefix.len() as int) == first);
        assert((prefix + second).skip(prefix.len() as int) == second);
    }
}

/// In a well-formed command no two arguments share the name of their
/// completion function, and no two subcommands share their full name.
pub proof fn lemma_names_do_not_collide(cmd: CommandView, name: Seq<char>)
    requires
        cmd.well_formed(),
    ensures
        forall|i: int, j: int|
            0 <= i < j < cmd.args.len() ==> completer_name(name, (#[trigger] cmd.args[i]).id)
                != completer_name(name, (#[trigger] cmd.args[j]).id),
        forall|i: int, j: int|
            0 <= i < j < cmd.subcommands.len() ==> child_name(
                name,
                (#[trigger] cmd.subcommands[i]).name,
            ) != child_name(name, (#[trigger] cmd.subcommands[j]).name),
{
    assert forall|i: int, j: int| 0 <= i < j < cmd.args.len() implies completer_name(
        name,
        (#[trigger] cmd.args[i]).id,
    ) != completer_name(name, (#[trigger] cmd.args[j]).id) by {
        lemma_completer_names_differ(name, cmd.args[i].id, cmd.args[j].id);
    }
    assert forall|i: int, j: int| 0 <= i < j < cmd.subcommands.len() implies child_name(
        name,
        (#[trigger] cmd.subcommands[i]).name,
    ) != child_name(name, (#[trigger] cmd.subcommands[j]).name) by {
        let prefix = name + seq![' '];
        let first = cmd.subcommands[i].name;
        let second = cmd.subcommands[j].name;
        if prefix + first == prefix + second {
            assert((prefix + first).skip(prefix.len() as int) == first);
            assert((prefix + second).skip(prefix.len() as int) == second);
        }
    }
}

/// Completion functions follow the order of the arguments: those of two lists
/// of arguments joined are those of the first followed by those of the second.
pub proof fn lemma_argument_completers_concat(
    first: Seq<ArgumentView>,
    second: Seq<ArgumentView>,
    name: Seq<char>,
)
    ensures
        argument_completers(first + second, name) == argument_completers(first, name)
            + argument_completers(second, name),
    decreases second.len(),
{
    if second.len() > 0 {
        lemma_argument_completers_concat(first, second.drop_last(), name);
        assert((first + second).drop_last() == first + second.drop_last());
    }
}

/// The lines of a signature follow the order of the arguments: the lines of
/// two lists of arguments joined are the lines of the first followed by the
/// lines of the second.
pub proof fn lemma_parameter_lines_concat(
    first: Seq<ArgumentView>,
    second: Seq<ArgumentView>,
    name: Seq<char>,
    positional: bool,
)
    ensures
        parameter_lines(first + second, name, positional) == parameter_lines(
            first,
            name,
            positional,
        ) + parameter_lines(second, name, positional),
    decreases second.len(),
{
    if second.len() > 0 {
        lemma_parameter_lines_concat(first, second.drop_last(), name, positional);
        assert((first + second).drop_last() == first + second.drop_last());
    }
}

/// A visible argument has exactly one line in a signature: among the
/// positionals where it is positional, among the named arguments where it is
/// not.
pub proof fn lemma_visible_argument_has_one_line(arg: ArgumentView, name: Seq<char>)
    requires
        !arg.hidden,
    ensures
        parameter_lines(seq![arg], name, arg.positional) == parameter_line(arg, name),
        parameter_lines(seq![arg], name, !arg.positional) == Seq::<char>::empty(),
{
    reveal_with_fuel(parameter_lines, 2);
}

/// A hidden argument adds nothing, whatever else it is: with it or without
/// it, the completion functions and the lines of the signature are the same.
pub proof fn lemma_hidden_argument(
    before: Seq<ArgumentView>,
    arg: ArgumentView,
    after: Seq<ArgumentView>,
    name: Seq<char>,
    positional: bool,
)
    requires
        arg.hidden,
    ensures
        argument_completer(arg, name) == Seq::<char>::empty(),
        argument_completers(before + seq![arg] + after, name) == argument_completers(
            before + after,
            name,
        ),
        parameter_lines(before + seq![arg] + after, name, positional) == parameter_lines(
            before + after,
            name,
            positional,
        ),
{
    reveal_with_fuel(argument_completers, 2);
    reveal_with_fuel(parameter_lines, 2);
    lemma_argument_completers_concat(before, seq![arg], name);
    lemma_argument_completers_concat(before + seq![arg], after, name);
    lemma_argument_completers_concat(before, after, name);
    lemma_parameter_lines_concat(before, seq![arg], name, positional);
    lemma_parameter_lines_concat(before + seq![arg], after, name, positional);
    lemma_parameter_lines_concat(before, after, name, positional);
}

/// The signature of a command without arguments is its comment, where it has
/// a description, and the two lines that open and close the declaration.
pub proof fn lemma_signature_without_arguments(cmd: CommandView, name: Seq<char>)
    requires
        cmd.args.len() == 0,
    ensures
        signature_block(cmd, name) == comment_line(cmd.about) + "export extern '"@ + name
            + "' [\n]\n"@,
        cmd.about is None ==> signature_block(cmd, name) == "export extern '"@ + name
            + "' [\n]\n"@,
{
    reveal_strlit("' [\n");
    reveal_strlit("]\n");
    reveal_strlit("' [\n]\n");
}

/// What is generated for a visible command without arguments and without
/// subcommands: nothing but its signature and an empty line.
pub proof fn lemma_text_of_bare_command(cmd: CommandView)
    requires
        !cmd.hidden,
        cmd.args.len() == 0,
        cmd.subcommands.len() == 0,
    ensures
        module_text(cmd) == signature_block(cmd, cmd.name) + "\n"@,
{
}

/// A positional that may be left out and accepts several values is declared
/// as an optional rest parameter: three dots, its identifier, a question mark
/// and its type, and after the `#` the first line of its help.
pub proof fn lemma_optional_rest_parameter(arg: ArgumentView, name: Seq<char>)
    requires
        arg.well_formed(),
        arg.positional,
        !arg.required,
        arg.multiple_values,
    ensures
        parameter_line(arg, name) == "  ..."@ + arg.id + "?: "@ + value_type(arg, name) + " # "@
            + help_summary(arg) + "\n"@,
{
    reveal_strlit("  ");
    reveal_strlit("...");
    reveal_strlit("  ...");
    reveal_strlit("?");
    reveal_strlit(": ");
    reveal_strlit("?: ");
}

/// A hidden command adds nothing of its own, neither completion functions nor
/// a signature: what is generated for its tree is what is generated for its
/// subcommands.
pub proof fn lemma_hidden_command(cmd: CommandView, name: Seq<char>)
    requires
        cmd.hidden,
    ensures
        node_completers(cmd, name) == Seq::<char>::empty(),
        node_signature(cmd, name) == Seq::<char>::empty(),
        tree_completers(cmd, name) == forest_completers(cmd.subcommands, name),
        tree_signatures(cmd, name) == forest_signatures(cmd.subcommands, name),
{
}

/// The signatures of two lists of trees joined are the signatures of the
/// first followed by the signatures of the second.
pub proof fn lemma_forest_signatures_concat(
    first: Seq<CommandView>,
    second: Seq<CommandView>,
    parent: Seq<char>,
)
    ensures
        forest_signatures(first + second, parent) == forest_signatures(first, parent)
            + forest_signatures(second, parent),
    decreases second.len(),
{
    if second.len() > 0 {
        lemma_forest_signatures_concat(first, second.drop_last(), parent);
        assert((first + second).drop_last() == first + second.drop_last());
    }
}

/// The completion functions of two lists of trees joined are those of the
/// first followed by those of the second.
pub proof fn lemma_forest_completers_concat(
    first: Seq<CommandView>,
    second: Seq<CommandView>,
    parent: Seq<char>,
)
    ensures
        forest_completers(first + second, parent) == forest_completers(first, parent)
            + forest_completers(second, parent),
    decreases second.len(),
{
    if second.len() > 0 {
        lemma_forest_completers_concat(first, second.drop_last(), parent);
        assert((first + second).drop_last() == first + second.drop_last());
    }
}

/// Every subcommand is visited, whether its parent is hidden or not: what is
/// generated for the subcommands of a command holds, between what is
/// generated for the earlier and for the later ones, all that is generated
/// for the tree of the subcommand at `index` under its full name.
pub proof fn lemma_subcommand_is_visited(subs: Seq<CommandView>, parent: Seq<char>, index: int)
    requires
        0 <= index < subs.len(),
    ensures
        forest_completers(subs, parent) == forest_completers(subs.take(index), parent)
            + tree_completers(subs[index], child_name(parent, subs[index].name))
            + forest_completers(subs.skip(index + 1), parent),
        forest_signatures(subs, parent) == forest_signatures(subs.take(index), parent)
            + tree_signatures(subs[index], child_name(parent, subs[index].name))
            + forest_signatures(subs.skip(index + 1), parent),
{
    let before = subs.take(index);
    let one = seq![subs[index]];
    let after = subs.skip(index + 1);
    assert(subs == before + one + after);
    lemma_forest_completers_concat(before + one, after, parent);
    lemma_forest_signatures_concat(before + one, after, parent);
    assert((before + one).drop_last() == before);
}

/// A visible subcommand of a hidden command still gets its signature: the
/// signatures of the hidden command's tree hold the subcommand's signature
/// and the empty line behind it.
pub proof fn lemma_visible_child_of_hidden_command(cmd: CommandView, name: Seq<char>, index: int)
    requires
        cmd.hidden,
        0 <= index < cmd.subcommands.len(),
        !cmd.subcommands[index].hidden,
    ensures
        ({
            let child = cmd.subcommands[index];
            let full = child_name(name, child.name);
            tree_signatures(cmd, name) == forest_signatures(cmd.subcommands.take(index), name) + (
            signature_block(child, full) + "\n"@ + forest_signatures(child.subcommands, full))
                + forest_signatures(cmd.subcommands.skip(index + 1), name)
        }),
{
    lemma_subcommand_is_visited(cmd.subcommands, name, index);
}

/// Generating twice gives the same text: two texts that each are what is
/// generated for a tree of the same content are equal.
pub proof fn lemma_generation_is_deterministic(
    first: CommandView,
    second: CommandView,
    first_text: Seq<char>,
    second_text: Seq<char>,
)
    requires
        first == second,
        first_text == module_text(first),
        second_text == module_text(second),
    ensures
        first_text == second_text,
{
}

} // verus!
