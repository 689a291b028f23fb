//! Completions for Nushell.
//!
//! The generated text has two parts. First come the completion functions, one
//! for each visible argument with a closed set of values. Then come the
//! `export extern` signatures, one for each visible command. Both parts walk
//! the command tree in pre-order.

use vstd::prelude::*;
use vstd::string::StringExecFns;
use crate::command::{texts_of, views_of, Argument, Command, CommandView, ValueHint};
use crate::nu::format::{
    argument_completer, argument_completers, completer_name, declaration, forest_completers,
    forest_signatures, module_text, node_completers, node_signature, parameter_line,
    parameter_lines, quoted_values, tree_completers, tree_signatures, value_type,
};
use crate::text::{push_char, push_escaped, push_first_line};

pub mod format;
pub mod laws;

verus! {

/// The kinds of value that Nushell completes.
#[derive(Clone, Copy, Debug, PartialEq, Eq, Structural)]
pub enum CompletionCategory {
    /// Free text, written `string`.
    PlainText,
    /// A path in the file system, written `path`.
    Path,
    /// Anything at all, written `any`.
    Any,
}

impl CompletionCategory {
    /// The name of the category as Nushell writes it.
    pub open spec fn name(self) -> Seq<char> {
        match self {
            CompletionCategory::PlainText => "string"@,
            CompletionCategory::Path => "path"@,
            CompletionCategory::Any => "any"@,
        }
    }

    /// The name of the category as Nushell writes it.
    pub fn as_str(self) -> (name: &'static str)
        ensures
            name@ == self.name(),
    {
        match self {
            CompletionCategory::PlainText => "string",
            CompletionCategory::Path => "path",
            CompletionCategory::Any => "any",
        }
    }
}

/// The category that each value hint is completed as.
pub open spec fn classify(hint: ValueHint) -> CompletionCategory {
    match hint {
        ValueHint::Unknown => CompletionCategory::PlainText,
        ValueHint::AnyPath => CompletionCategory::Path,
        ValueHint::FilePath => CompletionCategory::Path,
        ValueHint::DirPath => CompletionCategory::Path,
        ValueHint::ExecutablePath => CompletionCategory::Path,
        ValueHint::CommandName => CompletionCategory::PlainText,
        ValueHint::CommandString => CompletionCategory::PlainText,
        ValueHint::CommandWithArguments => CompletionCategory::PlainText,
        ValueHint::Username => CompletionCategory::PlainText,
        ValueHint::Hostname => CompletionCategory::PlainText,
        ValueHint::Url => CompletionCategory::PlainText,
        ValueHint::EmailAddress => CompletionCategory::PlainText,
        ValueHint::Other => CompletionCategory::Any,
    }
}

/// Classifies a value hint.
pub fn nu_value_hint(hint: ValueHint) -> (category: CompletionCategory)
    ensures
        category == classify(hint),
{
    match hint {
        ValueHint::Unknown => CompletionCategory::PlainText,
        ValueHint::AnyPath
        | ValueHint::FilePath
        | ValueHint::DirPath
        | ValueHint::ExecutablePath => CompletionCategory::Path,
        ValueHint::CommandName
        | ValueHint::CommandString
        | ValueHint::CommandWithArguments
        | ValueHint::Username
        | ValueHint::Hostname
        | ValueHint::Url
        | ValueHint::EmailAddress => CompletionCategory::PlainText,
        ValueHint::Other => CompletionCategory::Any,
    }
}

/// The name of a command together with the names of its ancestors.
#[derive(Clone, Copy, Debug)]
pub struct FullCommandName<'a> {
    /// The command's own name.
    pub name: &'a str,
    /// The full name of the parent command; `None` for the root.
    pub parent: Option<&'a FullCommandName<'a>>,
}

impl<'a> FullCommandName<'a> {
    /// The names from the root down to this command, separated by spaces.
    pub open spec fn text(&self) -> Seq<char>
        decreases self,
    {
        match self.parent {
            Some(parent) => parent.text() + seq![' '] + self.name@,
            None => self.name@,
        }
    }

    /// Appends the full name to `out`.
    pub fn write_to(&self, out: &mut String)
        ensures
            final(out)@ == old(out)@ + self.text(),
        decreases self,
    {
        match self.parent {
            Some(parent) => {
                parent.write_to(out);
                push_char(out, ' ');
                out.append(self.name);
            },
            None => {
                out.append(self.name);
            },
        }
    }
}

/// Appends the name of the completion function for the argument `id`.
fn write_completer_name(name: &FullCommandName<'_>, id: &str, out: &mut String)
    ensures
        final(out)@ == old(out)@ + completer_name(name.text(), id@),
{
    out.append("nu-complete ");
    name.write_to(out);
    out.append(" --");
    out.append(id);
}

/// Appends the type written for the value of `arg`.
fn write_value_type(arg: &Argument, name: &FullCommandName<'_>, out: &mut String)
    ensures
        final(out)@ == old(out)@ + value_type(arg@, name.text()),
{
    let category = nu_value_hint(arg.value_hint);
    out.append(category.as_str());
    if category == CompletionCategory::PlainText && arg.possible_values.is_some() {
        out.append("@'");
        write_completer_name(name, arg.id.as_str(), out);
        out.append("'");
    }
}

/// Appends what follows the flags of a named argument: a colon and the type
/// where the argument takes a value, nothing where it is a toggle.
fn write_value_suffix(arg: &Argument, name: &FullCommandName<'_>, out: &mut String)
    ensures
        arg.takes_value ==> final(out)@ == old(out)@ + ": "@ + value_type(arg@, name.text()),
        !arg.takes_value ==> final(out)@ == old(out)@,
{
    if arg.takes_value {
        out.append(": ");
        write_value_type(arg, name, out);
    }
}

/// Appends how `arg` is declared in a signature.
fn write_declaration(arg: &Argument, name: &FullCommandName<'_>, out: &mut String)
    ensures
        final(out)@ == old(out)@ + declaration(arg@, name.text()),
{
    match (&arg.long, arg.short) {
        (Some(long), Some(short)) => {
            out.append("--");
            out.append(long.as_str());
            out.append("(-");
            push_char(out, short);
            out.append(")");
            write_value_suffix(arg, name, out);
        },
        (Some(long), None) => {
            out.append("--");
            out.append(long.as_str());
            write_value_suffix(arg, name, out);
        },
        (None, Some(short)) => {
            out.append("-");
            push_char(out, short);
            write_value_suffix(arg, name, out);
        },
        (None, None) => {
            if arg.multiple_values {
                out.append("...");
            }
            out.append(arg.id.as_str());
            if !arg.required {
                out.append("?");
            }
            out.append(": ");
            write_value_type(arg, name, out);
        },
    }
}

/// Appends the line of a signature that declares `arg`.
pub fn write_param(arg: &Argument, name: &FullCommandName<'_>, out: &mut String)
    ensures
        final(out)@ == old(out)@ + parameter_line(arg@, name.text()),
{
    out.append("  ");
    write_declaration(arg, name, out);
    out.append(" # ");
    match &arg.help {
        Some(help) => {
            push_first_line(out, help.as_str());
        },
        None => {},
    }
    out.append("\n");
}

/// Appends the lines of the arguments that are listed for `positional`.
fn write_params(
    args: &Vec<Argument>,
    positional: bool,
    name: &FullCommandName<'_>,
    out: &mut String,
)
    ensures
        final(out)@ == old(out)@ + parameter_lines(views_of(args@), name.text(), positional),
{
    let ghost views = views_of(args@);
    for i in 0..args.len()
        invariant
            views == views_of(args@),
            out@ == old(out)@ + parameter_lines(views.take(i as int), name.text(), positional),
    {
        let arg = &args[i];
        assert(views.take(i + 1).drop_last() == views.take(i as int));
        if !arg.hidden && arg.positional == positional {
            write_param(arg, name, out);
        }
    }
    assert(views.take(args.len() as int) == views);
}

/// Appends the signature of `app`, unless it is hidden, and then the
/// signatures of its subcommands, each under its full name.
pub fn write_export_externs(app: &Command, name: FullCommandName<'_>, out: &mut String)
    ensures
        final(out)@ == old(out)@ + tree_signatures(app@, name.text()),
    decreases app,
{
    if !app.hidden {
        match &app.about {
            Some(about) => {
                out.append("# ");
                push_first_line(out, about.as_str());
                out.append("\n");
            },
            None => {},
        }
        out.append("export extern '");
        name.write_to(out);
        out.append("' [\n");
        write_params(&app.args, true, &name, out);
        write_params(&app.args, false, &name, out);
        out.append("]\n");
        out.append("\n");
    }
    let ghost subs = app@.subcommands;
    proof {
        app.lemma_view();
    }
    for i in 0..app.subcommands.len()
        invariant
            subs == app@.subcommands,
            subs.len() == app.subcommands.len(),
            forall|k: int| 0 <= k < subs.len() ==> #[trigger] subs[k] == app.subcommands@[k]@,
            out@ == old(out)@ + node_signature(app@, name.text()) + forest_signatures(
                subs.take(i as int),
                name.text(),
            ),
    {
        let sub = &app.subcommands[i];
        let child = FullCommandName { name: sub.name.as_str(), parent: Some(&name) };
        assert(subs.take(i + 1).drop_last() == subs.take(i as int));
        write_export_externs(sub, child, out);
    }
    assert(subs.take(app.subcommands.len() as int) == subs);
}

/// Appends the values of a completion function as the items of a list.
fn write_choices(values: &Vec<String>, out: &mut String)
    ensures
        final(out)@ == old(out)@ + quoted_values(texts_of(values@)),
{
    let ghost texts = texts_of(values@);
    for i in 0..values.len()
        invariant
            texts == texts_of(values@),
            out@ == old(out)@ + quoted_values(texts.take(i as int)),
    {
        assert(texts.take(i + 1).drop_last() == texts.take(i as int));
        out.append("\"");
        push_escaped(out, values[i].as_str());
        out.append("\", ");
    }
    assert(texts.take(values.len() as int) == texts);
}

/// Appends the definition of the completion function for `arg`, where it has
/// one.
pub fn write_completer(arg: &Argument, name: &FullCommandName<'_>, out: &mut String)
    ensures
        final(out)@ == old(out)@ + argument_completer(arg@, name.text()),
{
    if arg.hidden {
        return;
    }
    if nu_value_hint(arg.value_hint) != CompletionCategory::PlainText {
        return;
    }
    match &arg.possible_values {
        Some(values) => {
            out.append("def '");
            write_completer_name(name, arg.id.as_str(), out);
            out.append("' [] {\n");
            out.append("  [ ");
            write_choices(values, out);
            out.append("]\n");
            out.append("}\n");
            out.append("\n");
        },
        None => {},
    }
}

/// Appends the completion functions for the arguments of `app`, unless it is
/// hidden, and then those of its subcommands, each under its full name.
pub fn write_nu_completes(app: &Command, name: FullCommandName<'_>, out: &mut String)
    ensures
        final(out)@ == old(out)@ + tree_completers(app@, name.text()),
    decreases app,
{
    proof {
        app.lemma_view();
    }
    if !app.hidden {
        let ghost views = views_of(app.args@);
        for i in 0..app.args.len()
            invariant
                views == views_of(app.args@),
                out@ == old(out)@ + argument_completers(views.take(i as int), name.text()),
        {
            assert(views.take(i + 1).drop_last() == views.take(i as int));
            write_completer(&app.args[i], &name, out);
        }
        assert(views.take(app.args.len() as int) == views);
    }
    let ghost subs = app@.subcommands;
    for i in 0..app.subcommands.len()
        invariant
            subs == app@.subcommands,
            subs.len() == app.subcommands.len(),
            forall|k: int| 0 <= k < subs.len() ==> #[trigger] subs[k] == app.subcommands@[k]@,
            out@ == old(out)@ + node_completers(app@, name.text()) + forest_completers(
                subs.take(i as int),
                name.text(),
            ),
    {
        let sub = &app.subcommands[i];
        let child = FullCommandName { name: sub.name.as_str(), parent: Some(&name) };
        assert(subs.take(i + 1).drop_last() == subs.take(i as int));
        write_nu_completes(sub, child, out);
    }
    assert(subs.take(app.subcommands.len() as int) == subs);
}

/// Appends the whole text generated for the program `app`.
pub fn write_completion_module(app: &Command, out: &mut String)
    ensures
        final(out)@ == old(out)@ + module_text(app@),
{
    let name = app.name.as_str();
    write_nu_completes(app, FullCommandName { name, parent: None }, out);
    write_export_externs(app, FullCommandName { name, parent: None }, out);
}

/// Completions for [nushell].
///
/// [nushell]: https://www.nushell.sh/
#[derive(Debug, Clone, Copy)]
pub struct Completions<'a> {
    app: &'a Command,
}

impl<'a> View for Completions<'a> {
    type V = CommandView;

    /// The content of the program that completions are generated for.
    closed spec fn view(&self) -> CommandView {
        self.app@
    }
}

impl<'a> Completions<'a> {
    /// Create a new completions generator.
    pub fn new(app: &'a Command) -> (completions: Self)
        ensures
            completions@ == app@,
    {
        Self { app }
    }

    /// The text of the completions: the body of a Nushell module.
    pub fn render(&self) -> (text: String)
        ensures
            text@ == module_text(self@),
    {
        let mut text = String::new();
        write_completion_module(self.app, &mut text);
        text
    }
}

} // verus!
