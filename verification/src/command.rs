//! The description of a command-line program that completions are generated
//! from: a tree of commands, each with its arguments.

use vstd::prelude::*;

verus! {

/// What kind of value an argument expects.
#[derive(Clone, Copy, Debug, PartialEq, Eq, Structural)]
pub enum ValueHint {
    /// Nothing was declared: free text.
    Unknown,
    /// None of the other hints applies.
    Other,
    /// Any existing path.
    AnyPath,
    /// Path to a file.
    FilePath,
    /// Path to a directory.
    DirPath,
    /// Path to an executable file.
    ExecutablePath,
    /// Name of a command, without arguments.
    CommandName,
    /// A single string holding a command and its arguments.
    CommandString,
    /// The remaining arguments form a command with its arguments.
    CommandWithArguments,
    /// Name of a user of the operating system.
    Username,
    /// Host name of a computer.
    Hostname,
    /// Complete web address.
    Url,
    /// Email address.
    EmailAddress,
}

/// One flag, option or positional parameter of a command.
#[derive(Debug, PartialEq, Eq)]
pub struct Argument {
    /// Identifier, unique within its command.
    pub id: String,
    /// Long flag name, without the leading dashes.
    pub long: Option<String>,
    /// Single-character flag name.
    pub short: Option<char>,
    /// Help text; may span several lines.
    pub help: Option<String>,
    /// The kind of value expected.
    pub value_hint: ValueHint,
    /// Whether the argument must be given.
    pub required: bool,
    /// Whether the argument takes a value; a pure toggle does not.
    pub takes_value: bool,
    /// Whether the argument accepts several values.
    pub multiple_values: bool,
    /// The closed set of legal values, in order, where there is one.
    pub possible_values: Option<Vec<String>>,
    /// Whether the argument is matched by position.
    pub positional: bool,
    /// Whether the argument is left out of generated text.
    pub hidden: bool,
}

/// One node of the command tree: the program itself or a subcommand.
#[derive(Debug, PartialEq, Eq)]
pub struct Command {
    /// Name, unique among its siblings.
    pub name: String,
    /// Description; may span several lines.
    pub about: Option<String>,
    /// Whether the command is left out of generated text.
    pub hidden: bool,
    /// Arguments, in declaration order.
    pub args: Vec<Argument>,
    /// Subcommands, in declaration order.
    pub subcommands: Vec<Command>,
}

/// The mathematical content of an [`Argument`].
pub struct ArgumentView {
    pub id: Seq<char>,
    pub long: Option<Seq<char>>,
    pub short: Option<char>,
    pub help: Option<Seq<char>>,
    pub value_hint: ValueHint,
    pub required: bool,
    pub takes_value: bool,
    pub multiple_values: bool,
    pub possible_values: Option<Seq<Seq<char>>>,
    pub positional: bool,
    pub hidden: bool,
}

/// The mathematical content of a [`Command`] and of the tree below it.
pub struct CommandView {
    pub name: Seq<char>,
    pub about: Option<Seq<char>>,
    pub hidden: bool,
    pub args: Seq<ArgumentView>,
    pub subcommands: Seq<CommandView>,
}

impl ArgumentView {
    /// Whether the argument is described consistently: it is positional
    /// exactly when it has neither a long nor a short flag, and it lists
    /// possible values only where it takes a value.
    pub open spec fn well_formed(self) -> bool {
        &&& self.positional <==> (self.long is None && self.short is None)
        &&& self.possible_values is Some ==> self.takes_value
    }
}

impl CommandView {
    /// Whether the tree is described consistently: every command has a name,
    /// no two arguments of a command share an identifier, no two subcommands
    /// of a command share a name, and every argument is well formed.
    pub open spec fn well_formed(self) -> bool
        decreases self,
    {
        &&& self.name.len() > 0
        &&& forall|i: int| 0 <= i < self.args.len() ==> (#[trigger] self.args[i]).well_formed()
        &&& forall|i: int, j: int|
            0 <= i < j < self.args.len() ==> (#[trigger] self.args[i]).id != (
            #[trigger] self.args[j]).id
        &&& forall|i: int, j: int|
            0 <= i < j < self.subcommands.len() ==> (#[trigger] self.subcommands[i]).name != (
            #[trigger] self.subcommands[j]).name
        &&& forall|i: int|
            0 <= i < self.subcommands.len() ==> (#[trigger] self.subcommands[i]).well_formed()
    }
}

/// The characters of an optional string.
pub open spec fn text_of(s: Option<String>) -> Option<Seq<char>> {
    match s {
        Some(s) => Some(s@),
        None => None,
    }
}

/// The characters of each string of a list.
pub open spec fn texts_of(v: Seq<String>) -> Seq<Seq<char>> {
    v.map_values(|s: String| s@)
}

/// The content of each argument of a list.
pub open spec fn views_of(args: Seq<Argument>) -> Seq<ArgumentView> {
    args.map_values(|a: Argument| a@)
}

impl View for Argument {
    type V = ArgumentView;

    open spec fn view(&self) -> ArgumentView {
        ArgumentView {
            id: self.id@,
            long: text_of(self.long),
            short: self.short,
            help: text_of(self.help),
            value_hint: self.value_hint,
            required: self.required,
            takes_value: self.takes_value,
            multiple_values: self.multiple_values,
            possible_values: match self.possible_values {
                Some(v) => Some(texts_of(v@)),
                None => None,
            },
            positional: self.positional,
            hidden: self.hidden,
        }
    }
}

impl View for Command {
    type V = CommandView;

    open spec fn view(&self) -> CommandView
        decreases self,
    {
        CommandView {
            name: self.name@,
            about: text_of(self.about),
            hidden: self.hidden,
            args: views_of(self.args@),
            subcommands: Seq::new(
                self.subcommands@.len(),
                |i: int|
                    if 0 <= i < self.subcommands@.len() {
                        self.subcommands@[i].view()
                    } else {
                        arbitrary()
                    },
            ),
        }
    }
}

/// The flag that stands for an argument: its own flag where it has one, else
/// the first of `names`, the list of its flag and visible aliases.
pub open spec fn first_flag<T>(own: Option<T>, names: Option<Seq<T>>) -> Option<T> {
    match (own, names) {
        (Some(flag), _) => Some(flag),
        (None, Some(names)) => if names.len() > 0 {
            Some(names[0])
        } else {
            None
        },
        (None, None) => None,
    }
}

/// Picks the flag that stands for an argument, long or short: its own flag
/// where it has one, else the first of `names`.
pub fn shown_flag<T: Copy>(own: Option<T>, names: Option<Vec<T>>) -> (flag: Option<T>)
    ensures
        flag == first_flag(
            own,
            match names {
                Some(names) => Some(names@),
                None => None,
            },
        ),
{
    match own {
        Some(flag) => Some(flag),
        None => match names {
            Some(names) => if names.len() > 0 {
                Some(names[0])
            } else {
                None
            },
            None => None,
        },
    }
}

impl Command {
    /// The content of a command, field by field; its subcommands are the
    /// contents of the subcommands.
    pub proof fn lemma_view(&self)
        ensures
            self@.name == self.name@,
            self@.about == text_of(self.about),
            self@.hidden == self.hidden,
            self@.args == views_of(self.args@),
            self@.subcommands.len() == self.subcommands@.len(),
            forall|i: int|
                0 <= i < self.subcommands@.len() ==> #[trigger] self@.subcommands[i]
                    == self.subcommands@[i]@,
    {
        reveal_with_fuel(<Command as View>::view, 2);
    }
}

} // verus!
