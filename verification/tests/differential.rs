use clap_completions::command::{Argument, Command, ValueHint};
use clap_completions::nu::Completions;

/// A small deterministic generator of test data.
struct Source(u64);

impl Source {
    fn next(&mut self) -> u64 {
        self.0 = self.0.wrapping_mul(6364136223846793005).wrapping_add(1442695040888963407);
        self.0 >> 33
    }

    fn below(&mut self, bound: u64) -> u64 {
        self.next() % bound
    }

    fn coin(&mut self) -> bool {
        self.below(2) == 0
    }

    fn text(&mut self, least: u64) -> String {
        let alphabet = ['a', 'b', 'Z', '-', '_', ' ', '"', '\\', '\'', '\n', '\r', 'é', '#', '[', ']'];
        let length = least + self.below(8);
        (0..length).map(|_| alphabet[self.below(alphabet.len() as u64) as usize]).collect()
    }

    fn word(&mut self) -> String {
        let alphabet = ['a', 'b', 'c', 'x', 'y', '-', '1'];
        let length = 1 + self.below(5);
        (0..length).map(|_| alphabet[self.below(alphabet.len() as u64) as usize]).collect()
    }

    fn hint(&mut self) -> ValueHint {
        let hints = [
            ValueHint::Unknown,
            ValueHint::Other,
            ValueHint::AnyPath,
            ValueHint::FilePath,
            ValueHint::DirPath,
            ValueHint::ExecutablePath,
            ValueHint::CommandName,
            ValueHint::CommandString,
            ValueHint::CommandWithArguments,
            ValueHint::Username,
            ValueHint::Hostname,
            ValueHint::Url,
            ValueHint::EmailAddress,
        ];
        hints[self.below(hints.len() as u64) as usize]
    }

    fn argument(&mut self) -> Argument {
        let long = if self.coin() { Some(self.word()) } else { None };
        let short = if self.coin() { Some(['a', 'V', 'h', 'é'][self.below(4) as usize]) } else { None };
        let possible_values = if self.below(3) == 0 {
            let count = self.below(4);
            Some((0..count).map(|_| self.text(0)).collect())
        } else {
            None
        };
        Argument {
            id: self.word(),
            positional: long.is_none() && short.is_none(),
            long,
            short,
            help: if self.coin() { Some(self.text(0)) } else { None },
            value_hint: self.hint(),
            required: self.coin(),
            takes_value: self.coin(),
            multiple_values: self.coin(),
            possible_values,
            hidden: self.below(5) == 0,
        }
    }

    fn command(&mut self, depth: u64) -> Command {
        let args = (0..self.below(5)).map(|_| self.argument()).collect();
        let children = if depth == 0 { 0 } else { self.below(4) };
        Command {
            name: self.word(),
            about: if self.coin() { Some(self.text(0)) } else { None },
            hidden: self.below(4) == 0,
            args,
            subcommands: (0..children).map(|_| self.command(depth - 1)).collect(),
        }
    }
}

fn category(hint: ValueHint) -> &'static str {
    match hint {
        ValueHint::AnyPath
        | ValueHint::FilePath
        | ValueHint::DirPath
        | ValueHint::ExecutablePath => "path",
        ValueHint::Other => "any",
        _ => "string",
    }
}

fn first_line(text: &str) -> &str {
    text.split(['\r', '\n']).next().unwrap()
}

fn completers(app: &Command, name: &str, out: &mut String) {
    if !app.hidden {
        for arg in &app.args {
            if arg.hidden || category(arg.value_hint) != "string" {
                continue;
            }
            if let Some(values) = &arg.possible_values {
                out.push_str(&format!("def 'nu-complete {name} --{}' [] {{\n", arg.id));
                out.push_str("  [ ");
                for value in values {
                    out.push_str(&format!("\"{}\", ", value.replace('"', "\\\"")));
                }
                out.push_str("]\n}\n\n");
            }
        }
    }
    for sub in &app.subcommands {
        completers(sub, &format!("{name} {}", sub.name), out);
    }
}

fn parameter(arg: &Argument, name: &str) -> String {
    let id = &arg.id;
    let mut kind = category(arg.value_hint).to_string();
    if kind == "string" && arg.possible_values.is_some() {
        kind = format!("{kind}@'nu-complete {name} --{id}'");
    }
    let splat = if arg.multiple_values { "..." } else { "" };
    let optional = if arg.required { "" } else { "?" };
    let help = first_line(arg.help.as_deref().unwrap_or(""));
    match (&arg.long, arg.short, arg.takes_value) {
        (Some(long), Some(short), true) => format!("  --{long}(-{short}): {kind} # {help}\n"),
        (Some(long), Some(short), false) => format!("  --{long}(-{short}) # {help}\n"),
        (Some(long), None, true) => format!("  --{long}: {kind} # {help}\n"),
        (Some(long), None, false) => format!("  --{long} # {help}\n"),
        (None, Some(short), true) => format!("  -{short}: {kind} # {help}\n"),
        (None, Some(short), false) => format!("  -{short} # {help}\n"),
        (None, None, _) => format!("  {splat}{id}{optional}: {kind} # {help}\n"),
    }
}

fn signatures(app: &Command, name: &str, out: &mut String) {
    if !app.hidden {
        if let Some(about) = &app.about {
            out.push_str(&format!("# {}\n", first_line(about)));
        }
        out.push_str(&format!("export extern '{name}' [\n"));
        for arg in app.args.iter().filter(|arg| !arg.hidden && arg.positional) {
            out.push_str(&parameter(arg, name));
        }
        for arg in app.args.iter().filter(|arg| !arg.hidden && !arg.positional) {
            out.push_str(&parameter(arg, name));
        }
        out.push_str("]\n\n");
    }
    for sub in &app.subcommands {
        signatures(sub, &format!("{name} {}", sub.name), out);
    }
}

fn plain_rendering(app: &Command) -> String {
    let mut out = String::new();
    completers(app, &app.name, &mut out);
    signatures(app, &app.name, &mut out);
    out
}

#[test]
fn generated_trees_match_the_plain_rendering() {
    let mut source = Source(2024);
    let mut defined = 0;
    let mut declared = 0;
    for _ in 0..500 {
        let app = source.command(3);
        let text = Completions::new(&app).render();
        assert_eq!(text, plain_rendering(&app));
        defined += text.matches("def 'nu-complete ").count();
        declared += text.matches("export extern '").count();
    }
    assert!(defined > 100);
    assert!(declared > 500);
}

#[test]
fn generated_trees_give_the_same_text_twice() {
    let mut source = Source(7);
    for _ in 0..100 {
        let app = source.command(2);
        assert_eq!(Completions::new(&app).render(), Completions::new(&app).render());
    }
}
