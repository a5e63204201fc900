//! The analysis engine as a collaborator: which command line each query
//! needs, and what the outcome of running it means. Running it is left to the
//! caller.

use vstd::prelude::*;
use crate::codec::parse;
use crate::codec::parsed;
use crate::json::Json;
use crate::json::json_outcome;
use crate::json::JsonValue;
use crate::protocol::optional_view;
use crate::text::chain;
use crate::text::pieces;
use crate::text::split;
use crate::text::text_outcome;
use crate::text::texts_outcome;
use crate::text::trim;
use crate::text::trimmed;
use crate::text::views;

verus! {

/// One argument of a command line.
#[derive(Debug, PartialEq)]
pub enum Argument {
    /// The argument as it is passed.
    Text(String),
    /// The path of a file that holds this content for as long as the program runs.
    TransientFile(String),
}

/// What an `Argument` stands for.
pub enum ArgumentValue {
    Text(Seq<char>),
    TransientFile(Seq<char>),
}

impl View for Argument {
    type V = ArgumentValue;

    open spec fn view(&self) -> ArgumentValue {
        match self {
            Argument::Text(s) => ArgumentValue::Text(s@),
            Argument::TransientFile(s) => ArgumentValue::TransientFile(s@),
        }
    }
}

/// A program to run and its arguments in order.
#[derive(Debug, PartialEq)]
pub struct Invocation {
    pub program: String,
    pub arguments: Vec<Argument>,
}

/// What an `Invocation` stands for.
pub struct InvocationValue {
    pub program: Seq<char>,
    pub arguments: Seq<ArgumentValue>,
}

impl View for Invocation {
    type V = InvocationValue;

    open spec fn view(&self) -> InvocationValue {
        InvocationValue {
            program: self.program@,
            arguments: Seq::new(self.arguments@.len(), |i: int| self.arguments@[i]@),
        }
    }
}

/// How running an invocation ended.
#[derive(Debug, PartialEq)]
pub enum RunOutcome {
    /// A transient file could not be created.
    NoFile,
    /// A transient file could not be written.
    NotWritten,
    /// The program could not be started.
    NotRun,
    /// The program ran: whether its exit status says success, and what it
    /// wrote to its two output streams.
    Exited { success: bool, stdout: String, stderr: String },
}

/// What a `RunOutcome` stands for.
pub enum RunValue {
    NoFile,
    NotWritten,
    NotRun,
    Exited { success: bool, stdout: Seq<char>, stderr: Seq<char> },
}

impl View for RunOutcome {
    type V = RunValue;

    open spec fn view(&self) -> RunValue {
        match self {
            RunOutcome::NoFile => RunValue::NoFile,
            RunOutcome::NotWritten => RunValue::NotWritten,
            RunOutcome::NotRun => RunValue::NotRun,
            RunOutcome::Exited { success, stdout, stderr } => RunValue::Exited {
                success: *success,
                stdout: stdout@,
                stderr: stderr@,
            },
        }
    }
}

/// The name of the engine's program.
pub open spec fn program() -> Seq<char> {
    "semgrep"@
}

/// The arguments that ask for the engine's version.
pub open spec fn version_arguments() -> Seq<ArgumentValue> {
    seq![ArgumentValue::Text("--version"@)]
}

/// The arguments that ask for the languages that the engine supports.
pub open spec fn languages_arguments() -> Seq<ArgumentValue> {
    seq![ArgumentValue::Text("show"@), ArgumentValue::Text("supported-languages"@)]
}

/// The arguments with which every scan begins.
pub open spec fn scan_prefix() -> Seq<ArgumentValue> {
    seq![
        ArgumentValue::Text("scan"@),
        ArgumentValue::Text("--json"@),
        ArgumentValue::Text("--experimental"@),
    ]
}

/// Each text as an argument.
pub open spec fn text_arguments(texts: Seq<Seq<char>>) -> Seq<ArgumentValue> {
    Seq::new(texts.len(), |i: int| ArgumentValue::Text(texts[i]))
}

/// The arguments of a scan: JSON output, the rule configuration where one is
/// given, then the paths.
pub open spec fn scan_arguments(config: Option<Seq<char>>, paths: Seq<Seq<char>>) -> Seq<
    ArgumentValue,
> {
    scan_prefix() + match config {
        Some(c) => seq![ArgumentValue::Text("--config"@), ArgumentValue::Text(c)],
        None => Seq::empty(),
    } + text_arguments(paths)
}

/// The arguments of a scan with a rule of the caller's: the rule is handed
/// over in a transient file that is named as the configuration.
pub open spec fn custom_rule_arguments(rule: Seq<char>, files: Seq<Seq<char>>) -> Seq<
    ArgumentValue,
> {
    scan_prefix() + seq![ArgumentValue::Text("--config"@), ArgumentValue::TransientFile(rule)]
        + text_arguments(files)
}

/// The arguments that ask for the syntax tree of a piece of code, which is
/// handed over in a transient file.
pub open spec fn ast_arguments(code: Seq<char>, language: Seq<char>) -> Seq<ArgumentValue> {
    seq![
        ArgumentValue::Text("--dump-ast"@),
        ArgumentValue::Text("--json"@),
        ArgumentValue::Text("--experimental"@),
        ArgumentValue::Text("--lang"@),
        ArgumentValue::Text(language),
        ArgumentValue::TransientFile(code),
    ]
}

/// The version that an outcome tells: what the program wrote, without the
/// white space around it, whatever its exit status.
pub open spec fn version_reading(outcome: RunValue) -> Result<Seq<char>, Seq<char>> {
    match outcome {
        RunValue::Exited { success, stdout, stderr } => Ok(trimmed(stdout)),
        _ => Err("Failed to execute semgrep --version"@),
    }
}

/// A line without the white space around it, unless it is blank.
pub open spec fn kept_line(line: Seq<char>) -> Option<Seq<char>> {
    if trimmed(line).len() == 0 {
        None
    } else {
        Some(trimmed(line))
    }
}

/// Of a list of lines, those that are not blank, each without the white
/// space around it.
pub open spec fn kept_lines(lines: Seq<Seq<char>>) -> Seq<Seq<char>> {
    lines.filter_map(|line: Seq<char>| kept_line(line))
}

/// The languages that an outcome tells: one on each line that is not blank.
pub open spec fn languages_reading(outcome: RunValue) -> Result<Seq<Seq<char>>, Seq<char>> {
    match outcome {
        RunValue::Exited { success, stdout, stderr } => Ok(kept_lines(pieces(stdout, '\n'))),
        _ => Err("Failed to execute semgrep show supported-languages"@),
    }
}

/// The findings that the outcome of a scan tells, given what the program's
/// output reads as. A run that failed and wrote nothing is a failure with
/// what it wrote to its error stream; any other run counts by its output.
pub open spec fn scan_reading(outcome: RunValue, output: Option<JsonValue>) -> Result<
    JsonValue,
    Seq<char>,
> {
    match outcome {
        RunValue::NoFile => Err("Failed to create temp rule file"@),
        RunValue::NotWritten => Err("Failed to write rule content"@),
        RunValue::NotRun => Err("Failed to execute semgrep scan"@),
        RunValue::Exited { success, stdout, stderr } => if !success && stdout.len() == 0 {
            Err("Semgrep failed: "@ + stderr)
        } else {
            match output {
                Some(j) => Ok(j),
                None => Err("Failed to parse Semgrep JSON output"@),
            }
        },
    }
}

/// The syntax tree that an outcome tells, given what the program's output
/// reads as. Here a run that failed is a failure whatever it wrote.
pub open spec fn ast_reading(outcome: RunValue, output: Option<JsonValue>) -> Result<
    JsonValue,
    Seq<char>,
> {
    match outcome {
        RunValue::NoFile => Err("Failed to create temp code file"@),
        RunValue::NotWritten => Err("Failed to write code content"@),
        RunValue::NotRun => Err("Failed to execute semgrep --dump-ast"@),
        RunValue::Exited { success, stdout, stderr } => if !success {
            Err("Semgrep AST dump failed: "@ + stderr)
        } else {
            match output {
                Some(j) => Ok(j),
                None => Err("Failed to parse Semgrep AST output"@),
            }
        },
    }
}

/// What the output of a run reads as: the JSON value that it holds, if the
/// program ran and its output is well-formed.
pub open spec fn output_of(outcome: RunValue) -> Option<JsonValue> {
    match outcome {
        RunValue::Exited { success, stdout, stderr } => parsed(stdout),
        _ => None,
    }
}

fn push_text(arguments: &mut Vec<Argument>, text: &str)
    ensures
        final(arguments)@.len() == old(arguments)@.len() + 1,
        forall|i: int| 0 <= i < old(arguments)@.len() ==> final(arguments)@[i] == old(arguments)@[i],
        final(arguments)@[old(arguments)@.len() as int]@ == ArgumentValue::Text(text@),
{
    arguments.push(Argument::Text(text.to_owned()));
}

fn push_texts(arguments: &mut Vec<Argument>, texts: &Vec<String>)
    ensures
        final(arguments)@.len() == old(arguments)@.len() + texts@.len(),
        forall|i: int| 0 <= i < old(arguments)@.len() ==> final(arguments)@[i] == old(arguments)@[i],
        forall|i: int|
            0 <= i < texts@.len() ==> (#[trigger] final(arguments)@[old(arguments)@.len() + i])@
                == ArgumentValue::Text(texts@[i]@),
{
    let mut i: usize = 0;
    while i < texts.len()
        invariant
            i <= texts.len(),
            arguments@.len() == old(arguments)@.len() + i,
            forall|k: int| 0 <= k < old(arguments)@.len() ==> arguments@[k] == old(arguments)@[k],
            forall|k: int|
                0 <= k < i ==> (#[trigger] arguments@[old(arguments)@.len() + k])@
                    == ArgumentValue::Text(texts@[k]@),
        decreases texts.len() - i,
    {
        arguments.push(Argument::Text(texts[i].clone()));
        i += 1;
    }
}

fn engine(arguments: Vec<Argument>) -> (r: Invocation)
    ensures
        r.program@ == program(),
        r.arguments == arguments,
{
    Invocation { program: "semgrep".to_owned(), arguments }
}

/// The analysis engine.
pub struct SemgrepWrapper;

impl SemgrepWrapper {
    /// The invocation that asks for the engine's version.
    pub fn get_version() -> (r: Invocation)
        ensures
            r@ == (InvocationValue { program: program(), arguments: version_arguments() }),
    {
        let mut arguments: Vec<Argument> = Vec::new();
        push_text(&mut arguments, "--version");
        let r = engine(arguments);
        proof {
            assert(r@.arguments =~= version_arguments());
        }
        r
    }

    /// The version that the outcome of `get_version` tells.
    pub fn read_version(outcome: &RunOutcome) -> (r: Result<String, String>)
        ensures
            text_outcome(r) == version_reading(outcome@),
    {
        match outcome {
            RunOutcome::Exited { success, stdout, stderr } => Ok(trim(stdout.as_str()).to_owned()),
            _ => Err("Failed to execute semgrep --version".to_owned()),
        }
    }

    /// The invocation that asks for the languages that the engine supports.
    pub fn get_supported_languages() -> (r: Invocation)
        ensures
            r@ == (InvocationValue { program: program(), arguments: languages_arguments() }),
    {
        let mut arguments: Vec<Argument> = Vec::new();
        push_text(&mut arguments, "show");
        push_text(&mut arguments, "supported-languages");
        let r = engine(arguments);
        proof {
            assert(r@.arguments =~= languages_arguments());
        }
        r
    }

    /// The languages that the outcome of `get_supported_languages` tells.
    pub fn read_supported_languages(outcome: &RunOutcome) -> (r: Result<Vec<String>, String>)
        ensures
            texts_outcome(r) == languages_reading(outcome@),
    {
        match outcome {
            RunOutcome::Exited { success, stdout, stderr } => {
                let lines = split(stdout.as_str(), '\n');
                let mut kept: Vec<String> = Vec::new();
                let mut i: usize = 0;
                let ghost all = views(lines@);
                let ghost keep = |line: Seq<char>| kept_line(line);
                proof {
                    assert(all.take(0) =~= Seq::empty());
                    assert(views(kept@) =~= Seq::empty());
                }
                while i < lines.len()
                    invariant
                        i <= lines.len(),
                        all == views(lines@),
                        keep == |line: Seq<char>| kept_line(line),
                        views(kept@) == all.take(i as int).filter_map(keep),
                    decreases lines.len() - i,
                {
                    proof {
                        all.lemma_filter_map_take_succ(keep, i as int);
                    }
                    let line = trim(lines[i].as_str());
                    if !line.is_empty() {
                        let ghost before = views(kept@);
                        kept.push(line.to_owned());
                        proof {
                            assert(views(kept@) =~= before + seq![line@]);
                        }
                    } else {
                        proof {
                            assert(views(kept@) + Seq::<Seq<char>>::empty() =~= views(kept@));
                        }
                    }
                    i += 1;
                }
                proof {
                    assert(all.take(lines.len() as int) =~= all);
                }
                Ok(kept)
            },
            _ => Err("Failed to execute semgrep show supported-languages".to_owned()),
        }
    }

    /// The invocation that scans `paths`, with the rule configuration `config`
    /// where one is given.
    pub fn scan(config: Option<String>, paths: Vec<String>) -> (r: Invocation)
        ensures
            r@ == (InvocationValue {
                program: program(),
                arguments: scan_arguments(
                    match config {
                        Some(c) => Some(c@),
                        None => None,
                    },
                    views(paths@),
                ),
            }),
    {
        let mut arguments: Vec<Argument> = Vec::new();
        push_text(&mut arguments, "scan");
        push_text(&mut arguments, "--json");
        push_text(&mut arguments, "--experimental");
        match &config {
            Some(c) => {
                push_text(&mut arguments, "--config");
                push_text(&mut arguments, c.as_str());
            },
            None => {},
        }
        push_texts(&mut arguments, &paths);
        let r = engine(arguments);
        proof {
            let expected = scan_arguments(
                match config {
                    Some(c) => Some(c@),
                    None => None,
                },
                views(paths@),
            );
            let n = if config is Some {
                5int
            } else {
                3int
            };
            assert(r@.arguments.len() == expected.len());
            assert forall|k: int| 0 <= k < expected.len() implies r@.arguments[k] == expected[k] by {
                if k >= n {
                    assert(r.arguments@[n + (k - n)]@ == ArgumentValue::Text(paths@[k - n]@));
                }
            }
            assert(r@.arguments =~= expected);
        }
        r
    }

    /// The findings that the outcome of a scan tells, once the program's
    /// output has been read as `output`.
    pub fn scan_findings(outcome: &RunOutcome, output: Option<Json>) -> (r: Result<Json, String>)
        ensures
            json_outcome(r) == scan_reading(outcome@, optional_view(output)),
    {
        match outcome {
            RunOutcome::NoFile => Err("Failed to create temp rule file".to_owned()),
            RunOutcome::NotWritten => Err("Failed to write rule content".to_owned()),
            RunOutcome::NotRun => Err("Failed to execute semgrep scan".to_owned()),
            RunOutcome::Exited { success, stdout, stderr } => {
                if !*success && stdout.as_str().is_empty() {
                    Err(chain("Semgrep failed: ", stderr.as_str()))
                } else {
                    match output {
                        Some(j) => Ok(j),
                        None => Err("Failed to parse Semgrep JSON output".to_owned()),
                    }
                }
            },
        }
    }

    /// The findings that the outcome of `scan` or of `scan_with_custom_rule` tells.
    pub fn read_scan(outcome: &RunOutcome) -> (r: Result<Json, String>)
        ensures
            json_outcome(r) == scan_reading(outcome@, output_of(outcome@)),
    {
        let output = Self::read_output(outcome);
        Self::scan_findings(outcome, output)
    }

    /// The invocation that scans `code_files` with the rule `rule_content`.
    pub fn scan_with_custom_rule(rule_content: String, code_files: Vec<String>) -> (r: Invocation)
        ensures
            r@ == (InvocationValue {
                program: program(),
                arguments: custom_rule_arguments(rule_content@, views(code_files@)),
            }),
    {
        let mut arguments: Vec<Argument> = Vec::new();
        push_text(&mut arguments, "scan");
        push_text(&mut arguments, "--json");
        push_text(&mut arguments, "--experimental");
        push_text(&mut arguments, "--config");
        arguments.push(Argument::TransientFile(rule_content));
        push_texts(&mut arguments, &code_files);
        let r = engine(arguments);
        proof {
            let expected = custom_rule_arguments(rule_content@, views(code_files@));
            assert(r@.arguments.len() == expected.len());
            assert forall|k: int| 0 <= k < expected.len() implies r@.arguments[k] == expected[k] by {
                if k >= 5 {
                    assert(r.arguments@[5 + (k - 5)]@ == ArgumentValue::Text(code_files@[k - 5]@));
                }
            }
            assert(r@.arguments =~= expected);
        }
        r
    }

    /// The invocation that asks for the syntax tree of `code`, read as `language`.
    pub fn dump_ast(code: String, language: String) -> (r: Invocation)
        ensures
            r@ == (InvocationValue { program: program(), arguments: ast_arguments(code@, language@) }),
    {
        let mut arguments: Vec<Argument> = Vec::new();
        push_text(&mut arguments, "--dump-ast");
        push_text(&mut arguments, "--json");
        push_text(&mut arguments, "--experimental");
        push_text(&mut arguments, "--lang");
        push_text(&mut arguments, language.as_str());
        arguments.push(Argument::TransientFile(code));
        let r = engine(arguments);
        proof {
            assert(r@.arguments =~= ast_arguments(code@, language@));
        }
        r
    }

    /// The syntax tree that the outcome of `dump_ast` tells, once the
    /// program's output has been read as `output`.
    pub fn ast_tree(outcome: &RunOutcome, output: Option<Json>) -> (r: Result<Json, String>)
        ensures
            json_outcome(r) == ast_reading(outcome@, optional_view(output)),
    {
        match outcome {
            RunOutcome::NoFile => Err("Failed to create temp code file".to_owned()),
            RunOutcome::NotWritten => Err("Failed to write code content".to_owned()),
            RunOutcome::NotRun => Err("Failed to execute semgrep --dump-ast".to_owned()),
            RunOutcome::Exited { success, stdout, stderr } => {
                if !*success {
                    Err(chain("Semgrep AST dump failed: ", stderr.as_str()))
                } else {
                    match output {
                        Some(j) => Ok(j),
                        None => Err("Failed to parse Semgrep AST output".to_owned()),
                    }
                }
            },
        }
    }

    /// The syntax tree that the outcome of `dump_ast` tells.
    pub fn read_ast(outcome: &RunOutcome) -> (r: Result<Json, String>)
        ensures
            json_outcome(r) == ast_reading(outcome@, output_of(outcome@)),
    {
        let output = Self::read_output(outcome);
        Self::ast_tree(outcome, output)
    }

    /// What the output of a run reads as.
    fn read_output(outcome: &RunOutcome) -> (r: Option<Json>)
        ensures
            optional_view(r) == output_of(outcome@),
    {
        match outcome {
            RunOutcome::Exited { success, stdout, stderr } => parse(stdout.as_str()),
            _ => None,
        }
    }
}

} // verus!
