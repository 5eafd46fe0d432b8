//! The command router: the decisions of each of the five operations,
//! stated as functions from the parsed invocation and the already-known
//! facts (the loaded configuration, the gathered file list, a child's
//! exit status) to what is to be done. The thin front end only carries
//! the plans out: it creates the planned paths, spawns the planned
//! argument lists, and feeds results back.

use vstd::prelude::*;

use crate::config::ConfigModel;
use crate::config::XnConfig;
use crate::error::XnError;

verus! {

/// A parsed command-line invocation: one of the five operations of the
/// tool, with its arguments. Paths travel as plain strings.
#[derive(Debug)]
pub enum Commands {
    /// Initialize a new XN project.
    Init { name: String },
    /// Build (compile) XN sources to WASM.
    Build { source: Option<String>, output: String },
    /// Run (interpret) one or more XN files.
    Run { files: Vec<String>, entry: Option<String> },
    /// Execute a compiled WASM file on the XN WASM VM.
    Vm { wasm_file: String, args: Vec<String> },
    /// Read or update config file key-value pairs.
    Config { key: Option<String>, value: Option<String> },
}

/// The scaffold that initializing a project lays down: the directories
/// and files to create and the configuration to persist, all relative to
/// the working directory.
pub struct InitPlan {
    pub project_dir: String,
    pub src_dir: String,
    pub sample_path: String,
    pub sample_source: String,
    pub config_path: String,
    pub config: XnConfig,
}

/// The text of the sample source that a fresh project starts with.
pub open spec fn sample_source_text() -> Seq<char> {
    "// Greatest Common Divisor\nfn gcd(a: mut i32, b: mut i32) -> i32\n{\n    let t: mut i32 = 0;\n    \n    while (b != 0) {\n        t = b;\n        b = a % b;\n        a = t;\n    }\n    return a;\n}\n\nfn main() -> i32 {\n    let a: i32 = 270;\n    let b: i32 = 192;\n    return gcd(a, b);\n}\n"@
}

/// The configuration a fresh project starts with: the documented default
/// tool names, and the project's own name.
pub open spec fn default_config(name: Seq<char>) -> ConfigModel {
    ConfigModel {
        compiler_path: "xcc"@,
        interpreter_path: "xin"@,
        vm_path: "xrun"@,
        project_name: name,
    }
}

/// Plans the scaffold of a new project named `name`: the project
/// directory, its `src` subdirectory with the one sample source, and the
/// configuration file with the defaulted tool paths.
pub fn plan_init(name: &String) -> (r: InitPlan)
    ensures
        r.project_dir@ == name@,
        r.src_dir@ == name@ + "/src"@,
        r.sample_path@ == name@ + "/src/main.xn"@,
        r.sample_source@ == sample_source_text(),
        r.config_path@ == name@ + "/xn.toml"@,
        r.config@ == default_config(name@),
{
    let mut src_dir = name.clone();
    src_dir.append("/src");
    let mut sample_path = name.clone();
    sample_path.append("/src/main.xn");
    let mut config_path = name.clone();
    config_path.append("/xn.toml");
    let config = XnConfig {
        compiler_path: String::from_str("xcc"),
        interpreter_path: String::from_str("xin"),
        vm_path: String::from_str("xrun"),
        project_name: name.clone(),
    };
    InitPlan {
        project_dir: name.clone(),
        src_dir,
        sample_path,
        sample_source: String::from_str(
            "// Greatest Common Divisor\nfn gcd(a: mut i32, b: mut i32) -> i32\n{\n    let t: mut i32 = 0;\n    \n    while (b != 0) {\n        t = b;\n        b = a % b;\n        a = t;\n    }\n    return a;\n}\n\nfn main() -> i32 {\n    let a: i32 = 270;\n    let b: i32 = 192;\n    return gcd(a, b);\n}\n",
        ),
        config_path,
        config,
    }
}

/// Where a build's one input comes from.
#[derive(Debug)]
pub enum BuildInput {
    /// An input file named explicitly on the command line: the collector
    /// is not consulted at all.
    Explicit(String),
    /// No explicit input: the sources under `src/` are to be gathered
    /// and merged.
    FromSources,
}

/// Decides where the build input comes from: the explicitly given source
/// exactly when one was given, and only otherwise the gather-and-merge
/// route.
pub fn resolve_build_input(source: Option<String>) -> (r: BuildInput)
    ensures
        match source {
            Some(p) => r == BuildInput::Explicit(p),
            None => r == BuildInput::FromSources,
        },
{
    match source {
        Some(p) => BuildInput::Explicit(p),
        None => BuildInput::FromSources,
    }
}

/// The argument list handed to the compiler: the input path, then `-o`
/// and the output path.
pub fn compiler_args(input: &String, output: &String) -> (r: Vec<String>)
    ensures
        r.deep_view() == seq![input@, "-o"@, output@],
{
    let mut v: Vec<String> = Vec::new();
    v.push(input.clone());
    v.push(String::from_str("-o"));
    v.push(output.clone());
    proof {
        assert(v.deep_view() =~= seq![input@, "-o"@, output@]);
    }
    v
}

/// What the run operation does once its file list is resolved.
#[derive(Debug)]
pub enum RunPlan {
    /// The resolved list is empty: report that there is nothing to run
    /// and succeed without spawning anything.
    NothingToRun,
    /// Invoke the interpreter with the given argument list.
    Invoke(Vec<String>),
}

/// The trailing arguments that an entry point contributes: `-e` and the
/// entry path, or nothing.
pub open spec fn entry_suffix(entry: Option<String>) -> Seq<Seq<char>> {
    match entry {
        Some(e) => seq!["-e"@, e@],
        None => Seq::<Seq<char>>::empty(),
    }
}

/// Whether the run operation must first gather sources: exactly when no
/// files were named on the command line.
pub fn run_needs_gather(files: &Vec<String>) -> (r: bool)
    ensures
        r == (files@.len() == 0),
{
    files.len() == 0
}

/// Plans the run operation over the resolved file list: nothing is
/// spawned when the list is empty, and otherwise the interpreter
/// receives every file in order, then the entry-point flag if one was
/// given.
pub fn plan_run(files: Vec<String>, entry: Option<String>) -> (r: RunPlan)
    ensures
        (r is NothingToRun) <==> files@.len() == 0,
        r is Invoke ==> r->Invoke_0.deep_view() == files.deep_view() + entry_suffix(entry),
{
    if files.len() == 0 {
        return RunPlan::NothingToRun;
    }
    let ghost file_texts = files.deep_view();
    let mut args = files;
    match entry {
        Some(e) => {
            args.push(String::from_str("-e"));
            args.push(e);
            proof {
                assert(args.deep_view() =~= file_texts + entry_suffix(Some(e)));
            }
            RunPlan::Invoke(args)
        },
        None => {
            proof {
                assert(args.deep_view() =~= file_texts + entry_suffix(None));
            }
            RunPlan::Invoke(args)
        },
    }
}

/// The argument list handed to the VM: the compiled module's path, then
/// the passthrough arguments in order.
#[verifier::loop_isolation(false)]
pub fn vm_args(wasm_file: &String, args: &Vec<String>) -> (r: Vec<String>)
    ensures
        r.deep_view() == seq![wasm_file@] + args.deep_view(),
{
    let mut v: Vec<String> = Vec::new();
    v.push(wasm_file.clone());
    let mut i: usize = 0;
    while i < args.len()
        invariant
            i <= args.len(),
            v.deep_view() == seq![wasm_file@] + args.deep_view().take(i as int),
        decreases args.len() - i,
    {
        let ghost prev = v.deep_view();
        proof {
            assert(prev[0] == wasm_file@);
            assert(forall|j: int| 1 <= j <= i ==> prev[j] == args.deep_view()[j - 1]);
        }
        let a = &args[i];
        v.push(a.clone());
        proof {
            assert(args.deep_view()[i as int] == args[i as int]@);
            assert(v.deep_view().len() == i + 2);
            assert(forall|j: int| 0 <= j <= i ==> v.deep_view()[j] == prev[j]);
            assert(v.deep_view()[i + 1 as int] == args[i as int]@);
            let rhs = seq![wasm_file@] + args.deep_view().take(i + 1 as int);
            assert forall|k: int| 0 <= k < v.deep_view().len() implies v.deep_view()[k]
                == rhs[k] by {
                if k == 0 {
                    assert(v.deep_view()[0] == prev[0]);
                } else if k <= i {
                    assert(v.deep_view()[k] == prev[k]);
                    assert(prev[k] == args.deep_view()[k - 1]);
                    assert(rhs[k] == args.deep_view()[k - 1]);
                } else {
                    assert(v.deep_view()[k] == args[i as int]@);
                    assert(rhs[k] == args.deep_view()[i as int]);
                }
            }
            assert(v.deep_view() =~= rhs);
        }
        i = i + 1;
    }
    proof {
        assert(seq![wasm_file@] + args.deep_view().take(args.deep_view().len() as int) =~= seq![
            wasm_file@,
        ] + args.deep_view());
    }
    v
}

/// What a finished child process means for the enclosing operation:
/// success only on a zero exit; a non-zero exit and an abnormal
/// termination (no exit code at all) are distinct failures, and neither
/// is ever swallowed.
pub open spec fn exit_outcome_spec(code: Option<i32>) -> Result<(), XnError> {
    match code {
        Some(c) => if c == 0 {
            Ok(())
        } else {
            Err(XnError::NonZeroExit(c))
        },
        None => Err(XnError::AbnormalTermination),
    }
}

/// Classifies a child's exit status, as `exit_outcome_spec` states.
pub fn exit_outcome(code: Option<i32>) -> (r: Result<(), XnError>)
    ensures
        r == exit_outcome_spec(code),
{
    match code {
        Some(c) => if c == 0 {
            Ok(())
        } else {
            Err(XnError::NonZeroExit(c))
        },
        None => Err(XnError::AbnormalTermination),
    }
}

} // verus!
