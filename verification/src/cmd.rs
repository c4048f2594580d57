//! What is run, and what is reported, when a command or a script is started.

use vstd::prelude::*;
use vstd::string::StringExecFns;
use crate::text::{owned, texts_view};

verus! {

/// The arguments with which `pdm` runs a script: `run`, the script, and then the
/// script's own arguments. Where none are given, a foreground script gets one empty
/// argument and a background script gets none.
pub open spec fn script_arguments(
    file: Seq<char>,
    args: Option<Seq<Seq<char>>>,
    background: bool,
) -> Seq<Seq<char>> {
    seq!["run"@, file] + match args {
        Some(given) => given,
        None => if background {
            Seq::<Seq<char>>::empty()
        } else {
            seq![Seq::<char>::empty()]
        },
    }
}

/// The view of an optional list of arguments.
pub open spec fn opt_args_view(args: Option<&Vec<String>>) -> Option<Seq<Seq<char>>> {
    match args {
        Some(given) => Some(texts_view(given@)),
        None => None,
    }
}

/// Builds the arguments with which `pdm` runs a script.
pub fn pdm_arguments(file: &str, args: Option<&Vec<String>>, background: bool) -> (all: Vec<String>)
    ensures
        texts_view(all@) == script_arguments(file@, opt_args_view(args), background),
        all@.len() == script_arguments(file@, opt_args_view(args), background).len(),
        forall|i: int|
            0 <= i < all@.len() ==> (#[trigger] all@[i])@ == script_arguments(
                file@,
                opt_args_view(args),
                background,
            )[i],
{
    let mut all: Vec<String> = Vec::new();
    all.push(owned("run"));
    all.push(owned(file));
    match args {
        Some(given) => {
            let n = given.len();
            for i in 0..n
                invariant
                    n == given.len(),
                    all.len() == 2 + i,
                    all[0]@ == "run"@,
                    all[1]@ == file@,
                    forall|j: int| 0 <= j < i ==> all[2 + j]@ == given[j]@,
            {
                all.push(given[i].clone());
            }
        },
        None => {
            if !background {
                all.push(String::new());
            }
        },
    }
    assert(texts_view(all@) =~= script_arguments(file@, opt_args_view(args), background));
    all
}

/// The report of a command that ended without success.
pub open spec fn failure_text(command: Seq<char>, status: Seq<char>) -> Seq<char> {
    "Command '"@ + command + "' failed with status: "@ + status
}

/// Builds the report of a command that ended without success, from the command and
/// the status as the system shows it.
pub fn command_failure(command: &str, status: &str) -> (text: String)
    ensures
        text@ == failure_text(command@, status@),
{
    let mut text = owned("Command '");
    text.append(command);
    text.append("' failed with status: ");
    text.append(status);
    text
}

/// The complaint about a required file that is not there.
pub open spec fn missing_file_text(file: Seq<char>) -> Seq<char> {
    "Error: Required file '"@ + file + "' not found in the current directory"@
}

/// Builds the complaint about a required file that is not there.
pub fn missing_file(file: &str) -> (text: String)
    ensures
        text@ == missing_file_text(file@),
{
    let mut text = owned("Error: Required file '");
    text.append(file);
    text.append("' not found in the current directory");
    text
}

} // verus!
