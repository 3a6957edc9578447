use vstd::prelude::*;

use crate::command::{run_ok, run_stderr, run_stdout, CommandLine, CommandLineView, RunOutcome, RunOutcomeView};
use crate::platform::Platform;
use crate::text::{decode_lossy, lossy_decode};

verus! {

/// What a deploy-script run yields: on a zero exit status the captured
/// standard output, otherwise the captured standard error, relayed
/// verbatim after the run has completed.
#[derive(Clone, Debug, PartialEq)]
pub struct ScriptOutcome {
    pub success: bool,
    pub output: String,
}

/// Mathematical image of a [`ScriptOutcome`].
#[verifier::ext_equal]
pub struct ScriptOutcomeView {
    pub success: bool,
    pub output: Seq<char>,
}

impl View for ScriptOutcome {
    type V = ScriptOutcomeView;

    open spec fn view(&self) -> ScriptOutcomeView {
        ScriptOutcomeView { success: self.success, output: self.output@ }
    }
}

/// The interpreter invocation for a deploy script: Windows needs PowerShell
/// with an explicit policy-bypass flag before the script path; the other
/// platforms hand the script straight to the shell. The caller's arguments
/// follow the path in order.
pub open spec fn script_command_view(p: Platform, path: Seq<char>, args: Seq<Seq<char>>) -> CommandLineView {
    if p is Windows {
        CommandLineView {
            program: "powershell"@,
            args: seq!["-ExecutionPolicy"@, "Bypass"@, "-File"@, path] + args,
        }
    } else {
        CommandLineView { program: "sh"@, args: seq![path] + args }
    }
}

/// Build the interpreter invocation for a deploy script.
pub fn script_command(p: Platform, path: &String, args: &Vec<String>) -> (c: CommandLine)
    ensures
        c@ == script_command_view(p, path@, args.deep_view()),
{
    let mut v: Vec<String> = Vec::new();
    let program = match p {
        Platform::Windows => {
            v.push("-ExecutionPolicy".to_string());
            v.push("Bypass".to_string());
            v.push("-File".to_string());
            v.push(path.clone());
            "powershell".to_string()
        }
        _ => {
            v.push(path.clone());
            "sh".to_string()
        }
    };
    let ghost head = v.deep_view();
    proof {
        assert(head =~= script_command_view(p, path@, args.deep_view()).args.subrange(
            0,
            head.len() as int,
        ));
    }
    let mut i: usize = 0;
    while i < args.len()
        invariant
            0 <= i <= args.len(),
            v.deep_view() =~= head + args.deep_view().subrange(0, i as int),
        decreases args.len() - i,
    {
        let ghost prev = v.deep_view();
        v.push(args[i].clone());
        proof {
            assert(v.deep_view() =~= prev.push(args.deep_view()[i as int]));
            assert(v.deep_view() =~= head + args.deep_view().subrange(0, i as int + 1));
        }
        i += 1;
    }
    let c = CommandLine { program, args: v };
    proof {
        assert(args.deep_view().subrange(0, args.deep_view().len() as int) =~= args.deep_view());
        assert(c@ =~~= script_command_view(p, path@, args.deep_view()));
    }
    c
}

/// The outcome relayed to the caller for a script run: success with the
/// decoded standard output on a zero exit status, failure with the decoded
/// standard error otherwise. A script that could not be started at all is a
/// failure with empty output, since nothing was captured.
pub open spec fn script_outcome_view(o: RunOutcomeView) -> ScriptOutcomeView {
    match o {
        RunOutcomeView::NotStarted => ScriptOutcomeView { success: false, output: Seq::empty() },
        RunOutcomeView::Exited { ok, stdout, stderr } => ScriptOutcomeView {
            success: ok,
            output: if ok {
                lossy_decode(stdout)
            } else {
                lossy_decode(stderr)
            },
        },
    }
}

/// Fold the observed outcome of a script run into what the caller is told.
pub fn script_outcome(o: &RunOutcome) -> (r: ScriptOutcome)
    ensures
        r@ == script_outcome_view(o@),
{
    match o {
        RunOutcome::NotStarted => ScriptOutcome { success: false, output: String::new() },
        RunOutcome::Exited { ok, stdout, stderr } => if *ok {
            ScriptOutcome { success: true, output: decode_lossy(stdout) }
        } else {
            ScriptOutcome { success: false, output: decode_lossy(stderr) }
        },
    }
}

/// The relayed output is exactly one of the two captured streams, decoded:
/// standard output when and only when the script succeeded.
pub proof fn lemma_script_output_stream(o: RunOutcomeView)
    requires
        o is Exited,
    ensures
        script_outcome_view(o).success == run_ok(o),
        run_ok(o) ==> script_outcome_view(o).output == lossy_decode(run_stdout(o)),
        !run_ok(o) ==> script_outcome_view(o).output == lossy_decode(run_stderr(o)),
{
}

} // verus!
