//! The two ends of a run: reading the invocation, and handing over to the
//! command.

use vstd::prelude::*;
use vstd::string::StringSliceAdditionalSpecFns;
use crate::failure::{Exit, ExitView, FAILURE_STATUS};
use crate::path::{bytes_of, copy_bytes};
use crate::plan::{byte_strings, plan_view, Action, ActionView, OnFailure, Step, StepView};

verus! {

/// What a complete command line asks for.
#[derive(PartialEq, Eq, Debug)]
pub struct Invocation {
    /// The directory to present as the store, as it was given.
    pub store_source: Vec<u8>,
    /// The command to run in the namespace.
    pub command: Vec<u8>,
    /// The arguments of the command.
    pub args: Vec<Vec<u8>>,
}

/// An invocation, as plain values.
pub struct InvocationView {
    pub store_source: Seq<u8>,
    pub command: Seq<u8>,
    pub args: Seq<Seq<u8>>,
}

impl View for Invocation {
    type V = InvocationView;

    open spec fn view(&self) -> InvocationView {
        InvocationView {
            store_source: self.store_source@,
            command: self.command@,
            args: byte_strings(self.args@),
        }
    }
}

/// The usage text for a program called `program`, with status 1.
pub open spec fn spec_usage(program: Seq<u8>) -> ExitView {
    ExitView {
        status: FAILURE_STATUS,
        message: "Usage: ".spec_bytes() + program + " <nixpath> <command>\n".spec_bytes(),
    }
}

/// The diagnostic for a store source that does not resolve, with status 1.
pub open spec fn spec_unresolved_store(store_source: Seq<u8>) -> ExitView {
    ExitView {
        status: FAILURE_STATUS,
        message: "failed to resolve nix directory ".spec_bytes() + store_source,
    }
}

/// The program's name, where the command line has one.
pub open spec fn spec_program_name(argv: Seq<Seq<u8>>) -> Seq<u8> {
    if argv.len() > 0 {
        argv[0]
    } else {
        Seq::empty()
    }
}

/// A command line of the program's name, a store source, a command and the
/// command's arguments. With fewer than two arguments after the program's
/// name there is nothing to run, and the usage text is the answer.
pub open spec fn spec_parse_invocation(argv: Seq<Seq<u8>>) -> Result<InvocationView, ExitView> {
    if argv.len() < 3 {
        Err(spec_usage(spec_program_name(argv)))
    } else {
        Ok(
            InvocationView {
                store_source: argv[1],
                command: argv[2],
                args: argv.subrange(3, argv.len() as int),
            },
        )
    }
}

/// The working directory is restored, then the process image is replaced
/// by the command. Only the replacement may fail without ending the
/// process at once: its failure is reported.
pub open spec fn spec_launch(cwd: Seq<u8>, command: Seq<u8>, args: Seq<Seq<u8>>) -> Seq<
    ActionView,
> {
    seq![
        ActionView::fatal(StepView::ChangeDir { path: cwd }),
        ActionView { step: StepView::Exec { command, args }, on_failure: OnFailure::Report },
    ]
}

/// A copy of a list of byte strings.
pub fn copy_byte_strings(list: &Vec<Vec<u8>>) -> (copy: Vec<Vec<u8>>)
    ensures
        byte_strings(copy@) == byte_strings(list@),
{
    let mut copy: Vec<Vec<u8>> = Vec::new();
    let mut i: usize = 0;
    while i < list.len()
        invariant
            i <= list@.len(),
            copy@.len() == i,
            forall|j: int| 0 <= j < i ==> (#[trigger] copy@[j])@ == list@[j]@,
        decreases list@.len() - i,
    {
        copy.push(copy_bytes(&list[i]));
        i += 1;
    }
    assert(byte_strings(copy@) =~= byte_strings(list@));
    copy
}

/// The usage text for a program called `program`.
pub fn usage(program: &Vec<u8>) -> (exit: Exit)
    ensures
        exit@ == spec_usage(program@),
{
    let mut message = bytes_of("Usage: ");
    let mut name = copy_bytes(program);
    message.append(&mut name);
    let mut rest = bytes_of(" <nixpath> <command>\n");
    message.append(&mut rest);
    Exit { status: FAILURE_STATUS, message }
}

/// The diagnostic for a store source that does not resolve.
pub fn unresolved_store(store_source: &Vec<u8>) -> (exit: Exit)
    ensures
        exit@ == spec_unresolved_store(store_source@),
{
    let mut message = bytes_of("failed to resolve nix directory ");
    let mut path = copy_bytes(store_source);
    message.append(&mut path);
    Exit { status: FAILURE_STATUS, message }
}

/// Reads a command line. The answer is an invocation exactly where the
/// command line has at least two arguments after the program's name;
/// otherwise it is the usage text with status 1.
pub fn parse_invocation(argv: &Vec<Vec<u8>>) -> (parsed: Result<Invocation, Exit>)
    ensures
        parsed is Ok == (argv@.len() >= 3),
        match parsed {
            Ok(invocation) => spec_parse_invocation(byte_strings(argv@)) == Ok::<
                InvocationView,
                ExitView,
            >(invocation@),
            Err(exit) => spec_parse_invocation(byte_strings(argv@)) == Err::<
                InvocationView,
                ExitView,
            >(exit@),
        },
{
    if argv.len() < 3 {
        let exit = if argv.len() > 0 {
            usage(&argv[0])
        } else {
            usage(&Vec::new())
        };
        return Err(exit);
    }
    let mut args: Vec<Vec<u8>> = Vec::new();
    let mut i: usize = 3;
    while i < argv.len()
        invariant
            3 <= i <= argv@.len(),
            args@.len() == i - 3,
            forall|j: int| 0 <= j < args@.len() ==> (#[trigger] args@[j])@ == argv@[j + 3]@,
        decreases argv@.len() - i,
    {
        args.push(copy_bytes(&argv[i]));
        i += 1;
    }
    let invocation = Invocation {
        store_source: copy_bytes(&argv[1]),
        command: copy_bytes(&argv[2]),
        args,
    };
    assert(invocation@.args =~= byte_strings(argv@).subrange(3, argv@.len() as int));
    Ok(invocation)
}

/// Plans the hand-over to `command`, started with `args` from the working
/// directory `cwd`.
pub fn launch(cwd: &Vec<u8>, command: &Vec<u8>, args: &Vec<Vec<u8>>) -> (plan: Vec<Action>)
    ensures
        plan_view(plan@) == spec_launch(cwd@, command@, byte_strings(args@)),
{
    let mut plan: Vec<Action> = Vec::new();
    plan.push(Action::fatal(Step::ChangeDir { path: copy_bytes(cwd) }));
    plan.push(
        Action {
            step: Step::Exec { command: copy_bytes(command), args: copy_byte_strings(args) },
            on_failure: OnFailure::Report,
        },
    );
    assert(plan_view(plan@) =~= spec_launch(cwd@, command@, byte_strings(args@)));
    plan
}

} // verus!
