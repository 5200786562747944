//! What a child does between its creation and the start of its program.
//!
//! A child is described by a [`SpawnPlan`]: how it is isolated, the ordered
//! steps it takes before it replaces its image, and the program and
//! arguments it then runs. Any step that fails ends the child with a
//! non-zero exit.

use vstd::prelude::*;
use crate::types::{Language, LaunchOption, Sandbox};

verus! {

/// The stack given to the compile-phase child: 1 MiB.
pub const COMPILE_STACK_BYTES: usize = 1048576;

/// A pipe through which the parent captures what a child writes.
#[derive(Clone, Copy, Debug, PartialEq, Eq, Structural)]
pub enum Pipe {
    Stdout,
    Stderr,
}

/// A resource ceiling that the kernel enforces on a process.
#[derive(Clone, Copy, Debug, PartialEq, Eq, Structural)]
pub enum Limit {
    /// The size of a core dump.
    CoreSize,
    /// The size of any file the process writes.
    FileSize,
    /// The size of the address space.
    AddressSpace,
}

/// One step of a child's setup.
#[derive(Clone, Copy, Debug, PartialEq, Eq, Structural)]
pub enum ChildStep {
    /// Make the workspace the working directory.
    EnterWorkspace,
    /// Make the workspace the root directory.
    ConfineToWorkspace,
    /// Close this file descriptor.
    CloseDescriptor(i32),
    /// Open the file `/stdin` read-only; it takes the lowest free
    /// descriptor.
    OpenStdin,
    /// Duplicate the write end of the pipe onto this descriptor.
    Redirect { pipe: Pipe, descriptor: i32 },
    /// Close the write end of the pipe itself.
    ReleasePipe(Pipe),
    /// Set the soft and the hard limit of a resource to this value.
    SetLimit { limit: Limit, value: u64 },
    /// Replace the process image with the program.
    Execute,
}

/// The steps of the compile-phase child: it works in the workspace, with
/// its standard error captured, and is confined no further.
pub open spec fn compile_steps() -> Seq<ChildStep> {
    seq![
        ChildStep::EnterWorkspace,
        ChildStep::CloseDescriptor(2),
        ChildStep::Redirect { pipe: Pipe::Stderr, descriptor: 2 },
        ChildStep::ReleasePipe(Pipe::Stderr),
        ChildStep::Execute,
    ]
}

/// The steps of the run-phase child: confined to the workspace, with the
/// stdin file as its input, both outputs captured, no core dump, no file
/// it could write, and its address space limited.
pub open spec fn run_steps(max_virtual_memory: u64) -> Seq<ChildStep> {
    seq![
        ChildStep::EnterWorkspace,
        ChildStep::ConfineToWorkspace,
        ChildStep::CloseDescriptor(0),
        ChildStep::OpenStdin,
        ChildStep::CloseDescriptor(1),
        ChildStep::Redirect { pipe: Pipe::Stdout, descriptor: 1 },
        ChildStep::ReleasePipe(Pipe::Stdout),
        ChildStep::CloseDescriptor(2),
        ChildStep::Redirect { pipe: Pipe::Stderr, descriptor: 2 },
        ChildStep::ReleasePipe(Pipe::Stderr),
        ChildStep::SetLimit { limit: Limit::CoreSize, value: 0 },
        ChildStep::SetLimit { limit: Limit::FileSize, value: 0 },
        ChildStep::SetLimit { limit: Limit::AddressSpace, value: max_virtual_memory },
        ChildStep::Execute,
    ]
}

/// How a child is created and what it runs.
#[derive(Debug)]
pub struct SpawnPlan {
    /// The size of the stack the child is given.
    pub stack_bytes: usize,
    /// The child gets a user namespace of its own.
    pub new_user_namespace: bool,
    /// The child gets an empty network namespace of its own.
    pub new_network_namespace: bool,
    /// The parent is signalled when the child ends.
    pub notify_parent: bool,
    /// The setup, in order.
    pub steps: Vec<ChildStep>,
    /// The program and its arguments; the program's path comes first.
    pub argv: Vec<String>,
    /// Whether the program sees the parent's environment, or an empty one.
    pub inherit_environment: bool,
}

impl SpawnPlan {
    /// The arguments as sequences of characters.
    pub open spec fn argv_view(&self) -> Seq<Seq<char>> {
        Seq::new(self.argv@.len(), |i: int| self.argv@[i]@)
    }

    /// Every child is cut off from the host's users and network, and its
    /// end is signalled to the parent.
    pub open spec fn isolated(&self) -> bool {
        self.new_user_namespace && self.new_network_namespace && self.notify_parent
    }
}

/// The arguments of the compile-phase child: the shell, told to run one
/// command.
pub open spec fn compile_argv_of(command: Seq<char>) -> Seq<Seq<char>> {
    seq!["/bin/bash"@, "-c"@, command]
}

/// The arguments of the run-phase child: the program's path, then the
/// language's arguments in their order.
pub open spec fn run_argv_of(execute: Seq<char>, args: Seq<Seq<char>>) -> Seq<Seq<char>> {
    seq![execute] + args
}

/// The arguments of a language as sequences of characters.
pub open spec fn args_view(language: &Language) -> Seq<Seq<char>> {
    Seq::new(language.args@.len(), |i: int| language.args@[i]@)
}

/// The plan of the compile-phase child for a compile command.
pub fn compile_plan(command: &str) -> (plan: SpawnPlan)
    ensures
        plan.stack_bytes == COMPILE_STACK_BYTES,
        plan.isolated(),
        plan.steps@ == compile_steps(),
        plan.argv_view() == compile_argv_of(command@),
        plan.inherit_environment,
{
    let mut steps: Vec<ChildStep> = Vec::new();
    steps.push(ChildStep::EnterWorkspace);
    steps.push(ChildStep::CloseDescriptor(2));
    steps.push(ChildStep::Redirect { pipe: Pipe::Stderr, descriptor: 2 });
    steps.push(ChildStep::ReleasePipe(Pipe::Stderr));
    steps.push(ChildStep::Execute);
    assert(steps@ =~= compile_steps());
    let mut argv: Vec<String> = Vec::new();
    argv.push("/bin/bash".to_owned());
    argv.push("-c".to_owned());
    argv.push(command.to_owned());
    let plan = SpawnPlan {
        stack_bytes: COMPILE_STACK_BYTES,
        new_user_namespace: true,
        new_network_namespace: true,
        notify_parent: true,
        steps,
        argv,
        inherit_environment: true,
    };
    assert(plan.argv_view() =~= compile_argv_of(command@));
    plan
}

/// The plan of the run-phase child for a language, under the sandbox's
/// stack size and the launch's memory limit.
pub fn run_plan(language: &Language, sandbox: &Sandbox, option: &LaunchOption) -> (plan:
    SpawnPlan)
    ensures
        plan.stack_bytes == sandbox.stack_size_bytes,
        plan.isolated(),
        plan.steps@ == run_steps(option.max_virtual_memory),
        plan.argv_view() == run_argv_of(language.execute@, args_view(language)),
        !plan.inherit_environment,
{
    let mut steps: Vec<ChildStep> = Vec::new();
    steps.push(ChildStep::EnterWorkspace);
    steps.push(ChildStep::ConfineToWorkspace);
    steps.push(ChildStep::CloseDescriptor(0));
    steps.push(ChildStep::OpenStdin);
    steps.push(ChildStep::CloseDescriptor(1));
    steps.push(ChildStep::Redirect { pipe: Pipe::Stdout, descriptor: 1 });
    steps.push(ChildStep::ReleasePipe(Pipe::Stdout));
    steps.push(ChildStep::CloseDescriptor(2));
    steps.push(ChildStep::Redirect { pipe: Pipe::Stderr, descriptor: 2 });
    steps.push(ChildStep::ReleasePipe(Pipe::Stderr));
    steps.push(ChildStep::SetLimit { limit: Limit::CoreSize, value: 0 });
    steps.push(ChildStep::SetLimit { limit: Limit::FileSize, value: 0 });
    steps.push(ChildStep::SetLimit { limit: Limit::AddressSpace, value: option.max_virtual_memory });
    steps.push(ChildStep::Execute);
    assert(steps@ =~= run_steps(option.max_virtual_memory));
    let mut argv: Vec<String> = Vec::new();
    argv.push(language.execute.clone());
    let mut i: usize = 0;
    while i < language.args.len()
        invariant
            i <= language.args@.len(),
            argv@.len() == i + 1,
            argv@[0]@ == language.execute@,
            forall|j: int| 0 <= j < i ==> (#[trigger] argv@[j + 1])@ == language.args@[j]@,
        decreases language.args@.len() - i,
    {
        argv.push(language.args[i].clone());
        i = i + 1;
    }
    let plan = SpawnPlan {
        stack_bytes: sandbox.stack_size_bytes,
        new_user_namespace: true,
        new_network_namespace: true,
        notify_parent: true,
        steps,
        argv,
        inherit_environment: false,
    };
    assert(plan.argv_view() =~= run_argv_of(language.execute@, args_view(language))) by {
        assert forall|j: int| 0 <= j < plan.argv_view().len() implies plan.argv_view()[j]
            == run_argv_of(language.execute@, args_view(language))[j] by {
            if j > 0 {
                assert(plan.argv@[(j - 1) + 1]@ == language.args@[j - 1]@);
            }
        }
    }
    plan
}

/// Both plans enter the workspace first and replace the image last, and
/// nowhere else. Only the run-phase child is confined to the workspace,
/// reads the stdin file and is put under limits, and it is confined
/// before it opens any file.
pub proof fn lemma_plan_shape(max_virtual_memory: u64)
    ensures
        compile_steps().first() == ChildStep::EnterWorkspace,
        run_steps(max_virtual_memory).first() == ChildStep::EnterWorkspace,
        compile_steps().last() == ChildStep::Execute,
        run_steps(max_virtual_memory).last() == ChildStep::Execute,
        forall|i: int|
            0 <= i < compile_steps().len() - 1 ==> #[trigger] compile_steps()[i]
                != ChildStep::Execute,
        forall|i: int|
            0 <= i < run_steps(max_virtual_memory).len() - 1 ==> #[trigger] run_steps(
                max_virtual_memory,
            )[i] != ChildStep::Execute,
        forall|i: int|
            0 <= i < compile_steps().len() ==> !(#[trigger] compile_steps()[i] is SetLimit)
                && compile_steps()[i] != ChildStep::ConfineToWorkspace && compile_steps()[i]
                != ChildStep::OpenStdin,
        run_steps(max_virtual_memory)[1] == ChildStep::ConfineToWorkspace,
        run_steps(max_virtual_memory).contains(
            ChildStep::SetLimit { limit: Limit::AddressSpace, value: max_virtual_memory },
        ),
        run_steps(max_virtual_memory).contains(
            ChildStep::SetLimit { limit: Limit::CoreSize, value: 0 },
        ),
        run_steps(max_virtual_memory).contains(
            ChildStep::SetLimit { limit: Limit::FileSize, value: 0 },
        ),
{
    let run = run_steps(max_virtual_memory);
    assert(run[10] == ChildStep::SetLimit { limit: Limit::CoreSize, value: 0 });
    assert(run[11] == ChildStep::SetLimit { limit: Limit::FileSize, value: 0 });
    assert(run[12] == ChildStep::SetLimit {
        limit: Limit::AddressSpace,
        value: max_virtual_memory,
    });
}

} // verus!
