use evalsa_worker::child::{
    compile_plan, run_plan, ChildStep, Limit, Pipe, COMPILE_STACK_BYTES,
};
use evalsa_worker::types::{Language, LaunchOption, Sandbox};

fn language() -> Language {
    Language {
        name: "python".to_string(),
        source: "main.py".to_string(),
        compile: None,
        execute: "/usr/bin/python3".to_string(),
        args: vec!["-S".to_string(), "main.py".to_string()],
    }
}

#[test]
fn compile_child_runs_the_shell_in_the_workspace() {
    let plan = compile_plan("gcc -O2 main.c");
    assert_eq!(COMPILE_STACK_BYTES, 1 << 20);
    assert_eq!(plan.stack_bytes, 1 << 20);
    assert!(plan.new_user_namespace);
    assert!(plan.new_network_namespace);
    assert!(plan.notify_parent);
    assert!(plan.inherit_environment);
    assert_eq!(plan.argv, vec!["/bin/bash", "-c", "gcc -O2 main.c"]);
    assert_eq!(
        plan.steps,
        vec![
            ChildStep::EnterWorkspace,
            ChildStep::CloseDescriptor(2),
            ChildStep::Redirect { pipe: Pipe::Stderr, descriptor: 2 },
            ChildStep::ReleasePipe(Pipe::Stderr),
            ChildStep::Execute,
        ]
    );
}

#[test]
fn run_child_is_confined_wired_and_limited() {
    let sandbox = Sandbox { stack_size_bytes: 65536, mounts: vec![] };
    let option = LaunchOption { timeout: 1000, max_virtual_memory: 1 << 30 };
    let plan = run_plan(&language(), &sandbox, &option);
    assert_eq!(plan.stack_bytes, 65536);
    assert!(plan.new_user_namespace);
    assert!(plan.new_network_namespace);
    assert!(plan.notify_parent);
    assert!(!plan.inherit_environment);
    assert_eq!(plan.argv, vec!["/usr/bin/python3", "-S", "main.py"]);
    assert_eq!(
        plan.steps,
        vec![
            ChildStep::EnterWorkspace,
            ChildStep::ConfineToWorkspace,
            ChildStep::CloseDescriptor(0),
            ChildStep::OpenStdin,
            ChildStep::CloseDescriptor(1),
            ChildStep::Redirect { pipe: Pipe::Stdout, descriptor: 1 },
            ChildStep::ReleasePipe(Pipe::Stdout),
            ChildStep::CloseDescriptor(2),
            ChildStep::Redirect { pipe: Pipe::Stderr, descriptor: 2 },
            ChildStep::ReleasePipe(Pipe::Stderr),
            ChildStep::SetLimit { limit: Limit::CoreSize, value: 0 },
            ChildStep::SetLimit { limit: Limit::FileSize, value: 0 },
            ChildStep::SetLimit { limit: Limit::AddressSpace, value: 1 << 30 },
            ChildStep::Execute,
        ]
    );
}

#[test]
fn run_child_without_arguments_has_only_its_path() {
    let cat = Language {
        name: "cat".to_string(),
        source: "code".to_string(),
        compile: None,
        execute: "/bin/cat".to_string(),
        args: vec![],
    };
    let sandbox = Sandbox { stack_size_bytes: 4096, mounts: vec![] };
    let option = LaunchOption { timeout: 1, max_virtual_memory: 0 };
    let plan = run_plan(&cat, &sandbox, &option);
    assert_eq!(plan.argv, vec!["/bin/cat"]);
    assert_eq!(
        plan.steps[12],
        ChildStep::SetLimit { limit: Limit::AddressSpace, value: 0 }
    );
}
