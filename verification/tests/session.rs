use catherine::dialog::{respond, Prompt, Reaction};
use catherine::executor::{Command, Context, Execution, Failure};
use catherine::pipeline::Resolution;
use catherine::router::Builtin;

#[test]
fn shell_takes_the_next_line_after_a_program_that_cannot_be_started() {
    let mut context = Context::new("/");
    let (prompt, reaction) = respond(Prompt::Command, "nonexistent_cmd_xyz");
    assert_eq!(prompt, Prompt::Command);
    let line = match reaction {
        Reaction::Execute(line) => line,
        other => panic!("{:?}", other),
    };
    let mut run = Execution::begin(&line, Resolution::WholeLine);
    let mut reports = Vec::new();
    let mut starts = 0;
    while !run.finished() {
        if matches!(run.pending(&context), Command::Start { .. }) {
            starts += 1;
        }
        if let Some(failure) = run.settle(&mut context, Err("No such file or directory".to_string())) {
            reports.push(failure);
        }
    }
    assert_eq!(starts, 1);
    assert_eq!(
        reports,
        vec![Failure::Spawn {
            program: "nonexistent_cmd_xyz".to_string(),
            reason: "No such file or directory".to_string(),
        }]
    );
    assert_eq!(respond(prompt, "help"), (Prompt::Command, Reaction::Invoke(Builtin::Help)));
}

#[test]
fn change_of_directory_from_the_command_prompt_starts_no_program() {
    let mut context = Context::new("/home/user");
    let (prompt, reaction) = respond(Prompt::Command, "cd /tmp");
    assert_eq!(prompt, Prompt::Command);
    assert_eq!(reaction, Reaction::Execute("cd /tmp".to_string()));
    let mut run = Execution::begin("cd /tmp", Resolution::WholeLine);
    let mut reports = 0;
    while !run.finished() {
        assert!(!matches!(run.pending(&context), Command::Start { .. }));
        if run.settle(&mut context, Ok(())).is_some() {
            reports += 1;
        }
    }
    assert_eq!(reports, 0);
    assert_eq!(context.working_directory(), "/tmp");
}

#[test]
fn empty_line_starts_nothing() {
    let context = Context::new("/");
    assert_eq!(respond(Prompt::Command, ""), (Prompt::Command, Reaction::Notice));
    let run = Execution::begin("", Resolution::WholeLine);
    assert_eq!(run.pending(&context), Command::Finished);
}
