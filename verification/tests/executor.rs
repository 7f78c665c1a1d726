use catherine::executor::{resolve, Command, Context, Execution, Failure, Sink, Source};
use catherine::pipeline::Resolution;

fn strings(items: &[&str]) -> Vec<String> {
    items.iter().map(|s| s.to_string()).collect()
}

fn start(program: &str, arguments: &[&str], input: Source, output: Sink, directory: &str) -> Command {
    Command::Start {
        program: program.to_string(),
        arguments: strings(arguments),
        input,
        output,
        directory: directory.to_string(),
    }
}

#[test]
fn change_directory_to_tmp() {
    let mut context = Context::new("/home/user");
    let mut run = Execution::begin("cd /tmp", Resolution::WholeLine);
    assert_eq!(run.pending(&context), Command::ChangeDirectory { target: "/tmp".to_string() });
    assert_eq!(run.settle(&mut context, Ok(())), None);
    assert_eq!(context.working_directory(), "/tmp");
    assert_eq!(run.pending(&context), Command::Finished);
    assert!(run.finished());
}

#[test]
fn two_stages_with_whole_line_resolution() {
    let mut context = Context::new("/");
    let mut run = Execution::begin("ls | grep foo", Resolution::WholeLine);
    assert_eq!(
        run.pending(&context),
        start("ls", &["|", "grep", "foo"], Source::Shell, Sink::Pipe, "/")
    );
    assert_eq!(run.settle(&mut context, Ok(())), None);
    assert_eq!(
        run.pending(&context),
        start("ls", &["|", "grep", "foo"], Source::Stage(0), Sink::Shell, "/")
    );
    assert_eq!(run.settle(&mut context, Ok(())), None);
    assert_eq!(run.pending(&context), Command::Wait { stage: 1 });
    assert_eq!(run.settle(&mut context, Ok(())), None);
    assert_eq!(run.pending(&context), Command::Finished);
}

#[test]
fn two_stages_with_own_text_resolution() {
    let mut context = Context::new("/srv");
    let mut run = Execution::begin("ls | grep foo", Resolution::OwnText);
    assert_eq!(run.pending(&context), start("ls", &[], Source::Shell, Sink::Pipe, "/srv"));
    assert_eq!(run.settle(&mut context, Ok(())), None);
    assert_eq!(run.pending(&context), start("grep", &["foo"], Source::Stage(0), Sink::Shell, "/srv"));
    assert_eq!(run.settle(&mut context, Ok(())), None);
    assert!(!run.finished());
    assert_eq!(run.pending(&context), Command::Wait { stage: 1 });
    assert_eq!(run.settle(&mut context, Ok(())), None);
    assert!(run.finished());
    assert_eq!(run.pending(&context), Command::Finished);
}

#[test]
fn unknown_program_is_reported_and_the_run_ends() {
    let mut context = Context::new("/");
    let mut run = Execution::begin("nonexistent_cmd_xyz", Resolution::WholeLine);
    assert_eq!(run.pending(&context), start("nonexistent_cmd_xyz", &[], Source::Shell, Sink::Shell, "/"));
    assert_eq!(
        run.settle(&mut context, Err("No such file or directory".to_string())),
        Some(Failure::Spawn {
            program: "nonexistent_cmd_xyz".to_string(),
            reason: "No such file or directory".to_string(),
        })
    );
    assert_eq!(run.pending(&context), Command::Finished);
    assert!(run.finished());
    assert_eq!(context.working_directory(), "/");
}

#[test]
fn second_stage_is_tried_when_the_first_fails_to_start() {
    let mut context = Context::new("/");
    let mut run = Execution::begin("nope | wc -l", Resolution::OwnText);
    assert_eq!(run.pending(&context), start("nope", &[], Source::Shell, Sink::Pipe, "/"));
    assert_eq!(
        run.settle(&mut context, Err("not found".to_string())),
        Some(Failure::Spawn { program: "nope".to_string(), reason: "not found".to_string() })
    );
    assert_eq!(run.pending(&context), start("wc", &["-l"], Source::Shell, Sink::Shell, "/"));
    assert_eq!(run.settle(&mut context, Ok(())), None);
    assert_eq!(run.pending(&context), Command::Wait { stage: 1 });
}

#[test]
fn last_stage_that_fails_leaves_nothing_to_wait_for() {
    let mut context = Context::new("/");
    let mut run = Execution::begin("ls | nope", Resolution::OwnText);
    assert_eq!(run.settle(&mut context, Ok(())), None);
    assert_eq!(run.pending(&context), start("nope", &[], Source::Stage(0), Sink::Shell, "/"));
    assert_eq!(
        run.settle(&mut context, Err("not found".to_string())),
        Some(Failure::Spawn { program: "nope".to_string(), reason: "not found".to_string() })
    );
    assert_eq!(run.pending(&context), Command::Finished);
}

#[test]
fn failed_wait_is_reported_and_the_run_ends() {
    let mut context = Context::new("/");
    let mut run = Execution::begin("sleep 1", Resolution::OwnText);
    assert_eq!(run.settle(&mut context, Ok(())), None);
    assert_eq!(run.pending(&context), Command::Wait { stage: 0 });
    assert_eq!(
        run.settle(&mut context, Err("interrupted".to_string())),
        Some(Failure::Wait { reason: "interrupted".to_string() })
    );
    assert_eq!(run.pending(&context), Command::Finished);
}

#[test]
fn refused_change_keeps_the_directory_for_later_stages() {
    let mut context = Context::new("/home/user");
    let mut run = Execution::begin("cd /nonexistent | pwd", Resolution::OwnText);
    assert_eq!(run.pending(&context), Command::ChangeDirectory { target: "/nonexistent".to_string() });
    assert_eq!(
        run.settle(&mut context, Err("No such file or directory".to_string())),
        Some(Failure::Directory {
            path: "/nonexistent".to_string(),
            reason: "No such file or directory".to_string(),
        })
    );
    assert_eq!(context.working_directory(), "/home/user");
    assert_eq!(run.pending(&context), start("pwd", &[], Source::Shell, Sink::Shell, "/home/user"));
}

#[test]
fn changed_directory_is_seen_by_later_stages() {
    let mut context = Context::new("/home/user");
    let mut run = Execution::begin("cd /var/log | ls | wc", Resolution::OwnText);
    assert_eq!(run.pending(&context), Command::ChangeDirectory { target: "/var/log".to_string() });
    assert_eq!(run.settle(&mut context, Ok(())), None);
    assert_eq!(context.working_directory(), "/var/log");
    assert_eq!(run.pending(&context), start("ls", &[], Source::Shell, Sink::Pipe, "/var/log"));
    assert_eq!(run.settle(&mut context, Err("nope".to_string())).is_some(), true);
    assert_eq!(run.pending(&context), start("wc", &[], Source::Shell, Sink::Shell, "/var/log"));
}

#[test]
fn directory_outlives_the_run() {
    let mut context = Context::new("/");
    let mut first = Execution::begin("cd /opt", Resolution::WholeLine);
    first.settle(&mut context, Ok(()));
    let second = Execution::begin("ls", Resolution::WholeLine);
    assert_eq!(second.pending(&context), start("ls", &[], Source::Shell, Sink::Shell, "/opt"));
}

#[test]
fn change_of_directory_breaks_the_chain() {
    let mut context = Context::new("/");
    let mut run = Execution::begin("ls | cd /tmp | wc", Resolution::OwnText);
    assert_eq!(run.pending(&context), start("ls", &[], Source::Shell, Sink::Pipe, "/"));
    assert_eq!(run.settle(&mut context, Ok(())), None);
    assert_eq!(run.pending(&context), Command::ChangeDirectory { target: "/tmp".to_string() });
    assert_eq!(run.settle(&mut context, Ok(())), None);
    assert_eq!(run.pending(&context), start("wc", &[], Source::Shell, Sink::Shell, "/tmp"));
    assert_eq!(run.settle(&mut context, Ok(())), None);
    assert_eq!(run.pending(&context), Command::Wait { stage: 2 });
}

#[test]
fn change_of_directory_as_last_stage_leaves_nothing_to_wait_for() {
    let mut context = Context::new("/");
    let mut run = Execution::begin("ls | cd /tmp", Resolution::OwnText);
    assert_eq!(run.settle(&mut context, Ok(())), None);
    assert_eq!(run.settle(&mut context, Ok(())), None);
    assert_eq!(run.pending(&context), Command::Finished);
    assert_eq!(context.working_directory(), "/tmp");
}

#[test]
fn change_of_directory_without_argument_goes_to_the_root() {
    let mut context = Context::new("/home/user");
    let mut run = Execution::begin("cd", Resolution::WholeLine);
    assert_eq!(run.pending(&context), Command::ChangeDirectory { target: "/".to_string() });
    assert_eq!(run.settle(&mut context, Ok(())), None);
    assert_eq!(context.working_directory(), "/");
}

#[test]
fn change_of_directory_takes_its_first_argument_only() {
    let context = Context::new("/");
    let run = Execution::begin("cd /a /b", Resolution::WholeLine);
    assert_eq!(run.pending(&context), Command::ChangeDirectory { target: "/a".to_string() });
}

#[test]
fn whole_line_resolution_changes_directory_at_every_stage() {
    let mut context = Context::new("/");
    let mut run = Execution::begin("cd /tmp | ls", Resolution::WholeLine);
    assert_eq!(run.pending(&context), Command::ChangeDirectory { target: "/tmp".to_string() });
    assert_eq!(run.settle(&mut context, Ok(())), None);
    assert_eq!(run.pending(&context), Command::ChangeDirectory { target: "/tmp".to_string() });
    assert_eq!(run.settle(&mut context, Ok(())), None);
    assert_eq!(run.pending(&context), Command::Finished);
}

#[test]
fn relative_path_is_resolved_against_the_working_directory() {
    let mut context = Context::new("/home/user");
    let mut run = Execution::begin("cd projects", Resolution::WholeLine);
    assert_eq!(run.pending(&context), Command::ChangeDirectory { target: "/home/user/projects".to_string() });
    assert_eq!(run.settle(&mut context, Ok(())), None);
    assert_eq!(context.working_directory(), "/home/user/projects");
    let mut back = Execution::begin("cd ..", Resolution::WholeLine);
    assert_eq!(back.pending(&context), Command::ChangeDirectory { target: "/home/user/projects/..".to_string() });
    assert_eq!(back.settle(&mut context, Err("denied".to_string())).is_some(), true);
    assert_eq!(context.working_directory(), "/home/user/projects");
}

#[test]
fn resolve_joins_with_one_slash() {
    assert_eq!(resolve("/home", "user"), "/home/user");
    assert_eq!(resolve("/home/", "user"), "/home/user");
    assert_eq!(resolve("/", "tmp"), "/tmp");
    assert_eq!(resolve("/home", "/tmp"), "/tmp");
    assert_eq!(resolve("/home", "/"), "/");
    assert_eq!(resolve("", "tmp"), "tmp");
    assert_eq!(resolve("", "/tmp"), "/tmp");
    assert_eq!(resolve("/a", "b/c"), "/a/b/c");
    assert_eq!(resolve("/a", ""), "/a/");
}

#[test]
fn blank_line_is_finished_at_once() {
    let mut context = Context::new("/");
    for line in ["", "   ", " | "] {
        let mut run = Execution::begin(line, Resolution::OwnText);
        if line != " | " {
            assert!(run.finished());
            assert_eq!(run.pending(&context), Command::Finished);
            assert_eq!(run.settle(&mut context, Ok(())), None);
            assert_eq!(run.settle(&mut context, Err("x".to_string())), None);
            assert!(run.finished());
        } else {
            assert_eq!(run.pending(&context), start("|", &[], Source::Shell, Sink::Shell, "/"));
        }
    }
    assert_eq!(context.working_directory(), "/");
}

#[test]
fn run_of_n_stages_ends_within_two_n_steps() {
    let mut context = Context::new("/");
    let mut run = Execution::begin("a | b | c | d", Resolution::OwnText);
    let mut steps = 0;
    while !run.finished() {
        run.settle(&mut context, Ok(()));
        steps += 1;
        assert!(steps <= 8);
    }
    assert_eq!(steps, 5);
}

#[test]
fn three_stages_are_chained_one_to_the_next() {
    let mut context = Context::new("/");
    let mut run = Execution::begin("a | b | c", Resolution::OwnText);
    assert_eq!(run.pending(&context), start("a", &[], Source::Shell, Sink::Pipe, "/"));
    run.settle(&mut context, Ok(()));
    assert_eq!(run.pending(&context), start("b", &[], Source::Stage(0), Sink::Pipe, "/"));
    run.settle(&mut context, Ok(()));
    assert_eq!(run.pending(&context), start("c", &[], Source::Stage(1), Sink::Shell, "/"));
    run.settle(&mut context, Ok(()));
    assert_eq!(run.pending(&context), Command::Wait { stage: 2 });
}

#[test]
fn failures_are_told_by_kind_subject_and_reason() {
    let spawn = Failure::Spawn { program: "nope".to_string(), reason: "not found".to_string() };
    assert_eq!(spawn.describe(), "SpawnError: nope: not found");
    let directory = Failure::Directory { path: "/x".to_string(), reason: "denied".to_string() };
    assert_eq!(directory.describe(), "DirectoryError: /x: denied");
    let wait = Failure::Wait { reason: "interrupted".to_string() };
    assert_eq!(wait.describe(), "WaitError: interrupted");
}
