use jobfleet::exec::executor::{
    make_payload, shell_program, ChildProcess, ExecutionContext, Executor, Invocation, Launcher,
};
use jobfleet::exec::executors::bash::{conclude, BashExecutor, BashExecutorContext};
use jobfleet::exec::executors::environment::merge_environment;
use jobfleet::exec::executors::sidekiq::SidekiqExecutor;
use jobfleet::exec::executors::{executor_for, settle, ExecutorKind};
use jobfleet::exec::job::Job;
use jobfleet::exec::job_type::JobType;
use jobfleet::ident::Uuid;
use jobfleet::json::{Json, JsonNumber};

/// A child that has already ended, with what it wrote.
struct Ended {
    code: Option<i32>,
    stdout: Vec<u8>,
    stderr: Vec<u8>,
    waits: Result<(), String>,
    running: bool,
}

impl ChildProcess for Ended {
    fn wait(&mut self) -> Result<Option<i32>, String> {
        self.waits.clone().map(|_| self.code)
    }
    fn try_wait(&mut self) -> Result<Option<Option<i32>>, String> {
        if self.running {
            Ok(None)
        } else {
            self.waits.clone().map(|_| Some(self.code))
        }
    }
    fn wait_with_output(self) -> Result<(Vec<u8>, Vec<u8>), String> {
        Ok((self.stdout, self.stderr))
    }
}

/// A launcher that starts nothing: it notes what it was asked to start and
/// hands out a child that has ended as the test says.
struct Stage {
    seen: Vec<Invocation>,
    stdout: &'static str,
    stderr: &'static str,
    code: Option<i32>,
    starts: bool,
    waits: Result<(), String>,
    running: bool,
}

impl Stage {
    fn printing(stdout: &'static str, stderr: &'static str, code: i32) -> Stage {
        Stage { seen: Vec::new(), stdout, stderr, code: Some(code), starts: true, waits: Ok(()), running: false }
    }
    fn command_line(&self) -> &str {
        &self.seen[0].arguments[1]
    }
}

impl Launcher for Stage {
    type Child = Ended;

    fn spawn(&mut self, invocation: &Invocation) -> Option<Ended> {
        self.seen.push(Invocation {
            arguments: invocation.arguments.clone(),
            environment: invocation.environment.clone(),
            directory: invocation.directory.clone(),
            input: invocation.input.clone(),
        });
        if !self.starts {
            return None;
        }
        Some(Ended {
            code: self.code,
            stdout: self.stdout.as_bytes().to_vec(),
            stderr: self.stderr.as_bytes().to_vec(),
            waits: self.waits.clone(),
            running: self.running,
        })
    }
}

fn make_job_type(command: Json, environment: Option<Vec<(String, Json)>>) -> JobType {
    let mut job_type = JobType {
        executor: "bash".to_string(),
        name: "test".to_string(),
        node_type: "default".to_string(),
        timeout: None,
        unique: false,
        uuid: Uuid::new_v4(),
        metadata: Vec::new(),
    };
    job_type.metadata.push(("command".to_string(), command));
    if let Some(environment) = environment {
        job_type.metadata.push(("environment".to_string(), Json::Object(environment)));
    }
    job_type
}

fn make_job(job_type: &JobType, command: Option<Json>, environment: Option<Vec<(String, Json)>>) -> Job {
    let mut job = Job {
        uuid: Uuid::new_v4(),
        job_type_uuid: job_type.uuid,
        job_type: Some(job_type.clone()),
        arguments: Vec::new(),
        executing_node: None,
        enqueued_at: None,
        started_at: None,
        ended_at: None,
        results: None,
        errors: None,
    };
    if let Some(command) = command {
        job.arguments.push(("command".to_string(), command));
    }
    if let Some(environment) = environment {
        job.arguments.push(("environment".to_string(), Json::Object(environment)));
    }
    job
}

fn output(stdout: &str, stderr: &str, exit_code: u64) -> Json {
    Json::Object(vec![
        ("stdout".to_string(), Json::Text(stdout.to_string())),
        ("stderr".to_string(), Json::Text(stderr.to_string())),
        ("exit_code".to_string(), Json::Number(JsonNumber::Unsigned(exit_code))),
    ])
}

fn text(s: &str) -> Json {
    Json::Text(s.to_string())
}

fn words(items: &[&str]) -> Json {
    Json::Array(items.iter().map(|s| text(s)).collect())
}

fn variables(pairs: &[(&str, &str)]) -> Vec<(String, Json)> {
    pairs.iter().map(|(k, v)| (k.to_string(), text(v))).collect()
}

#[test]
fn can_execute_command() {
    let mut executor = BashExecutor {};
    let job_type = make_job_type(text("echo 'test'"), None);
    let job = make_job(&job_type, None, None);
    let mut stage = Stage::printing("test\n", "", 0);
    let mut context = executor.execute(&mut stage, &job);
    let result = context.result(&job, false);
    assert_eq!(result, Some(Ok(Some(output("test\n", "", 0)))));
    assert_eq!(stage.seen.len(), 1);
    assert_eq!(stage.seen[0].arguments, vec!["-c".to_string(), "echo 'test' ".to_string()]);
    assert_eq!(stage.seen[0].input, None);
    assert_eq!(stage.seen[0].directory, None);
    assert!(stage.seen[0].environment.is_empty());
}

#[test]
fn can_execute_commands() {
    let mut executor = BashExecutor {};
    let job_type =
        make_job_type(text("echo 'test'; echo 'test2'; echo 'test_err' 1>&2; exit 1;"), None);
    let job = make_job(&job_type, None, None);
    let mut stage = Stage::printing("test\ntest2\n", "test_err\n", 1);
    let mut context = executor.execute(&mut stage, &job);
    let result = context.result(&job, false);
    assert_eq!(result, Some(Ok(Some(output("test\ntest2\n", "test_err\n", 1)))));
    assert_eq!(stage.command_line(), "echo 'test'; echo 'test2'; echo 'test_err' 1>&2; exit 1; ");
}

#[test]
fn can_execute_array_command() {
    let mut executor = BashExecutor {};
    let job_type = make_job_type(words(&["echo", "test complex"]), None);
    let job = make_job(&job_type, None, None);
    let mut stage = Stage::printing("test complex\n", "", 0);
    let mut context = executor.execute(&mut stage, &job);
    let result = context.result(&job, false);
    assert_eq!(result, Some(Ok(Some(output("test complex\n", "", 0)))));
    assert_eq!(stage.command_line(), "\"echo\" \"test complex\" ");
}

#[test]
fn can_execute_parameterized_command() {
    let mut executor = BashExecutor {};
    let job_type = make_job_type(words(&["echo", "test complex"]), None);
    let job = make_job(&job_type, Some(words(&["part 2", "part 3"])), None);
    let mut stage = Stage::printing("test complex part 2 part 3\n", "", 0);
    let mut context = executor.execute(&mut stage, &job);
    let result = context.result(&job, false);
    assert_eq!(result, Some(Ok(Some(output("test complex part 2 part 3\n", "", 0)))));
    assert_eq!(stage.command_line(), "\"echo\" \"test complex\" \"part 2\" \"part 3\"");
}

#[test]
fn can_execute_mixed_parameterized_command() {
    let mut executor = BashExecutor {};
    let job_type = make_job_type(text("echo test"), None);
    let job = make_job(&job_type, Some(words(&["part 2", "part 3"])), None);
    let mut stage = Stage::printing("test part 2 part 3\n", "", 0);
    let mut context = executor.execute(&mut stage, &job);
    let result = context.result(&job, false);
    assert_eq!(result, Some(Ok(Some(output("test part 2 part 3\n", "", 0)))));
    assert_eq!(stage.command_line(), "echo test \"part 2\" \"part 3\"");
}

#[test]
fn can_execute_mixed2_parameterized_command() {
    let mut executor = BashExecutor {};
    let job_type = make_job_type(words(&["echo", "test complex"]), None);
    let job = make_job(&job_type, Some(text("part 2    part 3")), None);
    let mut stage = Stage::printing("test complex part 2 part 3\n", "", 0);
    let mut context = executor.execute(&mut stage, &job);
    let result = context.result(&job, false);
    assert_eq!(result, Some(Ok(Some(output("test complex part 2 part 3\n", "", 0)))));
    assert_eq!(stage.command_line(), "\"echo\" \"test complex\" part 2    part 3");
}

#[test]
fn can_execute_quoted_command() {
    let mut executor = BashExecutor {};
    let job_type = make_job_type(words(&["echo", "new\\nline", "\"test\""]), None);
    let job = make_job(&job_type, None, None);
    let mut stage = Stage::printing("new\nline \"test\"\n", "", 0);
    let mut context = executor.execute(&mut stage, &job);
    let result = context.result(&job, false);
    assert_eq!(result, Some(Ok(Some(output("new\nline \"test\"\n", "", 0)))));
    assert_eq!(stage.command_line(), "\"echo\" \"new\\\\nline\" \"\\\"test\\\"\" ");
}

#[test]
fn can_execute_command_environment() {
    let mut executor = BashExecutor {};
    let job_type =
        make_job_type(text("echo $test_env"), Some(variables(&[("test_env", "test value")])));
    let job = make_job(&job_type, None, None);
    let mut stage = Stage::printing("test value\n", "", 0);
    let mut context = executor.execute(&mut stage, &job);
    let result = context.result(&job, false);
    assert_eq!(result, Some(Ok(Some(output("test value\n", "", 0)))));
    assert_eq!(stage.seen[0].environment, vec![("test_env".to_string(), "test value".to_string())]);
}

#[test]
fn can_execute_command_parameterized_environment() {
    let mut executor = BashExecutor {};
    let job_type = make_job_type(text("echo $test_env"), None);
    let job = make_job(&job_type, None, Some(variables(&[("test_env", "test value")])));
    let mut stage = Stage::printing("test value\n", "", 0);
    let mut context = executor.execute(&mut stage, &job);
    let result = context.result(&job, false);
    assert_eq!(result, Some(Ok(Some(output("test value\n", "", 0)))));
    assert_eq!(stage.seen[0].environment, vec![("test_env".to_string(), "test value".to_string())]);
}

#[test]
fn can_execute_command_overridden_environment() {
    let mut executor = BashExecutor {};
    let job_type =
        make_job_type(text("echo $test_env"), Some(variables(&[("test_env", "bad test")])));
    let job = make_job(&job_type, None, Some(variables(&[("test_env", "test value")])));
    let mut stage = Stage::printing("test value\n", "", 0);
    let mut context = executor.execute(&mut stage, &job);
    let result = context.result(&job, false);
    assert_eq!(result, Some(Ok(Some(output("test value\n", "", 0)))));
    let last = stage.seen[0].environment.iter().rev().find(|(name, _)| name == "test_env");
    assert_eq!(last, Some(&("test_env".to_string(), "test value".to_string())));
    assert!(stage.seen[0].environment.iter().all(|(_, value)| value == "test value"));
}

#[test]
fn environment_drops_values_that_are_not_strings() {
    let meta = vec![(
        "environment".to_string(),
        Json::Object(vec![
            ("kept".to_string(), text("a")),
            ("number".to_string(), Json::Number(JsonNumber::Unsigned(5))),
            ("hidden".to_string(), text("meta")),
        ]),
    )];
    let job = vec![(
        "environment".to_string(),
        Json::Object(vec![("hidden".to_string(), Json::Bool(true)), ("added".to_string(), text("b"))]),
    )];
    let merged = merge_environment(&meta, &job);
    assert_eq!(merged, vec![("kept".to_string(), "a".to_string()), ("added".to_string(), "b".to_string())]);
    let odd = vec![("environment".to_string(), text("not an object"))];
    assert_eq!(merge_environment(&odd, &odd), vec![]);
}

#[test]
fn bad_command_is_an_internal_failure() {
    let mut executor = BashExecutor {};
    for (meta, argument) in [
        (Json::Null, None),
        (Json::Bool(true), None),
        (text("echo"), Some(Json::Number(JsonNumber::Unsigned(1)))),
        (Json::Array(vec![text("echo"), Json::Null]), None),
        (text("echo"), Some(Json::Array(vec![Json::Bool(false)]))),
    ] {
        let job_type = make_job_type(meta, None);
        let job = make_job(&job_type, argument, None);
        let mut stage = Stage::printing("", "", 0);
        let mut context = executor.execute(&mut stage, &job);
        assert!(context.internal_failure);
        assert!(context.handle.is_none());
        assert_eq!(context.result(&job, false), Some(Err(Json::Null)));
        assert!(stage.seen.is_empty());
    }
    let mut job_type = make_job_type(text("echo"), None);
    job_type.metadata.clear();
    let job = make_job(&job_type, None, None);
    let mut stage = Stage::printing("", "", 0);
    let mut context = executor.execute(&mut stage, &job);
    assert_eq!(context.result(&job, false), Some(Err(Json::Null)));
}

#[test]
fn shell_that_does_not_start_is_an_internal_failure() {
    let mut executor = BashExecutor {};
    let mut job_type = make_job_type(text("echo"), None);
    job_type.timeout = Some(1500);
    let job = make_job(&job_type, None, None);
    let mut stage = Stage::printing("", "", 0);
    stage.starts = false;
    let mut context = executor.execute(&mut stage, &job);
    assert!(context.internal_failure);
    assert_eq!(context.timeout, Some(1500));
    assert_eq!(context.result(&job, false), Some(Err(Json::Null)));
    assert_eq!(context.result(&job, true), Some(Err(Json::Null)));
}

#[test]
fn child_that_cannot_be_awaited_gives_a_null_error() {
    let mut executor = BashExecutor {};
    let job_type = make_job_type(text("echo"), None);
    let job = make_job(&job_type, None, None);
    let mut stage = Stage::printing("", "", 0);
    stage.waits = Err("gone".to_string());
    let mut context = executor.execute(&mut stage, &job);
    assert!(!context.internal_failure);
    assert_eq!(context.result(&job, false), Some(Err(Json::Null)));
    assert!(context.handle.is_some());
}

#[test]
fn asynchronous_result_is_none_while_the_child_runs() {
    let mut executor = BashExecutor {};
    let job_type = make_job_type(text("sleep 1"), None);
    let job = make_job(&job_type, None, None);
    let mut stage = Stage::printing("done\n", "", 0);
    stage.running = true;
    let mut context = executor.execute(&mut stage, &job);
    assert_eq!(context.result(&job, true), None);
    assert!(context.handle.is_some());
    assert_eq!(context.result(&job, false), Some(Ok(Some(output("done\n", "", 0)))));
    assert!(context.handle.is_none());
}

#[test]
fn signal_gives_a_null_exit_code_and_a_negative_code_stays_negative() {
    let killed = make_payload("".to_string(), "".to_string(), None);
    assert_eq!(
        killed,
        Json::Object(vec![
            ("stdout".to_string(), text("")),
            ("stderr".to_string(), text("")),
            ("exit_code".to_string(), Json::Null),
        ])
    );
    let negative = make_payload("o".to_string(), "e".to_string(), Some(-3));
    assert_eq!(
        negative,
        Json::Object(vec![
            ("stdout".to_string(), text("o")),
            ("stderr".to_string(), text("e")),
            ("exit_code".to_string(), Json::Number(JsonNumber::Negative(-3))),
        ])
    );
    assert_eq!(conclude(Some(2), Err("lost".to_string())), Err(Json::Null));
    assert_eq!(
        conclude(Some(2), Ok((vec![0x66, 0xff, 0x6f], b"x".to_vec()))),
        Ok(Some(output("f\u{fffd}o", "x", 2)))
    );
}

fn sidekiq_job_type(environment: Option<Vec<(String, Json)>>) -> JobType {
    let mut job_type = JobType {
        executor: "sidekiq".to_string(),
        name: "test".to_string(),
        node_type: "default".to_string(),
        timeout: None,
        unique: false,
        uuid: Uuid::new_v4(),
        metadata: Vec::new(),
    };
    job_type.metadata.push(("rails_dir".to_string(), text("./rails_test")));
    job_type.metadata.push(("sidekiq_worker".to_string(), text("TestWorker")));
    if let Some(environment) = environment {
        job_type.metadata.push(("environment".to_string(), Json::Object(environment)));
    }
    job_type
}

fn sidekiq_job(job_type: &JobType, arguments: Option<Json>) -> Job {
    let mut job = make_job(job_type, None, None);
    if let Some(arguments) = arguments {
        job.arguments.push(("sidekiq_arguments".to_string(), arguments));
    }
    job
}

fn rails_test(job_type: &JobType, value: Option<Json>, raw_value: &'static str, expression: &str) {
    let job = sidekiq_job(job_type, value);
    let printed: &'static str = match raw_value {
        "null" => "test successful null\n",
        "true" => "test successful true\n",
        _ => "test successful {\"test_key\":\"test_value\"}\n",
    };
    let mut stage = Stage::printing(printed, "", 0);
    let mut context = (SidekiqExecutor {}).execute(&mut stage, &job);
    let result = context.result(&job, false);
    assert_eq!(result, Some(Ok(Some(output(&format!("test successful {}\n", raw_value), "", 0)))));
    assert_eq!(stage.seen[0].arguments, vec!["-c".to_string(), "ruby".to_string()]);
    assert_eq!(stage.seen[0].directory, Some("./rails_test".to_string()));
    assert_eq!(
        stage.seen[0].input,
        Some(format!("require './config/environment'\nTestWorker.new.perform({})\n", expression))
    );
}

#[test]
fn can_execute_sidekiq_job() {
    let job_type = sidekiq_job_type(None);
    rails_test(&job_type, None, "null", "nil");
    rails_test(&job_type, Some(Json::Bool(true)), "true", "JSON.parse('true')");
    let map = vec![("test_key".to_string(), text("test_value"))];
    rails_test(
        &job_type,
        Some(Json::Object(map)),
        "{\"test_key\":\"test_value\"}",
        "JSON.parse('{\"test_key\":\"test_value\"}')",
    );
}

#[test]
fn sidekiq_without_a_safe_worker_is_an_internal_failure() {
    let mut job_type = sidekiq_job_type(None);
    job_type.metadata[1] = ("sidekiq_worker".to_string(), text("Test; rm -rf"));
    let job = sidekiq_job(&job_type, None);
    let mut stage = Stage::printing("", "", 0);
    let mut context = (SidekiqExecutor {}).execute(&mut stage, &job);
    assert!(context.internal_failure);
    assert_eq!(context.result(&job, false), Some(Err(Json::Null)));
    assert!(stage.seen.is_empty());
}

#[test]
fn settle_sorts_a_report_into_results_and_errors() {
    assert_eq!(settle(Some(Err(Json::Null))), (None, Some(Json::Null)));
    assert_eq!(settle(Some(Ok(None))), (None, None));
    assert_eq!(settle(Some(Ok(Some(Json::Bool(true))))), (Some(Json::Bool(true)), None));
    assert_eq!(
        settle(None),
        (None, Some(text("invalid executor context [async not supported]")))
    );
}

#[test]
fn executors_are_found_by_name() {
    assert!(matches!(executor_for(&"bash".to_string()), ExecutorKind::Bash));
    assert!(matches!(executor_for(&"sidekiq".to_string()), ExecutorKind::Sidekiq));
    assert!(matches!(executor_for(&"Bash".to_string()), ExecutorKind::Unknown));
    assert!(matches!(executor_for(&"".to_string()), ExecutorKind::Unknown));
}

#[test]
fn shell_is_the_configured_one_or_bash() {
    assert_eq!(shell_program(Some("/bin/zsh".to_string())), "/bin/zsh");
    assert_eq!(shell_program(None), "/bin/bash");
}

#[test]
fn context_can_be_built_by_hand() {
    let mut context: BashExecutorContext<Ended> =
        BashExecutorContext { internal_failure: true, handle: None, timeout: Some(3) };
    let job_type = make_job_type(text("echo"), None);
    let job = make_job(&job_type, None, None);
    assert_eq!(context.result(&job, false), Some(Err(Json::Null)));
    assert_eq!(context.timeout, Some(3));
}
