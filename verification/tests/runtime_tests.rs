use runtime::executor::{Action, Phase, RequestRun};
use runtime::ext::{init, GeneratorState};
use runtime::policy::{get_command, get_value, set_command, Reply};
use runtime::resp::{get_str, prepare_values, string_from_indices, Value, CHARSET};
use runtime::server::invoke_reply;
use runtime::task::{Invoke, Resumed, Task, TaskState};
use std::sync::mpsc;
use std::sync::Mutex;

fn new_invoke(req: &str) -> (Box<Invoke>, mpsc::Receiver<String>) {
    let (tx, rx) = mpsc::channel();
    (Box::new(Invoke { tx: Mutex::new(tx), req: req.to_string() }), rx)
}

#[test]
fn new_task_is_fresh() {
    let (inv, _rx) = new_invoke("add");
    let task = Task::new(inv);
    assert_eq!(task.state(), TaskState::INITIALIZED);
    assert_eq!(task.time(), 0);
    assert_eq!(task.invoke().req, "add");
}

#[test]
fn task_codes() {
    assert_eq!(TaskState::INITIALIZED.code(), 0x01);
    assert_eq!(TaskState::RUNNING.code(), 0x02);
    assert_eq!(TaskState::YIELDED.code(), 0x03);
    assert_eq!(TaskState::COMPLETED.code(), 0x04);
    assert_eq!(TaskState::STOPPED.code(), 0x05);
    assert_eq!(TaskState::WAITING.code(), 0x06);
}

#[test]
fn task_yield_then_complete() {
    let (inv, _rx) = new_invoke("add");
    let mut task = Task::new(inv);
    assert!(task.begin_run());
    assert_eq!(task.state(), TaskState::RUNNING);
    task.record_resume(Resumed::Yielded(1));
    assert_eq!(task.end_run(5), (TaskState::YIELDED, 5));
    assert_eq!(task.time(), 5);
    assert!(task.begin_run());
    task.record_resume(Resumed::Complete(1111));
    assert_eq!(task.end_run(7), (TaskState::COMPLETED, 7));
    assert_eq!(task.time(), 12);
}

#[test]
fn completed_task_is_not_resumed() {
    let (inv, _rx) = new_invoke("add");
    let mut task = Task::new(inv);
    assert!(task.begin_run());
    task.record_resume(Resumed::Complete(3));
    task.end_run(1);
    assert!(!task.begin_run());
    assert_eq!(task.state(), TaskState::COMPLETED);
    assert_eq!(task.end_run(2), (TaskState::COMPLETED, 2));
    assert_eq!(task.time(), 3);
}

#[test]
fn panicked_task_stays_running() {
    let (inv, _rx) = new_invoke("add");
    let mut task = Task::new(inv);
    assert!(task.begin_run());
    task.record_resume(Resumed::Panicked);
    assert_eq!(task.end_run(4), (TaskState::RUNNING, 4));
    assert!(!task.begin_run());
    assert_eq!(task.state(), TaskState::RUNNING);
}

#[test]
fn extension_yields_four_times_then_completes() {
    let mut ext = init();
    assert_eq!(ext.resumes(), 0);
    let mut states = Vec::new();
    let mut writes = 0;
    for k in 0..5u64 {
        assert!(!ext.is_finished());
        let step = ext.resume();
        assert_eq!(step.step, k + 1);
        assert_eq!(step.pause_ms, 1000);
        if let Some(c) = &step.write {
            assert_eq!(k, 0);
            assert_eq!(c.name, "SET");
            assert_eq!(c.args, vec!["A".to_string(), "111".to_string()]);
            writes += 1;
        }
        states.push(step.state);
    }
    assert_eq!(writes, 1);
    assert!(ext.is_finished());
    assert_eq!(
        states,
        vec![
            GeneratorState::Yielded(1),
            GeneratorState::Yielded(1),
            GeneratorState::Yielded(1),
            GeneratorState::Yielded(1),
            GeneratorState::Complete(1111)
        ]
    );
}

#[test]
fn executor_answers_after_yield_and_completion() {
    let (mut run, first) = RequestRun::start();
    assert!(matches!(first, Action::Resume));
    assert_eq!(run.phase(), Phase::AwaitYield);
    assert!(matches!(run.on_resumed(GeneratorState::Yielded(1)), Action::Resume));
    assert_eq!(run.phase(), Phase::AwaitComplete);
    match run.on_resumed(GeneratorState::Complete(1111)) {
        Action::Answer(s) => assert_eq!(s, "hello"),
        _ => panic!("expected an answer"),
    }
    assert_eq!(run.phase(), Phase::Answered);
}

#[test]
fn executor_fails_on_wrong_first_resume() {
    let (mut run, _) = RequestRun::start();
    match run.on_resumed(GeneratorState::Complete(1111)) {
        Action::Fail(m) => assert_eq!(m, "unexpected return from resume"),
        _ => panic!("expected a failure"),
    }
    assert_eq!(run.phase(), Phase::Failed);
    let (mut run, _) = RequestRun::start();
    assert!(matches!(run.on_resumed(GeneratorState::Yielded(2)), Action::Fail(_)));
}

#[test]
fn builtin_extension_fails_the_executor() {
    let mut ext = init();
    let (mut run, _) = RequestRun::start();
    let a = run.on_resumed(ext.resume().state);
    assert!(matches!(a, Action::Resume));
    let a = run.on_resumed(ext.resume().state);
    match a {
        Action::Fail(m) => assert_eq!(m, "unexpected return from resume"),
        _ => panic!("expected a failure"),
    }
    assert_eq!(run.phase(), Phase::Failed);
}

#[test]
fn service_answers() {
    assert_eq!(invoke_reply(&"success".to_string()), "success");
    assert_eq!(invoke_reply(&"hello".to_string()), "pushback");
    assert_eq!(invoke_reply(&String::new()), "pushback");
    assert_eq!(invoke_reply(&"successful".to_string()), "pushback");
}

#[test]
fn policy_commands() {
    let g = get_command("key1");
    assert_eq!(g.name, "GET");
    assert_eq!(g.args, vec!["key1".to_string()]);
    let s = set_command("A", "111");
    assert_eq!(s.name, "SET");
    assert_eq!(s.args, vec!["A".to_string(), "111".to_string()]);
}

#[test]
fn policy_read_values() {
    assert_eq!(get_value(Ok(Reply::SimpleString("v".to_string()))), "v");
    assert_eq!(get_value(Ok(Reply::BulkString("v".to_string()))), "");
    assert_eq!(get_value(Ok(Reply::Null)), "");
    assert_eq!(get_value(Ok(Reply::Integer(3))), "");
    assert_eq!(get_value(Err("ERR".to_string())), "");
}

#[test]
fn charset_strings() {
    assert_eq!(CHARSET.len(), 73);
    assert_eq!(string_from_indices(&vec![0, 1, 26, 52, 72]), "ABa0~");
    assert_eq!(string_from_indices(&vec![]), "");
}

#[test]
fn random_strings() {
    assert_eq!(get_str(0), "");
    for len in [1usize, 16, 200] {
        let s = get_str(len);
        assert_eq!(s.chars().count(), len);
        assert!(s.chars().all(|c| CHARSET.contains(c)));
    }
}

#[test]
fn payload_values() {
    match prepare_values(16) {
        Value::Array(a) => {
            assert_eq!(a.len(), 1);
            match &a[0] {
                Value::String(s) => {
                    assert_eq!(s.len(), 16);
                    assert!(s.chars().all(|c| CHARSET.contains(c)));
                }
                _ => panic!("expected a simple string"),
            }
        }
        _ => panic!("expected an array"),
    }
}

#[test]
fn resume_outcomes_from_generator() {
    assert_eq!(Resumed::from_generator(GeneratorState::Yielded(7)), Resumed::Yielded(7));
    assert_eq!(Resumed::from_generator(GeneratorState::Complete(9)), Resumed::Complete(9));
}

#[test]
fn task_running_extension_completes_on_fifth_run() {
    let (inv, _rx) = new_invoke("add");
    let mut task = Task::new(inv);
    let mut ext = init();
    let mut resumes = 0;
    for run in 1..=7u64 {
        if task.begin_run() {
            let step = ext.resume();
            resumes += 1;
            task.record_resume(Resumed::from_generator(step.state));
        }
        let (state, exec) = task.end_run(10);
        assert_eq!(exec, 10);
        if run < 5 {
            assert_eq!(state, TaskState::YIELDED);
        } else {
            assert_eq!(state, TaskState::COMPLETED);
        }
    }
    assert_eq!(resumes, 5);
    assert_eq!(task.time(), 70);
    assert!(ext.is_finished());
}
