use cat_conformance::fifo::{expected_stream, producer_script, single_write, streaming};
use cat_conformance::runner::{
    clone_command, clone_producer, owed_after_failure, plan_run, plan_run_to_file, spawn_failure,
    CommandSpec, Config, Producer, ProducerStep, RunStep, Stream,
};

fn strings(items: &[&str]) -> Vec<String> {
    items.iter().map(|t| t.to_string()).collect()
}

fn command(stdin: Option<&[u8]>, arg0: Option<&str>) -> CommandSpec {
    CommandSpec {
        args: strings(&["-n", "/tmp/fx/a.txt"]),
        stdin: stdin.map(|b| b.to_vec()),
        arg0: arg0.map(|s| s.to_string()),
    }
}

const QUIET: Config = Config { verbose: false };
const LOUD: Config = Config { verbose: true };

#[test]
fn piped_run_without_input_spawns_and_waits() {
    let plan = plan_run(QUIET, "/bin/cat", command(None, None), None);
    assert_eq!(plan.program, "/bin/cat");
    assert_eq!(plan.args, strings(&["-n", "/tmp/fx/a.txt"]));
    assert_eq!(plan.arg0, None);
    assert_eq!(plan.feed, None);
    assert_eq!(plan.stdin, Stream::Inherit);
    assert_eq!(plan.stdout, Stream::Piped);
    assert_eq!(plan.stderr, Stream::Piped);
    assert_eq!(plan.producer, None);
    assert_eq!(plan.steps, vec![RunStep::Spawn, RunStep::Wait]);
}

#[test]
fn input_is_fed_beside_the_wait() {
    let plan = plan_run(QUIET, "/w/wcat", command(Some(b"stdin data\n"), Some("/bin/cat")), None);
    assert_eq!(plan.arg0.as_deref(), Some("/bin/cat"));
    assert_eq!(plan.feed.as_deref(), Some(&b"stdin data\n"[..]));
    assert_eq!(plan.stdin, Stream::Piped);
    assert_eq!(
        plan.steps,
        vec![RunStep::Spawn, RunStep::StartFeeder, RunStep::Wait, RunStep::JoinFeeder]
    );
}

#[test]
fn empty_input_still_gets_a_pipe() {
    let plan = plan_run(QUIET, "/w/wcat", command(Some(b""), None), None);
    assert_eq!(plan.stdin, Stream::Piped);
    assert_eq!(plan.feed, Some(Vec::new()));
    assert_eq!(
        plan.steps,
        vec![RunStep::Spawn, RunStep::StartFeeder, RunStep::Wait, RunStep::JoinFeeder]
    );
}

#[test]
fn run_to_file_creates_the_file_first() {
    let plan = plan_run_to_file(LOUD, "/bin/cat", command(Some(b"x"), None), None, "/tmp/fx/out1");
    assert_eq!(plan.stdout, Stream::File("/tmp/fx/out1".to_string()));
    assert_eq!(plan.stderr, Stream::Piped);
    assert_eq!(
        plan.steps,
        vec![
            RunStep::OpenOutput,
            RunStep::Spawn,
            RunStep::StartFeeder,
            RunStep::Wait,
            RunStep::JoinFeeder,
            RunStep::Announce
        ]
    );
}

#[test]
fn producer_brackets_the_run() {
    let producer = single_write("/tmp/fx/p.fifo", b"payload");
    let plan = plan_run(LOUD, "/bin/cat", command(None, None), Some(producer.clone()));
    assert_eq!(plan.producer, Some(producer));
    assert_eq!(
        plan.steps,
        vec![
            RunStep::StartProducer,
            RunStep::Spawn,
            RunStep::Wait,
            RunStep::Announce,
            RunStep::JoinProducer
        ]
    );
    let producer = single_write("/tmp/fx/p.fifo", b"payload");
    let plan = plan_run_to_file(QUIET, "/bin/cat", command(None, None), Some(producer), "/o");
    assert_eq!(
        plan.steps,
        vec![
            RunStep::StartProducer,
            RunStep::OpenOutput,
            RunStep::Spawn,
            RunStep::Wait,
            RunStep::JoinProducer
        ]
    );
}

#[test]
fn single_write_is_one_write_without_a_pause() {
    let producer = single_write("/tmp/fx/p.fifo", b"col1\tcol2\n");
    assert_eq!(producer.fifo, "/tmp/fx/p.fifo");
    assert_eq!(producer.steps, vec![ProducerStep::Write(b"col1\tcol2\n".to_vec())]);
}

#[test]
fn two_fifo_writes_are_separated_by_the_delay_and_arrive_in_order() {
    let chunks = vec![b"chunk1\n".to_vec(), b"chunk2\n".to_vec()];
    let producer = streaming("/tmp/fx/stream.fifo", &chunks, 50);
    assert_eq!(
        producer.steps,
        vec![
            ProducerStep::Write(b"chunk1\n".to_vec()),
            ProducerStep::Sleep(50),
            ProducerStep::Write(b"chunk2\n".to_vec()),
        ]
    );
    assert_eq!(expected_stream(&chunks), b"chunk1\nchunk2\n");
}

#[test]
fn producer_script_pauses_between_chunks_only() {
    assert_eq!(producer_script(&Vec::new(), 7), Vec::<ProducerStep>::new());
    assert_eq!(
        producer_script(&vec![b"a".to_vec()], 7),
        vec![ProducerStep::Write(b"a".to_vec())]
    );
    assert_eq!(
        producer_script(&vec![b"a".to_vec(), Vec::new(), b"c".to_vec()], 7),
        vec![
            ProducerStep::Write(b"a".to_vec()),
            ProducerStep::Sleep(7),
            ProducerStep::Write(Vec::new()),
            ProducerStep::Sleep(7),
            ProducerStep::Write(b"c".to_vec()),
        ]
    );
    assert_eq!(expected_stream(&vec![b"a".to_vec(), Vec::new(), b"c".to_vec()]), b"ac");
    assert_eq!(expected_stream(&Vec::new()), b"");
}

#[test]
fn copies_hold_the_same() {
    let first = command(Some(b"abc"), Some("/bin/cat"));
    let copy = clone_command(&first);
    assert_eq!(copy.args, first.args);
    assert_eq!(copy.stdin, first.stdin);
    assert_eq!(copy.arg0, first.arg0);
    let producer = Producer {
        fifo: "/f".to_string(),
        steps: vec![ProducerStep::Write(vec![1, 2]), ProducerStep::Sleep(3)],
    };
    assert_eq!(clone_producer(&producer), producer);
}

#[test]
fn a_started_producer_is_joined_whichever_step_fails() {
    let producer = Producer { fifo: "/tmp/fx/p".to_string(), steps: Vec::new() };
    let verbose = Config { verbose: true };
    let plan =
        plan_run_to_file(verbose, "/bin/cat", command(Some(b"x"), None), Some(producer), "/o");
    assert_eq!(
        plan.steps,
        vec![
            RunStep::StartProducer,
            RunStep::OpenOutput,
            RunStep::Spawn,
            RunStep::StartFeeder,
            RunStep::Wait,
            RunStep::JoinFeeder,
            RunStep::Announce,
            RunStep::JoinProducer,
        ]
    );
    let both = vec![RunStep::JoinFeeder, RunStep::JoinProducer];
    let producer_only = vec![RunStep::JoinProducer];
    assert_eq!(owed_after_failure(&plan.steps, 0), Vec::new());
    assert_eq!(owed_after_failure(&plan.steps, 1), producer_only);
    assert_eq!(owed_after_failure(&plan.steps, 2), producer_only);
    assert_eq!(owed_after_failure(&plan.steps, 3), producer_only);
    assert_eq!(owed_after_failure(&plan.steps, 4), both);
    assert_eq!(owed_after_failure(&plan.steps, 5), producer_only);
    assert_eq!(owed_after_failure(&plan.steps, 6), producer_only);
    assert_eq!(owed_after_failure(&plan.steps, 7), Vec::new());
}

#[test]
fn without_a_producer_only_a_started_feeder_is_owed() {
    let quiet = Config { verbose: false };
    let fed = plan_run(quiet, "/bin/cat", command(Some(b"x"), None), None);
    assert_eq!(owed_after_failure(&fed.steps, 0), Vec::new());
    assert_eq!(owed_after_failure(&fed.steps, 1), Vec::new());
    assert_eq!(owed_after_failure(&fed.steps, 2), vec![RunStep::JoinFeeder]);
    assert_eq!(owed_after_failure(&fed.steps, 3), Vec::new());
    let bare = plan_run(quiet, "/bin/cat", command(None, None), None);
    assert_eq!(owed_after_failure(&bare.steps, 0), Vec::new());
    assert_eq!(owed_after_failure(&bare.steps, 1), Vec::new());
    assert_eq!(owed_after_failure(&bare.steps, 9), Vec::new());
}

#[test]
fn a_failed_start_names_the_program_and_every_argument_in_order() {
    assert_eq!(
        spawn_failure("/work/wcat/wcat", &strings(&["-n", "--", "-"]), "Permission denied"),
        "cannot start /work/wcat/wcat [-n -- -]: Permission denied"
    );
    assert_eq!(spawn_failure("cat", &[], "not found"), "cannot start cat []: not found");
}
