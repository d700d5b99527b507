use nub_cook::args::{conclude, reference_run, CookArgs, CookError};
use nub_cook::flow::{PERRY_MISSING, VERSION_UNKNOWN};
use nub_cook::keys::{cache_key, perry_stamp, verdict_key, PerryStat};
use nub_cook::process::{PerryStep, Ran, Timed};
use nub_cook::session::{Answer, Effect, Ending, Next, Query, Session};
use nub_cook::verify::Captured;

type Reply = Answer<String, Vec<u8>>;

const SOURCE: &[u8] = b"console.log(42)\n";
const VERSION: &str = "perry 0.5.1206";
const YES: &str = r#"{"type":"summary","success":true,"compilation_guaranteed":true,"files_checked":1}"#;
const NO: &str = "{\"code\":\"D002\",\"message\":\"eval() cannot be compiled to native code (x.ts:5)\"}\n{\"type\":\"summary\",\"success\":false,\"files_checked\":1}\n";
const LINK: &str =
    "  This looks like a PerryTS gap — file an issue: https://github.com/PerryTS/perry/issues";
const ON_NODE: &str = "  Running on Node instead.";

fn open(debug: bool, setting: Option<&str>) -> Session<String, Vec<u8>, Vec<String>> {
    let forwarded_args = forwarded();
    let args = CookArgs {
        script: "x.ts",
        forwarded_args: &forwarded_args,
        compat_mode: false,
        debug,
        run_on_node: || Ok(0),
        run_on_node_captured: || Ok((Vec::new(), 0)),
    };
    args.open(setting)
}

fn forwarded() -> Vec<String> {
    vec!["10".to_string(), "--é".to_string()]
}

fn completed(success: bool, stdout: &[u8], stderr: &[u8]) -> Ran<String, Vec<u8>> {
    Ok(Timed::Completed {
        success,
        status: if success { "exit status: 0" } else { "exit status: 3" }.to_string(),
        stdout: stdout.to_vec(),
        stderr: stderr.to_vec(),
    })
}

fn stat() -> PerryStat<String> {
    PerryStat { path: "/usr/bin/perry".to_string(), mtime: 17, len: 4 }
}

/// A machine on which everything works; each test changes what it is about.
struct World {
    exists: bool,
    source: Result<Vec<u8>, String>,
    perry: bool,
    stat: Option<PerryStat<String>>,
    memo: Option<Vec<u8>>,
    version: Ran<String, Vec<u8>>,
    dirs: Vec<Result<(), String>>,
    verdict: bool,
    cached: Option<Option<i32>>,
    check: Ran<String, Vec<u8>>,
    create_dir: Result<(), String>,
    create_output: Result<(), String>,
    compile: Ran<String, Vec<u8>>,
    output: Result<Vec<u8>, String>,
    place: Result<(), String>,
    cooked: Result<Captured<Vec<u8>>, String>,
    node: Result<Captured<Vec<u8>>, String>,
}

fn world() -> World {
    World {
        exists: true,
        source: Ok(SOURCE.to_vec()),
        perry: true,
        stat: Some(stat()),
        memo: None,
        version: completed(true, b"perry 0.5.1206\n", b""),
        dirs: Vec::new(),
        verdict: false,
        cached: None,
        check: completed(true, YES.as_bytes(), b""),
        create_dir: Ok(()),
        create_output: Ok(()),
        compile: completed(true, b"", b""),
        output: Ok(b"\x7fELF".to_vec()),
        place: Ok(()),
        cooked: Ok(Captured { stdout: b"42\n".to_vec(), code: 7 }),
        node: Ok(Captured { stdout: b"42\n".to_vec(), code: 7 }),
    }
}

/// What a run came to.
struct Log {
    asked: Vec<String>,
    effects: Vec<Effect<String, Vec<u8>>>,
    notes: Vec<String>,
    ending: Ending<String>,
}

fn play(mut session: Session<String, Vec<u8>, Vec<String>>, w: World) -> Log {
    let key = cache_key(SOURCE, VERSION);
    let mut dirs = w.dirs.into_iter();
    let mut asked = Vec::new();
    let mut effects = Vec::new();
    let mut notes = Vec::new();
    loop {
        let query = match session.pending() {
            Next::End { ending } => return Log { asked, effects, notes, ending },
            Next::Ask { query } => query,
        };
        let (name, answer): (String, Reply) = match query {
            Query::ScriptExists => ("exists".into(), Answer::Truth(w.exists)),
            Query::ReadSource => ("source".into(), Answer::Bytes(w.source.clone())),
            Query::FindPerry => ("find".into(), Answer::Truth(w.perry)),
            Query::StatPerry => (
                "stat".into(),
                Answer::Stat(w.stat.as_ref().map(|s| PerryStat {
                    path: s.path.clone(),
                    mtime: s.mtime,
                    len: s.len,
                })),
            ),
            Query::ReadMemo { stamp } => {
                assert_eq!(stamp, perry_stamp(&stat()));
                ("memo".into(), Answer::Memo(w.memo.clone()))
            }
            Query::RunPerry { step, bound } => {
                let (name, ran) = match step {
                    PerryStep::Version => ("version", &w.version),
                    PerryStep::Check => ("check", &w.check),
                    PerryStep::Compile => ("compile", &w.compile),
                };
                let name = format!("{name} {}", nub_cook::bound::fmt_bound(bound));
                (name, Answer::Ran(again(ran)))
            }
            Query::CacheDir => ("dir".into(), Answer::Done(dirs.next().unwrap_or(Ok(())))),
            Query::HasEntry { key: k } if k == key => {
                ("binary".into(), Answer::Truth(w.cached.is_some()))
            }
            Query::HasEntry { key: k } => {
                assert_eq!(k, verdict_key(&key));
                ("verdict".into(), Answer::Truth(w.verdict))
            }
            Query::RunCached { key: k, args } => {
                assert_eq!(k, key);
                assert_eq!(args, forwarded());
                ("cached".into(), Answer::Code(w.cached.flatten()))
            }
            Query::CreateCacheDir => ("mkdir".into(), Answer::Done(w.create_dir.clone())),
            Query::CreateOutput => ("output".into(), Answer::Done(w.create_output.clone())),
            Query::ReadOutput => ("read".into(), Answer::Bytes(w.output.clone())),
            Query::Place { key: k } => {
                assert_eq!(k, key);
                assert_eq!(session.binary(), w.output.as_ref().ok());
                ("place".into(), Answer::Done(w.place.clone()))
            }
            Query::RunCooked { args } => {
                assert_eq!(args, forwarded());
                ("cooked".into(), Answer::Captured(same(&w.cooked)))
            }
            Query::RunNode => ("node".into(), Answer::Captured(same(&w.node))),
        };
        asked.push(name);
        let (next, turn) = session.step(answer);
        effects.extend(turn.effects);
        notes.extend(turn.notes);
        session = next;
    }
}

fn again(ran: &Ran<String, Vec<u8>>) -> Ran<String, Vec<u8>> {
    match ran {
        Ok(Timed::Completed { success, status, stdout, stderr }) => Ok(Timed::Completed {
            success: *success,
            status: status.clone(),
            stdout: stdout.clone(),
            stderr: stderr.clone(),
        }),
        Ok(Timed::TimedOut { step }) => Ok(Timed::TimedOut { step: *step }),
        Err(e) => Err(e.clone()),
    }
}

fn same(run: &Result<Captured<Vec<u8>>, String>) -> Result<Captured<Vec<u8>>, String> {
    match run {
        Ok(c) => Ok(Captured { stdout: c.stdout.clone(), code: c.code }),
        Err(e) => Err(e.clone()),
    }
}

fn ended_on_node(log: &Log) -> bool {
    matches!(log.ending, Ending::Node)
}

/// The run ends on Node with these notes and, besides the remembered version,
/// with no effect.
fn falls_back(w: World, notes: &[&str]) {
    let log = play(open(false, None), w);
    assert!(ended_on_node(&log));
    assert_eq!(log.notes, notes);
    assert!(log.effects.iter().all(|e| matches!(e, Effect::Remember { .. })));
}

#[test]
fn a_first_run_compiles_verifies_stores_and_shows_the_output() {
    let log = play(open(false, None), world());
    assert_eq!(
        log.asked,
        [
            "exists", "source", "find", "stat", "memo", "version 5s", "dir", "verdict", "binary",
            "check 20s", "dir", "mkdir", "dir", "output", "compile 120s", "read", "place",
            "cooked", "node"
        ]
    );
    assert!(matches!(log.ending, Ending::Exit { code: 7 }));
    assert!(log.notes.is_empty());
    match &log.effects[..] {
        [Effect::Remember { stamp, version }, Effect::RemoveOutput, Effect::Store { key, binary }, Effect::Replay { stdout }] =>
        {
            assert_eq!(*stamp, perry_stamp(&stat()));
            assert_eq!(version, VERSION.as_bytes());
            assert_eq!(*key, cache_key(SOURCE, VERSION));
            assert_eq!(binary, b"\x7fELF");
            assert_eq!(stdout, b"42\n");
        }
        _ => panic!("other effects"),
    }
}

#[test]
fn the_next_run_recalls_the_version_and_runs_the_cached_binary() {
    let log = play(
        open(false, None),
        World { memo: Some(VERSION.as_bytes().to_vec()), cached: Some(Some(3)), ..world() },
    );
    assert_eq!(
        log.asked,
        ["exists", "source", "find", "stat", "memo", "dir", "verdict", "binary", "cached"]
    );
    assert!(matches!(log.ending, Ending::Exit { code: 3 }));
    assert!(log.notes.is_empty() && log.effects.is_empty());
}

#[test]
fn a_recorded_verdict_leads_straight_to_node() {
    let log = play(open(false, None), World { verdict: true, cached: Some(Some(3)), ..world() });
    assert_eq!(log.asked.last().map(String::as_str), Some("verdict"));
    assert!(ended_on_node(&log));
    assert!(log.notes.is_empty());
}

#[test]
fn a_damaged_entry_is_compiled_anew() {
    let log = play(open(false, None), World { cached: Some(None), ..world() });
    assert!(log.asked.contains(&"check 20s".to_string()));
    assert!(matches!(log.ending, Ending::Exit { code: 7 }));
}

#[test]
fn without_a_cache_directory_the_warm_path_is_skipped() {
    let missing = || Err("could not resolve nub cache dir".to_string());
    let log = play(open(false, None), World { dirs: vec![missing(), missing()], ..world() });
    assert!(!log.asked.contains(&"verdict".to_string()));
    assert!(ended_on_node(&log));
    assert_eq!(
        log.notes,
        [
            "nub cook: could not resolve nub cache dir: could not resolve nub cache dir",
            ON_NODE
        ]
    );
}

#[test]
fn a_divergence_is_discarded_recorded_and_reported() {
    let log = play(
        open(false, None),
        World { node: Ok(Captured { stdout: b"43!\n".to_vec(), code: -1 }), ..world() },
    );
    assert!(ended_on_node(&log));
    match &log.effects[2..] {
        [Effect::Discard, Effect::RecordVerdict { key }] => {
            assert_eq!(*key, verdict_key(&cache_key(SOURCE, VERSION)));
        }
        _ => panic!("other effects"),
    }
    assert_eq!(
        log.notes,
        [
            "nub cook: cooked binary's output differed from Node's for x.ts — not trusting it.\n  exit: cooked=7 node=-1\n  stdout: differ in length (3 vs 4 bytes)\n  This is expected for nondeterministic scripts (time, randomness, PID,\n  unordered iteration) and is not necessarily a compiler bug.",
            ON_NODE
        ]
    );
}

#[test]
fn a_divergence_in_the_exit_code_alone_claims_no_other() {
    let log = play(
        open(false, None),
        World { node: Ok(Captured { stdout: b"42\n".to_vec(), code: 0 }), ..world() },
    );
    assert!(matches!(
        log.effects[2..],
        [Effect::Discard, Effect::RecordVerdict { .. }]
    ));
    assert_eq!(
        log.notes[0],
        "nub cook: cooked binary's output differed from Node's for x.ts — not trusting it.\n  exit: cooked=7 node=0\n  stdout: identical\n  This is expected for nondeterministic scripts (time, randomness, PID,\n  unordered iteration) and is not necessarily a compiler bug."
    );
}

#[test]
fn a_rejected_script_is_reported_with_its_reasons_and_recorded() {
    let log = play(
        open(false, None),
        World { check: completed(false, NO.as_bytes(), b""), ..world() },
    );
    assert!(ended_on_node(&log));
    assert_eq!(
        log.notes,
        [
            "nub cook: x.ts uses APIs PerryTS does not compile:\n  [D002] eval() cannot be compiled to native code (x.ts:5)",
            LINK,
            ON_NODE
        ]
    );
    match &log.effects[..] {
        [Effect::Remember { .. }, Effect::RecordVerdict { key }] => {
            assert_eq!(*key, verdict_key(&cache_key(SOURCE, VERSION)));
        }
        _ => panic!("other effects"),
    }
    let next = play(open(false, None), World { verdict: true, ..world() });
    assert!(ended_on_node(&next));
    assert!(!next.asked.contains(&"check 20s".to_string()));
}

#[test]
fn debug_shows_the_raw_output_in_place_of_the_cause() {
    let log = play(
        open(true, None),
        World { check: completed(false, NO.as_bytes(), b" \n"), ..world() },
    );
    assert_eq!(
        log.notes,
        [
            "--- perry check (raw, --debug) ---",
            &format!("[stdout]\n{}", NO.trim_end()),
            "--- end perry output ---",
            LINK,
            ON_NODE,
        ]
    );
}

#[test]
fn a_check_of_no_files_goes_on_to_compile() {
    let none = br#"{"errors":0,"files":0,"success":true,"warnings":0}"#;
    let log = play(open(false, None), World { check: completed(true, none, b""), ..world() });
    assert!(matches!(log.ending, Ending::Exit { code: 7 }));
}

#[test]
fn a_missing_or_unreadable_script_is_an_error() {
    let log = play(open(false, None), World { exists: false, ..world() });
    match log.ending {
        Ending::Usage { message } => assert_eq!(message, "nub cook: no such file: x.ts"),
        _ => panic!("another ending"),
    }
    let log = play(open(false, None), World { source: Err("denied".into()), ..world() });
    match log.ending {
        Ending::Usage { message } => assert_eq!(message, "nub cook: cannot read x.ts: denied"),
        _ => panic!("another ending"),
    }
}

#[test]
fn without_perry_or_its_version_the_script_runs_on_node() {
    falls_back(World { perry: false, ..world() }, &[PERRY_MISSING]);
    assert_eq!(PERRY_MISSING.lines().count(), 4);
    for version in [
        completed(false, b"perry 1\n", b""),
        completed(true, b" \n", b""),
        Ok(Timed::TimedOut { step: PerryStep::Version }),
        Err("gone".to_string()),
    ] {
        falls_back(World { version, ..world() }, &[VERSION_UNKNOWN]);
    }
}

#[test]
fn a_version_is_not_remembered_for_a_perry_without_a_stamp() {
    let log = play(open(false, None), World { stat: None, ..world() });
    assert!(!log.asked.contains(&"memo".to_string()));
    assert!(!log.effects.iter().any(|e| matches!(e, Effect::Remember { .. })));
}

#[test]
fn an_empty_or_garbled_memo_is_asked_anew() {
    for memo in [b"".to_vec(), b"\xff\xfe".to_vec()] {
        let log = play(open(false, None), World { memo: Some(memo), ..world() });
        assert!(log.asked.contains(&"version 5s".to_string()));
    }
}

#[test]
fn a_wedged_perry_is_reported_with_the_bound_that_applied() {
    let log = play(
        open(false, Some("50")),
        World { check: Ok(Timed::TimedOut { step: PerryStep::Check }), ..world() },
    );
    assert!(log.asked.contains(&"version 50ms".to_string()));
    assert_eq!(
        log.notes,
        [
            "nub cook: `perry check` did not finish within 50ms — running on Node instead",
            ON_NODE
        ]
    );
    let log = play(
        open(false, None),
        World { compile: Ok(Timed::TimedOut { step: PerryStep::Compile }), ..world() },
    );
    assert!(matches!(log.effects.last(), Some(Effect::RemoveOutput)));
    assert_eq!(
        log.notes,
        ["nub cook: could not compile x.ts: `perry compile` did not finish within 120s", ON_NODE]
    );
}

#[test]
fn a_check_without_an_answer_is_reported() {
    falls_back(
        World { check: Err("no such process".into()), ..world() },
        &["nub cook: failed to run `perry check`: no such process", ON_NODE],
    );
    falls_back(
        World { check: completed(false, b"oops", b" \xff boom \n"), ..world() },
        &[
            "nub cook: `perry check` produced no summary (stderr: \u{fffd} boom)",
            ON_NODE,
        ],
    );
}

#[test]
fn a_failure_without_raw_output_says_so_under_debug() {
    let log = play(open(true, None), World { create_dir: Err("full".into()), ..world() });
    assert_eq!(
        log.notes,
        [
            "nub cook: could not create cook cache dir: full",
            "  (--debug: no raw PerryTS output captured for this step)",
            ON_NODE
        ]
    );
}

#[test]
fn failures_before_the_compiler_runs_are_not_blamed_on_it() {
    falls_back(
        World { dirs: vec![Ok(()), Ok(()), Err("lost".into())], ..world() },
        &["nub cook: could not compile x.ts: could not resolve cache dir: lost", ON_NODE],
    );
    falls_back(
        World { create_output: Err("full".into()), ..world() },
        &["nub cook: could not compile x.ts: could not create temp output: full", ON_NODE],
    );
    let log = play(open(false, None), World { compile: Err("gone".into()), ..world() });
    assert!(ended_on_node(&log));
    assert!(matches!(
        log.effects[..],
        [Effect::Remember { .. }, Effect::RemoveOutput]
    ));
    assert_eq!(
        log.notes,
        ["nub cook: could not compile x.ts: failed to run `perry compile`: gone", ON_NODE]
    );
}

#[test]
fn a_bad_compilation_is_blamed_on_the_compiler() {
    let log = play(
        open(false, None),
        World { compile: completed(false, b"", b"\n  ld: boom \nmore"), ..world() },
    );
    assert!(matches!(log.effects.last(), Some(Effect::RemoveOutput)));
    assert_eq!(
        log.notes,
        [
            "nub cook: could not compile x.ts: `perry compile` exited with exit status: 3 (ld: boom)",
            LINK,
            ON_NODE
        ]
    );
    let log = play(open(false, None), World { compile: completed(false, b"", b""), ..world() });
    assert!(log.notes[0].ends_with("exit status: 3 (no stderr)"));
    let log = play(open(false, None), World { output: Ok(Vec::new()), ..world() });
    assert!(matches!(log.effects.last(), Some(Effect::RemoveOutput)));
    assert_eq!(
        log.notes,
        [
            "nub cook: could not compile x.ts: `perry compile` produced an empty binary",
            LINK,
            ON_NODE
        ]
    );
    let log = play(open(false, None), World { output: Err("gone".into()), ..world() });
    assert!(ended_on_node(&log));
    assert!(matches!(
        log.effects[..],
        [Effect::Remember { .. }, Effect::RemoveOutput]
    ));
    assert_eq!(
        log.notes,
        [
            "nub cook: could not compile x.ts: could not read compiled binary: gone",
            LINK,
            ON_NODE
        ]
    );
}

#[test]
fn a_binary_that_cannot_be_placed_or_compared_is_not_trusted() {
    let log = play(open(false, None), World { place: Err("full".into()), ..world() });
    assert_eq!(log.notes, ["nub cook: could not place cooked binary: full", ON_NODE]);
    let log = play(open(false, None), World { cooked: Err("bad format".into()), ..world() });
    assert!(matches!(log.effects.last(), Some(Effect::Discard)));
    assert_eq!(
        log.notes,
        ["nub cook: cooked binary failed to run during verify: bad format", LINK, ON_NODE]
    );
    let log = play(open(false, None), World { node: Err("no node".into()), ..world() });
    assert!(matches!(log.effects.last(), Some(Effect::Discard)));
    assert_eq!(
        log.notes,
        ["nub cook: could not run Node reference for verify: no node", ON_NODE]
    );
}

#[test]
fn an_answer_to_another_question_changes_nothing() {
    let session = open(false, None);
    let (session, turn) = session.step(Answer::Code(Some(1)));
    assert!(turn.effects.is_empty() && turn.notes.is_empty());
    assert!(matches!(session.pending(), Next::Ask { query: Query::ScriptExists }));
    assert!(session.binary().is_none());
}

#[test]
fn a_run_is_concluded_by_its_ending() {
    let node = || Ok::<i32, CookError>(9);
    assert_eq!(conclude(Ending::Node, node).ok(), Some(9));
    assert_eq!(conclude(Ending::Exit { code: 4 }, node).ok(), Some(4));
    let lost = conclude(Ending::Usage { message: "m".into() }, node);
    assert_eq!(lost.err().map(|e| e.message).as_deref(), Some("m"));
}

#[test]
fn the_reference_run_is_handed_on() {
    match reference_run(|| Ok((b"out".to_vec(), 2))) {
        Answer::Captured(Ok(c)) => assert_eq!((c.stdout, c.code), (b"out".to_vec(), 2)),
        _ => panic!("another answer"),
    }
    match reference_run(|| Err(CookError { message: "no".into() })) {
        Answer::Captured(Err(e)) => assert_eq!(e, "no"),
        _ => panic!("another answer"),
    }
}
