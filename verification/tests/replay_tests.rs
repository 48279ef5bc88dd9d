use fuzzmux::replay::{
    decoded_inputs, replay_outcomes, resolve_path, DirEntry, PathLookup, ReadOutcome, ReplayQueue,
    Resolution,
};

fn entry(path: &str, is_regular_file: bool) -> DirEntry {
    DirEntry { path: path.to_string(), is_regular_file }
}

#[test]
fn directory_replay_runs_the_body_once_per_file_with_its_exact_bytes() {
    // A directory holding files `a` (bytes [0x01]) and `b` (no bytes), in
    // whatever order enumeration happened to produce.
    let lookup = PathLookup::Directory(vec![entry("corpus/a", true), entry("corpus/b", true)]);
    let files = match resolve_path(&"corpus".to_string(), &lookup) {
        Resolution::Files(files) => files,
        Resolution::Unreadable => panic!("a readable directory resolves to its files"),
    };
    assert_eq!(files, vec!["corpus/a", "corpus/b"]);

    let reads = vec![
        ("corpus/a".to_string(), ReadOutcome::Data(vec![0x01])),
        ("corpus/b".to_string(), ReadOutcome::Data(vec![])),
    ];
    let (runs, reported) = replay_outcomes(reads);
    assert_eq!(reported.len(), 0);

    // The harness body is invoked exactly twice, once per file, each
    // invocation receiving exactly that file's bytes.
    let mut queue = ReplayQueue::new(runs);
    let mut invocations: Vec<Vec<u8>> = Vec::new();
    while let Some(input) = queue.acquire_next_input() {
        invocations.push(input);
    }
    assert_eq!(invocations.len(), 2);
    assert!(invocations.contains(&vec![0x01]));
    assert!(invocations.contains(&vec![]));
}

#[test]
fn subdirectories_are_not_replayed_and_not_recursed_into() {
    let lookup = PathLookup::Directory(vec![
        entry("corpus/sub", false),
        entry("corpus/a", true),
        entry("corpus/fifo", false),
    ]);
    match resolve_path(&"corpus".to_string(), &lookup) {
        Resolution::Files(files) => assert_eq!(files, vec!["corpus/a"]),
        Resolution::Unreadable => panic!("a readable directory resolves to its files"),
    }
}

#[test]
fn a_plain_file_path_is_one_input_itself() {
    match resolve_path(&"crash-1".to_string(), &PathLookup::File) {
        Resolution::Files(files) => assert_eq!(files, vec!["crash-1"]),
        Resolution::Unreadable => panic!("a readable file is an input"),
    }
}

#[test]
fn a_missing_path_is_reported_and_the_body_runs_zero_times() {
    // The only argument does not exist: it is reported and skipped, the
    // harness body is never invoked, and nothing fails.
    let r = resolve_path(&"no-such-path".to_string(), &PathLookup::Missing);
    assert!(matches!(r, Resolution::Unreadable));

    let (runs, reported) = replay_outcomes(vec![]);
    assert_eq!(runs.len(), 0);
    assert_eq!(reported.len(), 0);
    let mut queue = ReplayQueue::new(runs);
    assert!(queue.acquire_next_input().is_none());
}

#[test]
fn an_unreadable_file_is_reported_and_the_rest_still_run() {
    let reads = vec![
        ("corpus/locked".to_string(), ReadOutcome::Failed),
        ("corpus/ok".to_string(), ReadOutcome::Data(vec![7, 8])),
    ];
    let (runs, reported) = replay_outcomes(reads);
    assert_eq!(runs, vec![vec![7, 8]]);
    assert_eq!(reported, vec!["corpus/locked"]);
}

#[test]
fn bytes_too_short_to_decode_are_skipped_silently() {
    // The structured target needs four raw bytes; one is supplied, so the
    // decoding fails, the input is skipped, the harness body is invoked zero
    // times and no error is reported.
    let raw: Vec<u8> = vec![0x01];
    let mut unstructured = arbitrary::Unstructured::new(&raw);
    let decoded: Option<Vec<u8>> = match unstructured.bytes(4) {
        Ok(b) => Some(b.to_vec()),
        Err(_) => None,
    };
    assert!(decoded.is_none());

    let survivors = decoded_inputs(vec![decoded]);
    assert_eq!(survivors.len(), 0);
}

#[test]
fn decodable_bytes_reach_the_body_and_undecodable_ones_vanish() {
    let raw: Vec<u8> = vec![0xAA, 0xBB, 0xCC, 0xDD];
    let mut unstructured = arbitrary::Unstructured::new(&raw);
    let decoded: Option<Vec<u8>> = match unstructured.bytes(4) {
        Ok(b) => Some(b.to_vec()),
        Err(_) => None,
    };
    let survivors = decoded_inputs(vec![None, decoded, None]);
    assert_eq!(survivors, vec![vec![0xAA, 0xBB, 0xCC, 0xDD]]);
}
