use winmix::{
    path_from_query, path_from_units, trimmed_len, Action, Enumeration, Event, OsError,
    PathQuery, Stage, WinMix, E_UNEXPECTED,
};

fn units(text: &str, capacity: usize) -> Vec<u16> {
    let mut v: Vec<u16> = text.encode_utf16().collect();
    v.resize(capacity, 0);
    v
}

fn read_path(text: &str) -> PathQuery {
    let v = units(text, 260);
    PathQuery::Read { written: text.encode_utf16().count() as u32, units: v }
}

fn start() -> (Enumeration<u8>, Action) {
    WinMix::from_init_status(0).enumerate::<u8>()
}

#[test]
fn init_success_owns_the_subsystem() {
    let mut ctx = WinMix::from_init_status(0);
    assert!(ctx.owns_init());
    assert!(ctx.release());
    assert!(!ctx.owns_init());
    assert!(!ctx.release());
}

#[test]
fn init_already_done_does_not_own() {
    // S_FALSE: the subsystem was already initialized on this thread.
    let mut ctx = WinMix::from_init_status(1);
    assert!(!ctx.owns_init());
    assert!(!ctx.release());
    assert!(!ctx.release());
}

#[test]
fn init_failure_does_not_own() {
    // RPC_E_CHANGED_MODE: the subsystem was set up elsewhere in another mode.
    let mut ctx = WinMix::from_init_status(-2147417850);
    assert!(!ctx.owns_init());
    assert!(!ctx.release());
}

#[test]
fn trimmed_len_drops_trailing_nul_only() {
    assert_eq!(trimmed_len(&vec![67, 58, 0, 92, 0, 0, 0]), 4);
    assert_eq!(trimmed_len(&vec![0, 0, 0]), 0);
    assert_eq!(trimmed_len(&vec![]), 0);
    assert_eq!(trimmed_len(&vec![97, 98]), 2);
}

#[test]
fn path_from_units_decodes_and_strips_padding() {
    let p = path_from_units(&units("C:\\Program Files\\app.exe", 260));
    assert_eq!(p, "C:\\Program Files\\app.exe");
    assert!(!p.ends_with('\0'));
}

#[test]
fn path_from_units_keeps_non_ascii() {
    let p = path_from_units(&units("D:\\Müzik\\çal.exe", 260));
    assert_eq!(p, "D:\\Müzik\\çal.exe");
}

#[test]
fn path_from_units_all_padding_is_empty() {
    assert_eq!(path_from_units(&vec![0; 260]), "");
}

#[test]
fn path_from_units_lone_surrogate_is_replaced() {
    let p = path_from_units(&vec![97, 0xD800, 0, 0]);
    assert_eq!(p, "a\u{FFFD}");
}

#[test]
fn exited_process_gives_empty_path() {
    assert_eq!(path_from_query(&PathQuery::Unavailable), "");
}

#[test]
fn failed_module_query_gives_empty_path() {
    let q = PathQuery::Read { written: 0, units: units("stale", 260) };
    assert_eq!(path_from_query(&q), "");
}

#[test]
fn successful_module_query_gives_path() {
    assert_eq!(path_from_query(&read_path("C:\\x\\player.exe")), "C:\\x\\player.exe");
}

#[test]
fn system_sounds_session_is_skipped() {
    let (e, a) = start();
    assert_eq!(a, Action::ListEndpoints);
    let (e, a) = e.step(Event::Count(1));
    assert_eq!(a, Action::OpenEndpoint { endpoint: 0 });
    let (e, a) = e.step(Event::Count(2));
    assert_eq!(a, Action::ReadProcessId { endpoint: 0, session: 0 });
    let (e, a) = e.step(Event::ProcessId(0));
    assert_eq!(a, Action::ReadProcessId { endpoint: 0, session: 1 });
    let (e, a) = e.step(Event::ProcessId(1234));
    assert_eq!(a, Action::ResolvePath { pid: 1234 });
    let (e, a) = e.step(Event::ModulePath(read_path("C:\\app.exe")));
    assert_eq!(a, Action::AttachVolume { endpoint: 0, session: 1 });
    let (e, a) = e.step(Event::Volume(7));
    assert_eq!(a, Action::Done);
    let sessions = e.finish().ok().unwrap();
    assert_eq!(sessions.len(), 1);
    assert_eq!(sessions[0].pid, 1234);
    assert_eq!(sessions[0].path, "C:\\app.exe");
    assert_eq!(sessions[0].vol, 7);
}

#[test]
fn no_endpoints_gives_no_sessions() {
    let (e, _) = start();
    let (e, a) = e.step(Event::Count(0));
    assert_eq!(a, Action::Done);
    assert_eq!(e.finish().ok().unwrap().len(), 0);
}

#[test]
fn sessions_keep_platform_order_across_endpoints() {
    let (e, _) = start();
    let (e, _) = e.step(Event::Count(3));
    // first endpoint: one session
    let (e, _) = e.step(Event::Count(1));
    let (e, _) = e.step(Event::ProcessId(10));
    let (e, _) = e.step(Event::ModulePath(PathQuery::Unavailable));
    let (e, a) = e.step(Event::Volume(1));
    assert_eq!(a, Action::OpenEndpoint { endpoint: 1 });
    // second endpoint: no sessions
    let (e, a) = e.step(Event::Count(0));
    assert_eq!(a, Action::OpenEndpoint { endpoint: 2 });
    // third endpoint: two sessions
    let (e, _) = e.step(Event::Count(2));
    let (e, _) = e.step(Event::ProcessId(20));
    let (e, _) = e.step(Event::ModulePath(read_path("b.exe")));
    let (e, a) = e.step(Event::Volume(2));
    assert_eq!(a, Action::ReadProcessId { endpoint: 2, session: 1 });
    let (e, _) = e.step(Event::ProcessId(30));
    let (e, _) = e.step(Event::ModulePath(read_path("c.exe")));
    let (e, a) = e.step(Event::Volume(3));
    assert_eq!(a, Action::Done);
    let s = e.finish().ok().unwrap();
    let pids: Vec<u32> = s.iter().map(|x| x.pid).collect();
    assert_eq!(pids, vec![10, 20, 30]);
    assert_eq!(s[0].path, "");
    assert_eq!(s[1].path, "b.exe");
    assert_eq!(s[2].path, "c.exe");
    let vols: Vec<u8> = s.iter().map(|x| x.vol).collect();
    assert_eq!(vols, vec![1, 2, 3]);
    for x in s.iter() {
        assert_ne!(x.pid, 0);
        assert!(!x.path.ends_with('\0'));
    }
}

#[test]
fn failure_mid_walk_discards_partial_result() {
    let (e, _) = start();
    let (e, _) = e.step(Event::Count(2));
    let (e, _) = e.step(Event::Count(1));
    let (e, _) = e.step(Event::ProcessId(5));
    let (e, _) = e.step(Event::ModulePath(read_path("a.exe")));
    let (e, _) = e.step(Event::Volume(1));
    let (e, a) = e.step(Event::Failed(OsError::new(-2147023728)));
    assert_eq!(a, Action::Done);
    // further events change nothing
    let (e, a) = e.step(Event::Count(4));
    assert_eq!(a, Action::Done);
    assert_eq!(e.finish().err(), Some(OsError { code: -2147023728 }));
}

#[test]
fn out_of_order_answer_fails_unexpected() {
    let (e, _) = start();
    let (e, a) = e.step(Event::ProcessId(9));
    assert_eq!(a, Action::Done);
    assert_eq!(e.finish().err(), Some(OsError { code: E_UNEXPECTED }));
}

#[test]
fn finish_before_done_fails_unexpected() {
    let (e, _) = start();
    let (e, _) = e.step(Event::Count(1));
    assert_eq!(e.finish().err(), Some(OsError::unexpected()));
}

#[test]
fn failure_code_is_reported() {
    let (e, _) = start();
    let (e, _) = e.step(Event::Failed(OsError::new(-1)));
    assert!(matches!(e.finish(), Err(OsError { code: -1 })));
    assert_eq!(Stage::Failed(OsError::new(-1)), Stage::Failed(OsError { code: -1 }));
}
