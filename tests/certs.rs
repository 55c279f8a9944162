use snphost::certs::get;
use snphost::certs::{cmd, Action, CertsCmd, Event, Session};
use snphost::table::{
    build, destination, fetched_certs, table_capacity, write_plan, CertEntry, CertType,
    CertsError, Dest, ExtConfig, Operation,
};

fn entry(cert_type: CertType, data: &[u8]) -> CertEntry {
    CertEntry { cert_type, data: data.to_vec() }
}

fn install_args() -> snphost::certs::set::Args {
    snphost::certs::set::Args { ark: "ark.pem".to_string(), ask: "ask.pem".to_string(), vcek: "vcek.pem".to_string() }
}

fn get_args() -> get::Args {
    get::Args { ark: "out_ark".to_string(), ask: "out_ask".to_string(), vcek: "out_vcek".to_string() }
}

/// Runs a get command against a fetched configuration, failing the write with
/// the given index; returns the files written and the outcome.
fn run_get(fetched: ExtConfig, fail_write: Option<usize>) -> (Vec<(String, Vec<u8>)>, Result<(), CertsError>) {
    let (mut session, mut action) = cmd(CertsCmd::Get(get_args()));
    assert!(matches!(action, Action::Fetch));
    let mut files: Vec<(String, Vec<u8>)> = Vec::new();
    let mut event = Event::Fetched(fetched);
    let mut writes = 0;
    loop {
        assert!(session.accepts(&event));
        let (s, a) = session.step(event);
        session = s;
        action = a;
        match action {
            Action::Write(_, path, data) => {
                if fail_write == Some(writes) {
                    event = Event::WriteFailed;
                } else {
                    files.retain(|f| f.0 != path);
                    files.push((path, data));
                    event = Event::Written;
                }
                writes += 1;
            }
            Action::Finish(outcome) => return (files, outcome),
            other => panic!("unexpected action {:?}", other),
        }
    }
}

#[test]
fn capacity_below_one_page() {
    assert_eq!(table_capacity(0), 4096);
    assert_eq!(table_capacity(1), 4096);
    assert_eq!(table_capacity(4095), 4096);
}

#[test]
fn capacity_on_page_boundary_adds_a_page() {
    assert_eq!(table_capacity(4096), 8192);
    assert_eq!(table_capacity(8192), 12288);
    assert_eq!(table_capacity(40960), 45056);
}

#[test]
fn capacity_off_boundary_rounds_up() {
    assert_eq!(table_capacity(4097), 8192);
    assert_eq!(table_capacity(12287), 12288);
    assert_eq!(table_capacity(0xFFFF_EFFF), 0xFFFF_F000);
}

#[test]
fn build_example_lengths() {
    let c = build(vec![1u8; 10], vec![2u8; 20], vec![3u8; 4070]);
    assert_eq!(c.certs_len, 8192);
}

#[test]
fn build_small_and_aligned_totals() {
    assert_eq!(build(vec![1u8; 100], vec![], vec![3u8; 5]).certs_len, 4096);
    assert_eq!(build(vec![1u8; 1000], vec![2u8; 1000], vec![3u8; 2096]).certs_len, 8192);
    assert_eq!(build(vec![], vec![], vec![]).certs_len, 4096);
}

#[test]
fn build_keeps_order_and_bytes() {
    let c = build(b"root".to_vec(), b"signing".to_vec(), b"chip".to_vec());
    let certs = c.certs.expect("a table");
    assert_eq!(certs.len(), 3);
    assert_eq!(certs[0].cert_type, CertType::Ark);
    assert_eq!(certs[0].data, b"root".to_vec());
    assert_eq!(certs[1].cert_type, CertType::Ask);
    assert_eq!(certs[1].data, b"signing".to_vec());
    assert_eq!(certs[2].cert_type, CertType::Vcek);
    assert_eq!(certs[2].data, b"chip".to_vec());
}

#[test]
fn build_then_parse_round_trip() {
    let c = build(b"root".to_vec(), b"signing".to_vec(), b"chip".to_vec());
    let plan = write_plan(c.certs.as_ref().unwrap());
    let got: Vec<(Dest, Vec<u8>)> = plan.into_iter().map(|w| (w.dest, w.data)).collect();
    assert_eq!(
        got,
        vec![(Dest::Ark, b"root".to_vec()), (Dest::Ask, b"signing".to_vec()), (Dest::Vcek, b"chip".to_vec())]
    );
    let (files, outcome) = run_get(c, None);
    assert_eq!(outcome, Ok(()));
    assert_eq!(
        files,
        vec![
            ("out_ark".to_string(), b"root".to_vec()),
            ("out_ask".to_string(), b"signing".to_vec()),
            ("out_vcek".to_string(), b"chip".to_vec()),
        ]
    );
}

#[test]
fn unrecognised_entries_are_skipped() {
    let certs = vec![
        entry(CertType::Ark, b"a"),
        entry(CertType::Other(0x1234), b"other"),
        entry(CertType::Ask, b"b"),
        entry(CertType::Vcek, b"c"),
        entry(CertType::Empty, b""),
    ];
    let plan = write_plan(&certs);
    let dests: Vec<Dest> = plan.iter().map(|w| w.dest).collect();
    assert_eq!(dests, vec![Dest::Ark, Dest::Ask, Dest::Vcek]);
    let (files, outcome) = run_get(ExtConfig { certs: Some(certs), certs_len: 4096 }, None);
    assert_eq!(outcome, Ok(()));
    assert_eq!(files.len(), 3);
    assert!(files.iter().all(|f| f.1 != b"other".to_vec()));
}

#[test]
fn table_order_is_kept() {
    let certs = vec![entry(CertType::Vcek, b"c"), entry(CertType::Ark, b"a")];
    let plan = write_plan(&certs);
    assert_eq!(plan[0].dest, Dest::Vcek);
    assert_eq!(plan[1].dest, Dest::Ark);
}

#[test]
fn destination_of_each_type() {
    assert_eq!(destination(&CertType::Ark), Some(Dest::Ark));
    assert_eq!(destination(&CertType::Ask), Some(Dest::Ask));
    assert_eq!(destination(&CertType::Vcek), Some(Dest::Vcek));
    assert_eq!(destination(&CertType::Other(7)), None);
    assert_eq!(destination(&CertType::Empty), None);
}

#[test]
fn absent_table_is_missing() {
    let r = fetched_certs(ExtConfig { certs: None, certs_len: 0 });
    assert_eq!(r.err(), Some(CertsError::MissingTable));
    let (files, outcome) = run_get(ExtConfig { certs: None, certs_len: 0 }, None);
    assert!(files.is_empty());
    assert_eq!(outcome, Err(CertsError::MissingTable));
}

#[test]
fn empty_table_is_not_missing() {
    let r = fetched_certs(ExtConfig { certs: Some(vec![]), certs_len: 0 });
    assert_eq!(r.ok().map(|v| v.len()), Some(0));
    let (files, outcome) = run_get(ExtConfig { certs: Some(vec![]), certs_len: 0 }, None);
    assert!(files.is_empty());
    assert_eq!(outcome, Ok(()));
}

#[test]
fn write_failure_is_not_transactional() {
    let c = build(b"root".to_vec(), b"signing".to_vec(), b"chip".to_vec());
    let (files, outcome) = run_get(c, Some(1));
    assert_eq!(outcome, Err(CertsError::FileWrite(Dest::Ask)));
    assert_eq!(files, vec![("out_ark".to_string(), b"root".to_vec())]);
}

#[test]
fn fetch_failure_is_a_channel_error() {
    let (session, _) = cmd(CertsCmd::Get(get_args()));
    let (_, action) = session.step(Event::FetchFailed);
    assert!(matches!(action, Action::Finish(Err(CertsError::Channel(Operation::Fetch)))));
}

#[test]
fn install_reads_then_submits() {
    let (session, action) = cmd(CertsCmd::Install(install_args()));
    assert!(matches!(&action, Action::Read(Dest::Ark, p) if p == "ark.pem"));
    let (session, action) = session.step(Event::Read(vec![1u8; 10]));
    assert!(matches!(&action, Action::Read(Dest::Ask, p) if p == "ask.pem"));
    let (session, action) = session.step(Event::Read(vec![2u8; 20]));
    assert!(matches!(&action, Action::Read(Dest::Vcek, p) if p == "vcek.pem"));
    let (session, action) = session.step(Event::Read(vec![3u8; 4070]));
    match action {
        Action::Submit(c) => {
            assert_eq!(c.certs_len, 8192);
            let certs = c.certs.unwrap();
            assert_eq!(certs[0].data, vec![1u8; 10]);
            assert_eq!(certs[2].cert_type, CertType::Vcek);
        }
        other => panic!("unexpected action {:?}", other),
    }
    assert!(matches!(session, Session::Submitting));
    let (session, action) = session.step(Event::Submitted);
    assert!(matches!(session, Session::Finished));
    assert!(matches!(action, Action::Finish(Ok(()))));
}

#[test]
fn install_read_failures_name_the_file() {
    let (s, _) = cmd(CertsCmd::Install(install_args()));
    let (_, a) = s.step(Event::ReadFailed);
    assert!(matches!(a, Action::Finish(Err(CertsError::FileRead(Dest::Ark)))));
    let (s, _) = cmd(CertsCmd::Install(install_args()));
    let (s, _) = s.step(Event::Read(vec![]));
    let (_, a) = s.step(Event::ReadFailed);
    assert!(matches!(a, Action::Finish(Err(CertsError::FileRead(Dest::Ask)))));
    let (s, _) = cmd(CertsCmd::Install(install_args()));
    let (s, _) = s.step(Event::Read(vec![]));
    let (s, _) = s.step(Event::Read(vec![]));
    let (_, a) = s.step(Event::ReadFailed);
    assert!(matches!(a, Action::Finish(Err(CertsError::FileRead(Dest::Vcek)))));
}

#[test]
fn submit_failure_is_a_channel_error() {
    let (s, _) = cmd(CertsCmd::Install(install_args()));
    let (s, _) = s.step(Event::Read(vec![]));
    let (s, _) = s.step(Event::Read(vec![]));
    let (s, _) = s.step(Event::Read(vec![]));
    let (_, a) = s.step(Event::SubmitFailed);
    assert!(matches!(a, Action::Finish(Err(CertsError::Channel(Operation::Submit)))));
}

#[test]
fn events_out_of_turn_are_not_accepted() {
    let (s, _) = cmd(CertsCmd::Get(get_args()));
    assert!(!s.accepts(&Event::Submitted));
    assert!(s.accepts(&Event::FetchFailed));
    assert!(!Session::Finished.accepts(&Event::Written));
}
