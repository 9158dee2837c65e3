//! Operator console: line parsing, routing, listings, console state.

use pr2::api::c2::{Agent, AgentsList, Job, JobStatus, JobsList};
use pr2::api::op::{Message, OpCode};
use pr2::client::app::{App, AppStatus, InputMode, Key, TabsState};
use pr2::client::error::Error;
use pr2::client::parser::parse_line;
use pr2::server::cfg::{pg_params, TransportType};
use pr2::server::handler::{route_message, tokenize, RxAction};

#[test]
fn parse_line_with_argument() {
    let m = parse_line("get agents").unwrap().unwrap();
    assert!(matches!(m.top(), OpCode::GET));
    assert_eq!(m.val(), b"agents".to_vec());
    assert_eq!(m.len(), 6);
}

#[test]
fn parse_line_keeps_everything_after_the_first_space() {
    let m = parse_line("query select a from b order by c").unwrap().unwrap();
    assert!(matches!(m.top(), OpCode::QUERY));
    assert_eq!(m.val(), b"select a from b order by c".to_vec());
}

#[test]
fn parse_line_bare_opcode() {
    let m = parse_line("shutdown").unwrap().unwrap();
    assert!(matches!(m.top(), OpCode::SHUTDOWN));
    assert_eq!(m.val(), Vec::<u8>::new());
    assert_eq!(m.len(), 0);
}

#[test]
fn parse_line_trims_and_is_case_insensitive() {
    let m = parse_line("  STOP 17 ").unwrap().unwrap();
    assert!(matches!(m.top(), OpCode::STOP));
    assert_eq!(m.val(), b"17".to_vec());
}

#[test]
fn parse_line_empty_and_blank() {
    assert!(parse_line("").unwrap().is_none());
    assert!(parse_line("   ").unwrap().is_none());
}

#[test]
fn parse_line_rejects_unknown_opcode() {
    let r = parse_line("frobnicate now");
    assert!(matches!(r, Err(Error::InvalidValue(_))));
}

#[test]
fn routing_listings_and_queries() {
    let get = |val: &[u8]| Message::new(OpCode::GET, val.len() as u32, val);
    assert!(matches!(route_message(&get(b"agents")), RxAction::ListAgents));
    assert!(matches!(route_message(&get(b"  agents extra")), RxAction::ListAgents));
    assert!(matches!(route_message(&get(b"jobs")), RxAction::ListJobs));
    assert!(matches!(route_message(&get(b"nonsense")), RxAction::InvalidKey));
    assert!(matches!(route_message(&get(b"")), RxAction::MissingKey));
    assert!(matches!(route_message(&get(b"   ")), RxAction::MissingKey));

    let q = Message::new(OpCode::QUERY, 8, b"select 1");
    match route_message(&q) {
        RxAction::RunQuery(text) => assert_eq!(text, b"select 1".to_vec()),
        _ => panic!("query must pass through"),
    }

    let other = Message::new(OpCode::SLEEP, 0, &[]);
    assert!(matches!(route_message(&other), RxAction::NotImplemented));
}

#[test]
fn listing_masks_key_material() {
    let agent = Agent {
        id: 5,
        created_at: 10,
        last_seen: 20,
        identity_public_key: [0xab; 32],
        public_prekey: [0xcd; 32],
        public_prekey_signature: vec![0x0f; 64],
    };
    let rows = AgentsList(vec![agent]).masked();
    assert_eq!(rows.len(), 1);
    assert_eq!(rows[0].id, 5);
    assert_eq!(rows[0].created_at, 10);
    assert_eq!(rows[0].last_seen, 20);
    // sixteen hex digits: the first eight bytes, never the whole key
    assert_eq!(rows[0].identity_public_key, "abababababababab");
    assert_eq!(rows[0].public_prekey, "cdcdcdcdcdcdcdcd");
    assert_eq!(rows[0].public_prekey_signature, "0f0f0f0f0f0f0f0f");
}

#[test]
fn job_rows_render_in_hex_with_nil_results() {
    let job = Job {
        id: 1,
        agent_id: 2,
        encrypted_job: vec![0xde, 0xad],
        ephemeral_public_key: [0x01; 32],
        nonce: [0x02; 24],
        signature: vec![0xbe, 0xef],
        status: JobStatus::Todo,
        encrypted_result: None,
        result_ephemeral_public_key: None,
        result_nonce: None,
        result_signature: None,
    };
    let rows = JobsList(vec![job]).rows();
    assert_eq!(rows.len(), 1);
    let row = &rows[0];
    assert_eq!(row.len(), 10);
    assert_eq!(row[0], "01000000000000000000000000000000");
    assert_eq!(row[1], "02000000000000000000000000000000");
    assert_eq!(row[2], "dead");
    assert_eq!(row[5], "beef");
    assert_eq!(row[6], "nil");
    assert_eq!(row[7], "nil");
    assert_eq!(row[8], "nil");
    assert_eq!(row[9], "nil");
}

#[test]
fn tabs_cycle_both_ways() {
    let titles = vec![String::from("cmd"), String::from("1"), String::from("2")];
    let mut tabs = TabsState::new(titles);
    assert_eq!(tabs.index, 0);
    tabs.next();
    assert_eq!(tabs.index, 1);
    tabs.next();
    tabs.next();
    assert_eq!(tabs.index, 0);
    tabs.previous();
    assert_eq!(tabs.index, 2);
}

#[test]
fn console_keys_drive_the_state_machine() {
    let mut app = App::new(String::from("console"), false, 250);
    assert!(matches!(app.status, AppStatus::CONTINUE));
    app.on_key(Key::Char('1'));
    assert_eq!(app.state.tabs.index, 1);
    app.on_key(Key::Char(':'));
    assert!(matches!(app.state.input_mode, InputMode::Editing));
    app.on_key(Key::Char('g'));
    app.on_key(Key::Char('o'));
    assert_eq!(app.state.input, vec!['g', 'o']);
    app.on_key(Key::Backspace);
    assert_eq!(app.state.input, vec!['g']);
    app.on_key(Key::Char('o'));
    app.on_key(Key::Enter);
    assert_eq!(app.state.input, Vec::<char>::new());
    assert_eq!(app.state.input_history, vec![vec!['g', 'o']]);
    app.on_key(Key::Esc);
    assert!(matches!(app.state.input_mode, InputMode::Normal));
    app.on_key(Key::Char('q'));
    assert!(matches!(app.status, AppStatus::SHUTDOWN));
}

#[test]
fn transport_names_parse() {
    assert!(matches!(TransportType::from_str("udp"), Ok(TransportType::Udp)));
    assert!(matches!(TransportType::from_str("u"), Ok(TransportType::Udp)));
    assert!(matches!(TransportType::from_str("dns"), Ok(TransportType::Dns)));
    assert!(matches!(TransportType::from_str("d"), Ok(TransportType::Dns)));
    assert!(matches!(TransportType::from_str("http"), Ok(TransportType::Http)));
    assert!(matches!(TransportType::from_str("h"), Ok(TransportType::Http)));
    assert!(matches!(
        TransportType::from_str("tcp"),
        Err(pr2::server::error::Error::InvalidArgument(_))
    ));
}

#[test]
fn pg_params_apply_defaults() {
    let p = pg_params(None, None, String::from("admin"), None);
    assert_eq!(p.host, "localhost");
    assert_eq!(p.port, 5432);
    assert_eq!(p.username, "admin");
    assert_eq!(p.database, "pr2.db");
    let q = pg_params(
        Some(String::from("db.internal")),
        Some(6432),
        String::from("svc"),
        Some(String::from("jobs")),
    );
    assert_eq!(q.host, "db.internal");
    assert_eq!(q.port, 6432);
    assert_eq!(q.database, "jobs");
}

#[test]
fn tokenizer_splits_on_whitespace() {
    let toks = tokenize(b"  task  uname -a\t");
    assert_eq!(
        toks,
        vec![b"task".to_vec(), b"uname".to_vec(), b"-a".to_vec()]
    );
    assert_eq!(tokenize(b""), Vec::<Vec<u8>>::new());
    assert_eq!(tokenize(b"   "), Vec::<Vec<u8>>::new());
    assert_eq!(tokenize(b"one"), vec![b"one".to_vec()]);
}
