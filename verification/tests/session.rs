use pslog::cli::{Fos, LogEntry, LogLevel, WireMessage};
use pslog::reply::{is_pong_reply, is_pong_tag};
use pslog::server::{choose_server_location, ServerLocation};
use pslog::session::{entry_to_show, scan_topics, subscriber_ip};
use pslog::term::{level_style, term_badge, TermColor};

#[test]
fn pong_replies_are_recognised() {
    assert!(is_pong_reply(br#"{"type":"Pong"}"#));
    assert!(is_pong_reply(br#"{"other":1,"type":"Pong"}"#));
    assert!(!is_pong_reply(br#"{"type":"Ping"}"#));
    assert!(!is_pong_reply(br#"{"type":"pong"}"#));
    assert!(!is_pong_reply(br#"{"kind":"Pong"}"#));
    assert!(!is_pong_reply(br#"["Pong"]"#));
    assert!(!is_pong_reply(br#"{"type":["Pong"]}"#));
    assert!(!is_pong_reply(b"not json"));
    assert!(!is_pong_reply(b""));
}

#[test]
fn pong_tag() {
    assert!(is_pong_tag(Some("Pong")));
    assert!(!is_pong_tag(Some("Pong ")));
    assert!(!is_pong_tag(None));
}

#[test]
fn server_location_first_match() {
    assert_eq!(
        choose_server_location(Some("/opt/x".to_string()), true, true),
        ServerLocation::FromEnv("/opt/x".to_string())
    );
    assert_eq!(choose_server_location(None, true, true), ServerLocation::SystemInstall);
    assert_eq!(choose_server_location(None, false, true), ServerLocation::BesideExecutable);
    assert_eq!(choose_server_location(None, false, false), ServerLocation::SearchPath);
}

#[test]
fn subscriber_address() {
    assert_eq!(subscriber_ip(Some("10.0.0.2".into()), Some("192.168.1.4".into())), "10.0.0.2");
    assert_eq!(subscriber_ip(None, Some("192.168.1.4".into())), "192.168.1.4");
    assert_eq!(subscriber_ip(None, None), "127.0.0.1");
}

#[test]
fn subscription_reads_logs_until_other_message() {
    let log = LogEntry { ts: 1, level: LogLevel::INFO, message: "m".into() };
    assert_eq!(entry_to_show(WireMessage::Log { log: log.clone() }), Some(log));
    assert_eq!(entry_to_show(WireMessage::Close), None);
    assert_eq!(
        entry_to_show(WireMessage::Sub { topic: "t".into(), port: 1, fos: Fos::auto, ip: "x".into() }),
        None
    );
}

#[test]
fn scan_lists_topics() {
    let t = vec!["a".to_string(), "b".to_string()];
    assert_eq!(scan_topics(WireMessage::Scan { topics: Some(t.clone()) }), t);
    assert!(scan_topics(WireMessage::Scan { topics: None }).is_empty());
    assert!(scan_topics(WireMessage::Ping).is_empty());
}

#[test]
fn badges() {
    let b = term_badge("INFO");
    assert_eq!((b.label, b.background, b.foreground), (" INFO ", TermColor::Blue, TermColor::White));
    let b = term_badge("SUCCESS");
    assert_eq!((b.label, b.background), (" DONE ", TermColor::Green));
    let b = term_badge("ERROR");
    assert_eq!((b.label, b.background), (" FAIL ", TermColor::Red));
    let b = term_badge("DEBUG");
    assert_eq!((b.label, b.background, b.foreground), (" LOG  ", TermColor::White, TermColor::Black));
    assert_eq!(term_badge("info").label, " LOG  ");
}

#[test]
fn level_styles() {
    assert_eq!(level_style(LogLevel::ERROR), ("ERROR", TermColor::Red));
    assert_eq!(level_style(LogLevel::WARN), ("WARN", TermColor::Yellow));
    assert_eq!(level_style(LogLevel::INFO), ("INFO", TermColor::Green));
    assert_eq!(level_style(LogLevel::DEBUG), ("DEBUG", TermColor::Blue));
    assert_eq!(level_style(LogLevel::TRACE), ("TRACE", TermColor::White));
}
