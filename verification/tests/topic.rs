use pslog::topic::resolve_topic;

#[test]
fn test_resolve_topic_explicit_override() {
    let topic = Some("my-custom-topic".to_string());
    let res = resolve_topic(topic, "any-exec", &[]);
    assert_eq!(res, "my-custom-topic");
}

#[test]
fn test_resolve_topic_from_generic_binary() {
    let res = resolve_topic(None, "./my_bin", &["arg1".to_string()]);
    assert_eq!(res, "./my_bin");
}

#[test]
fn test_resolve_topic_from_python_script() {
    let exec = "python3";
    let args = vec!["server.py".to_string(), "--port".to_string(), "8080".to_string()];
    let res = resolve_topic(None, exec, &args);
    assert_eq!(res, "server.py");
}

#[test]
fn test_resolve_topic_python_no_args() {
    let res = resolve_topic(None, "python", &[]);
    assert_eq!(res, "python");
}

#[test]
fn explicit_topic_wins_over_python_script() {
    let args = vec!["worker.py".to_string()];
    let res = resolve_topic(Some("jobs".to_string()), "python3", &args);
    assert_eq!(res, "jobs");
}

#[test]
fn prefix_python_must_start_the_name() {
    let args = vec!["worker.py".to_string()];
    assert_eq!(resolve_topic(None, "/usr/bin/python3", &args), "/usr/bin/python3");
    assert_eq!(resolve_topic(None, "pytho", &args), "pytho");
    assert_eq!(resolve_topic(None, "python-ish", &args), "worker.py");
}

#[test]
fn empty_explicit_topic_is_kept() {
    assert_eq!(resolve_topic(Some(String::new()), "bin", &[]), "");
}
