use dockmodel::options::ContainerCreateOptions;
use dockmodel::options::ContainerKillOptions;
use dockmodel::options::ContainerListOptions;
use dockmodel::options::ContainerStartOptions;
use dockmodel::options::ContainerStatusOptions;
use dockmodel::Json;

#[test]
fn list_default_renders_empty() {
    let opts = ContainerListOptions::default();
    assert_eq!(opts.to_url_params(), "");
}

#[test]
fn list_all_then_limit_renders_in_declaration_order() {
    let opts = ContainerListOptions::default().all().limit(5);
    assert_eq!(opts.to_url_params(), "all=1&limit=5");
}

#[test]
fn list_call_order_does_not_change_output() {
    let a = ContainerListOptions::default().all().limit(5).to_url_params();
    let b = ContainerListOptions::default().limit(5).all().to_url_params();
    assert_eq!(a, b);
    let c = ContainerListOptions::default().size().latest().to_url_params();
    let d = ContainerListOptions::default().latest().size().to_url_params();
    assert_eq!(c, d);
}

#[test]
fn list_every_flag_set() {
    let opts = ContainerListOptions::default().all().latest().limit(7).size();
    assert_eq!(opts.to_url_params(), "all=1&latest=1&limit=7&size=1");
}

#[test]
fn list_unset_flag_produces_no_key() {
    let opts = ContainerListOptions::default().latest();
    let rendered = opts.to_url_params();
    assert_eq!(rendered, "latest=1");
    assert!(!rendered.contains("all"));
    assert!(!rendered.contains("size"));
}

#[test]
fn list_limit_max_value() {
    let opts = ContainerListOptions::default().limit(u64::MAX);
    assert_eq!(opts.to_url_params(), "limit=18446744073709551615");
}

#[test]
fn status_time_renders() {
    let opts = ContainerStatusOptions::default().time(5);
    assert_eq!(opts.to_url_params(), "t=5");
    assert_eq!(ContainerStatusOptions::default().to_url_params(), "");
}

#[test]
fn start_detach_keys_space_becomes_plus() {
    let opts = ContainerStartOptions::default().detach_keys("ctrl p".to_string());
    assert_eq!(opts.to_url_params(), "detachKeys=ctrl+p");
    assert_eq!(ContainerStartOptions::default().to_url_params(), "");
}

#[test]
fn kill_signal_renders() {
    let opts = ContainerKillOptions::default().signal("SIGKILL".to_string());
    assert_eq!(opts.to_url_params(), "signal=SIGKILL");
    assert_eq!(ContainerKillOptions::default().to_url_params(), "");
}

#[test]
fn kill_signal_reserved_characters_are_percent_encoded() {
    let opts = ContainerKillOptions::default().signal("a&b=c".to_string());
    assert_eq!(opts.to_url_params(), "signal=a%26b%3Dc");
}

#[test]
fn kill_signal_non_ascii_is_utf8_percent_encoded() {
    let opts = ContainerKillOptions::default().signal("é".to_string());
    assert_eq!(opts.to_url_params(), "signal=%C3%A9");
}

#[test]
fn kill_signal_safe_characters_stay() {
    let opts = ContainerKillOptions::default().signal("A-b_c.d*9".to_string());
    assert_eq!(opts.to_url_params(), "signal=A-b_c.d*9");
}

#[test]
fn create_default_encodes_every_field_as_null() {
    let body = ContainerCreateOptions::default().to_json();
    match body {
        Json::Obj(fields) => {
            assert_eq!(fields.len(), 14);
            assert_eq!(fields[0].0, "Hostname");
            assert_eq!(fields[1].0, "Domainname");
            assert_eq!(fields[13].0, "Labels");
            for (_, value) in fields.iter() {
                assert!(matches!(value, Json::Null));
            }
        },
        _ => panic!("create options must encode to an object"),
    }
}

#[test]
fn create_set_fields_are_encoded() {
    let body = ContainerCreateOptions::default()
        .image("nginx")
        .hostname("web")
        .tty(true)
        .env(vec!["A=1".to_string(), "B=2".to_string()])
        .to_json();
    match body {
        Json::Obj(fields) => {
            assert!(matches!(&fields[0].1, Json::Str(s) if s == "web"));
            assert!(matches!(&fields[6].1, Json::Bool(true)));
            match &fields[9].1 {
                Json::Arr(items) => {
                    assert_eq!(items.len(), 2);
                    assert!(matches!(&items[0], Json::Str(s) if s == "A=1"));
                },
                _ => panic!("env must encode to an array"),
            }
            assert!(matches!(&fields[12].1, Json::Str(s) if s == "nginx"));
        },
        _ => panic!("create options must encode to an object"),
    }
}

#[test]
fn create_options_round_trip() {
    let opts = ContainerCreateOptions::default()
        .hostname("web")
        .domain_name("example")
        .user("root")
        .attach_stdin(false)
        .attach_stdout(true)
        .tty(true)
        .env(vec!["PATH=/bin".to_string()])
        .cmd(vec!["nginx".to_string(), "-g".to_string()])
        .entrypoint("/entry")
        .image("nginx:latest")
        .labels(vec![("team".to_string(), "infra".to_string())]);
    let decoded = ContainerCreateOptions::decode(&opts.to_json()).unwrap();
    assert_eq!(decoded, opts);
}

#[test]
fn create_options_decode_rejects_wrong_shape() {
    let body = Json::Obj(vec![("Env".to_string(), Json::Str("not-a-list".to_string()))]);
    assert!(ContainerCreateOptions::decode(&body).is_err());
}
