use dockmodel::container::Config;
use dockmodel::container::Container;
use dockmodel::container::ContainerInfo;
use dockmodel::container::HostConfig;
use dockmodel::container::Mount;
use dockmodel::container::Network;
use dockmodel::container::NetworkSettings;
use dockmodel::container::PortMapping;
use dockmodel::container::Port;
use dockmodel::container::State;
use dockmodel::filesystem::FilesystemChange;
use dockmodel::image::Image;
use dockmodel::image::ImageStatus;
use dockmodel::Json;

fn summary_payload() -> Vec<(String, Json)> {
    vec![
        ("Id".to_string(), Json::Str("abc123".to_string())),
        ("Image".to_string(), Json::Str("nginx".to_string())),
        ("Status".to_string(), Json::Str("Up 2 minutes".to_string())),
        ("Command".to_string(), Json::Str("nginx -g daemon off;".to_string())),
        ("Created".to_string(), Json::Num(1600000000)),
        ("Names".to_string(), Json::Arr(vec![Json::Str("/web".to_string())])),
        ("Ports".to_string(), Json::Arr(Vec::new())),
        (
            "HostConfig".to_string(),
            Json::Obj(vec![("NetworkMode".to_string(), Json::Str("bridge".to_string()))]),
        ),
    ]
}

#[test]
fn container_summary_scenario() {
    let decoded = Container::decode(&Json::Obj(summary_payload())).unwrap();
    assert_eq!(decoded.id, "abc123");
    assert_eq!(decoded.image, "nginx");
    assert_eq!(decoded.status, "Up 2 minutes");
    assert_eq!(decoded.command, "nginx -g daemon off;");
    assert_eq!(decoded.created, 1600000000);
    assert_eq!(decoded.names, vec!["/web".to_string()]);
    assert!(decoded.ports.is_empty());
    assert_eq!(decoded.size_rw, None);
    assert_eq!(decoded.size_root_fs, None);
    assert_eq!(decoded.labels, None);
    assert_eq!(decoded.host_config.network_mode, "bridge");
}

#[test]
fn container_unknown_field_is_ignored() {
    let plain = Container::decode(&Json::Obj(summary_payload())).unwrap();
    let mut extended = summary_payload();
    extended.push(("SomeFutureField".to_string(), Json::Num(42)));
    let tolerant = Container::decode(&Json::Obj(extended)).unwrap();
    assert_eq!(plain, tolerant);
}

#[test]
fn container_missing_required_field_fails() {
    let mut payload = summary_payload();
    payload.remove(0);
    assert!(Container::decode(&Json::Obj(payload)).is_err());
}

#[test]
fn container_wrong_field_type_fails() {
    let mut payload = summary_payload();
    payload[0] = ("Id".to_string(), Json::Num(7));
    assert!(Container::decode(&Json::Obj(payload)).is_err());
}

#[test]
fn container_null_optional_fields_read_as_absent() {
    let mut payload = summary_payload();
    payload.push(("SizeRW".to_string(), Json::Null));
    payload.push(("Labels".to_string(), Json::Null));
    let decoded = Container::decode(&Json::Obj(payload)).unwrap();
    assert_eq!(decoded.size_rw, None);
    assert_eq!(decoded.labels, None);
}

#[test]
fn container_round_trip() {
    let original = Container {
        id: "abc123".to_string(),
        image: "nginx".to_string(),
        status: "Up".to_string(),
        command: "nginx".to_string(),
        created: 1600000000,
        names: vec!["/web".to_string()],
        ports: vec![Port {
            ip: Some("0.0.0.0".to_string()),
            private_port: 80,
            public_port: Some(8080),
            ty: "tcp".to_string(),
        }],
        size_rw: Some(12),
        size_root_fs: None,
        labels: Some(vec![("team".to_string(), "infra".to_string())]),
        host_config: HostConfig { network_mode: "bridge".to_string() },
    };
    let decoded = Container::decode(&original.to_json()).unwrap();
    assert_eq!(decoded, original);
}

#[test]
fn port_round_trip_with_absent_fields() {
    let original = Port { ip: None, private_port: 443, public_port: None, ty: "tcp".to_string() };
    let decoded = Port::decode(&original.to_json()).unwrap();
    assert_eq!(decoded, original);
}

#[test]
fn state_round_trip() {
    let original = State {
        status: "exited".to_string(),
        running: false,
        paused: false,
        restarting: false,
        oom_killed: false,
        dead: false,
        pid: 0,
        exit_code: -1,
        error: "".to_string(),
        started_at: "2020-01-01T00:00:00Z".to_string(),
        finished_at: "2020-01-01T00:01:00Z".to_string(),
    };
    let decoded = State::decode(&original.to_json()).unwrap();
    assert_eq!(decoded, original);
}

#[test]
fn image_null_repo_tags_reads_as_empty_list() {
    let payload = Json::Obj(vec![
        ("Created".to_string(), Json::Num(1500000000)),
        ("Id".to_string(), Json::Str("sha256:deadbeef".to_string())),
        ("ParentId".to_string(), Json::Str("".to_string())),
        ("RepoTags".to_string(), Json::Null),
        ("Size".to_string(), Json::Num(123)),
        ("VirtualSize".to_string(), Json::Num(456)),
    ]);
    let decoded = Image::decode(&payload).unwrap();
    assert!(decoded.repo_tags.is_empty());
}

#[test]
fn image_missing_repo_tags_reads_as_empty_list() {
    let payload = Json::Obj(vec![
        ("Created".to_string(), Json::Num(1500000000)),
        ("Id".to_string(), Json::Str("sha256:deadbeef".to_string())),
        ("ParentId".to_string(), Json::Str("".to_string())),
        ("Size".to_string(), Json::Num(123)),
        ("VirtualSize".to_string(), Json::Num(456)),
    ]);
    let decoded = Image::decode(&payload).unwrap();
    assert!(decoded.repo_tags.is_empty());
}

#[test]
fn image_malformed_repo_tags_is_an_error_not_a_default() {
    let payload = Json::Obj(vec![
        ("Created".to_string(), Json::Num(1500000000)),
        ("Id".to_string(), Json::Str("sha256:deadbeef".to_string())),
        ("ParentId".to_string(), Json::Str("".to_string())),
        ("RepoTags".to_string(), Json::Num(3)),
        ("Size".to_string(), Json::Num(123)),
        ("VirtualSize".to_string(), Json::Num(456)),
    ]);
    assert!(Image::decode(&payload).is_err());
}

#[test]
fn image_round_trip() {
    let original = Image {
        created: 1500000000,
        id: "sha256:deadbeef".to_string(),
        parent_id: "".to_string(),
        repo_tags: vec!["nginx:latest".to_string(), "nginx:1".to_string()],
        size: 123,
        virtual_size: 456,
    };
    let decoded = Image::decode(&original.to_json()).unwrap();
    assert_eq!(decoded, original);
}

#[test]
fn image_status_uses_lowercase_wire_names() {
    let payload = Json::Obj(vec![("status".to_string(), Json::Str("Downloading".to_string()))]);
    let decoded = ImageStatus::decode(&payload).unwrap();
    assert_eq!(decoded.status, Some("Downloading".to_string()));
    assert_eq!(decoded.error, None);
}

#[test]
fn image_status_round_trip() {
    let original = ImageStatus { status: None, error: Some("boom".to_string()) };
    let decoded = ImageStatus::decode(&original.to_json()).unwrap();
    assert_eq!(decoded, original);
}

#[test]
fn filesystem_change_decodes_and_round_trips() {
    let payload = Json::Obj(vec![
        ("Path".to_string(), Json::Str("/etc/passwd".to_string())),
        ("Kind".to_string(), Json::Num(1)),
    ]);
    let decoded = FilesystemChange::decode(&payload).unwrap();
    assert_eq!(decoded.path, "/etc/passwd");
    assert_eq!(decoded.kind, 1);
    let again = FilesystemChange::decode(&decoded.to_json()).unwrap();
    assert_eq!(again, decoded);
}

#[test]
fn batch_decoding_localizes_failures() {
    let good = Json::Obj(summary_payload());
    let bad = Json::Obj(vec![("Id".to_string(), Json::Num(1))]);
    let rows = vec![good, bad, Json::Obj(summary_payload())];
    let decoded = Container::decode_each(&rows);
    assert_eq!(decoded.len(), 3);
    assert!(decoded[0].is_ok());
    assert!(decoded[1].is_err());
    assert!(decoded[2].is_ok());
}

#[test]
fn container_info_round_trip() {
    let original = ContainerInfo {
        app_armor_profile: "".to_string(),
        args: vec!["-g".to_string(), "daemon off;".to_string()],
        config: Config {
            attach_stderr: true,
            attach_stdin: false,
            attach_stdout: true,
            domain_name: "".to_string(),
            env: Some(vec!["PATH=/bin".to_string()]),
            exposed_ports: Some(vec![("80/tcp".to_string(), Vec::new())]),
            hostname: "abc123".to_string(),
            image: "nginx".to_string(),
            labels: vec![("team".to_string(), "infra".to_string())],
            open_stdin: false,
            stdin_once: false,
            tty: false,
            lsnr: "".to_string(),
            volumes: None,
            working_dir: "/".to_string(),
        },
        created: "2020-01-01T00:00:00Z".to_string(),
        driver: "overlay2".to_string(),
        hostname_path: "/var/lib/hostname".to_string(),
        hosts_path: "/var/lib/hosts".to_string(),
        id: "abc123".to_string(),
        image: "sha256:deadbeef".to_string(),
        log_path: "/var/log/c.log".to_string(),
        mount_label: "".to_string(),
        mounts: vec![Mount {
            source: "/data".to_string(),
            destination: "/srv".to_string(),
            mode: "rw".to_string(),
            rw: true,
            propogration: "rprivate".to_string(),
        }],
        name: "/web".to_string(),
        network_settings: NetworkSettings {
            bridge: "".to_string(),
            endpoint_id: "ep".to_string(),
            gateway: "172.17.0.1".to_string(),
            global_ipv6_address: "".to_string(),
            global_ipv6_prefix_len: 0,
            hairpin_mode: false,
            ip_address: "172.17.0.2".to_string(),
            ip_prefix_len: 16,
            ipv6_gateway: "".to_string(),
            link_local_ipv6_address: "".to_string(),
            link_local_ipv6_prefix_len: 0,
            mac_address: "02:42:ac:11:00:02".to_string(),
            networks: vec![(
                "bridge".to_string(),
                Network {
                    aliases: None,
                    endpoint_id: "ep".to_string(),
                    gateway: "172.17.0.1".to_string(),
                    global_ipv6_address: "".to_string(),
                    global_ipv6_prefix_len: 0,
                    ip_address: "172.17.0.2".to_string(),
                    ip_prefix_len: 16,
                    ipv6_gateway: "".to_string(),
                    mac_address: "02:42:ac:11:00:02".to_string(),
                    network_id: "net".to_string(),
                },
            )],
            ports: Some(vec![
                (
                    "80/tcp".to_string(),
                    Some(vec![PortMapping {
                        host_ip: "0.0.0.0".to_string(),
                        host_port: "8080".to_string(),
                    }]),
                ),
                ("443/tcp".to_string(), None),
            ]),
            sandbox_id: "sb".to_string(),
            sandbox_key: "/var/run/netns/sb".to_string(),
        },
        path: "nginx".to_string(),
        process_label: "".to_string(),
        resolv_conf_path: "/etc/resolv.conf".to_string(),
        restart_count: 0,
        state: State {
            status: "running".to_string(),
            running: true,
            paused: false,
            restarting: false,
            oom_killed: false,
            dead: false,
            pid: 4242,
            exit_code: 0,
            error: "".to_string(),
            started_at: "2020-01-01T00:00:00Z".to_string(),
            finished_at: "0001-01-01T00:00:00Z".to_string(),
        },
    };
    let decoded = ContainerInfo::decode(&original.to_json()).unwrap();
    assert_eq!(decoded, original);
}

#[test]
fn non_object_payload_fails() {
    assert!(Container::decode(&Json::Str("nope".to_string())).is_err());
    assert!(Image::decode(&Json::Null).is_err());
    assert!(FilesystemChange::decode(&Json::Arr(Vec::new())).is_err());
}
