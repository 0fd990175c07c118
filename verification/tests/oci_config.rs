use oci_bundle::oci_config::{
    allowed_devices, capabilities, config, cpu_shares, linux_resources_devices, masked_paths,
    mounts, namespaces, process, readonly_paths, resources, ClampWarning, ConfigError, ConfigOpts,
    MAX_CPU_SHARES, MIN_CPU_SHARES, NOFILE_LIMIT,
};
use serde_json::Value;

fn parse(text: &str) -> Value {
    serde_json::from_str(text).expect("the expected document is well-formed")
}

fn user() -> Value {
    parse(r#"{"uid": 1000, "gid": 1000, "additionalGids": [5, 20]}"#)
}

fn seccomp() -> Value {
    parse(r#"{"defaultAction": "SCMP_ACT_ERRNO", "syscalls": [{"names": ["read"], "action": "SCMP_ACT_ALLOW"}]}"#)
}

fn request<'a>(actor_path: &'a [u8], netns_path: &'a [u8]) -> ConfigOpts<'a> {
    ConfigOpts {
        actor_path,
        netns_path,
        args: vec!["/usr/bin/server".to_string(), "--port".to_string(), "80".to_string()],
        env: vec!["PATH=/usr/bin".to_string(), "HOME=/root".to_string()],
        user: user(),
        cwd: "/app".to_string(),
        use_resource_constraints: true,
        cpu: 50_000,
        memory: 100,
        memory_max: 200,
    }
}

const ACTOR: &[u8] = b"/var/lib/actors/a1";
const NETNS: &[u8] = b"/run/netns/a1";

const EXPECTED: &str = r#"{
    "ociVersion": "1.0.2-dev",
    "process": {
        "args": ["/usr/bin/server", "--port", "80"],
        "env": ["PATH=/usr/bin", "HOME=/root"],
        "user": {"uid": 1000, "gid": 1000, "additionalGids": [5, 20]},
        "cwd": "/app",
        "terminal": false,
        "capabilities": {
            "bounding": [
                "CAP_CHOWN", "CAP_DAC_OVERRIDE", "CAP_FSETID", "CAP_FOWNER", "CAP_MKNOD",
                "CAP_NET_RAW", "CAP_SETGID", "CAP_SETUID", "CAP_SETFCAP", "CAP_SETPCAP",
                "CAP_NET_BIND_SERVICE", "CAP_SYS_CHROOT", "CAP_KILL", "CAP_AUDIT_WRITE"
            ],
            "effective": [
                "CAP_CHOWN", "CAP_DAC_OVERRIDE", "CAP_FSETID", "CAP_FOWNER", "CAP_MKNOD",
                "CAP_NET_RAW", "CAP_SETGID", "CAP_SETUID", "CAP_SETFCAP", "CAP_SETPCAP",
                "CAP_NET_BIND_SERVICE", "CAP_SYS_CHROOT", "CAP_KILL", "CAP_AUDIT_WRITE"
            ],
            "permitted": [
                "CAP_CHOWN", "CAP_DAC_OVERRIDE", "CAP_FSETID", "CAP_FOWNER", "CAP_MKNOD",
                "CAP_NET_RAW", "CAP_SETGID", "CAP_SETUID", "CAP_SETFCAP", "CAP_SETPCAP",
                "CAP_NET_BIND_SERVICE", "CAP_SYS_CHROOT", "CAP_KILL", "CAP_AUDIT_WRITE"
            ]
        },
        "rlimits": [{"type": "RLIMIT_NOFILE", "hard": 1024, "soft": 1024}],
        "noNewPrivileges": true
    },
    "root": {"path": "rootfs", "readonly": false},
    "mounts": [
        {"destination": "/proc", "type": "proc", "source": "proc",
         "options": ["nosuid", "noexec", "nodev"]},
        {"destination": "/dev", "type": "tmpfs", "source": "tmpfs",
         "options": ["nosuid", "strictatime", "mode=755", "size=65536k"]},
        {"destination": "/dev/pts", "type": "devpts", "source": "devpts",
         "options": ["nosuid", "noexec", "newinstance", "ptmxmode=0666", "mode=0620", "gid=5"]},
        {"destination": "/dev/shm", "type": "tmpfs", "source": "shm",
         "options": ["nosuid", "noexec", "nodev", "mode=1777", "size=65536k"]},
        {"destination": "/dev/mqueue", "type": "mqueue", "source": "mqueue",
         "options": ["nosuid", "noexec", "nodev"]},
        {"destination": "/sys", "type": "sysfs", "source": "sysfs",
         "options": ["nosuid", "noexec", "nodev", "ro"]},
        {"destination": "/run", "type": "tmpfs", "source": "tmpfs",
         "options": ["nosuid", "strictatime", "mode=755", "size=65536k"]},
        {"destination": "/etc/resolv.conf", "type": "bind",
         "source": "/var/lib/actors/a1/resolv.conf", "options": ["rbind", "rprivate"]},
        {"destination": "/etc/hosts", "type": "bind",
         "source": "/var/lib/actors/a1/hosts", "options": ["rbind", "rprivate"]}
    ],
    "linux": {
        "resources": {
            "devices": [
                {"allow": false, "access": "rwm"},
                {"allow": true, "type": "c", "major": 1, "minor": 3, "access": "rwm"},
                {"allow": true, "type": "c", "major": 1, "minor": 8, "access": "rwm"},
                {"allow": true, "type": "c", "major": 1, "minor": 7, "access": "rwm"},
                {"allow": true, "type": "c", "major": 5, "minor": 0, "access": "rwm"},
                {"allow": true, "type": "c", "major": 1, "minor": 5, "access": "rwm"},
                {"allow": true, "type": "c", "major": 1, "minor": 9, "access": "rwm"},
                {"allow": true, "type": "c", "major": 5, "minor": 1, "access": "rwm"},
                {"allow": true, "type": "c", "major": 136, "access": "rwm"},
                {"allow": true, "type": "c", "major": 5, "minor": 2, "access": "rwm"}
            ],
            "cpu": {"shares": 5000},
            "memory": {"reservation": 100, "limit": 200}
        },
        "namespaces": [
            {"type": "pid"},
            {"type": "ipc"},
            {"type": "uts"},
            {"type": "mount"},
            {"type": "network", "path": "/run/netns/a1"}
        ],
        "maskedPaths": [
            "/proc/acpi", "/proc/asound", "/proc/kcore", "/proc/keys", "/proc/latency_stats",
            "/proc/timer_list", "/proc/timer_stats", "/proc/sched_debug", "/sys/firmware",
            "/proc/scsi"
        ],
        "readonlyPaths": [
            "/proc/bus", "/proc/fs", "/proc/irq", "/proc/sys", "/proc/sysrq-trigger"
        ],
        "seccomp": {
            "defaultAction": "SCMP_ACT_ERRNO",
            "syscalls": [{"names": ["read"], "action": "SCMP_ACT_ALLOW"}]
        }
    }
}"#;

#[test]
fn config_gives_the_whole_document() {
    let document = config(request(ACTOR, NETNS), seccomp()).unwrap();
    assert_eq!(document, parse(EXPECTED));
}

#[test]
fn config_has_the_five_top_level_sections() {
    let document = config(request(ACTOR, NETNS), seccomp()).unwrap();
    let keys: Vec<&String> = document.as_object().unwrap().keys().collect();
    assert_eq!(keys.len(), 5);
    for key in ["ociVersion", "process", "root", "mounts", "linux"] {
        assert!(document.get(key).is_some(), "missing {}", key);
    }
    let linux: Vec<&String> = document["linux"].as_object().unwrap().keys().collect();
    assert_eq!(linux.len(), 5);
    for key in ["resources", "namespaces", "maskedPaths", "readonlyPaths", "seccomp"] {
        assert!(document["linux"].get(key).is_some(), "missing {}", key);
    }
    assert_eq!(document["ociVersion"], Value::from("1.0.2-dev"));
}

#[test]
fn cpu_weight_is_a_tenth_of_the_allotment() {
    let weight = cpu_shares(50_000);
    assert_eq!(weight.shares, 5_000);
    assert_eq!(weight.warning, None);
    assert_eq!(cpu_shares(12_345).shares, 1_234);
    assert_eq!(cpu_shares(19).shares, 1);
    assert_eq!(cpu_shares(19).warning, None);
}

#[test]
fn cpu_weight_above_the_range_is_clamped() {
    let weight = cpu_shares(200_000);
    assert_eq!(weight.shares, 10_000);
    assert_eq!(weight.warning, Some(ClampWarning::AboveMaximum));
    let weight = cpu_shares(u64::MAX);
    assert_eq!(weight.shares, MAX_CPU_SHARES);
    assert_eq!(weight.warning, Some(ClampWarning::AboveMaximum));
}

#[test]
fn cpu_weight_below_the_range_is_clamped() {
    let weight = cpu_shares(5);
    assert_eq!(weight.shares, 1);
    assert_eq!(weight.warning, Some(ClampWarning::BelowMinimum));
    let weight = cpu_shares(0);
    assert_eq!(weight.shares, MIN_CPU_SHARES);
    assert_eq!(weight.warning, Some(ClampWarning::BelowMinimum));
}

#[test]
fn cpu_weight_at_the_bounds_of_the_range() {
    assert_eq!(cpu_shares(9).shares, 1);
    assert_eq!(cpu_shares(9).warning, Some(ClampWarning::BelowMinimum));
    assert_eq!(cpu_shares(10).shares, 1);
    assert_eq!(cpu_shares(10).warning, None);
    assert_eq!(cpu_shares(100_000).shares, 10_000);
    assert_eq!(cpu_shares(100_009).shares, 10_000);
    assert_eq!(cpu_shares(100_009).warning, None);
    assert_eq!(cpu_shares(100_010).shares, 10_000);
    assert_eq!(cpu_shares(100_010).warning, Some(ClampWarning::AboveMaximum));
}

#[test]
fn clamped_weights_reach_the_document() {
    let mut opts = request(ACTOR, NETNS);
    opts.cpu = 200_000;
    let document = config(opts, seccomp()).unwrap();
    assert_eq!(document["linux"]["resources"]["cpu"], parse(r#"{"shares": 10000}"#));
    let mut opts = request(ACTOR, NETNS);
    opts.cpu = 5;
    let document = config(opts, seccomp()).unwrap();
    assert_eq!(document["linux"]["resources"]["cpu"], parse(r#"{"shares": 1}"#));
}

#[test]
fn resources_without_constraints_have_no_cpu_and_no_memory() {
    let mut opts = request(ACTOR, NETNS);
    opts.use_resource_constraints = false;
    let document = config(opts, seccomp()).unwrap();
    let section = document["linux"]["resources"].as_object().unwrap();
    assert!(!section.contains_key("cpu"));
    assert!(!section.contains_key("memory"));
    assert_eq!(section.len(), 1);
    assert_eq!(section["devices"], linux_resources_devices());

    let section = resources(false, 50_000, 100, 200);
    assert!(section.get("cpu").is_none());
    assert!(section.get("memory").is_none());
}

#[test]
fn memory_is_taken_as_given() {
    let document = config(request(ACTOR, NETNS), seccomp()).unwrap();
    assert_eq!(
        document["linux"]["resources"]["memory"],
        parse(r#"{"reservation": 100, "limit": 200}"#)
    );
    let section = resources(true, 1_000, 100, 200);
    assert_eq!(section["memory"], parse(r#"{"reservation": 100, "limit": 200}"#));
    assert_eq!(section["cpu"], parse(r#"{"shares": 100}"#));
}

#[test]
fn memory_reservation_above_the_limit_is_not_refused() {
    let section = resources(true, 1_000, 500, 200);
    assert_eq!(section["memory"], parse(r#"{"reservation": 500, "limit": 200}"#));
    let section = resources(true, 1_000, u64::MAX, 0);
    assert_eq!(section["memory"]["reservation"], Value::from(u64::MAX));
    assert_eq!(section["memory"]["limit"], Value::from(0u64));
}

#[test]
fn mount_table_has_nine_entries_in_order() {
    let table = mounts(&request(ACTOR, NETNS)).unwrap();
    let entries = table.as_array().unwrap();
    assert_eq!(entries.len(), 9);
    let destinations: Vec<&str> =
        entries.iter().map(|entry| entry["destination"].as_str().unwrap()).collect();
    assert_eq!(
        destinations,
        vec![
            "/proc",
            "/dev",
            "/dev/pts",
            "/dev/shm",
            "/dev/mqueue",
            "/sys",
            "/run",
            "/etc/resolv.conf",
            "/etc/hosts"
        ]
    );
    let kinds: Vec<&str> = entries.iter().map(|entry| entry["type"].as_str().unwrap()).collect();
    assert_eq!(
        kinds,
        vec!["proc", "tmpfs", "devpts", "tmpfs", "mqueue", "sysfs", "tmpfs", "bind", "bind"]
    );
}

#[test]
fn mount_table_varies_in_the_two_sources_only() {
    let first = mounts(&request(b"/a", NETNS)).unwrap();
    let second = mounts(&request(b"/somewhere/else", b"/other")).unwrap();
    for i in 0..7 {
        assert_eq!(first[i], second[i]);
    }
    for i in 7..9 {
        let mut left = first[i].as_object().unwrap().clone();
        let mut right = second[i].as_object().unwrap().clone();
        assert_ne!(left["source"], right["source"]);
        left.remove("source");
        right.remove("source");
        assert_eq!(left, right);
    }
    assert_eq!(first[7]["source"], Value::from("/a/resolv.conf"));
    assert_eq!(first[8]["source"], Value::from("/a/hosts"));
    assert_eq!(second[7]["source"], Value::from("/somewhere/else/resolv.conf"));
    assert_eq!(second[8]["source"], Value::from("/somewhere/else/hosts"));
}

#[test]
fn mount_sources_follow_the_directory() {
    let table = mounts(&request(b"/a/", NETNS)).unwrap();
    assert_eq!(table[7]["source"], Value::from("/a/resolv.conf"));
    assert_eq!(table[8]["source"], Value::from("/a/hosts"));
    let table = mounts(&request(b"", NETNS)).unwrap();
    assert_eq!(table[7]["source"], Value::from("resolv.conf"));
    assert_eq!(table[8]["source"], Value::from("hosts"));
    let table = mounts(&request(b"relative/dir", NETNS)).unwrap();
    assert_eq!(table[7]["source"], Value::from("relative/dir/resolv.conf"));
    let table = mounts(&request("/données/acteur".as_bytes(), NETNS)).unwrap();
    assert_eq!(table[7]["source"], Value::from("/données/acteur/resolv.conf"));
    assert_eq!(table[8]["source"], Value::from("/données/acteur/hosts"));
}

#[test]
fn mount_table_is_part_of_the_document() {
    let document = config(request(ACTOR, NETNS), seccomp()).unwrap();
    assert_eq!(document["mounts"], mounts(&request(ACTOR, NETNS)).unwrap());
}

#[test]
fn device_rules_deny_all_then_allow_nine() {
    let rules = linux_resources_devices();
    let entries = rules.as_array().unwrap();
    assert_eq!(entries.len(), 10);
    assert_eq!(entries[0], parse(r#"{"allow": false, "access": "rwm"}"#));
    let expected: [(u64, Option<u64>); 9] = [
        (1, Some(3)),
        (1, Some(8)),
        (1, Some(7)),
        (5, Some(0)),
        (1, Some(5)),
        (1, Some(9)),
        (5, Some(1)),
        (136, None),
        (5, Some(2)),
    ];
    assert_eq!(allowed_devices(), expected.to_vec());
    for (i, (major, minor)) in expected.iter().enumerate() {
        let rule = entries[i + 1].as_object().unwrap();
        assert_eq!(rule["allow"], Value::Bool(true));
        assert_eq!(rule["type"], Value::from("c"));
        assert_eq!(rule["access"], Value::from("rwm"));
        assert_eq!(rule["major"], Value::from(*major));
        match minor {
            Some(minor) => {
                assert_eq!(rule["minor"], Value::from(*minor));
                assert_eq!(rule.len(), 5);
            }
            None => {
                assert!(!rule.contains_key("minor"));
                assert_eq!(rule.len(), 4);
            }
        }
    }
}

#[test]
fn device_rules_do_not_depend_on_the_request() {
    let mut other = request(b"/elsewhere", b"/run/netns/b2");
    other.cpu = 1;
    other.memory = 7;
    other.use_resource_constraints = false;
    let first = config(request(ACTOR, NETNS), seccomp()).unwrap();
    let second = config(other, Value::Null).unwrap();
    assert_eq!(first["linux"]["resources"]["devices"], linux_resources_devices());
    assert_eq!(second["linux"]["resources"]["devices"], linux_resources_devices());
}

#[test]
fn namespaces_are_five_and_the_network_one_has_the_path() {
    let list = namespaces(NETNS).unwrap();
    assert_eq!(
        list,
        parse(
            r#"[{"type": "pid"}, {"type": "ipc"}, {"type": "uts"}, {"type": "mount"},
                {"type": "network", "path": "/run/netns/a1"}]"#
        )
    );
    let entries = list.as_array().unwrap();
    assert_eq!(entries.len(), 5);
    for entry in &entries[..4] {
        assert!(entry.get("path").is_none());
    }
    assert_eq!(entries[4]["path"].as_str().unwrap().as_bytes(), NETNS);
}

#[test]
fn network_namespace_path_is_kept_byte_for_byte() {
    let path = "/run/netns/ünï-cödé space/../x//".as_bytes();
    let document = config(request(ACTOR, path), seccomp()).unwrap();
    let entry = &document["linux"]["namespaces"][4];
    assert_eq!(entry["type"], Value::from("network"));
    assert_eq!(entry["path"].as_str().unwrap().as_bytes(), path);
    let list = namespaces(b"").unwrap();
    assert_eq!(list[4]["path"], Value::from(""));
}

#[test]
fn synthesis_twice_gives_equal_documents() {
    let first = config(request(ACTOR, NETNS), seccomp()).unwrap();
    let second = config(request(ACTOR, NETNS), seccomp()).unwrap();
    assert_eq!(first, second);
    assert_eq!(
        serde_json::to_string(&first).unwrap(),
        serde_json::to_string(&second).unwrap()
    );
    let first = config(request(b"\xff", NETNS), seccomp());
    let second = config(request(b"\xff", NETNS), seccomp());
    assert_eq!(first, second);
}

#[test]
fn actor_directory_without_text_form_fails() {
    let result = config(request(b"/var/lib/\xff\xfe/actor", NETNS), seccomp());
    assert_eq!(result, Err(ConfigError::ResolvConfPath));
    let result = mounts(&request(b"/var/lib/\xc3", NETNS));
    assert_eq!(result, Err(ConfigError::ResolvConfPath));
    let result = mounts(&request(b"\x80", NETNS));
    assert_eq!(result, Err(ConfigError::ResolvConfPath));
}

#[test]
fn network_namespace_path_without_text_form_fails() {
    let result = config(request(ACTOR, b"/run/netns/\xff"), seccomp());
    assert_eq!(result, Err(ConfigError::NetnsPath));
    assert_eq!(namespaces(b"\xed\xa0\x80"), Err(ConfigError::NetnsPath));
    assert_eq!(namespaces(b"\xc0\xaf"), Err(ConfigError::NetnsPath));
}

#[test]
fn actor_directory_is_looked_at_before_the_network_namespace() {
    let result = config(request(b"\xff", b"\xff"), seccomp());
    assert_eq!(result, Err(ConfigError::ResolvConfPath));
}

#[test]
fn errors_name_the_path() {
    assert_eq!(ConfigError::ResolvConfPath.message(), "resolv.conf path");
    assert_eq!(ConfigError::HostsPath.message(), "hosts path");
    assert_eq!(ConfigError::NetnsPath.message(), "netns_path");
}

#[test]
fn capabilities_are_the_fourteen() {
    assert_eq!(
        capabilities(),
        vec![
            "CAP_CHOWN",
            "CAP_DAC_OVERRIDE",
            "CAP_FSETID",
            "CAP_FOWNER",
            "CAP_MKNOD",
            "CAP_NET_RAW",
            "CAP_SETGID",
            "CAP_SETUID",
            "CAP_SETFCAP",
            "CAP_SETPCAP",
            "CAP_NET_BIND_SERVICE",
            "CAP_SYS_CHROOT",
            "CAP_KILL",
            "CAP_AUDIT_WRITE",
        ]
    );
}

#[test]
fn capability_sets_are_three_and_alike() {
    let document = config(request(ACTOR, NETNS), seccomp()).unwrap();
    let sets = document["process"]["capabilities"].as_object().unwrap();
    assert_eq!(sets.len(), 3);
    let expected: Vec<Value> = capabilities().into_iter().map(Value::from).collect();
    for name in ["bounding", "effective", "permitted"] {
        assert_eq!(sets[name], Value::Array(expected.clone()));
    }
    assert!(!sets.contains_key("ambient"));
    assert!(!sets.contains_key("inheritable"));
}

#[test]
fn process_section_takes_the_request_as_it_is() {
    let args = vec!["sh".to_string(), "-c".to_string(), "echo \"hi\"".to_string()];
    let env = vec!["A=1".to_string(), "B=".to_string()];
    let section = process(&args, &env, parse(r#"{"uid": 0, "gid": 0}"#), "/");
    assert_eq!(section["args"], parse(r#"["sh", "-c", "echo \"hi\""]"#));
    assert_eq!(section["env"], parse(r#"["A=1", "B="]"#));
    assert_eq!(section["user"], parse(r#"{"uid": 0, "gid": 0}"#));
    assert_eq!(section["cwd"], Value::from("/"));
    assert_eq!(section["terminal"], Value::Bool(false));
    assert_eq!(section["noNewPrivileges"], Value::Bool(true));
    assert_eq!(
        section["rlimits"],
        parse(r#"[{"type": "RLIMIT_NOFILE", "hard": 1024, "soft": 1024}]"#)
    );
    assert_eq!(section["rlimits"][0]["soft"], Value::from(NOFILE_LIMIT));
    assert_eq!(section.as_object().unwrap().len(), 8);
}

#[test]
fn process_section_with_empty_lists() {
    let section = process(&Vec::new(), &Vec::new(), Value::Null, "");
    assert_eq!(section["args"], parse("[]"));
    assert_eq!(section["env"], parse("[]"));
    assert_eq!(section["user"], Value::Null);
    assert_eq!(section["cwd"], Value::from(""));
}

#[test]
fn user_and_filter_are_placed_as_given() {
    let mut opts = request(ACTOR, NETNS);
    opts.user = parse(r#"{"uid": 7, "gid": 8, "umask": 18, "extra": [null, 1.5, "x"]}"#);
    let filter = parse(r#"{"architectures": ["SCMP_ARCH_X86_64"], "nested": {"deep": [true]}}"#);
    let document = config(opts, filter.clone()).unwrap();
    assert_eq!(
        document["process"]["user"],
        parse(r#"{"uid": 7, "gid": 8, "umask": 18, "extra": [null, 1.5, "x"]}"#)
    );
    assert_eq!(document["linux"]["seccomp"], filter);
}

#[test]
fn root_is_the_writable_rootfs() {
    let document = config(request(ACTOR, NETNS), seccomp()).unwrap();
    assert_eq!(document["root"], parse(r#"{"path": "rootfs", "readonly": false}"#));
}

#[test]
fn masked_and_readonly_paths_are_fixed() {
    assert_eq!(
        masked_paths(),
        vec![
            "/proc/acpi",
            "/proc/asound",
            "/proc/kcore",
            "/proc/keys",
            "/proc/latency_stats",
            "/proc/timer_list",
            "/proc/timer_stats",
            "/proc/sched_debug",
            "/sys/firmware",
            "/proc/scsi",
        ]
    );
    assert_eq!(
        readonly_paths(),
        vec!["/proc/bus", "/proc/fs", "/proc/irq", "/proc/sys", "/proc/sysrq-trigger"]
    );
    let mut opts = request(b"/x", b"/y");
    opts.use_resource_constraints = false;
    let document = config(opts, Value::Null).unwrap();
    let masked: Vec<Value> = masked_paths().into_iter().map(Value::from).collect();
    let readonly: Vec<Value> = readonly_paths().into_iter().map(Value::from).collect();
    assert_eq!(document["linux"]["maskedPaths"], Value::Array(masked));
    assert_eq!(document["linux"]["readonlyPaths"], Value::Array(readonly));
}
