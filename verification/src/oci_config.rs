//! The runtime configuration document of an actor's sandbox bundle.
use vstd::prelude::*;
use vstd::string::StringSliceAdditionalSpecFns;
use crate::json::{
    json_array, json_bool, json_model, json_number, json_object, json_string, members_new, put,
    string_array, text, text_array, texts, Json,
};
use crate::path::{join, join_spec, path_text, to_text};

verus! {

/// What is asked of the sandbox of one actor.
pub struct ConfigOpts<'a> {
    /// The bytes of the path of the directory that holds the files made for
    /// the actor.
    pub actor_path: &'a [u8],
    /// The bytes of the path of the actor's network namespace.
    pub netns_path: &'a [u8],
    /// The command line of the process; the executable comes first.
    pub args: Vec<String>,
    /// The environment of the process, as `KEY=VALUE` entries.
    pub env: Vec<String>,
    /// The user that the process runs as: a document that is handed on as it
    /// is.
    pub user: serde_json::Value,
    /// The working directory of the process.
    pub cwd: String,
    /// Whether the CPU and memory limits bind the sandbox.
    pub use_resource_constraints: bool,
    /// The CPU allotment, in thousandths of a core.
    pub cpu: u64,
    /// The memory that is reserved, in bytes.
    pub memory: u64,
    /// The memory that may be used at most, in bytes.
    pub memory_max: u64,
}

/// A request as a mathematical value.
pub struct ConfigRequest {
    pub actor_path: Seq<u8>,
    pub netns_path: Seq<u8>,
    pub args: Seq<Seq<char>>,
    pub env: Seq<Seq<char>>,
    pub user: Json,
    pub cwd: Seq<char>,
    pub use_resource_constraints: bool,
    pub cpu: u64,
    pub memory: u64,
    pub memory_max: u64,
}

impl<'a> View for ConfigOpts<'a> {
    type V = ConfigRequest;

    open spec fn view(&self) -> ConfigRequest {
        ConfigRequest {
            actor_path: self.actor_path@,
            netns_path: self.netns_path@,
            args: self.args.deep_view(),
            env: self.env.deep_view(),
            user: json_model(self.user),
            cwd: self.cwd@,
            use_resource_constraints: self.use_resource_constraints,
            cpu: self.cpu,
            memory: self.memory,
            memory_max: self.memory_max,
        }
    }
}

/// The Linux capabilities that the sandboxed process holds, in the order in
/// which they are listed.
pub open spec fn capabilities_spec() -> Seq<Seq<char>> {
    seq![
        "CAP_CHOWN"@,
        "CAP_DAC_OVERRIDE"@,
        "CAP_FSETID"@,
        "CAP_FOWNER"@,
        "CAP_MKNOD"@,
        "CAP_NET_RAW"@,
        "CAP_SETGID"@,
        "CAP_SETUID"@,
        "CAP_SETFCAP"@,
        "CAP_SETPCAP"@,
        "CAP_NET_BIND_SERVICE"@,
        "CAP_SYS_CHROOT"@,
        "CAP_KILL"@,
        "CAP_AUDIT_WRITE"@,
    ]
}

/// The capabilities granted to the sandboxed process: the same narrow set
/// for every actor.
pub fn capabilities() -> (caps: Vec<&'static str>)
    ensures
        caps.deep_view() == capabilities_spec(),
{
    let caps: Vec<&'static str> = vec![
        "CAP_CHOWN",
        "CAP_DAC_OVERRIDE",
        "CAP_FSETID",
        "CAP_FOWNER",
        "CAP_MKNOD",
        "CAP_NET_RAW",
        "CAP_SETGID",
        "CAP_SETUID",
        "CAP_SETFCAP",
        "CAP_SETPCAP",
        "CAP_NET_BIND_SERVICE",
        "CAP_SYS_CHROOT",
        "CAP_KILL",
        "CAP_AUDIT_WRITE",
    ];
    assert(caps.deep_view() =~= capabilities_spec());
    caps
}

/// The character devices that the sandboxed process may use, by major and
/// minor number. An entry without a minor number stands for every device of
/// its major number.
pub open spec fn allowed_devices_spec() -> Seq<(u64, Option<u64>)> {
    seq![
        (1u64, Some(3u64)),
        (1u64, Some(8u64)),
        (1u64, Some(7u64)),
        (5u64, Some(0u64)),
        (1u64, Some(5u64)),
        (1u64, Some(9u64)),
        (5u64, Some(1u64)),
        (136u64, None),
        (5u64, Some(2u64)),
    ]
}

/// The rule that denies access to every device.
pub open spec fn deny_all_devices_spec() -> Json {
    Json::Object(
        Map::<Seq<char>, Json>::empty().insert("allow"@, Json::Bool(false)).insert(
            "access"@,
            Json::Text("rwm"@),
        ),
    )
}

/// The rule that allows full access to one character device, or to all of
/// one major number.
pub open spec fn allow_device_spec(device: (u64, Option<u64>)) -> Json {
    let fixed = Map::<Seq<char>, Json>::empty().insert("allow"@, Json::Bool(true)).insert(
        "type"@,
        Json::Text("c"@),
    ).insert("major"@, Json::Number(device.0 as int));
    let numbered = match device.1 {
        Some(minor) => fixed.insert("minor"@, Json::Number(minor as int)),
        None => fixed,
    };
    Json::Object(numbered.insert("access"@, Json::Text("rwm"@)))
}

/// The device rules of the sandbox: deny everything, then allow the listed
/// devices one by one.
pub open spec fn devices_spec() -> Json {
    Json::Array(
        seq![deny_all_devices_spec()] + Seq::new(
            allowed_devices_spec().len(),
            |i: int| allow_device_spec(allowed_devices_spec()[i]),
        ),
    )
}

/// The character devices that the sandboxed process may use.
pub fn allowed_devices() -> (devices: Vec<(u64, Option<u64>)>)
    ensures
        devices@ == allowed_devices_spec(),
{
    let devices: Vec<(u64, Option<u64>)> = vec![
        (1u64, Some(3u64)),
        (1u64, Some(8u64)),
        (1u64, Some(7u64)),
        (5u64, Some(0u64)),
        (1u64, Some(5u64)),
        (1u64, Some(9u64)),
        (5u64, Some(1u64)),
        (136u64, None),
        (5u64, Some(2u64)),
    ];
    assert(devices@ =~= allowed_devices_spec());
    devices
}

fn deny_all_devices() -> (rule: serde_json::Value)
    ensures
        json_model(rule) == deny_all_devices_spec(),
{
    let mut members = members_new();
    put(&mut members, "allow", json_bool(false));
    put(&mut members, "access", text("rwm"));
    json_object(members)
}

fn allow_device(device: (u64, Option<u64>)) -> (rule: serde_json::Value)
    ensures
        json_model(rule) == allow_device_spec(device),
{
    let mut members = members_new();
    put(&mut members, "allow", json_bool(true));
    put(&mut members, "type", text("c"));
    put(&mut members, "major", json_number(device.0));
    match device.1 {
        Some(minor) => {
            put(&mut members, "minor", json_number(minor));
        },
        None => {},
    }
    put(&mut members, "access", text("rwm"));
    json_object(members)
}

/// The device rules of the sandbox. They do not depend on the actor.
pub fn linux_resources_devices() -> (rules: serde_json::Value)
    ensures
        json_model(rules) == devices_spec(),
{
    let devices = allowed_devices();
    let mut rules: Vec<serde_json::Value> = Vec::new();
    rules.push(deny_all_devices());
    let mut i: usize = 0;
    while i < devices.len()
        invariant
            i <= devices.len(),
            devices@ == allowed_devices_spec(),
            rules.len() == i + 1,
            json_model(rules@[0]) == deny_all_devices_spec(),
            forall|k: int|
                1 <= k <= i ==> json_model(#[trigger] rules@[k]) == allow_device_spec(
                    devices@[k - 1],
                ),
        decreases devices.len() - i,
    {
        rules.push(allow_device(devices[i]));
        i = i + 1;
    }
    assert(rules@.map_values(|item: serde_json::Value| json_model(item))
        =~= devices_spec().items());
    json_array(rules)
}

/// One entry of the mount table.
pub open spec fn mount_spec(
    destination: Seq<char>,
    kind: Seq<char>,
    source: Seq<char>,
    options: Seq<Seq<char>>,
) -> Json {
    Json::Object(
        Map::<Seq<char>, Json>::empty().insert("destination"@, Json::Text(destination)).insert(
            "type"@,
            Json::Text(kind),
        ).insert("source"@, Json::Text(source)).insert("options"@, texts(options)),
    )
}

/// The entry that binds the file `source` of the host to `destination`.
pub open spec fn bind_mount_spec(destination: Seq<char>, source: Seq<char>) -> Json {
    mount_spec(destination, "bind"@, source, seq!["rbind"@, "rprivate"@])
}

/// The pseudo-filesystems of the sandbox, in the order in which they are
/// mounted.
pub open spec fn pseudo_mounts_spec() -> Seq<Json> {
    seq![
        mount_spec("/proc"@, "proc"@, "proc"@, seq!["nosuid"@, "noexec"@, "nodev"@]),
        mount_spec(
            "/dev"@,
            "tmpfs"@,
            "tmpfs"@,
            seq!["nosuid"@, "strictatime"@, "mode=755"@, "size=65536k"@],
        ),
        mount_spec(
            "/dev/pts"@,
            "devpts"@,
            "devpts"@,
            seq!["nosuid"@, "noexec"@, "newinstance"@, "ptmxmode=0666"@, "mode=0620"@, "gid=5"@],
        ),
        mount_spec(
            "/dev/shm"@,
            "tmpfs"@,
            "shm"@,
            seq!["nosuid"@, "noexec"@, "nodev"@, "mode=1777"@, "size=65536k"@],
        ),
        mount_spec("/dev/mqueue"@, "mqueue"@, "mqueue"@, seq!["nosuid"@, "noexec"@, "nodev"@]),
        mount_spec("/sys"@, "sysfs"@, "sysfs"@, seq!["nosuid"@, "noexec"@, "nodev"@, "ro"@]),
        mount_spec(
            "/run"@,
            "tmpfs"@,
            "tmpfs"@,
            seq!["nosuid"@, "strictatime"@, "mode=755"@, "size=65536k"@],
        ),
    ]
}

/// The mount table: the pseudo-filesystems, then the two files of the actor,
/// given by the text of their paths on the host.
pub open spec fn mounts_spec(resolv_conf: Seq<char>, hosts: Seq<char>) -> Json {
    Json::Array(
        pseudo_mounts_spec() + seq![
            bind_mount_spec("/etc/resolv.conf"@, resolv_conf),
            bind_mount_spec("/etc/hosts"@, hosts),
        ],
    )
}

/// The path of the actor's `resolv.conf` on the host.
pub open spec fn resolv_conf_path(actor_path: Seq<u8>) -> Seq<u8> {
    join_spec(actor_path, "resolv.conf".spec_bytes())
}

/// The path of the actor's `hosts` file on the host.
pub open spec fn hosts_path(actor_path: Seq<u8>) -> Seq<u8> {
    join_spec(actor_path, "hosts".spec_bytes())
}

/// Why no document could be made.
#[derive(Debug, Clone, Copy, PartialEq, Eq, Structural)]
pub enum ConfigError {
    /// The path of the actor's `resolv.conf` has no text form.
    ResolvConfPath,
    /// The path of the actor's `hosts` file has no text form.
    HostsPath,
    /// The path of the network namespace has no text form.
    NetnsPath,
}

impl ConfigError {
    /// The name of the path that could not be converted.
    pub fn message(&self) -> (message: String)
        ensures
            message@ == match *self {
                ConfigError::ResolvConfPath => "resolv.conf path"@,
                ConfigError::HostsPath => "hosts path"@,
                ConfigError::NetnsPath => "netns_path"@,
            },
    {
        match self {
            ConfigError::ResolvConfPath => "resolv.conf path".to_owned(),
            ConfigError::HostsPath => "hosts path".to_owned(),
            ConfigError::NetnsPath => "netns_path".to_owned(),
        }
    }
}

/// What a fallible step gave, with the document in place of the value that
/// holds it.
pub open spec fn outcome(result: Result<serde_json::Value, ConfigError>) -> Result<
    Json,
    ConfigError,
> {
    match result {
        Ok(value) => Ok(json_model(value)),
        Err(error) => Err(error),
    }
}

/// The mount table of the actor whose directory is `actor_path`, or the
/// first of its two files whose path has no text form.
pub open spec fn mounts_outcome(actor_path: Seq<u8>) -> Result<Json, ConfigError> {
    match path_text(resolv_conf_path(actor_path)) {
        None => Err(ConfigError::ResolvConfPath),
        Some(resolv_conf) => match path_text(hosts_path(actor_path)) {
            None => Err(ConfigError::HostsPath),
            Some(hosts) => Ok(mounts_spec(resolv_conf, hosts)),
        },
    }
}

fn mount(
    destination: &str,
    kind: &str,
    source: &str,
    options: Vec<&'static str>,
) -> (entry: serde_json::Value)
    ensures
        json_model(entry) == mount_spec(destination@, kind@, source@, options.deep_view()),
{
    let mut members = members_new();
    put(&mut members, "destination", text(destination));
    put(&mut members, "type", text(kind));
    put(&mut members, "source", text(source));
    put(&mut members, "options", text_array(options.as_slice()));
    json_object(members)
}

fn bind_mount(destination: &str, source: &str) -> (entry: serde_json::Value)
    ensures
        json_model(entry) == bind_mount_spec(destination@, source@),
{
    let options: Vec<&'static str> = vec!["rbind", "rprivate"];
    assert(options.deep_view() =~= seq!["rbind"@, "rprivate"@]);
    mount(destination, "bind", source, options)
}

fn pseudo_mounts() -> (entries: Vec<serde_json::Value>)
    ensures
        entries@.map_values(|item: serde_json::Value| json_model(item)) == pseudo_mounts_spec(),
{
    let mut entries: Vec<serde_json::Value> = Vec::new();

    let options: Vec<&'static str> = vec!["nosuid", "noexec", "nodev"];
    assert(options.deep_view() =~= seq!["nosuid"@, "noexec"@, "nodev"@]);
    entries.push(mount("/proc", "proc", "proc", options));

    let options: Vec<&'static str> = vec!["nosuid", "strictatime", "mode=755", "size=65536k"];
    assert(options.deep_view() =~= seq!["nosuid"@, "strictatime"@, "mode=755"@, "size=65536k"@]);
    entries.push(mount("/dev", "tmpfs", "tmpfs", options));

    let options: Vec<&'static str> = vec![
        "nosuid",
        "noexec",
        "newinstance",
        "ptmxmode=0666",
        "mode=0620",
        "gid=5",
    ];
    assert(options.deep_view() =~= seq![
        "nosuid"@,
        "noexec"@,
        "newinstance"@,
        "ptmxmode=0666"@,
        "mode=0620"@,
        "gid=5"@,
    ]);
    entries.push(mount("/dev/pts", "devpts", "devpts", options));

    let options: Vec<&'static str> = vec!["nosuid", "noexec", "nodev", "mode=1777", "size=65536k"];
    assert(options.deep_view() =~= seq![
        "nosuid"@,
        "noexec"@,
        "nodev"@,
        "mode=1777"@,
        "size=65536k"@,
    ]);
    entries.push(mount("/dev/shm", "tmpfs", "shm", options));

    let options: Vec<&'static str> = vec!["nosuid", "noexec", "nodev"];
    assert(options.deep_view() =~= seq!["nosuid"@, "noexec"@, "nodev"@]);
    entries.push(mount("/dev/mqueue", "mqueue", "mqueue", options));

    let options: Vec<&'static str> = vec!["nosuid", "noexec", "nodev", "ro"];
    assert(options.deep_view() =~= seq!["nosuid"@, "noexec"@, "nodev"@, "ro"@]);
    entries.push(mount("/sys", "sysfs", "sysfs", options));

    let options: Vec<&'static str> = vec!["nosuid", "strictatime", "mode=755", "size=65536k"];
    assert(options.deep_view() =~= seq!["nosuid"@, "strictatime"@, "mode=755"@, "size=65536k"@]);
    entries.push(mount("/run", "tmpfs", "tmpfs", options));

    assert(entries@.map_values(|item: serde_json::Value| json_model(item))
        =~= pseudo_mounts_spec());
    entries
}

/// The mount table of the actor.
///
/// Fails where the path of one of the actor's two files has no text form,
/// with the first of them.
pub fn mounts(opts: &ConfigOpts) -> (result: Result<serde_json::Value, ConfigError>)
    ensures
        outcome(result) == mounts_outcome(opts@.actor_path),
{
    let actor_path = opts.actor_path;
    let resolv_conf = match to_text(join(actor_path, "resolv.conf".as_bytes()).as_slice()) {
        Some(source) => source,
        None => {
            return Err(ConfigError::ResolvConfPath);
        },
    };
    let hosts = match to_text(join(actor_path, "hosts".as_bytes()).as_slice()) {
        Some(source) => source,
        None => {
            return Err(ConfigError::HostsPath);
        },
    };
    let mut entries = pseudo_mounts();
    entries.push(bind_mount("/etc/resolv.conf", resolv_conf.as_str()));
    entries.push(bind_mount("/etc/hosts", hosts.as_str()));
    assert(entries@.map_values(|item: serde_json::Value| json_model(item)) =~= mounts_spec(
        resolv_conf@,
        hosts@,
    ).items());
    Ok(json_array(entries))
}

/// The least CPU weight that the kernel accepts.
pub const MIN_CPU_SHARES: u64 = 1;

/// The greatest CPU weight that the kernel accepts.
pub const MAX_CPU_SHARES: u64 = 10_000;

/// A CPU weight that had to be moved into the range that the kernel accepts.
#[derive(Debug, Clone, Copy, PartialEq, Eq, Structural)]
pub enum ClampWarning {
    /// The allotment gave a weight above the greatest, which was taken
    /// instead.
    AboveMaximum,
    /// The allotment gave a weight below the least, which was taken instead.
    BelowMinimum,
}

/// The CPU weight of a sandbox, with the warning that its computation gave.
#[derive(Debug, Clone, Copy)]
pub struct CpuShares {
    pub shares: u64,
    pub warning: Option<ClampWarning>,
}

/// The CPU weight for an allotment of `cpu` thousandths of a core: a tenth
/// of it, moved into the range that the kernel accepts.
pub open spec fn cpu_shares_spec(cpu: u64) -> u64 {
    if cpu / 10 > MAX_CPU_SHARES {
        MAX_CPU_SHARES
    } else if cpu / 10 < MIN_CPU_SHARES {
        MIN_CPU_SHARES
    } else {
        cpu / 10
    }
}

/// The warning that the weight for `cpu` comes with.
pub open spec fn clamp_warning_spec(cpu: u64) -> Option<ClampWarning> {
    if cpu / 10 > MAX_CPU_SHARES {
        Some(ClampWarning::AboveMaximum)
    } else if cpu / 10 < MIN_CPU_SHARES {
        Some(ClampWarning::BelowMinimum)
    } else {
        None
    }
}

/// The CPU weight for an allotment of `cpu` thousandths of a core.
///
/// Weights are relative, so the unit does not matter as long as the ratios
/// between the actors are kept. An allotment whose tenth lies outside the
/// range is not refused: the nearest bound is taken, and a warning says so.
pub fn cpu_shares(cpu: u64) -> (weight: CpuShares)
    ensures
        weight.shares == cpu_shares_spec(cpu),
        weight.warning == clamp_warning_spec(cpu),
        MIN_CPU_SHARES <= weight.shares <= MAX_CPU_SHARES,
{
    let raw: u64 = cpu / 10;
    if raw > MAX_CPU_SHARES {
        CpuShares { shares: MAX_CPU_SHARES, warning: Some(ClampWarning::AboveMaximum) }
    } else if raw < MIN_CPU_SHARES {
        CpuShares { shares: MIN_CPU_SHARES, warning: Some(ClampWarning::BelowMinimum) }
    } else {
        CpuShares { shares: raw, warning: None }
    }
}

/// The CPU section of a sandbox whose limits bind.
pub open spec fn cpu_spec(cpu: u64) -> Json {
    Json::Object(
        Map::<Seq<char>, Json>::empty().insert("shares"@, Json::Number(cpu_shares_spec(cpu) as int)),
    )
}

/// The memory section of a sandbox whose limits bind.
pub open spec fn memory_spec(memory: u64, memory_max: u64) -> Json {
    Json::Object(
        Map::<Seq<char>, Json>::empty().insert("reservation"@, Json::Number(memory as int)).insert(
            "limit"@,
            Json::Number(memory_max as int),
        ),
    )
}

/// The resources section: the device rules, and the CPU and memory sections
/// where the limits bind. Where they do not, the two sections are left out.
pub open spec fn resources_spec(
    use_resource_constraints: bool,
    cpu: u64,
    memory: u64,
    memory_max: u64,
) -> Json {
    let devices = Map::<Seq<char>, Json>::empty().insert("devices"@, devices_spec());
    if use_resource_constraints {
        Json::Object(
            devices.insert("cpu"@, cpu_spec(cpu)).insert("memory"@, memory_spec(memory, memory_max)),
        )
    } else {
        Json::Object(devices)
    }
}

/// The resources section of the sandbox.
///
/// The memory figures are taken as they are given; that the reservation does
/// not exceed the limit is left to the caller.
pub fn resources(
    use_resource_constraints: bool,
    cpu: u64,
    memory: u64,
    memory_max: u64,
) -> (section: serde_json::Value)
    ensures
        json_model(section) == resources_spec(use_resource_constraints, cpu, memory, memory_max),
{
    let mut members = members_new();
    put(&mut members, "devices", linux_resources_devices());
    if use_resource_constraints {
        let mut cpu_members = members_new();
        put(&mut cpu_members, "shares", json_number(cpu_shares(cpu).shares));
        put(&mut members, "cpu", json_object(cpu_members));

        let mut memory_members = members_new();
        put(&mut memory_members, "reservation", json_number(memory));
        put(&mut memory_members, "limit", json_number(memory_max));
        put(&mut members, "memory", json_object(memory_members));
    }
    json_object(members)
}

/// A namespace that is made for the sandbox.
pub open spec fn new_namespace_spec(kind: Seq<char>) -> Json {
    Json::Object(Map::<Seq<char>, Json>::empty().insert("type"@, Json::Text(kind)))
}

/// A namespace that exists already, at `path`, and that the sandbox joins.
pub open spec fn joined_namespace_spec(kind: Seq<char>, path: Seq<char>) -> Json {
    Json::Object(
        Map::<Seq<char>, Json>::empty().insert("type"@, Json::Text(kind)).insert(
            "path"@,
            Json::Text(path),
        ),
    )
}

/// The namespaces of the sandbox: four of its own, and the network namespace
/// at `netns`.
pub open spec fn namespaces_spec(netns: Seq<char>) -> Json {
    Json::Array(
        seq![
            new_namespace_spec("pid"@),
            new_namespace_spec("ipc"@),
            new_namespace_spec("uts"@),
            new_namespace_spec("mount"@),
            joined_namespace_spec("network"@, netns),
        ],
    )
}

/// The namespaces of the sandbox whose network namespace lies at
/// `netns_path`, where that path has a text form.
pub open spec fn namespaces_outcome(netns_path: Seq<u8>) -> Result<Json, ConfigError> {
    match path_text(netns_path) {
        None => Err(ConfigError::NetnsPath),
        Some(netns) => Ok(namespaces_spec(netns)),
    }
}

fn new_namespace(kind: &str) -> (entry: serde_json::Value)
    ensures
        json_model(entry) == new_namespace_spec(kind@),
{
    let mut members = members_new();
    put(&mut members, "type", text(kind));
    json_object(members)
}

/// The namespaces of the sandbox.
///
/// Fails where the path of the network namespace has no text form.
pub fn namespaces(netns_path: &[u8]) -> (result: Result<serde_json::Value, ConfigError>)
    ensures
        outcome(result) == namespaces_outcome(netns_path@),
{
    let netns = match to_text(netns_path) {
        Some(path) => path,
        None => {
            return Err(ConfigError::NetnsPath);
        },
    };
    let mut entries: Vec<serde_json::Value> = Vec::new();
    entries.push(new_namespace("pid"));
    entries.push(new_namespace("ipc"));
    entries.push(new_namespace("uts"));
    entries.push(new_namespace("mount"));
    let mut network = members_new();
    put(&mut network, "type", text("network"));
    put(&mut network, "path", json_string(netns));
    entries.push(json_object(network));
    assert(entries@.map_values(|item: serde_json::Value| json_model(item)) =~= namespaces_spec(
        netns@,
    ).items());
    Ok(json_array(entries))
}

/// The capabilities of the process: the same list for the bounding, the
/// effective and the permitted set, and no other set.
pub open spec fn capability_sets_spec() -> Json {
    Json::Object(
        Map::<Seq<char>, Json>::empty().insert("bounding"@, texts(capabilities_spec())).insert(
            "effective"@,
            texts(capabilities_spec()),
        ).insert("permitted"@, texts(capabilities_spec())),
    )
}

/// The number of files that the process may hold open.
pub const NOFILE_LIMIT: u64 = 1024;

/// The resource limits of the process: the number of open files, soft and
/// hard alike.
pub open spec fn rlimits_spec() -> Json {
    Json::Array(
        seq![
            Json::Object(
                Map::<Seq<char>, Json>::empty().insert("type"@, Json::Text("RLIMIT_NOFILE"@)).insert(
                    "hard"@,
                    Json::Number(NOFILE_LIMIT as int),
                ).insert("soft"@, Json::Number(NOFILE_LIMIT as int)),
            ),
        ],
    )
}

/// The process section: what the request says of the process, as it says
/// it, and what is the same for every actor.
pub open spec fn process_spec(
    args: Seq<Seq<char>>,
    env: Seq<Seq<char>>,
    user: Json,
    cwd: Seq<char>,
) -> Json {
    Json::Object(
        Map::<Seq<char>, Json>::empty().insert("args"@, texts(args)).insert("env"@, texts(env)).insert(
            "user"@,
            user,
        ).insert("cwd"@, Json::Text(cwd)).insert("terminal"@, Json::Bool(false)).insert(
            "capabilities"@,
            capability_sets_spec(),
        ).insert("rlimits"@, rlimits_spec()).insert("noNewPrivileges"@, Json::Bool(true)),
    )
}

/// The root section: the root filesystem of the bundle, writable.
pub open spec fn root_spec() -> Json {
    Json::Object(
        Map::<Seq<char>, Json>::empty().insert("path"@, Json::Text("rootfs"@)).insert(
            "readonly"@,
            Json::Bool(false),
        ),
    )
}

/// The paths that are hidden from the process.
pub open spec fn masked_paths_spec() -> Seq<Seq<char>> {
    seq![
        "/proc/acpi"@,
        "/proc/asound"@,
        "/proc/kcore"@,
        "/proc/keys"@,
        "/proc/latency_stats"@,
        "/proc/timer_list"@,
        "/proc/timer_stats"@,
        "/proc/sched_debug"@,
        "/sys/firmware"@,
        "/proc/scsi"@,
    ]
}

/// The paths that the process can read and not write.
pub open spec fn readonly_paths_spec() -> Seq<Seq<char>> {
    seq!["/proc/bus"@, "/proc/fs"@, "/proc/irq"@, "/proc/sys"@, "/proc/sysrq-trigger"@]
}

/// The Linux section, around the three parts that depend on the request.
pub open spec fn linux_spec(resources: Json, namespaces: Json, seccomp: Json) -> Json {
    Json::Object(
        Map::<Seq<char>, Json>::empty().insert("resources"@, resources).insert(
            "namespaces"@,
            namespaces,
        ).insert("maskedPaths"@, texts(masked_paths_spec())).insert(
            "readonlyPaths"@,
            texts(readonly_paths_spec()),
        ).insert("seccomp"@, seccomp),
    )
}

/// The document for `request`, given its mount table, its namespaces and the
/// system call filter.
pub open spec fn document_spec(
    request: ConfigRequest,
    mounts: Json,
    namespaces: Json,
    seccomp: Json,
) -> Json {
    Json::Object(
        Map::<Seq<char>, Json>::empty().insert("ociVersion"@, Json::Text("1.0.2-dev"@)).insert(
            "process"@,
            process_spec(request.args, request.env, request.user, request.cwd),
        ).insert("root"@, root_spec()).insert("mounts"@, mounts).insert(
            "linux"@,
            linux_spec(
                resources_spec(
                    request.use_resource_constraints,
                    request.cpu,
                    request.memory,
                    request.memory_max,
                ),
                namespaces,
                seccomp,
            ),
        ),
    )
}

/// What the synthesis gives for `request` and the system call filter
/// `seccomp`: the document, or the first path without a text form, the
/// actor's files coming before the network namespace.
pub open spec fn synthesis(request: ConfigRequest, seccomp: Json) -> Result<Json, ConfigError> {
    match mounts_outcome(request.actor_path) {
        Err(error) => Err(error),
        Ok(mounts) => match namespaces_outcome(request.netns_path) {
            Err(error) => Err(error),
            Ok(namespaces) => Ok(document_spec(request, mounts, namespaces, seccomp)),
        },
    }
}

fn capability_sets() -> (sets: serde_json::Value)
    ensures
        json_model(sets) == capability_sets_spec(),
{
    let mut members = members_new();
    put(&mut members, "bounding", text_array(capabilities().as_slice()));
    put(&mut members, "effective", text_array(capabilities().as_slice()));
    put(&mut members, "permitted", text_array(capabilities().as_slice()));
    json_object(members)
}

fn rlimits() -> (limits: serde_json::Value)
    ensures
        json_model(limits) == rlimits_spec(),
{
    let mut members = members_new();
    put(&mut members, "type", text("RLIMIT_NOFILE"));
    put(&mut members, "hard", json_number(NOFILE_LIMIT));
    put(&mut members, "soft", json_number(NOFILE_LIMIT));
    let mut limits: Vec<serde_json::Value> = Vec::new();
    limits.push(json_object(members));
    assert(limits@.map_values(|item: serde_json::Value| json_model(item))
        =~= rlimits_spec().items());
    json_array(limits)
}

/// The process section of the sandbox.
pub fn process(
    args: &Vec<String>,
    env: &Vec<String>,
    user: serde_json::Value,
    cwd: &str,
) -> (section: serde_json::Value)
    ensures
        json_model(section) == process_spec(
            args.deep_view(),
            env.deep_view(),
            json_model(user),
            cwd@,
        ),
{
    let mut members = members_new();
    put(&mut members, "args", string_array(args));
    put(&mut members, "env", string_array(env));
    put(&mut members, "user", user);
    put(&mut members, "cwd", text(cwd));
    put(&mut members, "terminal", json_bool(false));
    put(&mut members, "capabilities", capability_sets());
    put(&mut members, "rlimits", rlimits());
    put(&mut members, "noNewPrivileges", json_bool(true));
    json_object(members)
}

fn root() -> (section: serde_json::Value)
    ensures
        json_model(section) == root_spec(),
{
    let mut members = members_new();
    put(&mut members, "path", text("rootfs"));
    put(&mut members, "readonly", json_bool(false));
    json_object(members)
}

/// The paths that are hidden from the process.
pub fn masked_paths() -> (paths: Vec<&'static str>)
    ensures
        paths.deep_view() == masked_paths_spec(),
{
    let paths: Vec<&'static str> = vec![
        "/proc/acpi",
        "/proc/asound",
        "/proc/kcore",
        "/proc/keys",
        "/proc/latency_stats",
        "/proc/timer_list",
        "/proc/timer_stats",
        "/proc/sched_debug",
        "/sys/firmware",
        "/proc/scsi",
    ];
    assert(paths.deep_view() =~= masked_paths_spec());
    paths
}

/// The paths that the process can read and not write.
pub fn readonly_paths() -> (paths: Vec<&'static str>)
    ensures
        paths.deep_view() == readonly_paths_spec(),
{
    let paths: Vec<&'static str> = vec![
        "/proc/bus",
        "/proc/fs",
        "/proc/irq",
        "/proc/sys",
        "/proc/sysrq-trigger",
    ];
    assert(paths.deep_view() =~= readonly_paths_spec());
    paths
}

fn linux(
    resources: serde_json::Value,
    namespaces: serde_json::Value,
    seccomp: serde_json::Value,
) -> (section: serde_json::Value)
    ensures
        json_model(section) == linux_spec(
            json_model(resources),
            json_model(namespaces),
            json_model(seccomp),
        ),
{
    let mut members = members_new();
    put(&mut members, "resources", resources);
    put(&mut members, "namespaces", namespaces);
    put(&mut members, "maskedPaths", text_array(masked_paths().as_slice()));
    put(&mut members, "readonlyPaths", text_array(readonly_paths().as_slice()));
    put(&mut members, "seccomp", seccomp);
    json_object(members)
}

/// Makes the configuration document of the sandbox of one actor.
///
/// `seccomp` is the system call filter of the sandbox; it is placed in the
/// document as it is, and so is the user of the request. The document is a
/// function of the request and the filter alone.
///
/// Fails, without a document, where one of the three paths that the
/// document names has no text form: the actor's `resolv.conf`, its `hosts`
/// file, or the network namespace, looked at in this order.
pub fn config(opts: ConfigOpts, seccomp: serde_json::Value) -> (result: Result<
    serde_json::Value,
    ConfigError,
>)
    ensures
        outcome(result) == synthesis(opts@, json_model(seccomp)),
{
    let mount_table = match mounts(&opts) {
        Ok(table) => table,
        Err(error) => {
            return Err(error);
        },
    };
    let namespace_list = match namespaces(opts.netns_path) {
        Ok(list) => list,
        Err(error) => {
            return Err(error);
        },
    };
    let resource_section = resources(
        opts.use_resource_constraints,
        opts.cpu,
        opts.memory,
        opts.memory_max,
    );
    let ConfigOpts { args, env, user, cwd, .. } = opts;
    let mut members = members_new();
    put(&mut members, "ociVersion", text("1.0.2-dev"));
    put(&mut members, "process", process(&args, &env, user, cwd.as_str()));
    put(&mut members, "root", root());
    put(&mut members, "mounts", mount_table);
    put(&mut members, "linux", linux(resource_section, namespace_list, seccomp));
    Ok(json_object(members))
}

} // verus!
