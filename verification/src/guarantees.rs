//! What holds of every document that the synthesis gives.
use vstd::prelude::*;
use vstd::string::StringSliceAdditionalSpecFns;
use vstd::utf8::{decode_utf8_encode_utf8, encode_utf8, valid_utf8};
use crate::json::{Json, json_model, texts};
use crate::oci_config::{
    ConfigError, ConfigOpts, ConfigRequest, allow_device_spec, allowed_devices_spec,
    bind_mount_spec, cpu_shares_spec, deny_all_devices_spec, devices_spec, document_spec,
    hosts_path, joined_namespace_spec, linux_spec, masked_paths_spec, memory_spec,
    mounts_outcome, mounts_spec, namespaces_outcome, new_namespace_spec, outcome, process_spec,
    pseudo_mounts_spec, readonly_paths_spec, resolv_conf_path, resources_spec, root_spec,
    synthesis, MAX_CPU_SHARES, MIN_CPU_SHARES,
};
use crate::path::{join_text, lemma_join_text, path_text};

verus! {

/// The resources section of the document for `request`.
pub open spec fn resources_of(request: ConfigRequest) -> Json {
    resources_spec(
        request.use_resource_constraints,
        request.cpu,
        request.memory,
        request.memory_max,
    )
}

/// The sections of a document: each lies under its own key.
pub proof fn lemma_sections(request: ConfigRequest, mounts: Json, namespaces: Json, seccomp: Json)
    ensures
        ({
            let document = document_spec(request, mounts, namespaces, seccomp);
            let linux = document.member("linux"@);
            &&& document.member("ociVersion"@) == Json::Text("1.0.2-dev"@)
            &&& document.member("process"@) == process_spec(
                request.args,
                request.env,
                request.user,
                request.cwd,
            )
            &&& document.member("root"@) == root_spec()
            &&& document.member("mounts"@) == mounts
            &&& linux == linux_spec(resources_of(request), namespaces, seccomp)
            &&& linux.member("resources"@) == resources_of(request)
            &&& linux.member("namespaces"@) == namespaces
            &&& linux.member("maskedPaths"@) == texts(masked_paths_spec())
            &&& linux.member("readonlyPaths"@) == texts(readonly_paths_spec())
            &&& linux.member("seccomp"@) == seccomp
        }),
{
    // The keys of one object differ, by their length or where that is the
    // same by a letter: a member is found under its key, past the others.
    reveal_strlit("ociVersion");
    reveal_strlit("process");
    reveal_strlit("root");
    reveal_strlit("mounts");
    reveal_strlit("linux");
    reveal_strlit("resources");
    reveal_strlit("namespaces");
    reveal_strlit("maskedPaths");
    reveal_strlit("readonlyPaths");
    reveal_strlit("seccomp");
    assert("ociVersion"@.len() == 10);
    assert("process"@.len() == 7);
    assert("root"@.len() == 4);
    assert("mounts"@.len() == 6);
    assert("linux"@.len() == 5);
    assert("resources"@.len() == 9);
    assert("namespaces"@.len() == 10);
    assert("maskedPaths"@.len() == 11);
    assert("readonlyPaths"@.len() == 13);
    assert("seccomp"@.len() == 7);
    let document = document_spec(request, mounts, namespaces, seccomp);
    assert(document.member("linux"@) == linux_spec(resources_of(request), namespaces, seccomp));
    assert(document.member("mounts"@) == mounts);
    assert(document.member("root"@) == root_spec());
}

/// The CPU weight is the tenth of the allotment, clamped to the range that
/// the kernel accepts.
pub proof fn lemma_cpu_shares_clamped(cpu: u64)
    ensures
        MIN_CPU_SHARES <= cpu_shares_spec(cpu) <= MAX_CPU_SHARES,
        MIN_CPU_SHARES <= cpu / 10 <= MAX_CPU_SHARES ==> cpu_shares_spec(cpu) == cpu / 10,
        cpu / 10 < MIN_CPU_SHARES ==> cpu_shares_spec(cpu) == MIN_CPU_SHARES,
        cpu / 10 > MAX_CPU_SHARES ==> cpu_shares_spec(cpu) == MAX_CPU_SHARES,
{
}

/// Where the limits bind, the resources section holds the clamped CPU weight
/// and the two memory figures as they were given, and nothing else beside
/// the device rules.
pub proof fn lemma_constrained_resources(request: ConfigRequest)
    requires
        request.use_resource_constraints,
    ensures
        ({
            let resources = resources_of(request);
            let cpu = resources.member("cpu"@);
            let memory = resources.member("memory"@);
            &&& resources.has_member("cpu"@)
            &&& resources.has_member("memory"@)
            &&& resources.has_member("devices"@)
            &&& resources->Object_0.dom() == set!["devices"@, "cpu"@, "memory"@]
            &&& cpu->Object_0.dom() == set!["shares"@]
            &&& cpu.member("shares"@) == Json::Number(cpu_shares_spec(request.cpu) as int)
            &&& memory == memory_spec(request.memory, request.memory_max)
            &&& memory->Object_0.dom() == set!["reservation"@, "limit"@]
            &&& memory.member("reservation"@) == Json::Number(request.memory as int)
            &&& memory.member("limit"@) == Json::Number(request.memory_max as int)
        }),
{
    reveal_strlit("devices");
    reveal_strlit("cpu");
    reveal_strlit("memory");
    reveal_strlit("reservation");
    reveal_strlit("limit");
    assert("devices"@.len() == 7);
    assert("cpu"@.len() == 3);
    assert("memory"@.len() == 6);
    assert("reservation"@.len() == 11);
    assert("limit"@.len() == 5);
    let resources = resources_of(request);
    assert(resources->Object_0.dom() =~= set!["devices"@, "cpu"@, "memory"@]);
    assert(resources.member("cpu"@)->Object_0.dom() =~= set!["shares"@]);
    assert(resources.member("memory"@)->Object_0.dom() =~= set!["reservation"@, "limit"@]);
}

/// Where the limits do not bind, the resources section has no CPU and no
/// memory member at all: it holds the device rules alone.
pub proof fn lemma_unconstrained_resources(request: ConfigRequest)
    requires
        !request.use_resource_constraints,
    ensures
        ({
            let resources = resources_of(request);
            &&& resources is Object
            &&& !resources.has_member("cpu"@)
            &&& !resources.has_member("memory"@)
            &&& resources->Object_0.dom() == set!["devices"@]
        }),
{
    reveal_strlit("devices");
    reveal_strlit("cpu");
    reveal_strlit("memory");
    assert("devices"@.len() == 7);
    assert("cpu"@.len() == 3);
    assert("memory"@.len() == 6);
    assert(resources_of(request)->Object_0.dom() =~= set!["devices"@]);
}

/// The device rules are the same for every request: the rule that denies
/// everything, then one rule for each allowed device, in the order of the
/// list.
pub proof fn lemma_device_rules(request: ConfigRequest)
    ensures
        ({
            let rules = resources_of(request).member("devices"@).items();
            &&& resources_of(request).member("devices"@) == devices_spec()
            &&& rules.len() == 10
            &&& rules[0] == deny_all_devices_spec()
            &&& forall|i: int|
                0 <= i < 9 ==> #[trigger] rules[i + 1] == allow_device_spec(
                    allowed_devices_spec()[i],
                )
        }),
{
    reveal_strlit("devices");
    reveal_strlit("cpu");
    reveal_strlit("memory");
    assert("devices"@.len() == 7);
    assert("cpu"@.len() == 3);
    assert("memory"@.len() == 6);
}

/// What a device rule says: the rule that denies names no device; a rule
/// that allows names a character device by its major number, and by its
/// minor number where the list gives one; each covers reading, writing and
/// making nodes.
pub proof fn lemma_device_rule_members(device: (u64, Option<u64>))
    ensures
        deny_all_devices_spec().member("allow"@) == Json::Bool(false),
        deny_all_devices_spec().member("access"@) == Json::Text("rwm"@),
        deny_all_devices_spec()->Object_0.dom() == set!["allow"@, "access"@],
        allow_device_spec(device).member("allow"@) == Json::Bool(true),
        allow_device_spec(device).member("type"@) == Json::Text("c"@),
        allow_device_spec(device).member("major"@) == Json::Number(device.0 as int),
        allow_device_spec(device).member("access"@) == Json::Text("rwm"@),
        allow_device_spec(device).has_member("minor"@) <==> device.1 is Some,
        device.1 is Some ==> allow_device_spec(device).member("minor"@) == Json::Number(
            device.1->0 as int,
        ),
{
    reveal_strlit("allow");
    reveal_strlit("access");
    reveal_strlit("type");
    reveal_strlit("major");
    reveal_strlit("minor");
    assert("allow"@.len() == 5);
    assert("access"@.len() == 6);
    assert("type"@.len() == 4);
    assert("major"@.len() == 5);
    assert("minor"@.len() == 5);
    assert("allow"@[0] == 'a');
    assert("major"@[1] == 'a');
    assert("minor"@[1] == 'i');
    assert("major"@[0] == 'm');
    assert("minor"@[0] == 'm');
    assert(deny_all_devices_spec()->Object_0.dom() =~= set!["allow"@, "access"@]);
}

/// The mount table has nine entries whatever the request: the seven
/// pseudo-filesystems in their order, then the actor's `resolv.conf` and
/// `hosts`, each bound from its path on the host.
pub proof fn lemma_mount_table(request: ConfigRequest)
    requires
        mounts_outcome(request.actor_path) is Ok,
    ensures
        ({
            let table = mounts_outcome(request.actor_path)->Ok_0.items();
            &&& table.len() == 9
            &&& table.subrange(0, 7) == pseudo_mounts_spec()
            &&& path_text(resolv_conf_path(request.actor_path)) is Some
            &&& path_text(hosts_path(request.actor_path)) is Some
            &&& table[7] == bind_mount_spec(
                "/etc/resolv.conf"@,
                path_text(resolv_conf_path(request.actor_path))->0,
            )
            &&& table[8] == bind_mount_spec(
                "/etc/hosts"@,
                path_text(hosts_path(request.actor_path))->0,
            )
        }),
{
    let table = mounts_outcome(request.actor_path)->Ok_0.items();
    assert(table.subrange(0, 7) =~= pseudo_mounts_spec());
}

/// The mount table exists exactly where the path of the actor's directory
/// has a text form. The two files are then bound from that directory: each
/// source is the text of the directory followed by the name of the file.
pub proof fn lemma_mount_sources(actor_path: Seq<u8>)
    ensures
        mounts_outcome(actor_path) == match path_text(actor_path) {
            None => Err::<Json, ConfigError>(ConfigError::ResolvConfPath),
            Some(_) => Ok(
                mounts_spec(
                    join_text(actor_path, "resolv.conf"@)->0,
                    join_text(actor_path, "hosts"@)->0,
                ),
            ),
        },
{
    reveal_strlit("resolv.conf");
    reveal_strlit("hosts");
    lemma_join_text(actor_path, "resolv.conf"@);
    lemma_join_text(actor_path, "hosts"@);
}

/// When the synthesis succeeds and when it fails: there is a document
/// exactly where the bytes of both paths of the request are well-formed
/// UTF-8. A malformed actor directory is reported under its `resolv.conf`,
/// before the network namespace is looked at.
pub proof fn lemma_synthesis_succeeds(request: ConfigRequest, seccomp: Json)
    ensures
        synthesis(request, seccomp) is Ok <==> valid_utf8(request.actor_path) && valid_utf8(
            request.netns_path,
        ),
        synthesis(request, seccomp) == Err::<Json, ConfigError>(ConfigError::ResolvConfPath)
            <==> !valid_utf8(request.actor_path),
        synthesis(request, seccomp) == Err::<Json, ConfigError>(ConfigError::NetnsPath)
            <==> valid_utf8(request.actor_path) && !valid_utf8(request.netns_path),
        synthesis(request, seccomp) != Err::<Json, ConfigError>(ConfigError::HostsPath),
{
    lemma_mount_sources(request.actor_path);
}

/// Two bind mounts to one destination differ in their source alone.
pub proof fn lemma_bind_mounts_differ_in_source(
    destination: Seq<char>,
    first: Seq<char>,
    second: Seq<char>,
)
    ensures
        bind_mount_spec(destination, first).member("source"@) == Json::Text(first),
        bind_mount_spec(destination, first)->Object_0.remove("source"@) == bind_mount_spec(
            destination,
            second,
        )->Object_0.remove("source"@),
{
    reveal_strlit("destination");
    reveal_strlit("type");
    reveal_strlit("source");
    reveal_strlit("options");
    assert("destination"@.len() == 11);
    assert("type"@.len() == 4);
    assert("source"@.len() == 6);
    assert("options"@.len() == 7);
    assert(bind_mount_spec(destination, first)->Object_0.remove("source"@) =~= bind_mount_spec(
        destination,
        second,
    )->Object_0.remove("source"@));
}

/// The mount tables of two requests differ at most in the sources of
/// their last two entries.
pub proof fn lemma_mount_tables_differ_in_sources(first: ConfigRequest, second: ConfigRequest)
    requires
        mounts_outcome(first.actor_path) is Ok,
        mounts_outcome(second.actor_path) is Ok,
    ensures
        ({
            let left = mounts_outcome(first.actor_path)->Ok_0.items();
            let right = mounts_outcome(second.actor_path)->Ok_0.items();
            &&& left.len() == right.len() == 9
            &&& forall|i: int| 0 <= i < 7 ==> left[i] == right[i]
            &&& forall|i: int|
                7 <= i < 9 ==> (#[trigger] left[i])->Object_0.remove("source"@)
                    == right[i]->Object_0.remove("source"@)
            &&& first.actor_path == second.actor_path ==> left == right
        }),
{
    lemma_mount_table(first);
    lemma_mount_table(second);
    let left = mounts_outcome(first.actor_path)->Ok_0.items();
    let right = mounts_outcome(second.actor_path)->Ok_0.items();
    lemma_bind_mounts_differ_in_source(
        "/etc/resolv.conf"@,
        path_text(resolv_conf_path(first.actor_path))->0,
        path_text(resolv_conf_path(second.actor_path))->0,
    );
    lemma_bind_mounts_differ_in_source(
        "/etc/hosts"@,
        path_text(hosts_path(first.actor_path))->0,
        path_text(hosts_path(second.actor_path))->0,
    );
    assert forall|i: int| 0 <= i < 7 implies left[i] == right[i] by {
        assert(left[i] == left.subrange(0, 7)[i]);
        assert(right[i] == right.subrange(0, 7)[i]);
    }
}

/// There are five namespaces whatever the request: four that are made for
/// the sandbox and carry no path, and the network namespace, whose path is
/// the one of the request, byte for byte.
pub proof fn lemma_namespaces(request: ConfigRequest)
    requires
        namespaces_outcome(request.netns_path) is Ok,
    ensures
        ({
            let list = namespaces_outcome(request.netns_path)->Ok_0.items();
            &&& list.len() == 5
            &&& list[0] == new_namespace_spec("pid"@)
            &&& list[1] == new_namespace_spec("ipc"@)
            &&& list[2] == new_namespace_spec("uts"@)
            &&& list[3] == new_namespace_spec("mount"@)
            &&& forall|i: int| 0 <= i < 4 ==> !(#[trigger] list[i]).has_member("path"@)
            &&& list[4].member("type"@) == Json::Text("network"@)
            &&& list[4].member("path"@) is Text
            &&& encode_utf8(list[4].member("path"@)->Text_0) == request.netns_path
        }),
{
    reveal_strlit("type");
    reveal_strlit("path");
    assert("type"@.len() == 4);
    assert("path"@.len() == 4);
    assert("type"@[0] == 't');
    assert("path"@[0] == 'p');
    decode_utf8_encode_utf8(request.netns_path);
}

/// The synthesis is a function of the request and the filter: what two calls
/// give on equal requests and equal filters is equal, document or error.
pub proof fn lemma_synthesis_is_a_function(
    first: ConfigOpts,
    first_seccomp: serde_json::Value,
    first_result: Result<serde_json::Value, ConfigError>,
    second: ConfigOpts,
    second_seccomp: serde_json::Value,
    second_result: Result<serde_json::Value, ConfigError>,
)
    requires
        first@ == second@,
        json_model(first_seccomp) == json_model(second_seccomp),
        outcome(first_result) == synthesis(first@, json_model(first_seccomp)),
        outcome(second_result) == synthesis(second@, json_model(second_seccomp)),
    ensures
        outcome(first_result) == outcome(second_result),
        first_result is Ok ==> second_result is Ok && json_model(first_result->Ok_0) == json_model(
            second_result->Ok_0,
        ),
{
}

/// The document of a request whose three paths have a text form holds the
/// mount table and the namespaces of that request, and the filter as it was
/// given.
pub proof fn lemma_document(request: ConfigRequest, seccomp: Json)
    ensures
        synthesis(request, seccomp) is Ok <==> mounts_outcome(request.actor_path) is Ok
            && namespaces_outcome(request.netns_path) is Ok,
        synthesis(request, seccomp) is Ok ==> ({
            let document = synthesis(request, seccomp)->Ok_0;
            &&& document.member("mounts"@) == mounts_outcome(request.actor_path)->Ok_0
            &&& document.member("linux"@).member("namespaces"@) == namespaces_outcome(
                request.netns_path,
            )->Ok_0
            &&& document.member("linux"@).member("resources"@) == resources_of(request)
            &&& document.member("linux"@).member("seccomp"@) == seccomp
            &&& document.member("process"@).member("user"@) == request.user
        }),
{
    if synthesis(request, seccomp) is Ok {
        lemma_sections(
            request,
            mounts_outcome(request.actor_path)->Ok_0,
            namespaces_outcome(request.netns_path)->Ok_0,
            seccomp,
        );
        reveal_strlit("args");
        reveal_strlit("env");
        reveal_strlit("user");
        reveal_strlit("cwd");
        reveal_strlit("terminal");
        reveal_strlit("capabilities");
        reveal_strlit("rlimits");
        reveal_strlit("noNewPrivileges");
        assert("args"@.len() == 4);
        assert("env"@.len() == 3);
        assert("user"@.len() == 4);
        assert("cwd"@.len() == 3);
        assert("terminal"@.len() == 8);
        assert("capabilities"@.len() == 12);
        assert("rlimits"@.len() == 7);
        assert("noNewPrivileges"@.len() == 15);
        assert("args"@[0] == 'a');
        assert("user"@[0] == 'u');
        assert("env"@[0] == 'e');
        assert("cwd"@[0] == 'c');
    }
}

} // verus!
