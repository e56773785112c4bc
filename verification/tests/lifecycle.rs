use firecracker_sdk::events::Method;
use firecracker_sdk::firecracker::FirecrackerOption;
use firecracker_sdk::fstack::FStackAction;
use firecracker_sdk::jailer::{ChrootStrategy, JailerOption};
use firecracker_sdk::models::{
    ActionType, BalloonStatsUpdate, BootSource, Drive, SnapshotCreateParams, VmState,
};

#[test]
fn check_feature() {
    // The single runtime path is always available: a launch description can
    // be built without any feature selection.
    let instance = FirecrackerOption::new("/usr/bin/firecracker").spawn().unwrap();
    assert_eq!(instance.socket_on_host(), "/run/firecracker.socket");
}

#[test]
fn firecracker_build_cmd_default() {
    let option = FirecrackerOption::new("/usr/bin/firecracker");
    let args = option.build_cmd();
    assert_eq!(
        args,
        vec!["--api-sock".to_string(), "/run/firecracker.socket".to_string()]
    );
}

#[test]
fn firecracker_build_cmd_with_options() {
    let mut option = FirecrackerOption::new("/usr/bin/firecracker");
    option
        .api_sock("/tmp/api.socket")
        .boot_timer(Some(true))
        .http_api_max_payload_size(Some(51200))
        .id(Some("vm-1".to_string()))
        .no_api();
    let args = option.build_cmd();
    assert_eq!(
        args,
        vec![
            "--api-sock".to_string(),
            "/tmp/api.socket".to_string(),
            "--boot-timer".to_string(),
            "--http-api-max-payload-size".to_string(),
            "51200".to_string(),
            "--id".to_string(),
            "vm-1".to_string(),
            "--no-api".to_string(),
        ]
    );
}

#[test]
fn firecracker_spawn_sets_up_a_bare_instance() {
    let mut option = FirecrackerOption::new("/usr/bin/firecracker");
    option.api_sock("/tmp/fc.socket").stdout("/tmp/fc.log");
    let instance = option.spawn().unwrap();
    assert_eq!(instance.socket_on_host(), "/tmp/fc.socket");
    assert_eq!(instance.jailer_workspace_dir(), None);
    assert_eq!(instance.remove_jailer_workspace_dir(), None);
    assert_eq!(instance.firecracker_pid(), None);
    assert_eq!(instance.jailer_pid(), None);
    assert_eq!(instance.command().program, "/usr/bin/firecracker");
    assert_eq!(instance.command().stdout, Some("/tmp/fc.log".to_string()));
    assert_eq!(instance.pid_file_path(), None);
}

#[test]
fn firecracker_spawn_rejects_binary_without_file_name() {
    let e = FirecrackerOption::new("/usr/bin/..").spawn().unwrap_err();
    assert_eq!(e.message(), "jailer `exec_file` ends with `..`");
}

#[test]
fn jailer_build_cmd_requires_its_fields_in_order() {
    let mut option = JailerOption::new("/usr/bin/jailer", "/usr/bin/firecracker", "i", 100, 123);
    option.gid(None);
    let e = option.build_cmd().unwrap_err();
    assert_eq!(e.message(), "`gid` not set");
    option.exec_file(None);
    let e = option.build_cmd().unwrap_err();
    assert_eq!(e.message(), "`exec_file` not set");
}

#[test]
fn jailer_build_cmd_with_attached_firecracker() {
    let fc = FirecrackerOption::new("/usr/bin/firecracker");
    let mut option =
        JailerOption::new("/usr/bin/jailer", "/usr/bin/firecracker", "test-id", 100, 123);
    option
        .cgroup(vec![("cpu.shares".to_string(), "10".to_string())])
        .resource_limit(vec![("no-file".to_string(), 1024)])
        .daemonize()
        .firecracker_option(Some(&fc));
    let args = option.build_cmd().unwrap();
    assert_eq!(
        args,
        vec![
            "--exec-file".to_string(),
            "/usr/bin/firecracker".to_string(),
            "--gid".to_string(),
            "100".to_string(),
            "--id".to_string(),
            "test-id".to_string(),
            "--uid".to_string(),
            "123".to_string(),
            "--cgroup".to_string(),
            "cpu.shares=10".to_string(),
            "--daemonize".to_string(),
            "--resource-limit".to_string(),
            "no-file=1024".to_string(),
            "--".to_string(),
            "--api-sock".to_string(),
            "/run/firecracker.socket".to_string(),
        ]
    );
}

#[test]
fn jailer_spawn_builds_the_workspace_and_socket_paths() {
    let option =
        JailerOption::new("/usr/bin/jailer", "/usr/bin/firecracker", "test-id", 100, 123);
    let instance = option.spawn(false).unwrap();
    assert_eq!(
        instance.jailer_workspace_dir(),
        Some("/srv/jailer/firecracker/test-id/root".to_string())
    );
    assert_eq!(
        instance.socket_on_host(),
        "/srv/jailer/firecracker/test-id/root/run/firecracker.socket"
    );
    assert_eq!(
        instance.pid_file_path(),
        Some("/srv/jailer/firecracker/test-id/root/firecracker.pid".to_string())
    );
}

#[test]
fn jailer_spawn_rejects_a_conflicting_id() {
    let option =
        JailerOption::new("/usr/bin/jailer", "/usr/bin/firecracker", "test-id", 100, 123);
    let e = option.spawn(true).unwrap_err();
    assert_eq!(e.message(), "conflict jailer ID test-id");
}

#[test]
fn jailed_start_reads_the_guest_pid_from_the_pid_file() {
    let option = JailerOption::new("/usr/bin/jailer", "/usr/bin/firecracker", "p", 100, 123);
    let mut instance = option.spawn(false).unwrap();

    instance.start_spawned(500);
    instance.start_connected();
    instance.start_discover_pids(Some(b"123")).unwrap();

    assert_eq!(instance.jailer_pid(), Some(500));
    assert_eq!(instance.firecracker_pid(), Some(123));
    assert_ne!(instance.firecracker_pid(), instance.jailer_pid());
}

#[test]
fn bare_start_uses_the_spawned_pid_directly() {
    let mut instance = FirecrackerOption::new("/usr/bin/firecracker").spawn().unwrap();
    instance.start_spawned(42);
    instance.start_connected();
    instance.start_discover_pids(None).unwrap();
    assert_eq!(instance.firecracker_pid(), Some(42));
    assert_eq!(instance.jailer_pid(), None);
}

#[test]
fn unreadable_pid_file_is_reported() {
    let option = JailerOption::new("/usr/bin/jailer", "/usr/bin/firecracker", "p2", 100, 123);
    let mut instance = option.spawn(false).unwrap();
    instance.start_spawned(500);
    instance.start_connected();
    let e = instance.start_discover_pids(Some(b"12x")).unwrap_err();
    assert_eq!(e.message(), "jail pid file does not hold a pid");
}

#[test]
fn failed_start_leaves_ordered_rollback_actions() {
    let mut option = JailerOption::new("/usr/bin/jailer", "/usr/bin/firecracker", "r", 100, 123);
    option.remove_jailer_workspace_dir();
    let mut instance = option.spawn(false).unwrap();

    instance.start_spawned(500);
    instance.start_connected();
    instance.start_discover_pids(Some(b"123")).unwrap();

    let actions = instance.take_rollback_actions();
    assert_eq!(
        actions,
        vec![
            FStackAction::TerminateProcess(123),
            FStackAction::RemoveFile(
                "/srv/jailer/firecracker/r/root/run/firecracker.socket".to_string()
            ),
            FStackAction::RemoveDirectory("/srv/jailer/firecracker/r/root".to_string()),
            FStackAction::TerminateProcess(500),
        ]
    );
}

#[test]
fn configuration_calls_demand_a_connected_agent() {
    let instance = FirecrackerOption::new("/usr/bin/firecracker").spawn().unwrap();
    let boot_source = BootSource {
        boot_args: None,
        initrd_path: None,
        kernel_image_path: "/img/vmlinux".to_string(),
    };
    let e = instance.prepare_boot_source(&boot_source).unwrap_err();
    assert_eq!(e.message(), "No agent spawned");
}

#[test]
fn prepare_drive_rewrites_the_host_path_when_jailed() {
    let option = JailerOption::new("/usr/bin/jailer", "/usr/bin/firecracker", "d", 100, 123);
    let mut instance = option.spawn(false).unwrap();
    instance.start_spawned(500);
    instance.start_connected();

    let drive = Drive {
        drive_id: "rootfs".to_string(),
        path_on_host: "/images/rootfs.ext4".to_string(),
        is_root_device: true,
        is_read_only: false,
        partuuid: None,
        cache_type: None,
    };
    let (method, path, payload, links) = instance.prepare_drive(&drive).unwrap();
    assert_eq!(method, Method::Put);
    assert_eq!(path, "/drives/rootfs");
    assert_eq!(payload.path_on_host, "rootfs.ext4");
    assert_eq!(payload.drive_id, "rootfs");
    assert_eq!(links.len(), 1);
    assert_eq!(links[0].origin, "/images/rootfs.ext4");
    assert_eq!(links[0].link, "/srv/jailer/firecracker/d/root/rootfs.ext4");
}

#[test]
fn prepare_drive_passes_through_when_bare() {
    let mut instance = FirecrackerOption::new("/usr/bin/firecracker").spawn().unwrap();
    instance.start_spawned(1);
    instance.start_connected();
    let drive = Drive {
        drive_id: "rootfs".to_string(),
        path_on_host: "/images/rootfs.ext4".to_string(),
        is_root_device: true,
        is_read_only: false,
        partuuid: None,
        cache_type: None,
    };
    let (_, path, payload, links) = instance.prepare_drive(&drive).unwrap();
    assert_eq!(path, "/drives/rootfs");
    assert_eq!(payload.path_on_host, "/images/rootfs.ext4");
    assert!(links.is_empty());
}

#[test]
fn prepare_boot_source_links_kernel_and_initrd_under_full_strategy() {
    let mut option = JailerOption::new("/usr/bin/jailer", "/usr/bin/firecracker", "b", 100, 123);
    option.chroot_strategy(ChrootStrategy::FullLinkStrategy);
    let mut instance = option.spawn(false).unwrap();
    instance.start_spawned(500);
    instance.start_connected();

    let boot_source = BootSource {
        boot_args: Some("console=ttyS0".to_string()),
        initrd_path: Some("/boot/initrd.img".to_string()),
        kernel_image_path: "/boot/vmlinux".to_string(),
    };
    let (_, path, payload, links) = instance.prepare_boot_source(&boot_source).unwrap();
    assert_eq!(path, "/boot-source");
    assert_eq!(payload.boot_args, Some("console=ttyS0".to_string()));
    assert_eq!(payload.initrd_path, Some("boot/initrd.img".to_string()));
    assert_eq!(payload.kernel_image_path, "boot/vmlinux");
    assert_eq!(links.len(), 2);
    assert_eq!(links[0].origin, "/boot/initrd.img");
    assert_eq!(links[0].link, "/srv/jailer/firecracker/b/root/boot/initrd.img");
    assert_eq!(links[1].origin, "/boot/vmlinux");
    assert_eq!(links[1].link, "/srv/jailer/firecracker/b/root/boot/vmlinux");
}

#[test]
fn prepare_create_snapshot_maps_outputs_and_links_back_afterwards() {
    let option = JailerOption::new("/usr/bin/jailer", "/usr/bin/firecracker", "s", 100, 123);
    let mut instance = option.spawn(false).unwrap();
    instance.start_spawned(500);
    instance.start_connected();

    let params = SnapshotCreateParams {
        mem_file_path: "/snap/mem".to_string(),
        snapshot_path: "/snap/state".to_string(),
        snapshot_type: None,
        version: None,
    };
    let (_, path, payload, links) = instance.prepare_create_snapshot(&params).unwrap();
    assert_eq!(path, "/snapshot/create");
    // The supervisor writes inside the jail; afterwards each jail-created
    // file is hard-linked back out to the requested host path.
    assert_eq!(payload.mem_file_path, "/srv/jailer/firecracker/s/root/mem");
    assert_eq!(payload.snapshot_path, "/srv/jailer/firecracker/s/root/state");
    assert_eq!(links.len(), 2);
    assert_eq!(links[0].origin, "/srv/jailer/firecracker/s/root/mem");
    assert_eq!(links[0].link, "/snap/mem");
    assert_eq!(links[1].origin, "/srv/jailer/firecracker/s/root/state");
    assert_eq!(links[1].link, "/snap/state");
}

#[test]
fn jailed_link_maps_paths_per_strategy() {
    let mut naive = JailerOption::new("/usr/bin/jailer", "/usr/bin/firecracker", "j1", 100, 123);
    naive.chroot_base_dir(Some("/srv/jailer"));
    let instance_1 = naive.spawn(false).unwrap();
    assert_eq!(
        instance_1.jailed_link("/demo/foo/bar.txt").unwrap(),
        "/srv/jailer/firecracker/j1/root/bar.txt"
    );

    let mut full = JailerOption::new("/usr/bin/jailer", "/usr/bin/firecracker", "j2", 100, 123);
    full.chroot_strategy(ChrootStrategy::FullLinkStrategy);
    let instance_2 = full.spawn(false).unwrap();
    assert_eq!(
        instance_2.jailed_link("/demo/foo/bar.txt").unwrap(),
        "/srv/jailer/firecracker/j2/root/demo/foo/bar.txt"
    );

    let bare = FirecrackerOption::new("/usr/bin/firecracker").spawn().unwrap();
    let e = bare.jailed_link("/demo/foo/bar.txt").unwrap_err();
    assert_eq!(e.message(), "Not using jailer");
}

#[test]
fn control_calls_are_planned_by_the_library() {
    let mut instance = FirecrackerOption::new("/usr/bin/firecracker").spawn().unwrap();
    let e = instance.prepare_action(ActionType::InstanceStart).unwrap_err();
    assert_eq!(e.message(), "No agent spawned");

    instance.start_spawned(1);
    instance.start_connected();

    let (method, path, payload) = instance.prepare_action(ActionType::InstanceStart).unwrap();
    assert_eq!(method, Method::Put);
    assert_eq!(path, "/actions");
    assert_eq!(payload.action_type, ActionType::InstanceStart);

    let (method, path, payload) = instance.prepare_vm_state(VmState::Paused).unwrap();
    assert_eq!(method, Method::Patch);
    assert_eq!(path, "/vm");
    assert_eq!(payload.state, VmState::Paused);

    let update = BalloonStatsUpdate { stats_polling_interval_s: 5 };
    let (method, path, payload) = instance.prepare_balloon_stats_interval(&update).unwrap();
    assert_eq!(method, Method::Patch);
    assert_eq!(path, "/balloon/statistics");
    assert_eq!(payload, update);

    let (method, path) = instance.prepare_version().unwrap();
    assert_eq!(method, Method::Get);
    assert_eq!(path, "/version");
}
