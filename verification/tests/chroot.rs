use firecracker_sdk::jailer::ChrootStrategy;
use firecracker_sdk::paths::{basename, join, strip_leading};

#[test]
fn naive_strategy_keeps_only_the_base_name() {
    let p = ChrootStrategy::NaiveLinkStrategy
        .chroot_path("/root", "/a/b/c.img")
        .unwrap();
    assert_eq!(p, "/root/c.img");
}

#[test]
fn full_strategy_keeps_the_whole_path() {
    let p = ChrootStrategy::FullLinkStrategy
        .chroot_path("/root", "/a/b/c.img")
        .unwrap();
    assert_eq!(p, "/root/a/b/c.img");
}

#[test]
fn naive_strategy_rejects_paths_without_a_file_name() {
    let e = ChrootStrategy::NaiveLinkStrategy
        .chroot_path("/root", "/a/b/..")
        .unwrap_err();
    assert_eq!(e.message(), "file name ended with `..`");
}

#[test]
fn full_strategy_accepts_relative_paths() {
    let p = ChrootStrategy::FullLinkStrategy
        .chroot_path("/root", "a/b.img")
        .unwrap();
    assert_eq!(p, "/root/a/b.img");
}

#[test]
fn chroot_path_does_not_double_separators() {
    let p = ChrootStrategy::NaiveLinkStrategy
        .chroot_path("/root/", "/x/y.img")
        .unwrap();
    assert_eq!(p, "/root/y.img");
}

#[test]
fn link_file_plans_the_hard_link() {
    let op = ChrootStrategy::NaiveLinkStrategy
        .link_file("/srv/jailer/firecracker/i/root", "/images/rootfs.ext4")
        .unwrap();
    assert_eq!(op.origin, "/images/rootfs.ext4");
    assert_eq!(op.link, "/srv/jailer/firecracker/i/root/rootfs.ext4");
}

#[test]
fn chroot_rel_is_what_the_jailed_process_sees() {
    let naive = ChrootStrategy::NaiveLinkStrategy
        .chroot_rel("/a/b/c.img")
        .unwrap();
    assert_eq!(naive, "c.img");
    let full = ChrootStrategy::FullLinkStrategy
        .chroot_rel("/a/b/c.img")
        .unwrap();
    assert_eq!(full, "a/b/c.img");
}

#[test]
fn basename_handles_trailing_separators() {
    assert_eq!(basename("/a/b/"), Some("b".to_string()));
    assert_eq!(basename("plain"), Some("plain".to_string()));
    assert_eq!(basename("/"), None);
    assert_eq!(basename(""), None);
    assert_eq!(basename("/x/.."), None);
}

#[test]
fn basename_skips_trailing_dot_components() {
    assert_eq!(basename("foo.txt/."), Some("foo.txt".to_string()));
    assert_eq!(basename("/x/."), Some("x".to_string()));
    assert_eq!(basename("a/./."), Some("a".to_string()));
    assert_eq!(basename("."), None);
    assert_eq!(basename("./"), None);
    assert_eq!(basename("../."), None);
}

#[test]
fn naive_strategy_skips_a_trailing_dot() {
    let p = ChrootStrategy::NaiveLinkStrategy
        .chroot_path("/root", "/x/.")
        .unwrap();
    assert_eq!(p, "/root/x");
}

#[test]
fn join_and_strip_behave_as_path_building_blocks() {
    assert_eq!(join("/root", "x"), "/root/x");
    assert_eq!(join("/root/", "x"), "/root/x");
    assert_eq!(join("", "x"), "x");
    assert_eq!(strip_leading("//a/b"), "a/b");
    assert_eq!(strip_leading("a/b"), "a/b");
}

#[test]
fn default_strategy_is_naive() {
    assert_eq!(ChrootStrategy::default(), ChrootStrategy::NaiveLinkStrategy);
}
