use evalsa_worker::mounts::{mount_options, mount_target, strip_leading_slashes, MountOptions};
use evalsa_worker::types::Mount;

#[test]
fn leading_slashes_are_removed() {
    assert_eq!(strip_leading_slashes("/usr"), "usr");
    assert_eq!(strip_leading_slashes("/usr/lib"), "usr/lib");
    assert_eq!(strip_leading_slashes("///lib64"), "lib64");
}

#[test]
fn other_slashes_stay() {
    assert_eq!(strip_leading_slashes("usr/"), "usr/");
    assert_eq!(strip_leading_slashes("/a//b/"), "a//b/");
    assert_eq!(strip_leading_slashes("bin"), "bin");
}

#[test]
fn nothing_but_slashes_gives_the_empty_path() {
    assert_eq!(strip_leading_slashes(""), "");
    assert_eq!(strip_leading_slashes("/"), "");
    assert_eq!(strip_leading_slashes("////"), "");
}

#[test]
fn characters_of_several_bytes_are_kept() {
    assert_eq!(strip_leading_slashes("//données/é"), "données/é");
    assert_eq!(strip_leading_slashes("日本/語"), "日本/語");
}

#[test]
fn mounts_are_read_only_binds_without_access_times() {
    assert_eq!(
        mount_options(),
        MountOptions { bind: true, read_only: true, no_access_time: true, no_dir_access_time: true }
    );
}

#[test]
fn mount_target_lands_under_the_workspace() {
    let m = Mount { source: "/usr".to_string(), destination: "/usr".to_string() };
    let t = mount_target(&m);
    assert_eq!(t.source, "/usr");
    assert_eq!(t.relative_destination, "usr");
    assert_eq!(t.options, mount_options());
    let n = Mount { source: "/opt/jdk".to_string(), destination: "//opt/java/".to_string() };
    let u = mount_target(&n);
    assert_eq!(u.source, "/opt/jdk");
    assert_eq!(u.relative_destination, "opt/java/");
}
