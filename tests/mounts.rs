use lighthouse_health::mount::{Mount, MountInfo};
use lighthouse_health::path::path_components;

fn mount(on: &str, total: u64, avail: u64) -> Mount {
    Mount { mounted_on: on.to_string(), total, avail }
}

fn table(points: &[&str]) -> Vec<Mount> {
    points.iter().map(|p| mount(p, 1000, 250)).collect()
}

fn chars(parts: &[&str]) -> Vec<Vec<char>> {
    parts.iter().map(|p| p.chars().collect()).collect()
}

#[test]
fn deepest_mount_wins() {
    let mounts = table(&["/", "/home", "/home/paul"]);
    let info = MountInfo::for_path("/home/paul/data/chain.db", &mounts).unwrap();
    assert_eq!(info.mounted_on, "/home/paul");
}

#[test]
fn deepest_mount_wins_in_any_order() {
    let mounts = table(&["/home/paul", "/", "/home"]);
    let info = MountInfo::for_path("/home/paul/data/chain.db", &mounts).unwrap();
    assert_eq!(info.mounted_on, "/home/paul");
}

#[test]
fn mount_that_is_not_a_prefix_is_skipped() {
    let mounts = table(&["/", "/mnt/usb"]);
    let info = MountInfo::for_path("/home/paul/file", &mounts).unwrap();
    assert_eq!(info.mounted_on, "/");
}

#[test]
fn prefix_is_by_whole_components() {
    let mounts = table(&["/", "/home/pa"]);
    let info = MountInfo::for_path("/home/paul/file", &mounts).unwrap();
    assert_eq!(info.mounted_on, "/");
}

#[test]
fn path_equal_to_mount_point_is_held() {
    let mounts = table(&["/", "/data"]);
    let info = MountInfo::for_path("/data", &mounts).unwrap();
    assert_eq!(info.mounted_on, "/data");
}

#[test]
fn trailing_separator_on_mount_point() {
    let mounts = table(&["/", "/home/"]);
    let info = MountInfo::for_path("/home//paul/./x", &mounts).unwrap();
    assert_eq!(info.mounted_on, "/home/");
}

#[test]
fn no_holding_mount_is_no_match() {
    let mounts = table(&["/mnt/usb", "/boot"]);
    assert_eq!(MountInfo::for_path("/home/paul/file", &mounts), None);
    assert_eq!(MountInfo::for_path("relative/file", &table(&["/"])), None);
    assert_eq!(MountInfo::for_path("/home", &Vec::new()), None);
}

#[test]
fn resolved_mount_carries_its_usage() {
    let mounts = vec![mount("/", 10, 1), mount("/home", 1000, 250)];
    let info = MountInfo::for_path("/home/x", &mounts).unwrap();
    assert_eq!(
        info,
        MountInfo {
            avail: 250,
            total: 1000,
            used: 750,
            used_pct_hundredths: 7500,
            mounted_on: "/home".to_string(),
        }
    );
}

#[test]
fn first_of_equally_deep_mounts_wins() {
    let mounts = vec![mount("/a", 10, 1), mount("/a/", 20, 2)];
    let info = MountInfo::for_path("/a/b", &mounts).unwrap();
    assert_eq!(info.total, 10);
}

#[test]
fn usage_of_quarter_free_disk() {
    let info = MountInfo::new("/".to_string(), 1000, 250);
    assert_eq!(info.used, 750);
    assert_eq!(info.used_pct_hundredths, 7500);
    assert_eq!(info.avail, 250);
    assert_eq!(info.total, 1000);
}

#[test]
fn usage_of_empty_filesystem() {
    let info = MountInfo::new("/".to_string(), 0, 0);
    assert_eq!(info.used, 0);
    assert_eq!(info.used_pct_hundredths, 0);
    let info = MountInfo::new("/".to_string(), 0, 77);
    assert_eq!(info.used_pct_hundredths, 0);
}

#[test]
fn usage_saturates_when_available_exceeds_total() {
    let info = MountInfo::new("/".to_string(), 100, 150);
    assert_eq!(info.used, 0);
    assert_eq!(info.used_pct_hundredths, 0);
}

#[test]
fn usage_percentage_is_rounded_to_two_decimals() {
    assert_eq!(MountInfo::new("/".to_string(), 3, 2).used_pct_hundredths, 3333);
    assert_eq!(MountInfo::new("/".to_string(), 3, 1).used_pct_hundredths, 6667);
    assert_eq!(MountInfo::new("/".to_string(), 800, 799).used_pct_hundredths, 13);
    assert_eq!(MountInfo::new("/".to_string(), 7, 0).used_pct_hundredths, 10000);
}

#[test]
fn usage_of_largest_sizes() {
    let info = MountInfo::new("/".to_string(), u64::MAX, 0);
    assert_eq!(info.used, u64::MAX);
    assert_eq!(info.used_pct_hundredths, 10000);
    let info = MountInfo::new("/".to_string(), u64::MAX, u64::MAX / 2 + 1);
    assert_eq!(info.used_pct_hundredths, 5000);
}

#[test]
fn components_of_paths() {
    assert_eq!(path_components("/home/paul"), chars(&["/", "home", "paul"]));
    assert_eq!(path_components("/"), chars(&["/"]));
    assert_eq!(path_components("//a//./b/"), chars(&["/", "a", "b"]));
    assert_eq!(path_components("./a/.."), chars(&[".", "a", ".."]));
    assert_eq!(path_components("a/./b"), chars(&["a", "b"]));
    assert_eq!(path_components(".hidden"), chars(&[".hidden"]));
    assert_eq!(path_components(""), chars(&[]));
}
