use eb_rs::config::Config;
use eb_rs::cpu_tracker::CpuTracker;
use eb_rs::io::{Device, Folder};
use eb_rs::selection::{find_device, BackupSelection};

#[test]
fn config_keeps_what_it_was_given() {
    let c = Config::new("USB".to_string(), vec!["/a".to_string(), "/b".to_string()]);
    assert_eq!(c.get_device_name(), "USB");
    assert_eq!(c.get_path_names(), vec!["/a".to_string(), "/b".to_string()]);
}

#[test]
fn device_and_folder_accessors() {
    let d = Device::new("USB".to_string(), 42);
    assert_eq!(d.get_name(), "USB");
    assert_eq!(d.get_size(), 42);
    let f = Folder::new("/home/me/docs".to_string(), 7);
    assert_eq!(f.get_path(), "/home/me/docs");
    assert_eq!(f.get_size(), 7);
    let _ = CpuTracker::new();
}

#[test]
fn device_text_quotes_name_and_scales_size() {
    let d = Device::new("USB \"key\"".to_string(), 10000);
    assert_eq!(d.to_string(), "Name: \"USB \\\"key\\\"\"\nSpace available: 10 KB");
}

#[test]
fn folder_text_quotes_path_and_scales_size() {
    let f = Folder::new("/a".to_string(), 1_555_000);
    assert_eq!(f.to_string(), "Path: \"/a\"\nSize: 1.555 MB");
}

#[test]
fn selection_takes_five_distinct_folders() {
    let mut s = BackupSelection::new();
    for i in 0..5u64 {
        assert!(s.add_folder(Folder::new(format!("/f{}", i), i)));
    }
    assert!(!s.add_folder(Folder::new("/f5".to_string(), 5)));
    s.remove_folder(0);
    assert!(!s.add_folder(Folder::new("/f1".to_string(), 1)));
    assert!(s.add_folder(Folder::new("/f5".to_string(), 5)));
    assert_eq!(s.total_size(), 1 + 2 + 3 + 4 + 5);
}

#[test]
fn selection_completes_with_a_large_enough_device() {
    let mut s = BackupSelection::new();
    assert!(!s.is_complete());
    assert!(s.to_config().is_none());
    s.add_folder(Folder::new("/a".to_string(), 600));
    s.add_folder(Folder::new("/b".to_string(), 400));
    s.set_device(Some(Device::new("USB".to_string(), 1000)));
    assert!(!s.is_complete());
    s.set_device(Some(Device::new("USB".to_string(), 1001)));
    assert!(s.is_complete());
    let c = s.to_config().unwrap();
    assert_eq!(c.get_device_name(), "USB");
    assert_eq!(c.get_path_names(), vec!["/a".to_string(), "/b".to_string()]);
}

#[test]
fn total_size_does_not_overflow() {
    let mut s = BackupSelection::new();
    s.add_folder(Folder::new("/a".to_string(), u64::MAX));
    s.add_folder(Folder::new("/b".to_string(), u64::MAX));
    assert_eq!(s.total_size(), 2 * u64::MAX as u128);
}

#[test]
fn restore_drops_missing_folders_and_finds_device() {
    let c = Config::new(
        "USB".to_string(),
        vec!["/a".to_string(), "/gone".to_string(), "/b".to_string()],
    );
    let attached = vec![
        Device::new("Other".to_string(), 1),
        Device::new("USB".to_string(), 500),
        Device::new("USB".to_string(), 900),
    ];
    let s = BackupSelection::restore(&c, &vec![Some(10), None, Some(20)], &attached);
    assert_eq!(s.total_size(), 30);
    let back = s.to_config().unwrap();
    assert_eq!(back.get_path_names(), vec!["/a".to_string(), "/b".to_string()]);
    assert_eq!(find_device(&attached, &"USB".to_string()).unwrap().get_size(), 500);
    assert!(find_device(&attached, &"None".to_string()).is_none());
    let none = BackupSelection::restore(&c, &vec![Some(1), Some(1), Some(1)], &vec![]);
    assert!(!none.is_complete());
}
