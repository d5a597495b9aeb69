use commandant::platform::{binary_file_name, decide_stress_ng_arch, write_stress_ng_to_disk, StressNgAdapter, StressNgArch};

#[test]
fn arch_follows_host() {
    assert_eq!(decide_stress_ng_arch("linux"), StressNgArch::Linux);
    assert_eq!(decide_stress_ng_arch("macos"), StressNgArch::MacOS);
}

#[test]
fn unknown_host_gets_baseline() {
    assert_eq!(decide_stress_ng_arch("windows"), StressNgArch::Linux);
    assert_eq!(decide_stress_ng_arch("apple-darwin"), StressNgArch::Linux);
    assert_eq!(decide_stress_ng_arch(""), StressNgArch::Linux);
}

#[test]
fn adapter_keeps_its_choice() {
    let a = StressNgAdapter::new("macos", "/opt/tools".to_string());
    assert_eq!(a.decide_stress_ng_arch(), StressNgArch::MacOS);
    assert_eq!(a.staging_dir(), "/opt/tools");
    assert_eq!(a.prepare_stress_ng_binary().path, "/opt/tools/stress-ng-macos");
    assert_eq!(StressNgAdapter::new("linux", "d".to_string()).decide_stress_ng_arch(), StressNgArch::Linux);
}

#[test]
fn staged_paths() {
    assert_eq!(binary_file_name(StressNgArch::MacOS), "stress-ng-macos");
    assert_eq!(binary_file_name(StressNgArch::Apple), "stress-ng-apple");
    assert_eq!(write_stress_ng_to_disk(StressNgArch::Linux, "").path, "stress-ng-linux");
    assert_eq!(write_stress_ng_to_disk(StressNgArch::MacOS, "..").path, "../stress-ng-macos");
}
