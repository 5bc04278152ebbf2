use otp::naming::{cipher_path, key_path, plain_path, EXT_KEY, EXT_LOCK};

#[test]
fn cipher_path_appends_suffix() {
    assert_eq!(cipher_path("report.txt"), "report.txt.lock");
    assert_eq!(cipher_path(""), EXT_LOCK);
}

#[test]
fn key_path_appends_suffix() {
    assert_eq!(key_path("report.txt"), "report.txt.key");
    assert_eq!(key_path("dir/a"), format!("dir/a{}", EXT_KEY));
}

#[test]
fn plain_path_strips_suffix() {
    assert_eq!(plain_path("report.txt.lock"), "report.txt");
}

#[test]
fn plain_path_without_suffix_is_unchanged() {
    assert_eq!(plain_path("report"), "report");
    assert_eq!(plain_path("report.lck"), "report.lck");
    assert_eq!(plain_path("lock"), "lock");
}

#[test]
fn plain_path_strips_suffix_once() {
    assert_eq!(plain_path("a.lock.lock"), "a.lock");
    assert_eq!(plain_path(".lock"), "");
}

#[test]
fn naming_round_trip() {
    for name in ["report.txt", "x", "ünïcödé.bin", "a.lock"] {
        assert_eq!(plain_path(&cipher_path(name)), name);
    }
}
