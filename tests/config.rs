use mdbutil::config::{undo_log_dir, Config};
use mdbutil::error::Error;

#[test]
fn log_file_path_from_either_option() {
    let c = Config {
        srv_log_group_home_dir: None,
        srv_log_file_path: Some("/var/lib/mysql/ib_logfile0".to_string()),
        write: false,
    };
    assert_eq!(c.get_log_file_path().unwrap(), "/var/lib/mysql/ib_logfile0");
    assert_eq!(c.get_log_file_dir().unwrap(), "/var/lib/mysql");

    let c = Config {
        srv_log_group_home_dir: Some("/data".to_string()),
        srv_log_file_path: None,
        write: false,
    };
    assert_eq!(c.get_log_file_path().unwrap(), "/data/ib_logfile0");
    assert_eq!(c.get_log_file_dir().unwrap(), "/data");
}

#[test]
fn log_file_path_missing() {
    let c = Config { srv_log_group_home_dir: None, srv_log_file_path: None, write: false };
    assert_eq!(c.get_log_file_path(), Err(Error::NotFound));
    assert_eq!(c.get_log_file_dir(), Err(Error::NotFound));
    let c = Config {
        srv_log_group_home_dir: None,
        srv_log_file_path: Some("/".to_string()),
        write: false,
    };
    assert_eq!(c.get_log_file_dir(), Err(Error::NotFound));
}

#[test]
fn log_file_names() {
    assert_eq!(Config::get_log_file_x(0), "ib_logfile0");
    assert_eq!(Config::get_log_file_x(7), "ib_logfile7");
    assert_eq!(Config::get_log_file_x(100), "ib_logfile100");
}

#[test]
fn join_adds_one_separator() {
    let c = Config {
        srv_log_group_home_dir: Some("/data/".to_string()),
        srv_log_file_path: None,
        write: false,
    };
    assert_eq!(c.get_log_file_path().unwrap(), "/data/ib_logfile0");
    let c = Config {
        srv_log_group_home_dir: Some("".to_string()),
        srv_log_file_path: None,
        write: false,
    };
    assert_eq!(c.get_log_file_path().unwrap(), "ib_logfile0");
}

#[test]
fn undo_directory() {
    assert_eq!(undo_log_dir(&Some("/undo".to_string()), "/data/ibdata1").unwrap(), "/undo");
    assert_eq!(undo_log_dir(&None, "/data/ibdata1").unwrap(), "/data");
    assert_eq!(undo_log_dir(&None, "/"), Err(Error::NotFound));
}
