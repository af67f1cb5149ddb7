use msl_cli::config::{ImageEngine, ImageMode, MslConfig};
use msl_cli::eula::{accept_eula, contains_sub, eula_agreed, eula_content, replace_all};
use msl_cli::logging::{format_log_date, format_log_line, format_timestamp, Timestamp};

#[test]
fn default_config_values() {
    let c = MslConfig::default();
    assert!(!c.docker.enabled);
    assert!(!c.docker.use_podman);
    assert_eq!(c.docker.image, "openjdk:21");
    assert!(!c.frp.enabled);
    assert_eq!(c.frp.client_path, "./frpc");
    assert_eq!(c.frp.config_path, "configs/MSL/frpc.ini");
    assert_eq!(c.msl.log_level, "info");
    assert!(!c.msl.auto_restart);
    assert_eq!(c.appearance.image_render_mode, ImageMode::Unknown);
}

#[test]
fn probe_outcome_maps_to_image_mode() {
    assert_eq!(ImageEngine::mode_for_probe(true), ImageMode::Protocol);
    assert_eq!(ImageEngine::mode_for_probe(false), ImageMode::Ascii);
}

#[test]
fn eula_content_layout() {
    let c = eula_content("2024-01-02 03:04:05", "oak");
    assert_eq!(
        c,
        "# MSL-Cli EULA\n# Generated on: 2024-01-02 03:04:05\n# User: oak\neula=false\n"
    );
    assert!(!eula_agreed(&c));
}

#[test]
fn eula_acceptance_is_the_marker() {
    assert!(eula_agreed("# header\neula=true\n"));
    assert!(!eula_agreed("# header\neula=false\n"));
    assert!(!eula_agreed(""));
    assert!(!eula_agreed("eula=tru"));
}

#[test]
fn accepting_flips_the_marker() {
    let c = eula_content("2024-01-02 03:04:05", "oak");
    let accepted = accept_eula(&c);
    assert_eq!(
        accepted,
        "# MSL-Cli EULA\n# Generated on: 2024-01-02 03:04:05\n# User: oak\neula=true\n"
    );
    assert!(eula_agreed(&accepted));
    assert_eq!(accept_eula("no marker here"), "no marker here");
    assert_eq!(accept_eula("eula=falseeula=false"), "eula=trueeula=true");
}

#[test]
fn replacement_scans_left_to_right_without_overlap() {
    assert_eq!(replace_all("aaa", "aa", "b"), "ba");
    assert_eq!(replace_all("xyx", "y", "yy"), "xyyx");
    assert_eq!(replace_all("abc", "", "z"), "abc");
    assert_eq!(replace_all("ab", "abc", "z"), "ab");
}

#[test]
fn substring_search_edges() {
    assert!(contains_sub("anything", ""));
    assert!(contains_sub("", ""));
    assert!(!contains_sub("", "x"));
    assert!(contains_sub("公告加载中", "加载"));
    assert!(!contains_sub("ab", "abc"));
}

#[test]
fn timestamp_layout_is_zero_padded() {
    let t = Timestamp { year: 2024, month: 1, day: 2, hour: 3, minute: 4, second: 5 };
    assert_eq!(format_timestamp(&t), "2024-01-02 03:04:05");
    assert_eq!(format_log_date(&t), "20240102");
    let t2 = Timestamp { year: 987, month: 12, day: 31, hour: 23, minute: 59, second: 58 };
    assert_eq!(format_timestamp(&t2), "0987-12-31 23:59:58");
    assert_eq!(format_log_date(&t2), "09871231");
}

#[test]
fn log_line_layout() {
    assert_eq!(
        format_log_line("2024-01-02 03:04:05", "oak", "init", "success"),
        "[2024-01-02 03:04:05] [oak] [init] success"
    );
}
