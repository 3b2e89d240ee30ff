use neofetch_rs::probe::Report;
use neofetch_rs::config::MemoryUnit;
use neofetch_rs::utils::{
    clean_cpu_name, command_text, container_signs, detect_linux, detect_macos, format_uptime,
    memory_unit_of, memory_unit_of_normalized, parse_version_from_output, pick_first, release_value, shell_name, shell_of_variable,
    terminal_dimension, terminal_height_of, terminal_width_of, trim_quotes,
};

#[test]
fn trim_quotes_takes_double_then_single_quotes_off() {
    assert_eq!(trim_quotes("\"Ubuntu 22.04.3 LTS\""), "Ubuntu 22.04.3 LTS");
    assert_eq!(trim_quotes("'Arch Linux'"), "Arch Linux");
    assert_eq!(trim_quotes("\"'both'\""), "both");
    assert_eq!(trim_quotes("plain"), "plain");
    assert_eq!(trim_quotes(""), "");
    assert_eq!(trim_quotes("\"\"\""), "");
    // Double quotes inside single quotes stay: the double quotes go first.
    assert_eq!(trim_quotes("'\"x\"'"), "\"x\"");
    assert_eq!(trim_quotes("a\"b"), "a\"b");
    for s in ["\"a\"", "''a'", "'\"'\"a", "\"", "'", "\"'\"'"] {
        assert_eq!(trim_quotes(s), s.trim_matches('"').trim_matches('\''));
    }
}

#[test]
fn clean_cpu_name_drops_marks_and_words() {
    assert_eq!(
        clean_cpu_name("Intel(R) Core(TM) i7-8550U CPU @ 1.80GHz"),
        "Intel Core i7-8550U @ 1.80GHz"
    );
    assert_eq!(clean_cpu_name("AMD Ryzen 7 5800X 8-Core Processor"), "AMD Ryzen 7 5800X 8-Core");
    assert_eq!(clean_cpu_name("Apple M1(tm)"), "Apple M1");
    assert_eq!(clean_cpu_name("  CPU  "), "");
    assert_eq!(clean_cpu_name(""), "");
    // Two spaces become one only once: four stay two.
    assert_eq!(clean_cpu_name("a    b"), "a  b");
    assert_eq!(clean_cpu_name("a CPU CPU b"), "a  b");
}

#[test]
fn format_uptime_long_form() {
    assert_eq!(format_uptime(0, false), "0 mins");
    assert_eq!(format_uptime(59, false), "0 mins");
    assert_eq!(format_uptime(60, false), "1 mins");
    assert_eq!(format_uptime(3599, false), "59 mins");
    assert_eq!(format_uptime(3600, false), "1 hours, 0 mins");
    assert_eq!(format_uptime(3700, false), "1 hours, 1 mins");
    assert_eq!(format_uptime(86399, false), "23 hours, 59 mins");
    assert_eq!(format_uptime(86400, false), "1 days, 0 hours, 0 mins");
    assert_eq!(format_uptime(90061, false), "1 days, 1 hours, 1 mins");
    assert_eq!(format_uptime(1_000_000, false), "11 days, 13 hours, 46 mins");
    assert_eq!(
        format_uptime(u64::MAX, false),
        "213503982334601 days, 7 hours, 0 mins"
    );
}

#[test]
fn format_uptime_short_form() {
    assert_eq!(format_uptime(0, true), "0m");
    assert_eq!(format_uptime(119, true), "1m");
    assert_eq!(format_uptime(3600, true), "1h 0m");
    assert_eq!(format_uptime(7325, true), "2h 2m");
    assert_eq!(format_uptime(86400, true), "1d 0h 0m");
    assert_eq!(format_uptime(90061, true), "1d 1h 1m");
    assert_eq!(format_uptime(1_000_000, true), "11d 13h 46m");
}

#[test]
fn parse_version_finds_the_first_version_number() {
    assert_eq!(
        parse_version_from_output("GNU bash, version 5.1.16(1)-release"),
        Some("5.1.16".to_string())
    );
    assert_eq!(parse_version_from_output("zsh 5.9 (x86_64)"), Some("5.9".to_string()));
    assert_eq!(parse_version_from_output("v1.2.3"), Some("1.2.3".to_string()));
    assert_eq!(parse_version_from_output("fish, version 3.6.0"), Some("3.6.0".to_string()));
    assert_eq!(parse_version_from_output("1.2 and 3.4.5"), Some("3.4.5".to_string()));
    assert_eq!(parse_version_from_output("10.20.30.40"), Some("10.20.30".to_string()));
    assert_eq!(parse_version_from_output("no version here"), None);
    assert_eq!(parse_version_from_output("release 7"), None);
    assert_eq!(parse_version_from_output(""), None);
}

#[test]
fn pick_first_takes_the_first_that_holds_something() {
    assert_eq!(pick_first(&vec![]), None);
    assert_eq!(pick_first(&vec![None, None]), None);
    assert_eq!(
        pick_first(&vec![None, Some("b".to_string()), Some("c".to_string())]),
        Some("b".to_string())
    );
    assert_eq!(pick_first(&vec![Some(String::new()), Some("c".to_string())]), Some(String::new()));
}

#[test]
fn command_text_is_trimmed_output_or_nothing() {
    assert_eq!(command_text(true, "  Darwin\n"), "Darwin");
    assert_eq!(command_text(true, ""), "");
    assert_eq!(command_text(false, "error text"), "");
}

#[test]
fn release_value_reads_the_first_matching_line() {
    let content = "NAME=\"Ubuntu\"\nPRETTY_NAME=\"Ubuntu 22.04.3 LTS\"\nPRETTY_NAME=other\n";
    assert_eq!(
        release_value(content, "PRETTY_NAME="),
        Some("Ubuntu 22.04.3 LTS".to_string())
    );
    assert_eq!(release_value(content, "NAME="), Some("Ubuntu".to_string()));
    assert_eq!(release_value(content, "ID="), None);
    assert_eq!(release_value("", "NAME="), None);
    // Only what stands before a second equals sign counts.
    assert_eq!(release_value("KEY=a=b", "KEY="), Some("a".to_string()));
    assert_eq!(release_value("KEY=", "KEY="), Some(String::new()));
    // The key must stand at the start of the line.
    assert_eq!(release_value(" KEY=a", "KEY="), None);
    // A key without its equals sign still names the line, which then has no value.
    assert_eq!(release_value("KEY", "KEY"), Some(String::new()));
}

#[test]
fn detect_linux_prefers_the_pretty_name() {
    let os_release = "NAME=Fedora\nPRETTY_NAME=\"Fedora Linux 40\"\n".to_string();
    let lsb = "DISTRIB_ID=Ubuntu\nDISTRIB_DESCRIPTION=\"Ubuntu 20.04 LTS\"\n".to_string();
    assert_eq!(detect_linux(Some(os_release.clone()), Some(lsb.clone())), "Fedora Linux 40");
    assert_eq!(detect_linux(None, Some(lsb.clone())), "Ubuntu 20.04 LTS");
    assert_eq!(detect_linux(Some("NAME=x\n".to_string()), Some(lsb)), "Ubuntu 20.04 LTS");
    assert_eq!(detect_linux(Some("NAME=x\n".to_string()), None), "Linux");
    assert_eq!(detect_linux(None, None), "Linux");
}

#[test]
fn detect_macos_joins_name_and_version() {
    assert_eq!(
        detect_macos(Some("macOS".to_string()), Some("14.1".to_string())),
        "macOS 14.1"
    );
    assert_eq!(detect_macos(Some("macOS".to_string()), None), "macOS");
    assert_eq!(detect_macos(None, Some("14.1".to_string())), "macOS");
    assert_eq!(detect_macos(Some(String::new()), Some(String::new())), " ");
}

#[test]
fn terminal_width_falls_back_step_by_step() {
    let printed = Report::Printed("120\n".to_string());
    assert_eq!(terminal_width_of(&printed, Some("100".to_string())), 120);
    assert_eq!(terminal_width_of(&Report::Failed, Some("100".to_string())), 100);
    assert_eq!(terminal_width_of(&Report::NotRun, Some("100".to_string())), 100);
    assert_eq!(terminal_width_of(&Report::Printed("wide".to_string()), Some("100".to_string())), 100);
    // The variable is not trimmed.
    assert_eq!(terminal_width_of(&Report::NotRun, Some(" 100".to_string())), 80);
    assert_eq!(terminal_width_of(&Report::NotRun, None), 80);
    assert_eq!(terminal_width_of(&Report::Printed(String::new()), None), 80);
    assert_eq!(terminal_height_of(&Report::Printed(" 50 ".to_string()), None), 50);
    assert_eq!(terminal_height_of(&Report::NotRun, Some("30".to_string())), 30);
    assert_eq!(terminal_height_of(&Report::NotRun, None), 24);
    assert_eq!(terminal_dimension(&Report::Failed, Some("x".to_string()), 7), 7);
}

#[test]
fn container_signs_are_any_of_three() {
    assert!(!container_signs(false, false, None));
    assert!(container_signs(true, false, None));
    assert!(container_signs(false, true, None));
    assert!(container_signs(false, false, Some("12:cpu:/docker/abc".to_string())));
    assert!(container_signs(false, false, Some("1:name=systemd:/lxc/box".to_string())));
    assert!(!container_signs(false, false, Some("0::/init.scope".to_string())));
    assert!(!container_signs(false, false, Some(String::new())));
}

#[test]
fn shell_name_is_the_file_name_of_the_path() {
    assert_eq!(shell_of_variable(Some("/bin/bash".to_string())), "bash");
    assert_eq!(shell_of_variable(Some("/usr/local/bin/fish".to_string())), "fish");
    assert_eq!(shell_of_variable(Some("zsh".to_string())), "zsh");
    assert_eq!(shell_of_variable(Some("/".to_string())), "Unknown");
    assert_eq!(shell_of_variable(Some("/bin/..".to_string())), "Unknown");
    assert_eq!(shell_of_variable(Some(String::new())), "Unknown");
    assert_eq!(shell_of_variable(None), "Unknown");
    assert_eq!(shell_name(true, Some("bash".to_string())), "bash");
    assert_eq!(shell_name(true, None), "Unknown");
    assert_eq!(shell_name(false, Some("bash".to_string())), "Unknown");
}

#[test]
fn memory_units_go_by_their_names() {
    assert!(matches!(memory_unit_of("KiB"), MemoryUnit::Kib));
    assert!(matches!(memory_unit_of("kib"), MemoryUnit::Kib));
    assert!(matches!(memory_unit_of("MIB"), MemoryUnit::Mib));
    assert!(matches!(memory_unit_of("GiB"), MemoryUnit::Gib));
    assert!(matches!(memory_unit_of("TiB"), MemoryUnit::Mib));
    assert!(matches!(memory_unit_of(""), MemoryUnit::Mib));
    assert!(matches!(memory_unit_of_normalized("gib"), MemoryUnit::Gib));
    assert!(matches!(memory_unit_of_normalized("GiB"), MemoryUnit::Mib));
}
