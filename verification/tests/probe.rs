use neofetch_rs::probe::{
    clock_words, color_blocks, copy_text, count_packages, cpu_of, de_of, first_or_unknown,
    gpu_of_report, host_of, host_of_report, is_past_uptime, keep_known, labelled_values,
    list_or_unknown, or_unknown, os_of, package_managers, packages_of, printed_text, read_clock,
    read_uptime_report, resolution_of, resolution_of_line, resolution_of_report,
    resolution_of_xrandr, shell_of, title_of, uptime_of, wm_of, wm_of_session, wm_theme_of,
    word_is_resolution, PackageManager, Platform, Report,
};

fn some(s: &str) -> Option<String> {
    Some(s.to_string())
}

fn strings(v: &[&str]) -> Vec<String> {
    v.iter().map(|s| s.to_string()).collect()
}

#[test]
fn unknown_stands_for_missing_readings() {
    assert_eq!(or_unknown(some("5.15")), "5.15");
    assert_eq!(or_unknown(some("")), "");
    assert_eq!(or_unknown(None), "Unknown");
    assert_eq!(first_or_unknown(some("a"), some("b")), "a");
    assert_eq!(first_or_unknown(None, some("b")), "b");
    assert_eq!(first_or_unknown(None, None), "Unknown");
    assert_eq!(copy_text(&some("x")), some("x"));
    assert_eq!(copy_text(&None), None);
    assert_eq!(printed_text(&Report::Printed("x".to_string())), some("x"));
    assert_eq!(printed_text(&Report::Failed), None);
    assert_eq!(printed_text(&Report::NotRun), None);
}

#[test]
fn title_uses_the_short_host_name() {
    assert_eq!(title_of("me", some("box.example.org")), "me@box");
    assert_eq!(title_of("me", some("box")), "me@box");
    assert_eq!(title_of("me", some(".hidden")), "me@");
    assert_eq!(title_of("me", some("")), "me@");
    assert_eq!(title_of("", some("box.local")), "@box");
    assert_eq!(title_of("me", None), "me@unknown");
}

#[test]
fn os_joins_name_and_version() {
    assert_eq!(os_of(some("Ubuntu"), some("22.04")), "Ubuntu 22.04");
    assert_eq!(os_of(None, some("22.04")), "Unknown 22.04");
    assert_eq!(os_of(some("Ubuntu"), None), "Ubuntu Unknown");
    assert_eq!(os_of(None, None), "Unknown Unknown");
}

#[test]
fn host_prefers_the_product_name() {
    assert_eq!(host_of(some("ThinkPad X1\n"), some("20KH\n")), "ThinkPad X1");
    assert_eq!(host_of(None, some(" 20KH \n")), "20KH");
    assert_eq!(host_of(some("\n"), some("20KH")), "");
    assert_eq!(host_of(None, None), "Unknown");
}

#[test]
fn reports_are_read_line_by_line() {
    let report = "Hardware:\n  Model Name: MacBook Pro\n  Model Name: Other\n  Chip: M2\n";
    assert_eq!(labelled_values(report, "Model Name:"), strings(&["MacBook Pro", "Other"]));
    assert_eq!(labelled_values(report, "Chip:"), strings(&["M2"]));
    assert_eq!(labelled_values(report, "Memory:"), Vec::<String>::new());
    // Only what stands between the first and the second colon counts.
    assert_eq!(labelled_values("Time: 12:30", "Time:"), strings(&["12"]));
    assert_eq!(labelled_values("Empty:", "Empty:"), strings(&[""]));
    // A label without a colon names the line, which then says nothing.
    assert_eq!(labelled_values("no colon here", "colon"), strings(&[""]));
    assert_eq!(host_of_report(report), "MacBook Pro");
    assert_eq!(host_of_report("Model Name:\n"), "");
    assert_eq!(host_of_report("nothing"), "Unknown");
    assert_eq!(host_of_report(""), "Unknown");
}

#[test]
fn known_values_are_kept_in_order() {
    assert_eq!(
        keep_known(&strings(&["a", "", "Unknown", "b", "unknown"])),
        strings(&["a", "b", "unknown"])
    );
    assert_eq!(keep_known(&vec![]), Vec::<String>::new());
    assert_eq!(list_or_unknown(&strings(&["a", "b"])), "a, b");
    assert_eq!(list_or_unknown(&strings(&["a"])), "a");
    assert_eq!(list_or_unknown(&vec![]), "Unknown");
}

#[test]
fn gpu_is_the_first_chip_that_is_named() {
    let report = "Graphics:\n  Chipset Model: Unknown\n  Chipset Model:\n  Chipset Model: Apple M2\n  Chipset Model: AMD\n";
    assert_eq!(gpu_of_report(report), "Apple M2");
    assert_eq!(gpu_of_report("Chipset Model: Unknown\n"), "Unknown");
    assert_eq!(gpu_of_report(""), "Unknown");
}

#[test]
fn resolutions_of_a_display_report_are_listed() {
    let report = "Displays:\n  Resolution: 3024 x 1964 Retina\n  Resolution: Unknown\n  Resolution: 1920 x 1080\n";
    assert_eq!(resolution_of_report(report), "3024 x 1964 Retina, 1920 x 1080");
    assert_eq!(resolution_of_report("Resolution:\n"), "Unknown");
    assert_eq!(resolution_of_report("nothing"), "Unknown");
}

#[test]
fn resolutions_of_xrandr_are_listed() {
    let report = "Screen 0: minimum 320 x 200, current 1920 x 1080, maximum 16384 x 16384\n\
                  eDP-1 connected primary 1920x1080+0+0 (normal left inverted right x axis y axis) 309mm x 174mm\n\
                  \x20  1920x1080     60.02*+\n\
                  HDMI-1 disconnected (normal left inverted right x axis y axis)\n\
                  DP-2 connected 2560x1440+1920+0 (normal left inverted) 597mm x 336mm\n";
    assert_eq!(resolution_of_xrandr(report), "1920x1080+0+0, 2560x1440+1920+0");
    assert_eq!(resolution_of_xrandr("HDMI-1 disconnected (x axis)\n"), "Unknown");
    assert_eq!(resolution_of_xrandr(""), "Unknown");
    assert_eq!(resolution_of_line("eDP-1 connected primary 1920x1080+0+0"), some("1920x1080+0+0"));
    // The first word that starts with a digit and holds an x is taken.
    assert_eq!(resolution_of_line("DP-1 connected x11 309mmx174mm 1x1"), some("309mmx174mm"));
    assert_eq!(resolution_of_line("DP-1 connected (normal left) axis"), None);
    assert_eq!(resolution_of_line("DP-1 connected 1920"), None);
    assert_eq!(resolution_of_line("DP-1 disconnected 1920x1080"), None);
    assert!(word_is_resolution("1920x1080"));
    assert!(word_is_resolution("1x"));
    assert!(!word_is_resolution("x1920"));
    assert!(!word_is_resolution("1920"));
    assert!(!word_is_resolution(""));
    assert!(!word_is_resolution("٣x"));
}

#[test]
fn resolution_depends_on_the_platform() {
    let xrandr = Report::Printed("eDP-1 connected 1920x1080+0+0\n".to_string());
    let profiler = Report::Printed("  Resolution: 2560 x 1440\n".to_string());
    assert_eq!(resolution_of(Platform::Linux, &xrandr), "1920x1080+0+0");
    assert_eq!(resolution_of(Platform::MacOs, &profiler), "2560 x 1440");
    assert_eq!(resolution_of(Platform::MacOs, &xrandr), "Unknown");
    assert_eq!(resolution_of(Platform::Windows, &xrandr), "Unknown");
    assert_eq!(resolution_of(Platform::Other, &profiler), "Unknown");
    assert_eq!(resolution_of(Platform::Linux, &Report::Failed), "Unknown");
    assert_eq!(resolution_of(Platform::Linux, &Report::NotRun), "Unknown");
}

#[test]
fn packages_are_counted_by_lines() {
    assert_eq!(count_packages(&Report::Printed("a\nb\nc\n".to_string()), 0), 3);
    assert_eq!(count_packages(&Report::Printed("a\nb\nc".to_string()), 0), 3);
    assert_eq!(count_packages(&Report::Printed("head\na\n".to_string()), 1), 1);
    assert_eq!(count_packages(&Report::Printed("head\n".to_string()), 1), 0);
    assert_eq!(count_packages(&Report::Printed(String::new()), 1), 0);
    assert_eq!(count_packages(&Report::Printed(String::new()), 0), 0);
    assert_eq!(count_packages(&Report::Failed, 0), 0);
    assert_eq!(count_packages(&Report::NotRun, 0), 0);
}

#[test]
fn packages_name_each_manager_that_holds_any() {
    let managers = package_managers(Platform::Linux);
    let names: Vec<&str> = managers.iter().map(|m| m.name.as_str()).collect();
    assert_eq!(names, vec!["apt", "pacman", "rpm", "flatpak", "snap"]);
    let headers: Vec<usize> = managers.iter().map(|m| m.header_lines).collect();
    assert_eq!(headers, vec![0, 0, 0, 0, 1]);
    let listings = vec![
        Report::Printed("a\nb\n".to_string()),
        Report::NotRun,
        Report::Printed("x\n".to_string()),
        Report::Failed,
        Report::Printed("Name\ncore\nlxd\nfirefox\n".to_string()),
    ];
    assert_eq!(packages_of(&managers, &listings), "2 (apt), 1 (rpm), 3 (snap)");
    let none = vec![Report::NotRun, Report::Failed, Report::Printed(String::new())];
    assert_eq!(packages_of(&managers, &none), "Unknown");
    assert_eq!(packages_of(&managers, &vec![]), "Unknown");
    let macos = package_managers(Platform::MacOs);
    let names: Vec<&str> = macos.iter().map(|m| m.name.as_str()).collect();
    assert_eq!(names, vec!["brew", "port"]);
    assert_eq!(
        packages_of(&macos, &vec![Report::Failed, Report::Printed("a\n".to_string())]),
        "1 (port)"
    );
    assert!(package_managers(Platform::Windows).is_empty());
    assert!(package_managers(Platform::Other).is_empty());
    let own = vec![PackageManager { name: "nix".to_string(), header_lines: 2 }];
    assert_eq!(packages_of(&own, &vec![Report::Printed("h\nh\na\nb\n".to_string())]), "2 (nix)");
}

#[test]
fn shell_shows_its_version_line_or_its_name() {
    let version = Report::Printed("GNU bash, version 5.1.16\nCopyright (C) 2020\n".to_string());
    assert_eq!(shell_of("bash", &version), "GNU bash, version 5.1.16");
    assert_eq!(shell_of("bash", &Report::Printed(String::new())), "");
    assert_eq!(shell_of("bash", &Report::Failed), "bash");
    assert_eq!(shell_of("bash", &Report::NotRun), "bash");
}

#[test]
fn desktop_environment_by_platform() {
    assert_eq!(de_of(Platform::MacOs, some("x"), None, true, true), "Aqua");
    assert_eq!(de_of(Platform::Windows, None, None, false, false), "Windows");
    assert_eq!(de_of(Platform::Other, some("x"), None, false, false), "Unknown");
    assert_eq!(de_of(Platform::Linux, some("GNOME"), some("ubuntu"), true, true), "GNOME");
    assert_eq!(de_of(Platform::Linux, None, some("ubuntu"), true, true), "ubuntu");
    assert_eq!(de_of(Platform::Linux, None, None, true, true), "GNOME");
    assert_eq!(de_of(Platform::Linux, None, None, false, true), "KDE");
    assert_eq!(de_of(Platform::Linux, None, None, false, false), "Unknown");
}

#[test]
fn window_manager_by_platform() {
    assert_eq!(wm_of(Platform::MacOs, true, true, some("i3")), "Quartz Compositor");
    assert_eq!(wm_of(Platform::Windows, false, false, None), "Desktop Window Manager");
    assert_eq!(wm_of(Platform::Other, false, false, some("i3")), "Unknown");
    assert_eq!(wm_of(Platform::Linux, true, true, some("i3")), "Mutter");
    assert_eq!(wm_of(Platform::Linux, false, true, some("i3")), "KWin");
    assert_eq!(wm_of(Platform::Linux, false, false, some("I3")), "i3");
    assert_eq!(wm_of(Platform::Linux, false, false, some("Awesome")), "awesome");
    assert_eq!(wm_of(Platform::Linux, false, false, some("BSPWM")), "bspwm");
    assert_eq!(wm_of(Platform::Linux, false, false, some("openbox")), "Openbox");
    assert_eq!(wm_of(Platform::Linux, false, false, some("Sway")), "Sway");
    assert_eq!(wm_of(Platform::Linux, false, false, None), "Unknown");
    assert_eq!(wm_of_session("XFCE".to_string(), "xfce"), "XFCE");
    assert_eq!(wm_of_session("anything".to_string(), "openbox"), "Openbox");
}

#[test]
fn window_manager_theme_is_known_on_macos_only() {
    let dark = Report::Printed("Dark\n".to_string());
    let other = Report::Printed("Light".to_string());
    assert_eq!(wm_theme_of(Platform::MacOs, &dark), "Blue (Dark)");
    assert_eq!(wm_theme_of(Platform::MacOs, &other), "Blue (Light)");
    assert_eq!(wm_theme_of(Platform::MacOs, &Report::Printed("dark".to_string())), "Blue (Light)");
    assert_eq!(wm_theme_of(Platform::MacOs, &Report::Failed), "Blue (Light)");
    assert_eq!(wm_theme_of(Platform::MacOs, &Report::NotRun), "Unknown");
    assert_eq!(wm_theme_of(Platform::Linux, &dark), "Unknown");
    assert_eq!(wm_theme_of(Platform::Windows, &dark), "Unknown");
    assert_eq!(wm_theme_of(Platform::Other, &dark), "Unknown");
}

#[test]
fn cpu_shows_name_and_cores() {
    assert_eq!(
        cpu_of(None, some("Intel(R) Core(TM) i7-8550U CPU @ 1.80GHz"), 8),
        "Intel Core i7-8550U @ 1.80GHz (8 cores)"
    );
    assert_eq!(
        cpu_of(None, some("  AMD Ryzen 5 3600 6-Core Processor  "), 12),
        "AMD Ryzen 5 3600 6-Core (12 cores)"
    );
    // The small trademark sign is not among what is taken out here.
    assert_eq!(cpu_of(None, some("Chip(tm)"), 1), "Chip(tm) (1 cores)");
    assert_eq!(cpu_of(some("Apple M1\n"), some("ignored CPU"), 8), "Apple M1 (8 cores)");
    // The brand is shown as it is.
    assert_eq!(cpu_of(some("Intel(R) CPU"), None, 4), "Intel(R) CPU (4 cores)");
    // An empty brand is none.
    assert_eq!(cpu_of(some(" \n"), some("Intel CPU"), 2), "Intel (2 cores)");
    assert_eq!(cpu_of(some(""), None, 2), "Unknown");
    assert_eq!(cpu_of(None, None, 0), "Unknown");
    assert_eq!(cpu_of(None, some(""), 0), " (0 cores)");
}

#[test]
fn colour_swatch_has_two_rows_of_eight_blocks() {
    let mut expected = String::new();
    for i in 0..8 {
        expected.push_str(&format!("\x1b[4{}m   \x1b[0m", i));
    }
    expected.push('\n');
    for i in 0..8 {
        expected.push_str(&format!("\x1b[10{}m   \x1b[0m", i));
    }
    assert_eq!(color_blocks(), expected);
}

#[test]
fn clock_is_written_in_words() {
    assert_eq!(clock_words(4, 41), some("4 hours, 41 mins"));
    assert_eq!(clock_words(4, 0), some("4 hours"));
    assert_eq!(clock_words(0, 41), some("41 mins"));
    assert_eq!(clock_words(0, 0), None);
    assert_eq!(read_clock("4:41"), some("4 hours, 41 mins"));
    assert_eq!(read_clock(" 4 : 41 "), some("4 hours, 41 mins"));
    assert_eq!(read_clock("04:05"), some("4 hours, 5 mins"));
    assert_eq!(read_clock("0:05"), some("5 mins"));
    assert_eq!(read_clock("7:00"), some("7 hours"));
    assert_eq!(read_clock("0:00"), None);
    assert_eq!(read_clock("4:41:10"), None);
    assert_eq!(read_clock("441"), None);
    assert_eq!(read_clock(":41"), None);
    assert_eq!(read_clock("4:"), None);
    assert_eq!(read_clock("a:b"), None);
    assert_eq!(read_clock("4294967295:1"), some("4294967295 hours, 1 mins"));
    assert_eq!(read_clock("4294967296:1"), None);
}

#[test]
fn uptime_report_is_read_part_by_part() {
    assert_eq!(
        read_uptime_report("14:02  up 18 days,  4:41, 2 users, load averages: 1.23 1.45 1.67"),
        some("18 days, 4 hours, 41 mins")
    );
    assert_eq!(
        read_uptime_report("9:00  up 3:05, 1 user, load averages: 0.5 0.4 0.3"),
        some("3:05")
    );
    assert_eq!(
        read_uptime_report("9:00  up 12 mins, 1 user, load averages: 0.5"),
        some("12 mins")
    );
    assert_eq!(read_uptime_report("9:00  up 2 days, 30 mins, 1 user"), some("2 days"));
    assert_eq!(read_uptime_report("up 1 day"), some("1 day"));
    assert_eq!(read_uptime_report("up 1 day, 0:00, 3 users"), some("1 day"));
    assert_eq!(read_uptime_report("up "), some(""));
    // What follows a second "up " is not read.
    assert_eq!(read_uptime_report("x up 5 days, 1:02 up 9 days"), some("5 days, 1 hours, 2 mins"));
    assert_eq!(read_uptime_report("x up 5 days, 1:0up 2, 9"), some("5 days, 1 hours"));
    assert_eq!(read_uptime_report("up 2 users, load"), None);
    assert_eq!(read_uptime_report("no uptime here"), None);
    assert_eq!(read_uptime_report(""), None);
    assert!(is_past_uptime("2 users"));
    assert!(is_past_uptime("load averages: 1"));
    assert!(!is_past_uptime("18 days"));
}

#[test]
fn uptime_comes_from_seconds_or_from_the_report() {
    let report = Report::Printed("up 18 days,  4:41, 2 users".to_string());
    assert_eq!(uptime_of(Some(90061), &report), "1 days, 1 hours, 1 mins");
    assert_eq!(uptime_of(Some(0), &Report::NotRun), "0 mins");
    assert_eq!(uptime_of(None, &report), "18 days, 4 hours, 41 mins");
    assert_eq!(uptime_of(None, &Report::Printed("nothing".to_string())), "Unknown");
    assert_eq!(uptime_of(None, &Report::Failed), "Unknown");
    assert_eq!(uptime_of(None, &Report::NotRun), "Unknown");
}
