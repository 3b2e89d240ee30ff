use neofetch_rs::ansi::{strip_ansi_codes, strip_ansi_for_length};
use neofetch_rs::config::Config;
use neofetch_rs::output::{
    assemble_info_line, available_info_width, compose, format_info_item_with_width,
    format_special_item_with_width, format_visible_items, generate_json_output,
    generate_output, generate_stdout_output, generate_underline, get_info_items, has_char,
    indent_swatch, is_known, is_rule_text, join_lines, json_outcome, InfoItem,
};
use neofetch_rs::system_info::SystemInfo;

fn item(label: &str, value: &str, show: bool) -> InfoItem {
    InfoItem { label: label.to_string(), value: value.to_string(), show }
}

fn sample_info() -> SystemInfo {
    let mut info = SystemInfo::new();
    info.title = "me@box".to_string();
    info.os = "Ubuntu 22.04".to_string();
    info.host = "ThinkPad".to_string();
    info.kernel = "6.1".to_string();
    info.uptime = "1 hours, 2 mins".to_string();
    info.packages = "Unknown".to_string();
    info.shell = "bash".to_string();
    info.resolution = "1920x1080".to_string();
    info.de = "Unknown".to_string();
    info.terminal = "xterm".to_string();
    info.cpu = "Intel (8 cores)".to_string();
    info.gpu = "Unknown".to_string();
    info.memory = "1.0GiB / 2.0GiB".to_string();
    info
}

#[test]
fn underline_for_hello_is_five_dashes() {
    let config = Config::new("");
    assert_eq!(generate_underline("hello", &config), "-----");
}

#[test]
fn underline_counts_characters_not_bytes() {
    let config = Config::new("");
    assert_eq!(generate_underline("héllo@日本", &config), "--------");
    assert_eq!(generate_underline("", &config), "");
}

#[test]
fn underline_repeats_the_configured_text() {
    let mut config = Config::new("");
    config.info.underline_char = "=".to_string();
    assert_eq!(generate_underline("abc", &config), "===");
    config.info.underline_char = "-=".to_string();
    assert_eq!(generate_underline("abc", &config), "-=-=-=");
    config.info.underline_char = String::new();
    assert_eq!(generate_underline("abc", &config), "");
}

#[test]
fn underline_is_empty_when_switched_off() {
    let mut config = Config::new("");
    config.info.underline_enabled = false;
    assert_eq!(generate_underline("hello", &config), "");
}

#[test]
fn available_width_falls_back_to_40_on_a_narrow_terminal() {
    assert_eq!(available_info_width(20, 30, 2), 40);
    assert_eq!(available_info_width(20, 30, 0), 40);
}

#[test]
fn available_width_is_what_the_terminal_leaves() {
    assert_eq!(available_info_width(80, 30, 3), 42);
    assert_eq!(available_info_width(120, 46, 3), 66);
    // The least that is ever left is eleven columns.
    assert_eq!(available_info_width(49, 30, 3), 11);
    // Where ten or fewer would be left the fallback holds.
    assert_eq!(available_info_width(48, 30, 3), 40);
    assert_eq!(available_info_width(44, 30, 3), 40);
    assert_eq!(available_info_width(0, 0, 0), 40);
    assert_eq!(available_info_width(15, 0, 0), 40);
    assert_eq!(available_info_width(16, 0, 0), 11);
    // Sizes that cannot be added up still give the fallback.
    assert_eq!(available_info_width(100, usize::MAX, 5), 40);
    assert_eq!(available_info_width(usize::MAX, 5, usize::MAX), 40);
    assert_eq!(available_info_width(usize::MAX, 0, 0), usize::MAX - 5);
}

#[test]
fn rows_come_in_the_fixed_order() {
    let config = Config::new("");
    let items = get_info_items(&sample_info(), &config);
    let labels: Vec<&str> = items.iter().map(|i| i.label.as_str()).collect();
    assert_eq!(
        labels,
        vec![
            "", "", "OS", "Host", "Kernel", "Uptime", "Packages", "Shell", "Resolution", "DE",
            "WM", "WM Theme", "Theme", "Icons", "Terminal", "Terminal Font", "CPU", "GPU",
            "Memory",
        ]
    );
    // The order does not depend on the facts or on the settings.
    let mut other = Config::new("/tmp");
    other.info.underline_enabled = false;
    let blank = get_info_items(&SystemInfo::new(), &other);
    let blank_labels: Vec<&str> = blank.iter().map(|i| i.label.as_str()).collect();
    assert_eq!(blank_labels, labels);
}

#[test]
fn rows_hold_the_facts_and_their_show_flags() {
    let config = Config::new("");
    let items = get_info_items(&sample_info(), &config);
    assert_eq!(items[0].value, "me@box");
    assert!(items[0].show);
    assert_eq!(items[1].value, "------");
    assert!(items[1].show);
    assert_eq!(items[2].value, "Ubuntu 22.04");
    assert_eq!(items[6].value, "Unknown");
    // A row that is always shown keeps its flag even where nothing is known.
    assert!(items[6].show);
    assert_eq!(items[8].value, "1920x1080");
    assert!(items[8].show);
    // Optional rows are shown only where their fact was found out.
    assert_eq!(items[9].value, "Unknown");
    assert!(!items[9].show);
    assert_eq!(items[10].value, "");
    assert!(!items[10].show);
    assert!(!items[17].show);
    let shown: Vec<bool> = items.iter().map(|i| i.show).collect();
    assert_eq!(
        shown,
        vec![
            true, true, true, true, true, true, true, true, true, false, false, false, false,
            false, true, false, true, false, true,
        ]
    );
}

#[test]
fn underline_row_follows_the_setting() {
    let mut config = Config::new("");
    config.info.underline_enabled = false;
    let items = get_info_items(&sample_info(), &config);
    assert_eq!(items[1].label, "");
    assert_eq!(items[1].value, "");
    assert!(!items[1].show);
}

#[test]
fn is_known_rejects_empty_and_unknown() {
    assert!(is_known("x"));
    assert!(is_known("unknown"));
    assert!(is_known("Unknown "));
    assert!(!is_known(""));
    assert!(!is_known("Unknown"));
}

#[test]
fn rule_text_is_made_of_underline_characters() {
    assert!(is_rule_text("-----"));
    assert!(is_rule_text("=_-"));
    assert!(is_rule_text(""));
    assert!(!is_rule_text("--a--"));
    assert!(!is_rule_text(" "));
    assert!(has_char("a\x1bb", '\x1b'));
    assert!(!has_char("ab", '\x1b'));
    assert!(!has_char("", 'a'));
}

#[test]
fn labelled_row_with_colours_on() {
    colored::control::set_override(true);
    let config = Config::new("");
    let row = item("OS", "Ubuntu", true);
    assert_eq!(
        format_info_item_with_width(&row, &config, 40),
        "\x1b[1;36mOS\x1b[0m\x1b[37m:\x1b[0m \x1b[37mUbuntu\x1b[0m"
    );
    assert_eq!(
        format_special_item_with_width(&row, &config, 40),
        "\x1b[1;36mOS\x1b[0m\x1b[37m:\x1b[0m \x1b[37mUbuntu\x1b[0m"
    );
}

#[test]
fn labelled_row_without_bold() {
    colored::control::set_override(true);
    let mut config = Config::new("");
    config.info.bold = false;
    config.info.separator = " ->".to_string();
    let row = item("CPU", "Intel", true);
    assert_eq!(
        format_info_item_with_width(&row, &config, 40),
        "\x1b[36mCPU\x1b[0m\x1b[37m ->\x1b[0m \x1b[37mIntel\x1b[0m"
    );
}

#[test]
fn labelled_row_is_truncated_by_shown_characters() {
    colored::control::set_override(true);
    let config = Config::new("");
    let row = item("OS", "Ubuntu 22.04 LTS", true);
    // "OS: Ubuntu 22.04 LTS" shows 20 characters.
    assert_eq!(
        format_info_item_with_width(&row, &config, 20),
        "\x1b[1;36mOS\x1b[0m\x1b[37m:\x1b[0m \x1b[37mUbuntu 22.04 LTS\x1b[0m"
    );
    let cut = format_info_item_with_width(&row, &config, 10);
    assert_eq!(cut, "\x1b[1;36mOS\x1b[0m\x1b[37m:\x1b[0m \x1b[37mUbu...");
    assert_eq!(strip_ansi_codes(&cut), "OS: Ubu...");
    assert_eq!(strip_ansi_for_length(&cut), 10);
}

#[test]
fn row_without_a_fact_renders_nothing() {
    colored::control::set_override(true);
    let config = Config::new("");
    for show in [true, false] {
        assert_eq!(format_info_item_with_width(&item("Host", "", show), &config, 40), "");
        assert_eq!(format_info_item_with_width(&item("Host", "Unknown", show), &config, 40), "");
        assert_eq!(format_special_item_with_width(&item("GPU", "Unknown", show), &config, 40), "");
        assert_eq!(format_special_item_with_width(&item("GPU", "", show), &config, 40), "");
    }
}

#[test]
fn row_without_label_and_without_a_fact_renders_nothing() {
    colored::control::set_override(true);
    let config = Config::new("");
    for show in [true, false] {
        for width in [0, 3, 40] {
            let unknown = format_special_item_with_width(&item("", "Unknown", show), &config, width);
            assert_eq!(unknown, "");
            assert_eq!(strip_ansi_codes(&unknown), "");
            let blank = format_special_item_with_width(&item("", "", show), &config, width);
            assert_eq!(blank, "");
        }
    }
    // Only the very word stands for a fact that was not found out.
    assert_eq!(
        format_special_item_with_width(&item("", "unknown", true), &config, 40),
        "\x1b[1;32munknown\x1b[0m"
    );
    let rows = format_visible_items(
        &vec![item("", "Unknown", true), item("", "me@box", true)],
        &config,
        40,
    );
    assert_eq!(rows, vec!["", "\x1b[1;32mme@box\x1b[0m"]);
}

#[test]
fn title_row_is_green_and_bold() {
    colored::control::set_override(true);
    let mut config = Config::new("");
    let row = item("", "me@box", true);
    assert_eq!(format_special_item_with_width(&row, &config, 40), "\x1b[1;32mme@box\x1b[0m");
    config.info.bold = false;
    assert_eq!(format_special_item_with_width(&row, &config, 40), "\x1b[32mme@box\x1b[0m");
    assert_eq!(format_special_item_with_width(&row, &config, 5), "\x1b[32mme...");
}

#[test]
fn underline_row_is_cyan() {
    colored::control::set_override(true);
    let config = Config::new("");
    assert_eq!(
        format_special_item_with_width(&item("", "------", true), &config, 40),
        "\x1b[36m------\x1b[0m"
    );
    assert_eq!(
        format_special_item_with_width(&item("", "=_=_=_=_", true), &config, 6),
        "\x1b[36m=_=..."
    );
}

#[test]
fn swatch_row_passes_through() {
    colored::control::set_override(true);
    let config = Config::new("");
    let swatch = "\x1b[41m   \x1b[0m\x1b[42m   \x1b[0m";
    assert_eq!(format_special_item_with_width(&item("", swatch, true), &config, 2), swatch);
}

#[test]
fn assemble_joins_and_fits() {
    assert_eq!(assemble_info_line("OS", ":", "Ubuntu", 40), "OS: Ubuntu");
    assert_eq!(assemble_info_line("OS", ":", "Ubuntu", 8), "OS: U...");
    assert_eq!(assemble_info_line("", "", "", 0), "...");
    assert_eq!(assemble_info_line("", "", "", 1), " ");
}

#[test]
fn only_rows_to_be_shown_are_formatted() {
    colored::control::set_override(true);
    let config = Config::new("");
    let items = vec![
        item("", "me@box", true),
        item("OS", "Ubuntu", true),
        item("DE", "GNOME", false),
        item("Host", "Unknown", true),
        item("Shell", "bash", true),
    ];
    let rows = format_visible_items(&items, &config, 40);
    assert_eq!(
        rows,
        vec![
            "\x1b[1;32mme@box\x1b[0m",
            "\x1b[1;36mOS\x1b[0m\x1b[37m:\x1b[0m \x1b[37mUbuntu\x1b[0m",
            "",
            "\x1b[1;36mShell\x1b[0m\x1b[37m:\x1b[0m \x1b[37mbash\x1b[0m",
        ]
    );
    assert_eq!(format_visible_items(&vec![], &config, 40), Vec::<String>::new());
}

#[test]
fn logo_of_five_lines_beside_three_rows() {
    // A logo five lines high whose last two lines are blank, three rows, a gap of two.
    let logo: Vec<String> = vec!["####", "####", "##", "", ""].into_iter().map(String::from).collect();
    let rows: Vec<String> = vec!["one", "two", "three"].into_iter().map(String::from).collect();
    let lines = compose(&logo, 4, 2, &rows);
    assert_eq!(lines.len(), 5);
    assert_eq!(lines[0], "####  one");
    assert_eq!(lines[1], "####  two");
    assert_eq!(lines[2], "##    three");
    // Lines four and five: a blank logo column of the logo's width, the gap, and no text.
    assert_eq!(lines[3], "      ");
    assert_eq!(lines[4], "      ");
}

#[test]
fn logo_lines_without_a_row_end_after_the_gap() {
    let logo: Vec<String> = vec!["#####".to_string(); 5];
    let rows: Vec<String> = vec!["one", "two", "three"].into_iter().map(String::from).collect();
    let lines = compose(&logo, 5, 2, &rows);
    assert_eq!(lines, vec!["#####  one", "#####  two", "#####  three", "#####  ", "#####  "]);
}

#[test]
fn rows_beyond_the_logo_keep_their_column() {
    let logo: Vec<String> = vec!["##".to_string(), "#".to_string()];
    let rows: Vec<String> = vec!["a", "b", "c", "d"].into_iter().map(String::from).collect();
    let lines = compose(&logo, 3, 2, &rows);
    assert_eq!(lines, vec!["##   a", "#    b", "     c", "     d"]);
    // Five rows under a logo of three lines: the last two lines have a blank logo column.
    let logo: Vec<String> = vec!["###".to_string(); 3];
    let rows: Vec<String> = vec!["r".to_string(); 5];
    let lines = compose(&logo, 3, 2, &rows);
    assert_eq!(lines.len(), 5);
    assert_eq!(lines[3], "     r");
    assert_eq!(lines[4], "     r");
}

#[test]
fn padding_counts_shown_characters_only() {
    let logo: Vec<String> = vec!["\x1b[31m##\x1b[0m".to_string(), "####".to_string()];
    let rows: Vec<String> = vec!["a".to_string(), "b".to_string()];
    let lines = compose(&logo, 4, 1, &rows);
    assert_eq!(lines, vec!["\x1b[31m##\x1b[0m   a", "#### b"]);
    for line in &lines {
        assert_eq!(strip_ansi_for_length(line), 6);
    }
    // A logo line wider than the logo column is left as it is.
    let lines = compose(&vec!["######".to_string()], 4, 1, &vec!["a".to_string()]);
    assert_eq!(lines, vec!["###### a"]);
}

#[test]
fn compose_without_logo_or_rows() {
    assert_eq!(compose(&vec![], 4, 2, &vec![]), Vec::<String>::new());
    assert_eq!(compose(&vec![], 2, 1, &vec!["a".to_string()]), vec!["   a"]);
    assert_eq!(compose(&vec!["#".to_string()], 0, 0, &vec![]), vec!["#"]);
}

#[test]
fn swatch_lines_are_indented_and_empty_ones_dropped() {
    assert_eq!(indent_swatch("ab\ncd", 3), vec!["   ab", "   cd"]);
    assert_eq!(indent_swatch("ab\n\ncd\n", 2), vec!["  ab", "  cd"]);
    assert_eq!(indent_swatch("", 2), Vec::<String>::new());
    assert_eq!(indent_swatch("\n\n", 2), Vec::<String>::new());
    assert_eq!(indent_swatch("x", 0), vec!["x"]);
}

#[test]
fn join_lines_ends_every_line() {
    assert_eq!(join_lines(&vec!["a".to_string(), "b".to_string()]), "a\nb\n");
    assert_eq!(join_lines(&vec![String::new()]), "\n");
    assert_eq!(join_lines(&vec![]), "");
}

#[test]
fn plain_output_lists_known_rows() {
    let mut config = Config::new("");
    config.display.stdout = true;
    let info = sample_info();
    let out = generate_output(&info, &config, 80).unwrap();
    assert_eq!(
        out,
        "me@box\n------\nOS: Ubuntu 22.04\nHost: ThinkPad\nKernel: 6.1\n\
         Uptime: 1 hours, 2 mins\nShell: bash\nResolution: 1920x1080\nTerminal: xterm\n\
         CPU: Intel (8 cores)\nMemory: 1.0GiB / 2.0GiB\n"
    );
}

#[test]
fn plain_output_appends_the_swatch() {
    let mut config = Config::new("");
    let mut info = SystemInfo::new();
    info.title = "t".to_string();
    info.colors = "\x1b[41m   \x1b[0m".to_string();
    let items = get_info_items(&info, &config);
    assert_eq!(
        generate_stdout_output(&items, &info, &config),
        "t\n-\n\n\x1b[41m   \x1b[0m\n"
    );
    config.format.color_blocks = false;
    assert_eq!(generate_stdout_output(&items, &info, &config), "t\n-\n");
}

#[test]
fn plain_output_skips_rows_without_a_fact_whatever_their_flag() {
    let config = Config::new("");
    let info = SystemInfo::new();
    let items = vec![
        item("OS", "Unknown", true),
        item("Host", "", true),
        item("", "Unknown", true),
        item("", "", true),
        item("DE", "GNOME", false),
        item("Shell", "bash", true),
        item("", "title", true),
    ];
    assert_eq!(generate_stdout_output(&items, &info, &config), "Shell: bash\ntitle\n");
    assert_eq!(generate_stdout_output(&[], &info, &config), "");
}

#[test]
fn json_output_is_a_flat_object() {
    let info = sample_info();
    let text = generate_json_output(&info).unwrap();
    assert_eq!(
        text,
        "{\n  \"cpu\": \"Intel (8 cores)\",\n  \"gpu\": \"Unknown\",\n  \"host\": \"ThinkPad\",\n  \
         \"kernel\": \"6.1\",\n  \"memory\": \"1.0GiB / 2.0GiB\",\n  \"os\": \"Ubuntu 22.04\",\n  \
         \"packages\": \"Unknown\",\n  \"shell\": \"bash\",\n  \"title\": \"me@box\",\n  \
         \"uptime\": \"1 hours, 2 mins\"\n}"
    );
    let value: serde_json::Value = serde_json::from_str(&text).unwrap();
    let object = value.as_object().unwrap();
    assert_eq!(object.len(), 10);
    assert_eq!(object["title"], "me@box");
    assert_eq!(object["os"], "Ubuntu 22.04");
}

#[test]
fn json_output_escapes_what_json_must() {
    let mut info = SystemInfo::new();
    info.title = "a\"b\\c\n".to_string();
    let text = generate_json_output(&info).unwrap();
    let value: serde_json::Value = serde_json::from_str(&text).unwrap();
    assert_eq!(value["title"], "a\"b\\c\n");
    assert!(text.contains("\"title\": \"a\\\"b\\\\c\\n\""));
    assert_eq!(value["memory"], "");
}

#[test]
fn json_mode_wins_over_plain_mode() {
    let mut config = Config::new("");
    config.behavior.json = true;
    config.display.stdout = true;
    config.display.gap = -1;
    let info = sample_info();
    assert_eq!(generate_output(&info, &config, 80).unwrap(), generate_json_output(&info).unwrap());
}

#[test]
fn json_outcome_keeps_text_and_wraps_errors() {
    assert_eq!(json_outcome(Ok("{}".to_string())).unwrap(), "{}");
    let error = serde_json::from_str::<serde_json::Value>("{").unwrap_err();
    let message = error.to_string();
    match json_outcome(Err(error)) {
        Err(neofetch_rs::output::OutputError::Json(inner)) => {
            assert_eq!(inner.to_string(), message)
        }
        Ok(_) => panic!("an error must stay an error"),
    }
}

#[test]
fn bold_title_is_restyled_after_a_reset_of_its_own() {
    colored::control::set_override(true);
    let config = Config::new("");
    // A value with an escape in it is a swatch and passes through, so the title
    // that holds a reset can only be reached through a labelled row.
    let row = item("a\x1b[0mb", "v", true);
    assert_eq!(
        format_info_item_with_width(&row, &config, 40),
        "\x1b[1;36ma\x1b[0m\x1b[1;36mb\x1b[0m\x1b[37m:\x1b[0m \x1b[37mv\x1b[0m"
    );
}

#[test]
fn json_output_always_succeeds_and_keeps_every_fact() {
    let blank = SystemInfo::new();
    let text = generate_json_output(&blank).unwrap();
    let value: serde_json::Value = serde_json::from_str(&text).unwrap();
    let object = value.as_object().unwrap();
    let mut keys: Vec<&str> = object.keys().map(|k| k.as_str()).collect();
    keys.sort();
    assert_eq!(
        keys,
        vec!["cpu", "gpu", "host", "kernel", "memory", "os", "packages", "shell", "title", "uptime"]
    );
    for (_, member) in object {
        assert_eq!(member, "");
    }
    // Facts that were not found out are written like any other.
    let mut info = sample_info();
    info.host = "Unknown".to_string();
    let text = generate_json_output(&info).unwrap();
    let value: serde_json::Value = serde_json::from_str(&text).unwrap();
    assert_eq!(value["host"], "Unknown");
    assert_eq!(value["packages"], "Unknown");
    // Text that JSON must escape comes back as it was.
    info.title = "tab\there \u{0}\u{1f} \u{7f} é 日本 \u{1F600} \"q\" \\ /".to_string();
    let text = generate_json_output(&info).unwrap();
    let value: serde_json::Value = serde_json::from_str(&text).unwrap();
    assert_eq!(value["title"], info.title.as_str());
    // The terminal width and the plain switch do not matter in JSON mode.
    let mut config = Config::new("");
    config.behavior.json = true;
    let narrow = generate_output(&info, &config, 1).unwrap();
    config.display.stdout = true;
    let wide = generate_output(&info, &config, 500).unwrap();
    assert_eq!(narrow, text);
    assert_eq!(wide, text);
    assert!(!text.contains('\x1b'));
}
