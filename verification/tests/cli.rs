use neofetch_rs::cli::{
    backend_of, count_of, cpu_cores_of, distro_shorthand_of, memory_unit_named_of,
    package_managers_of, parse_bool, switch_of, uptime_shorthand_of, Arguments,
};
use neofetch_rs::config::{
    Config, CpuCoreDisplay, DistroShorthand, ImageBackend, MemoryUnit, PackageManagerDisplay,
    UptimeShorthand,
};

fn no_arguments() -> Arguments {
    Arguments {
        stdout: false,
        json: false,
        verbose: false,
        logo: false,
        title_fqdn: None,
        package_managers: None,
        os_arch: None,
        cpu_cores: None,
        distro_shorthand: None,
        uptime_shorthand: None,
        memory_unit: None,
        backend: None,
        ascii: None,
        ascii_bold: None,
        color_blocks: None,
        block_width: None,
        block_height: None,
    }
}

fn some(s: &str) -> Option<String> {
    Some(s.to_string())
}

#[test]
fn truth_values_are_true_and_false_only() {
    assert_eq!(parse_bool("true"), Some(true));
    assert_eq!(parse_bool("false"), Some(false));
    for s in ["", "True", "1", "0", "yes", "on", " true", "false "] {
        assert_eq!(parse_bool(s), None);
        assert_eq!(parse_bool(s), s.parse::<bool>().ok());
    }
}

#[test]
fn switches_fall_back_where_the_value_is_no_truth_value() {
    assert!(switch_of(&some("true"), false, false));
    assert!(!switch_of(&some("false"), true, true));
    assert!(switch_of(&some("maybe"), false, true));
    assert!(!switch_of(&some("maybe"), true, false));
    assert!(switch_of(&None, true, false));
    assert!(!switch_of(&None, false, true));
}

#[test]
fn counts_fall_back_where_the_value_is_no_small_number() {
    assert_eq!(count_of(&some("7"), 3, 3), 7);
    assert_eq!(count_of(&some("255"), 3, 3), 255);
    assert_eq!(count_of(&some("256"), 9, 3), 3);
    assert_eq!(count_of(&some("-1"), 9, 3), 3);
    assert_eq!(count_of(&some("wide"), 9, 1), 1);
    assert_eq!(count_of(&None, 9, 3), 9);
    for s in ["0", "+5", "005", "255", "256", "1000", "", "a"] {
        assert_eq!(count_of(&some(s), 9, 3), s.parse::<u8>().unwrap_or(3));
    }
}

#[test]
fn names_stand_for_their_settings() {
    assert!(matches!(package_managers_of("on"), PackageManagerDisplay::On));
    assert!(matches!(package_managers_of("tiny"), PackageManagerDisplay::Tiny));
    assert!(matches!(package_managers_of("off"), PackageManagerDisplay::Off));
    assert!(matches!(package_managers_of("Off"), PackageManagerDisplay::On));
    assert!(matches!(cpu_cores_of("logical"), CpuCoreDisplay::Logical));
    assert!(matches!(cpu_cores_of("physical"), CpuCoreDisplay::Physical));
    assert!(matches!(cpu_cores_of("off"), CpuCoreDisplay::Off));
    assert!(matches!(cpu_cores_of("all"), CpuCoreDisplay::Logical));
    assert!(matches!(distro_shorthand_of("on"), DistroShorthand::On));
    assert!(matches!(distro_shorthand_of("tiny"), DistroShorthand::Tiny));
    assert!(matches!(distro_shorthand_of("off"), DistroShorthand::Off));
    assert!(matches!(distro_shorthand_of(""), DistroShorthand::Off));
    assert!(matches!(uptime_shorthand_of("on"), UptimeShorthand::On));
    assert!(matches!(uptime_shorthand_of("tiny"), UptimeShorthand::Tiny));
    assert!(matches!(uptime_shorthand_of("off"), UptimeShorthand::Off));
    assert!(matches!(uptime_shorthand_of("short"), UptimeShorthand::On));
    assert!(matches!(memory_unit_named_of("kib"), MemoryUnit::Kib));
    assert!(matches!(memory_unit_named_of("mib"), MemoryUnit::Mib));
    assert!(matches!(memory_unit_named_of("gib"), MemoryUnit::Gib));
    assert!(matches!(memory_unit_named_of("GiB"), MemoryUnit::Mib));
}

#[test]
fn backends_go_by_their_names() {
    assert!(matches!(backend_of("ascii"), ImageBackend::Ascii));
    assert!(matches!(backend_of("caca"), ImageBackend::Caca));
    assert!(matches!(backend_of("catimg"), ImageBackend::Catimg));
    assert!(matches!(backend_of("chafa"), ImageBackend::Chafa));
    assert!(matches!(backend_of("jp2a"), ImageBackend::Jp2a));
    assert!(matches!(backend_of("iterm2"), ImageBackend::Iterm2));
    assert!(matches!(backend_of("off"), ImageBackend::Off));
    assert!(matches!(backend_of("pixterm"), ImageBackend::Pixterm));
    assert!(matches!(backend_of("sixel"), ImageBackend::Sixel));
    assert!(matches!(backend_of("termpix"), ImageBackend::Termpix));
    assert!(matches!(backend_of("tycat"), ImageBackend::Tycat));
    assert!(matches!(backend_of("w3m"), ImageBackend::W3m));
    assert!(matches!(backend_of("kitty"), ImageBackend::Kitty));
    assert!(matches!(backend_of("ueberzug"), ImageBackend::Ueberzug));
    assert!(matches!(backend_of("viu"), ImageBackend::Viu));
    // A name that is not known is the ASCII backend.
    assert!(matches!(backend_of("framebuffer"), ImageBackend::Ascii));
    assert!(matches!(backend_of(""), ImageBackend::Ascii));
    assert!(matches!(backend_of("Kitty"), ImageBackend::Ascii));
}

#[test]
fn no_arguments_change_nothing() {
    let mut config = Config::new("dir");
    config.display.image_backend = ImageBackend::Kitty;
    config.info.title_fqdn = true;
    config.format.block_width = 9;
    let out = no_arguments().apply(config);
    assert!(matches!(out.display.image_backend, ImageBackend::Kitty));
    assert!(out.info.title_fqdn);
    assert!(out.info.os_arch);
    assert_eq!(out.format.block_width, 9);
    assert_eq!(out.format.block_height, 1);
    assert!(out.format.color_blocks);
    assert!(!out.display.stdout);
    assert!(!out.behavior.stdout);
    assert!(!out.behavior.json);
    assert!(!out.behavior.verbose);
    assert_eq!(out.display.ascii_distro, None);
    assert_eq!(out.display.thumbnail_dir, "dir");
    assert_eq!(out.info.separator, ":");
}

#[test]
fn switches_set_their_settings() {
    let mut arguments = no_arguments();
    arguments.stdout = true;
    arguments.json = true;
    arguments.verbose = true;
    let out = arguments.apply(Config::new(""));
    assert!(out.display.stdout);
    assert!(out.behavior.stdout);
    assert!(out.behavior.json);
    assert!(out.behavior.verbose);
    // A switch that is not given leaves a setting that is on as it is.
    let mut config = Config::new("");
    config.behavior.json = true;
    assert!(no_arguments().apply(config).behavior.json);
}

#[test]
fn options_set_their_settings() {
    let mut arguments = no_arguments();
    arguments.title_fqdn = some("true");
    arguments.package_managers = some("tiny");
    arguments.os_arch = some("false");
    arguments.cpu_cores = some("physical");
    arguments.distro_shorthand = some("tiny");
    arguments.uptime_shorthand = some("off");
    arguments.memory_unit = some("gib");
    arguments.ascii_bold = some("false");
    arguments.color_blocks = some("false");
    arguments.block_width = some("5");
    arguments.block_height = some("2");
    let out = arguments.apply(Config::new(""));
    assert!(out.info.title_fqdn);
    assert!(matches!(out.info.package_managers, PackageManagerDisplay::Tiny));
    assert!(!out.info.os_arch);
    assert!(matches!(out.info.cpu_cores, CpuCoreDisplay::Physical));
    assert!(matches!(out.info.distro_shorthand, DistroShorthand::Tiny));
    assert!(matches!(out.info.uptime_shorthand, UptimeShorthand::Off));
    assert!(matches!(out.info.memory_unit, MemoryUnit::Gib));
    assert!(!out.display.ascii_bold);
    assert!(!out.format.color_blocks);
    assert_eq!(out.format.block_width, 5);
    assert_eq!(out.format.block_height, 2);
}

#[test]
fn options_that_make_no_sense_fall_back() {
    let mut config = Config::new("");
    config.info.title_fqdn = true;
    config.info.os_arch = false;
    config.display.ascii_bold = false;
    config.format.color_blocks = false;
    config.format.block_width = 9;
    config.format.block_height = 9;
    let mut arguments = no_arguments();
    arguments.title_fqdn = some("yes");
    arguments.os_arch = some("no");
    arguments.ascii_bold = some("");
    arguments.color_blocks = some("0");
    arguments.block_width = some("wide");
    arguments.block_height = some("300");
    let out = arguments.apply(config);
    assert!(!out.info.title_fqdn);
    assert!(out.info.os_arch);
    assert!(out.display.ascii_bold);
    assert!(out.format.color_blocks);
    assert_eq!(out.format.block_width, 3);
    assert_eq!(out.format.block_height, 1);
}

#[test]
fn backend_logo_and_ascii_take_turns() {
    let mut config = Config::new("");
    config.display.image_backend = ImageBackend::Kitty;
    let mut arguments = no_arguments();
    arguments.logo = true;
    assert!(matches!(arguments.apply(config.clone()).display.image_backend, ImageBackend::Ascii));
    // A backend that is named comes after the logo switch.
    arguments.backend = some("sixel");
    assert!(matches!(arguments.apply(config.clone()).display.image_backend, ImageBackend::Sixel));
    // A logo that is asked for by name has the last word.
    arguments.ascii = some("arch");
    let out = arguments.apply(config.clone());
    assert!(matches!(out.display.image_backend, ImageBackend::Ascii));
    assert_eq!(out.display.ascii_distro, some("arch"));
    let mut arguments = no_arguments();
    arguments.backend = some("nothing");
    assert!(matches!(arguments.apply(config).display.image_backend, ImageBackend::Ascii));
}
