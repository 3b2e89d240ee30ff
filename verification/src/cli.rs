//! What the arguments of the command line do to the settings.

use vstd::prelude::*;
use vstd::string::*;
use crate::config::{
    Config, CpuCoreDisplay, DisplayConfig, DistroShorthand, FormatConfig, ImageBackend,
    InfoConfig, MemoryUnit, PackageManagerDisplay, UptimeShorthand, BehaviorConfig,
};
use crate::text::{parse_up_to, parsed_up_to, str_eq};

verus! {

/// The arguments of the command line that change the settings, as they were
/// given. A switch is `true` where it was given, and an option holds its
/// value where it was given.
#[derive(Debug)]
pub struct Arguments {
    pub stdout: bool,
    pub json: bool,
    pub verbose: bool,
    pub logo: bool,
    pub title_fqdn: Option<String>,
    pub package_managers: Option<String>,
    pub os_arch: Option<String>,
    pub cpu_cores: Option<String>,
    pub distro_shorthand: Option<String>,
    pub uptime_shorthand: Option<String>,
    pub memory_unit: Option<String>,
    pub backend: Option<String>,
    pub ascii: Option<String>,
    pub ascii_bold: Option<String>,
    pub color_blocks: Option<String>,
    pub block_width: Option<String>,
    pub block_height: Option<String>,
}

/// The truth value that a text writes: `true` or `false`, and nothing else.
pub open spec fn parsed_bool(text: Seq<char>) -> Option<bool> {
    if text == "true"@ {
        Some(true)
    } else if text == "false"@ {
        Some(false)
    } else {
        None
    }
}

/// Reads a truth value.
pub fn parse_bool(text: &str) -> (value: Option<bool>)
    ensures
        value == parsed_bool(text@),
{
    if str_eq(text, "true") {
        Some(true)
    } else if str_eq(text, "false") {
        Some(false)
    } else {
        None
    }
}

/// A switch after an option: what the option writes, `fallback` where it
/// writes no truth value, and `current` where the option was not given.
pub open spec fn switched(value: Option<String>, current: bool, fallback: bool) -> bool {
    match value {
        Some(text) => match parsed_bool(text@) {
            Some(b) => b,
            None => fallback,
        },
        None => current,
    }
}

/// Works out a switch after an option.
pub fn switch_of(value: &Option<String>, current: bool, fallback: bool) -> (out: bool)
    ensures
        out == switched(*value, current, fallback),
{
    match value {
        Some(text) => match parse_bool(text.as_str()) {
            Some(b) => b,
            None => fallback,
        },
        None => current,
    }
}

/// A small number after an option: what the option writes, `fallback` where
/// it writes no number up to 255, and `current` where the option was not
/// given.
pub open spec fn counted(value: Option<String>, current: u8, fallback: u8) -> u8 {
    match value {
        Some(text) => match parsed_up_to(text@, 255) {
            Some(n) => n as u8,
            None => fallback,
        },
        None => current,
    }
}

/// Works out a small number after an option.
pub fn count_of(value: &Option<String>, current: u8, fallback: u8) -> (out: u8)
    ensures
        out == counted(*value, current, fallback),
{
    match value {
        Some(text) => match parse_up_to(text.as_str(), 255) {
            Some(n) => n as u8,
            None => fallback,
        },
        None => current,
    }
}

/// How package managers are shown, by name. Any other name shows them.
pub open spec fn package_managers_named(name: Seq<char>) -> PackageManagerDisplay {
    if name == "tiny"@ {
        PackageManagerDisplay::Tiny
    } else if name == "off"@ {
        PackageManagerDisplay::Off
    } else {
        PackageManagerDisplay::On
    }
}

/// Which cores are counted, by name. Any other name counts the logical
/// ones.
pub open spec fn cpu_cores_named(name: Seq<char>) -> CpuCoreDisplay {
    if name == "physical"@ {
        CpuCoreDisplay::Physical
    } else if name == "off"@ {
        CpuCoreDisplay::Off
    } else {
        CpuCoreDisplay::Logical
    }
}

/// How the name of the distribution is shortened, by name. Any other name
/// leaves it whole.
pub open spec fn distro_shorthand_named(name: Seq<char>) -> DistroShorthand {
    if name == "on"@ {
        DistroShorthand::On
    } else if name == "tiny"@ {
        DistroShorthand::Tiny
    } else {
        DistroShorthand::Off
    }
}

/// How the uptime is shortened, by name. Any other name shortens it.
pub open spec fn uptime_shorthand_named(name: Seq<char>) -> UptimeShorthand {
    if name == "tiny"@ {
        UptimeShorthand::Tiny
    } else if name == "off"@ {
        UptimeShorthand::Off
    } else {
        UptimeShorthand::On
    }
}

/// The unit of memory, by name. Any other name is MiB.
pub open spec fn memory_unit_named(name: Seq<char>) -> MemoryUnit {
    if name == "kib"@ {
        MemoryUnit::Kib
    } else if name == "gib"@ {
        MemoryUnit::Gib
    } else {
        MemoryUnit::Mib
    }
}

/// The image backend, by name. Any other name is the ASCII backend.
pub open spec fn backend_named(name: Seq<char>) -> ImageBackend {
    if name == "caca"@ {
        ImageBackend::Caca
    } else if name == "catimg"@ {
        ImageBackend::Catimg
    } else if name == "chafa"@ {
        ImageBackend::Chafa
    } else if name == "jp2a"@ {
        ImageBackend::Jp2a
    } else if name == "iterm2"@ {
        ImageBackend::Iterm2
    } else if name == "off"@ {
        ImageBackend::Off
    } else if name == "pixterm"@ {
        ImageBackend::Pixterm
    } else if name == "sixel"@ {
        ImageBackend::Sixel
    } else if name == "termpix"@ {
        ImageBackend::Termpix
    } else if name == "tycat"@ {
        ImageBackend::Tycat
    } else if name == "w3m"@ {
        ImageBackend::W3m
    } else if name == "kitty"@ {
        ImageBackend::Kitty
    } else if name == "ueberzug"@ {
        ImageBackend::Ueberzug
    } else if name == "viu"@ {
        ImageBackend::Viu
    } else {
        ImageBackend::Ascii
    }
}

/// How package managers are shown, by name.
pub fn package_managers_of(name: &str) -> (out: PackageManagerDisplay)
    ensures
        out == package_managers_named(name@),
{
    if str_eq(name, "tiny") {
        PackageManagerDisplay::Tiny
    } else if str_eq(name, "off") {
        PackageManagerDisplay::Off
    } else {
        PackageManagerDisplay::On
    }
}

/// Which cores are counted, by name.
pub fn cpu_cores_of(name: &str) -> (out: CpuCoreDisplay)
    ensures
        out == cpu_cores_named(name@),
{
    if str_eq(name, "physical") {
        CpuCoreDisplay::Physical
    } else if str_eq(name, "off") {
        CpuCoreDisplay::Off
    } else {
        CpuCoreDisplay::Logical
    }
}

/// How the name of the distribution is shortened, by name.
pub fn distro_shorthand_of(name: &str) -> (out: DistroShorthand)
    ensures
        out == distro_shorthand_named(name@),
{
    if str_eq(name, "on") {
        DistroShorthand::On
    } else if str_eq(name, "tiny") {
        DistroShorthand::Tiny
    } else {
        DistroShorthand::Off
    }
}

/// How the uptime is shortened, by name.
pub fn uptime_shorthand_of(name: &str) -> (out: UptimeShorthand)
    ensures
        out == uptime_shorthand_named(name@),
{
    if str_eq(name, "tiny") {
        UptimeShorthand::Tiny
    } else if str_eq(name, "off") {
        UptimeShorthand::Off
    } else {
        UptimeShorthand::On
    }
}

/// The unit of memory, by name.
pub fn memory_unit_named_of(name: &str) -> (out: MemoryUnit)
    ensures
        out == memory_unit_named(name@),
{
    if str_eq(name, "kib") {
        MemoryUnit::Kib
    } else if str_eq(name, "gib") {
        MemoryUnit::Gib
    } else {
        MemoryUnit::Mib
    }
}

/// The image backend, by name.
pub fn backend_of(name: &str) -> (out: ImageBackend)
    ensures
        out == backend_named(name@),
{
    if str_eq(name, "caca") {
        ImageBackend::Caca
    } else if str_eq(name, "catimg") {
        ImageBackend::Catimg
    } else if str_eq(name, "chafa") {
        ImageBackend::Chafa
    } else if str_eq(name, "jp2a") {
        ImageBackend::Jp2a
    } else if str_eq(name, "iterm2") {
        ImageBackend::Iterm2
    } else if str_eq(name, "off") {
        ImageBackend::Off
    } else if str_eq(name, "pixterm") {
        ImageBackend::Pixterm
    } else if str_eq(name, "sixel") {
        ImageBackend::Sixel
    } else if str_eq(name, "termpix") {
        ImageBackend::Termpix
    } else if str_eq(name, "tycat") {
        ImageBackend::Tycat
    } else if str_eq(name, "w3m") {
        ImageBackend::W3m
    } else if str_eq(name, "kitty") {
        ImageBackend::Kitty
    } else if str_eq(name, "ueberzug") {
        ImageBackend::Ueberzug
    } else if str_eq(name, "viu") {
        ImageBackend::Viu
    } else {
        ImageBackend::Ascii
    }
}

impl Arguments {
    /// What the arguments make of the settings for the facts.
    pub open spec fn info(self, info: InfoConfig) -> InfoConfig {
        InfoConfig {
            title_fqdn: switched(self.title_fqdn, info.title_fqdn, false),
            package_managers: match self.package_managers {
                Some(name) => package_managers_named(name@),
                None => info.package_managers,
            },
            os_arch: switched(self.os_arch, info.os_arch, true),
            cpu_cores: match self.cpu_cores {
                Some(name) => cpu_cores_named(name@),
                None => info.cpu_cores,
            },
            distro_shorthand: match self.distro_shorthand {
                Some(name) => distro_shorthand_named(name@),
                None => info.distro_shorthand,
            },
            uptime_shorthand: match self.uptime_shorthand {
                Some(name) => uptime_shorthand_named(name@),
                None => info.uptime_shorthand,
            },
            memory_unit: match self.memory_unit {
                Some(name) => memory_unit_named(name@),
                None => info.memory_unit,
            },
            ..info
        }
    }

    /// The image backend after the arguments. The logo switch asks for the
    /// ASCII backend, a backend that is named comes after it, and a
    /// distribution whose logo is asked for has the last word.
    pub open spec fn backend(self, current: ImageBackend) -> ImageBackend {
        if self.ascii is Some {
            ImageBackend::Ascii
        } else {
            match self.backend {
                Some(name) => backend_named(name@),
                None => if self.logo {
                    ImageBackend::Ascii
                } else {
                    current
                },
            }
        }
    }

    /// What the arguments make of the settings for the display.
    pub open spec fn display(self, display: DisplayConfig) -> DisplayConfig {
        DisplayConfig {
            image_backend: self.backend(display.image_backend),
            ascii_distro: match self.ascii {
                Some(name) => Some(name),
                None => display.ascii_distro,
            },
            ascii_bold: switched(self.ascii_bold, display.ascii_bold, true),
            stdout: self.stdout || display.stdout,
            ..display
        }
    }

    /// What the arguments make of the settings for the format.
    pub open spec fn format(self, format: FormatConfig) -> FormatConfig {
        FormatConfig {
            color_blocks: switched(self.color_blocks, format.color_blocks, true),
            block_width: counted(self.block_width, format.block_width, 3),
            block_height: counted(self.block_height, format.block_height, 1),
            ..format
        }
    }

    /// What the arguments make of the settings for the behaviour.
    pub open spec fn behavior(self, behavior: BehaviorConfig) -> BehaviorConfig {
        BehaviorConfig {
            stdout: self.stdout || behavior.stdout,
            json: self.json || behavior.json,
            verbose: self.verbose || behavior.verbose,
            ..behavior
        }
    }

    /// Changes the settings for the facts as the arguments ask.
    pub fn apply_info(&self, info: InfoConfig) -> (out: InfoConfig)
        ensures
            out == self.info(info),
    {
        InfoConfig {
            title_fqdn: switch_of(&self.title_fqdn, info.title_fqdn, false),
            package_managers: match &self.package_managers {
                Some(name) => package_managers_of(name.as_str()),
                None => info.package_managers,
            },
            os_arch: switch_of(&self.os_arch, info.os_arch, true),
            cpu_cores: match &self.cpu_cores {
                Some(name) => cpu_cores_of(name.as_str()),
                None => info.cpu_cores,
            },
            distro_shorthand: match &self.distro_shorthand {
                Some(name) => distro_shorthand_of(name.as_str()),
                None => info.distro_shorthand,
            },
            uptime_shorthand: match &self.uptime_shorthand {
                Some(name) => uptime_shorthand_of(name.as_str()),
                None => info.uptime_shorthand,
            },
            memory_unit: match &self.memory_unit {
                Some(name) => memory_unit_named_of(name.as_str()),
                None => info.memory_unit,
            },
            ..info
        }
    }

    /// Changes the settings for the display as the arguments ask.
    pub fn apply_display(&self, display: DisplayConfig) -> (out: DisplayConfig)
        ensures
            out == self.display(display),
    {
        let image_backend = match &self.ascii {
            Some(_) => ImageBackend::Ascii,
            None => match &self.backend {
                Some(name) => backend_of(name.as_str()),
                None => if self.logo {
                    ImageBackend::Ascii
                } else {
                    display.image_backend
                },
            },
        };
        let ascii_bold = switch_of(&self.ascii_bold, display.ascii_bold, true);
        let stdout = self.stdout || display.stdout;
        match &self.ascii {
            Some(name) => DisplayConfig {
                image_backend,
                ascii_distro: Some(name.clone()),
                ascii_bold,
                stdout,
                ..display
            },
            None => DisplayConfig { image_backend, ascii_bold, stdout, ..display },
        }
    }

    /// Changes the settings for the format as the arguments ask.
    pub fn apply_format(&self, format: FormatConfig) -> (out: FormatConfig)
        ensures
            out == self.format(format),
    {
        FormatConfig {
            color_blocks: switch_of(&self.color_blocks, format.color_blocks, true),
            block_width: count_of(&self.block_width, format.block_width, 3),
            block_height: count_of(&self.block_height, format.block_height, 1),
            ..format
        }
    }

    /// Changes the settings for the behaviour as the arguments ask.
    pub fn apply_behavior(&self, behavior: BehaviorConfig) -> (out: BehaviorConfig)
        ensures
            out == self.behavior(behavior),
    {
        BehaviorConfig {
            stdout: self.stdout || behavior.stdout,
            json: self.json || behavior.json,
            verbose: self.verbose || behavior.verbose,
            ..behavior
        }
    }

    /// Changes the settings as the arguments ask. A setting whose argument
    /// was not given stays as it was.
    pub fn apply(&self, config: Config) -> (out: Config)
        ensures
            out.info == self.info(config.info),
            out.display == self.display(config.display),
            out.format == self.format(config.format),
            out.behavior == self.behavior(config.behavior),
    {
        Config {
            info: self.apply_info(config.info),
            display: self.apply_display(config.display),
            format: self.apply_format(config.format),
            behavior: self.apply_behavior(config.behavior),
        }
    }
}

} // verus!
