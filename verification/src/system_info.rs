//! The facts about the host, each a text, and the names they go by.

use vstd::prelude::*;
use vstd::string::*;
use crate::probe::{
    color_blocks, color_blocks_text, copy_text, cpu_of, cpu_text, de_of, de_text,
    first_or_unknown, gpu_of_report, host_of, host_of_report, listed_or_unknown, manager_table,
    or_unknown, os_of, package_entries, package_managers, packages_of, printed, printed_text,
    reports_of, resolution_of, shell_of, text_or_unknown, title_of, title_text, uptime_of, wm_of,
    wm_text, wm_theme_of, wm_theme_text, Platform, Readings, Report,
};
use crate::text::{option_text, str_eq};
use crate::utils::{file_name, shell_of_variable};

verus! {

/// The facts that are known about the host. A fact that could not be found
/// out is empty or reads `Unknown`.
#[derive(Debug)]
pub struct SystemInfo {
    pub title: String,
    pub os: String,
    pub host: String,
    pub kernel: String,
    pub uptime: String,
    pub packages: String,
    pub shell: String,
    pub resolution: String,
    pub de: String,
    pub wm: String,
    pub wm_theme: String,
    pub theme: String,
    pub icons: String,
    pub terminal: String,
    pub terminal_font: String,
    pub cpu: String,
    pub gpu: String,
    pub memory: String,
    pub disk: String,
    pub battery: String,
    pub local_ip: String,
    pub public_ip: String,
    pub users: String,
    pub locale: String,
    pub gpu_driver: String,
    pub song: String,
    pub colors: String,
}

/// The facts, one name for each.
#[derive(Debug, Clone, Copy, PartialEq, Eq, Structural)]
pub enum Field {
    Title,
    Os,
    Host,
    Kernel,
    Uptime,
    Packages,
    Shell,
    Resolution,
    De,
    Wm,
    WmTheme,
    Theme,
    Icons,
    Terminal,
    TerminalFont,
    Cpu,
    Gpu,
    Memory,
    Disk,
    Battery,
    LocalIp,
    PublicIp,
    Users,
    Locale,
    GpuDriver,
    Song,
    Colors,
}

/// The fact that a name stands for. Some facts go by two names.
pub open spec fn field_named(name: Seq<char>) -> Option<Field> {
    if name == "title"@ {
        Some(Field::Title)
    } else if name == "os"@ || name == "distro"@ {
        Some(Field::Os)
    } else if name == "host"@ || name == "model"@ {
        Some(Field::Host)
    } else if name == "kernel"@ {
        Some(Field::Kernel)
    } else if name == "uptime"@ {
        Some(Field::Uptime)
    } else if name == "packages"@ {
        Some(Field::Packages)
    } else if name == "shell"@ {
        Some(Field::Shell)
    } else if name == "resolution"@ {
        Some(Field::Resolution)
    } else if name == "de"@ {
        Some(Field::De)
    } else if name == "wm"@ {
        Some(Field::Wm)
    } else if name == "wm_theme"@ {
        Some(Field::WmTheme)
    } else if name == "theme"@ {
        Some(Field::Theme)
    } else if name == "icons"@ {
        Some(Field::Icons)
    } else if name == "terminal"@ || name == "term"@ {
        Some(Field::Terminal)
    } else if name == "terminal_font"@ || name == "term_font"@ {
        Some(Field::TerminalFont)
    } else if name == "cpu"@ {
        Some(Field::Cpu)
    } else if name == "gpu"@ {
        Some(Field::Gpu)
    } else if name == "memory"@ {
        Some(Field::Memory)
    } else if name == "disk"@ {
        Some(Field::Disk)
    } else if name == "battery"@ {
        Some(Field::Battery)
    } else if name == "local_ip"@ {
        Some(Field::LocalIp)
    } else if name == "public_ip"@ {
        Some(Field::PublicIp)
    } else if name == "users"@ {
        Some(Field::Users)
    } else if name == "locale"@ {
        Some(Field::Locale)
    } else if name == "gpu_driver"@ {
        Some(Field::GpuDriver)
    } else if name == "song"@ {
        Some(Field::Song)
    } else if name == "cols"@ || name == "colors"@ {
        Some(Field::Colors)
    } else {
        None
    }
}

impl Field {
    /// Looks a fact up by its name.
    pub fn from_name(name: &str) -> (field: Option<Field>)
        ensures
            field == field_named(name@),
    {
        if str_eq(name, "title") {
            Some(Field::Title)
        } else if str_eq(name, "os") || str_eq(name, "distro") {
            Some(Field::Os)
        } else if str_eq(name, "host") || str_eq(name, "model") {
            Some(Field::Host)
        } else if str_eq(name, "kernel") {
            Some(Field::Kernel)
        } else if str_eq(name, "uptime") {
            Some(Field::Uptime)
        } else if str_eq(name, "packages") {
            Some(Field::Packages)
        } else if str_eq(name, "shell") {
            Some(Field::Shell)
        } else if str_eq(name, "resolution") {
            Some(Field::Resolution)
        } else if str_eq(name, "de") {
            Some(Field::De)
        } else if str_eq(name, "wm") {
            Some(Field::Wm)
        } else if str_eq(name, "wm_theme") {
            Some(Field::WmTheme)
        } else if str_eq(name, "theme") {
            Some(Field::Theme)
        } else if str_eq(name, "icons") {
            Some(Field::Icons)
        } else if str_eq(name, "terminal") || str_eq(name, "term") {
            Some(Field::Terminal)
        } else if str_eq(name, "terminal_font") || str_eq(name, "term_font") {
            Some(Field::TerminalFont)
        } else if str_eq(name, "cpu") {
            Some(Field::Cpu)
        } else if str_eq(name, "gpu") {
            Some(Field::Gpu)
        } else if str_eq(name, "memory") {
            Some(Field::Memory)
        } else if str_eq(name, "disk") {
            Some(Field::Disk)
        } else if str_eq(name, "battery") {
            Some(Field::Battery)
        } else if str_eq(name, "local_ip") {
            Some(Field::LocalIp)
        } else if str_eq(name, "public_ip") {
            Some(Field::PublicIp)
        } else if str_eq(name, "users") {
            Some(Field::Users)
        } else if str_eq(name, "locale") {
            Some(Field::Locale)
        } else if str_eq(name, "gpu_driver") {
            Some(Field::GpuDriver)
        } else if str_eq(name, "song") {
            Some(Field::Song)
        } else if str_eq(name, "cols") || str_eq(name, "colors") {
            Some(Field::Colors)
        } else {
            None
        }
    }
}

impl SystemInfo {
    /// The text of a fact.
    pub open spec fn value(self, field: Field) -> Seq<char> {
        match field {
            Field::Title => self.title@,
            Field::Os => self.os@,
            Field::Host => self.host@,
            Field::Kernel => self.kernel@,
            Field::Uptime => self.uptime@,
            Field::Packages => self.packages@,
            Field::Shell => self.shell@,
            Field::Resolution => self.resolution@,
            Field::De => self.de@,
            Field::Wm => self.wm@,
            Field::WmTheme => self.wm_theme@,
            Field::Theme => self.theme@,
            Field::Icons => self.icons@,
            Field::Terminal => self.terminal@,
            Field::TerminalFont => self.terminal_font@,
            Field::Cpu => self.cpu@,
            Field::Gpu => self.gpu@,
            Field::Memory => self.memory@,
            Field::Disk => self.disk@,
            Field::Battery => self.battery@,
            Field::LocalIp => self.local_ip@,
            Field::PublicIp => self.public_ip@,
            Field::Users => self.users@,
            Field::Locale => self.locale@,
            Field::GpuDriver => self.gpu_driver@,
            Field::Song => self.song@,
            Field::Colors => self.colors@,
        }
    }

    /// Whether nothing is known yet: every fact is empty.
    pub open spec fn is_blank(self) -> bool {
        forall|field: Field| (#[trigger] self.value(field)).len() == 0
    }

    /// The facts before anything was found out: all empty.
    pub fn new() -> (info: SystemInfo)
        ensures
            info.is_blank(),
    {
        SystemInfo {
            title: String::new(),
            os: String::new(),
            host: String::new(),
            kernel: String::new(),
            uptime: String::new(),
            packages: String::new(),
            shell: String::new(),
            resolution: String::new(),
            de: String::new(),
            wm: String::new(),
            wm_theme: String::new(),
            theme: String::new(),
            icons: String::new(),
            terminal: String::new(),
            terminal_font: String::new(),
            cpu: String::new(),
            gpu: String::new(),
            memory: String::new(),
            disk: String::new(),
            battery: String::new(),
            local_ip: String::new(),
            public_ip: String::new(),
            users: String::new(),
            locale: String::new(),
            gpu_driver: String::new(),
            song: String::new(),
            colors: String::new(),
        }
    }

    /// The text of a fact.
    pub fn field(&self, field: Field) -> (value: &str)
        ensures
            value@ == self.value(field),
    {
        match field {
            Field::Title => self.title.as_str(),
            Field::Os => self.os.as_str(),
            Field::Host => self.host.as_str(),
            Field::Kernel => self.kernel.as_str(),
            Field::Uptime => self.uptime.as_str(),
            Field::Packages => self.packages.as_str(),
            Field::Shell => self.shell.as_str(),
            Field::Resolution => self.resolution.as_str(),
            Field::De => self.de.as_str(),
            Field::Wm => self.wm.as_str(),
            Field::WmTheme => self.wm_theme.as_str(),
            Field::Theme => self.theme.as_str(),
            Field::Icons => self.icons.as_str(),
            Field::Terminal => self.terminal.as_str(),
            Field::TerminalFont => self.terminal_font.as_str(),
            Field::Cpu => self.cpu.as_str(),
            Field::Gpu => self.gpu.as_str(),
            Field::Memory => self.memory.as_str(),
            Field::Disk => self.disk.as_str(),
            Field::Battery => self.battery.as_str(),
            Field::LocalIp => self.local_ip.as_str(),
            Field::PublicIp => self.public_ip.as_str(),
            Field::Users => self.users.as_str(),
            Field::Locale => self.locale.as_str(),
            Field::GpuDriver => self.gpu_driver.as_str(),
            Field::Song => self.song.as_str(),
            Field::Colors => self.colors.as_str(),
        }
    }

    /// The text of the fact that goes by `field_name`, if that is the name
    /// of a fact.
    pub fn get_field(&self, field_name: &str) -> (value: Option<&str>)
        ensures
            match field_named(field_name@) {
                Some(field) => value is Some && value->0@ == self.value(field),
                None => value is None,
            },
    {
        match Field::from_name(field_name) {
            Some(field) => Some(self.field(field)),
            None => None,
        }
    }

    /// Makes the facts out of what the probes came back with. The public
    /// address is not among them and stays as it was.
    pub fn gather_all(&mut self, readings: Readings)
        ensures
            final(self).title@ == title_text(readings.username@, option_text(readings.hostname)),
            final(self).os@ == text_or_unknown(option_text(readings.os_name)) + seq![' ']
                + text_or_unknown(option_text(readings.os_version)),
            final(self).host@ == readings.host(),
            final(self).kernel@ == text_or_unknown(option_text(readings.kernel_version)),
            final(self).uptime@ == readings.uptime(),
            final(self).packages@ == listed_or_unknown(
                package_entries(
                    manager_table(readings.platform),
                    reports_of(readings.package_listings@),
                ),
            ),
            final(self).shell@ == readings.shell_text(
                match option_text(readings.shell) {
                    Some(path) => match file_name(path) {
                        Some(name) => name,
                        None => "Unknown"@,
                    },
                    None => "Unknown"@,
                },
            ),
            final(self).resolution@ == readings.resolution(),
            final(self).de@ == de_text(
                readings.platform,
                option_text(readings.current_desktop),
                option_text(readings.desktop_session),
                readings.gnome_session,
                readings.kde_session,
            ),
            final(self).wm@ == wm_text(
                readings.platform,
                readings.gnome_session,
                readings.kde_session,
                option_text(readings.desktop_session),
            ),
            final(self).wm_theme@ == wm_theme_text(readings.platform, readings.interface_style@),
            final(self).theme@ == "Unknown"@,
            final(self).icons@ == "Unknown"@,
            final(self).terminal@ == match option_text(readings.term_program) {
                Some(program) => program,
                None => text_or_unknown(option_text(readings.term)),
            },
            final(self).terminal_font@ == "Unknown"@,
            final(self).cpu@ == cpu_text(
                printed(readings.cpu_brand@),
                option_text(readings.cpu_name),
                readings.cpu_count as nat,
            ),
            final(self).gpu@ == readings.gpu(),
            final(self).memory@ == readings.memory@,
            final(self).disk@ == "Available"@,
            final(self).battery@ == "Unknown"@,
            final(self).local_ip@ == "Available"@,
            final(self).public_ip@ == old(self).public_ip@,
            final(self).users@ == readings.username@,
            final(self).locale@ == text_or_unknown(option_text(readings.lang)),
            final(self).gpu_driver@ == "Unknown"@,
            final(self).song@ == "Unknown"@,
            final(self).colors@ == color_blocks_text(),
    {
        let platform = readings.platform;
        self.title = title_of(readings.username.as_str(), copy_text(&readings.hostname));
        self.os = os_of(copy_text(&readings.os_name), copy_text(&readings.os_version));
        self.host = match platform {
            Platform::Linux => host_of(
                copy_text(&readings.product_name),
                copy_text(&readings.board_name),
            ),
            Platform::MacOs => match &readings.hardware_report {
                Report::Printed(text) => host_of_report(text.as_str()),
                _ => "Unknown".to_string(),
            },
            _ => "Unknown".to_string(),
        };
        self.kernel = or_unknown(copy_text(&readings.kernel_version));
        self.uptime = match platform {
            Platform::Linux => uptime_of(readings.uptime_seconds, &Report::NotRun),
            Platform::MacOs => uptime_of(None, &readings.uptime_report),
            _ => "Unknown".to_string(),
        };
        let managers = package_managers(platform);
        self.packages = packages_of(&managers, &readings.package_listings);
        self.shell = match &readings.shell {
            Some(_) => {
                let name = shell_of_variable(copy_text(&readings.shell));
                shell_of(name.as_str(), &readings.shell_version)
            },
            None => "Unknown".to_string(),
        };
        self.resolution = resolution_of(platform, &readings.display_report);
        self.de = de_of(
            platform,
            copy_text(&readings.current_desktop),
            copy_text(&readings.desktop_session),
            readings.gnome_session,
            readings.kde_session,
        );
        self.wm = wm_of(
            platform,
            readings.gnome_session,
            readings.kde_session,
            copy_text(&readings.desktop_session),
        );
        self.wm_theme = wm_theme_of(platform, &readings.interface_style);
        self.theme = "Unknown".to_string();
        self.icons = "Unknown".to_string();
        self.terminal = first_or_unknown(
            copy_text(&readings.term_program),
            copy_text(&readings.term),
        );
        self.terminal_font = "Unknown".to_string();
        self.cpu = cpu_of(
            printed_text(&readings.cpu_brand),
            copy_text(&readings.cpu_name),
            readings.cpu_count,
        );
        self.gpu = match platform {
            Platform::MacOs => match &readings.display_report {
                Report::Printed(text) => gpu_of_report(text.as_str()),
                _ => "Unknown".to_string(),
            },
            _ => "Unknown".to_string(),
        };
        self.memory = readings.memory.clone();
        self.disk = "Available".to_string();
        self.battery = "Unknown".to_string();
        self.local_ip = "Available".to_string();
        self.users = readings.username.clone();
        self.locale = or_unknown(copy_text(&readings.lang));
        self.gpu_driver = "Unknown".to_string();
        self.song = "Unknown".to_string();
        self.colors = color_blocks();
    }
}

} // verus!
