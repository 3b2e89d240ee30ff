//! The settings of the display: what is gathered, how it is laid out, how it
//! is formatted, and how the program behaves.

use vstd::prelude::*;
use vstd::string::*;
use crate::text::texts;

verus! {

/// All settings.
#[derive(Debug, Clone)]
pub struct Config {
    /// What is gathered and how it is worded.
    pub info: InfoConfig,
    /// The logo and its place.
    pub display: DisplayConfig,
    /// Colour blocks and bars.
    pub format: FormatConfig,
    /// How the program behaves.
    pub behavior: BehaviorConfig,
}

/// What is gathered and how it is worded.
#[derive(Debug, Clone)]
pub struct InfoConfig {
    pub title_fqdn: bool,
    pub package_managers: PackageManagerDisplay,
    pub os_arch: bool,
    pub cpu_cores: CpuCoreDisplay,
    pub cpu_speed: bool,
    pub speed_type: SpeedType,
    pub speed_shorthand: bool,
    pub distro_shorthand: DistroShorthand,
    pub kernel_shorthand: bool,
    pub uptime_shorthand: UptimeShorthand,
    pub cpu_brand: bool,
    pub gpu_brand: bool,
    pub gpu_type: GpuType,
    pub refresh_rate: bool,
    pub shell_path: bool,
    pub shell_version: bool,
    pub memory_unit: MemoryUnit,
    pub memory_percent: bool,
    pub disk_show: Vec<String>,
    pub disk_subtitle: DiskSubtitle,
    pub disk_percent: bool,
    pub music_player: MusicPlayer,
    pub song_format: String,
    pub song_shorthand: bool,
    pub mpc_args: Vec<String>,
    pub colors: Vec<u8>,
    pub bold: bool,
    pub underline_enabled: bool,
    pub underline_char: String,
    pub separator: String,
}

/// The logo and its place.
#[derive(Debug, Clone)]
pub struct DisplayConfig {
    pub image_backend: ImageBackend,
    pub image_source: ImageSource,
    pub ascii_distro: Option<String>,
    pub ascii_colors: Vec<String>,
    pub ascii_bold: bool,
    pub image_loop: bool,
    /// The directory for thumbnails, as a path.
    pub thumbnail_dir: String,
    pub crop_mode: CropMode,
    pub crop_offset: CropOffset,
    pub image_size: ImageSize,
    /// The number of columns between the logo and the text.
    pub gap: i32,
    pub yoffset: i32,
    pub xoffset: i32,
    pub background_color: Option<String>,
    pub stdout: bool,
}

/// Colour blocks and bars.
#[derive(Debug)]
pub struct FormatConfig {
    pub color_blocks: bool,
    pub block_range: (u8, u8),
    pub block_width: u8,
    pub block_height: u8,
    pub col_offset: String,
    pub bar_char_elapsed: String,
    pub bar_char_total: String,
    pub bar_border: bool,
    pub bar_length: u8,
    pub bar_color_elapsed: String,
    pub bar_color_total: String,
    pub cpu_display: DisplayMode,
    pub memory_display: DisplayMode,
    pub battery_display: DisplayMode,
    pub disk_display: DisplayMode,
}

/// How the program behaves.
#[derive(Debug, Clone)]
pub struct BehaviorConfig {
    /// The directory for cached data, as a path.
    pub cache_dir: String,
    /// The configuration file that was asked for, as a path.
    pub config_file: Option<String>,
    pub stdout: bool,
    pub verbose: bool,
    pub json: bool,
}

#[derive(Debug, Clone, Copy)]
pub enum PackageManagerDisplay {
    On,
    Tiny,
    Off,
}

#[derive(Debug, Clone, Copy)]
pub enum CpuCoreDisplay {
    Logical,
    Physical,
    Off,
}

#[derive(Debug, Clone, Copy)]
pub enum SpeedType {
    Scaling,
    Base,
    Max,
    Bios,
}

#[derive(Debug, Clone, Copy)]
pub enum DistroShorthand {
    On,
    Tiny,
    Off,
}

#[derive(Debug, Clone, Copy)]
pub enum UptimeShorthand {
    On,
    Tiny,
    Off,
}

#[derive(Debug, Clone, Copy)]
pub enum GpuType {
    All,
    Dedicated,
    Integrated,
}

#[derive(Debug, Clone, Copy)]
pub enum MemoryUnit {
    Kib,
    Mib,
    Gib,
}

#[derive(Debug, Clone, Copy)]
pub enum DiskSubtitle {
    Mount,
    Name,
    Dir,
    /// No subtitle at all.
    Off,
}

#[derive(Debug, Clone)]
pub enum MusicPlayer {
    Auto,
    Player(String),
}

#[derive(Debug, Clone, Copy)]
pub enum ImageBackend {
    Ascii,
    Caca,
    Catimg,
    Chafa,
    Jp2a,
    Iterm2,
    Off,
    Pixterm,
    Sixel,
    Termpix,
    Tycat,
    W3m,
    Kitty,
    Ueberzug,
    Viu,
}

#[derive(Debug, Clone)]
pub enum ImageSource {
    Auto,
    Ascii,
    Wallpaper,
    /// An image file, as a path.
    Path(String),
}

#[derive(Debug, Clone, Copy)]
pub enum CropMode {
    Normal,
    Fit,
    Fill,
}

#[derive(Debug, Clone, Copy)]
pub enum CropOffset {
    Northwest,
    North,
    Northeast,
    West,
    Center,
    East,
    Southwest,
    South,
    Southeast,
}

#[derive(Debug, Clone, Copy)]
pub enum ImageSize {
    Auto,
    Size(u32, u32),
    Percent(u8),
    /// No image at all.
    Off,
}

#[derive(Debug, Clone, Copy)]
pub enum DisplayMode {
    Bar,
    Infobar,
    Barinfo,
    Off,
}

impl Config {
    /// The settings that hold when nothing else was asked for. The two
    /// directories of the settings lie in `data_dir`, the directory that the
    /// program keeps its cached data in.
    pub fn new(data_dir: &str) -> (config: Config)
        ensures
            config.info.is_default(),
            config.display.is_default_in(data_dir@),
            config.format.is_default(),
            config.behavior.is_default_in(data_dir@),
    {
        Config {
            info: InfoConfig::default(),
            display: DisplayConfig::new(data_dir),
            format: FormatConfig::default(),
            behavior: BehaviorConfig::new(data_dir),
        }
    }
}

impl InfoConfig {
    /// Whether these are the settings that hold when nothing else was asked
    /// for.
    pub open spec fn is_default(self) -> bool {
        &&& !self.title_fqdn
        &&& self.package_managers == PackageManagerDisplay::On
        &&& self.os_arch
        &&& self.cpu_cores == CpuCoreDisplay::Logical
        &&& self.cpu_speed
        &&& self.speed_type == SpeedType::Bios
        &&& !self.speed_shorthand
        &&& self.distro_shorthand == DistroShorthand::Off
        &&& self.kernel_shorthand
        &&& self.uptime_shorthand == UptimeShorthand::On
        &&& self.cpu_brand
        &&& self.gpu_brand
        &&& self.gpu_type == GpuType::All
        &&& !self.refresh_rate
        &&& !self.shell_path
        &&& self.shell_version
        &&& self.memory_unit == MemoryUnit::Mib
        &&& !self.memory_percent
        &&& texts(self.disk_show@) == seq!["/"@]
        &&& self.disk_subtitle == DiskSubtitle::Mount
        &&& self.disk_percent
        &&& self.music_player == MusicPlayer::Auto
        &&& self.song_format@ == "%artist% - %album% - %title%"@
        &&& !self.song_shorthand
        &&& self.mpc_args@.len() == 0
        &&& self.colors@ == seq![1u8, 2u8, 3u8, 4u8, 5u8, 6u8]
        &&& self.bold
        &&& self.underline_enabled
        &&& self.underline_char@ == "-"@
        &&& self.separator@ == ":"@
    }
}

impl Default for InfoConfig {
    fn default() -> (info: InfoConfig)
        ensures
            info.is_default(),
    {
        let disk_show = vec!["/".to_string()];
        assert(texts(disk_show@) =~= seq!["/"@]);
        InfoConfig {
            title_fqdn: false,
            package_managers: PackageManagerDisplay::On,
            os_arch: true,
            cpu_cores: CpuCoreDisplay::Logical,
            cpu_speed: true,
            speed_type: SpeedType::Bios,
            speed_shorthand: false,
            distro_shorthand: DistroShorthand::Off,
            kernel_shorthand: true,
            uptime_shorthand: UptimeShorthand::On,
            cpu_brand: true,
            gpu_brand: true,
            gpu_type: GpuType::All,
            refresh_rate: false,
            shell_path: false,
            shell_version: true,
            memory_unit: MemoryUnit::Mib,
            memory_percent: false,
            disk_show,
            disk_subtitle: DiskSubtitle::Mount,
            disk_percent: true,
            music_player: MusicPlayer::Auto,
            song_format: "%artist% - %album% - %title%".to_string(),
            song_shorthand: false,
            mpc_args: Vec::new(),
            colors: vec![1u8, 2u8, 3u8, 4u8, 5u8, 6u8],
            bold: true,
            underline_enabled: true,
            underline_char: "-".to_string(),
            separator: ":".to_string(),
        }
    }
}

impl DisplayConfig {
    /// Whether these are the settings that hold when nothing else was asked
    /// for, with the thumbnails kept in `dir`.
    pub open spec fn is_default_in(self, dir: Seq<char>) -> bool {
        &&& self.image_backend == ImageBackend::Ascii
        &&& self.image_source == ImageSource::Auto
        &&& self.ascii_distro is None
        &&& texts(self.ascii_colors@) == seq!["distro"@]
        &&& self.ascii_bold
        &&& !self.image_loop
        &&& self.thumbnail_dir@ == dir
        &&& self.crop_mode == CropMode::Normal
        &&& self.crop_offset == CropOffset::Center
        &&& self.image_size == ImageSize::Auto
        &&& self.gap == 3
        &&& self.yoffset == 0
        &&& self.xoffset == 0
        &&& self.background_color is None
        &&& !self.stdout
    }

    /// The settings that hold when nothing else was asked for, with the
    /// thumbnails kept in `thumbnail_dir`.
    pub fn new(thumbnail_dir: &str) -> (display: DisplayConfig)
        ensures
            display.is_default_in(thumbnail_dir@),
    {
        let ascii_colors = vec!["distro".to_string()];
        assert(texts(ascii_colors@) =~= seq!["distro"@]);
        DisplayConfig {
            image_backend: ImageBackend::Ascii,
            image_source: ImageSource::Auto,
            ascii_distro: None,
            ascii_colors,
            ascii_bold: true,
            image_loop: false,
            thumbnail_dir: thumbnail_dir.to_string(),
            crop_mode: CropMode::Normal,
            crop_offset: CropOffset::Center,
            image_size: ImageSize::Auto,
            gap: 3,
            yoffset: 0,
            xoffset: 0,
            background_color: None,
            stdout: false,
        }
    }
}

impl FormatConfig {
    /// Whether these are the settings that hold when nothing else was asked
    /// for.
    pub open spec fn is_default(self) -> bool {
        &&& self.color_blocks
        &&& self.block_range == (0u8, 15u8)
        &&& self.block_width == 3
        &&& self.block_height == 1
        &&& self.col_offset@ == "auto"@
        &&& self.bar_char_elapsed@ == "\u{2501}"@
        &&& self.bar_char_total@ == "\u{2501}"@
        &&& self.bar_border
        &&& self.bar_length == 15
        &&& self.bar_color_elapsed@ == "distro"@
        &&& self.bar_color_total@ == "distro"@
        &&& self.cpu_display == DisplayMode::Off
        &&& self.memory_display == DisplayMode::Off
        &&& self.battery_display == DisplayMode::Off
        &&& self.disk_display == DisplayMode::Off
    }
}

impl Clone for FormatConfig {
    fn clone(&self) -> (format: FormatConfig)
        ensures
            format == *self,
    {
        FormatConfig {
            color_blocks: self.color_blocks,
            block_range: (self.block_range.0, self.block_range.1),
            block_width: self.block_width,
            block_height: self.block_height,
            col_offset: self.col_offset.clone(),
            bar_char_elapsed: self.bar_char_elapsed.clone(),
            bar_char_total: self.bar_char_total.clone(),
            bar_border: self.bar_border,
            bar_length: self.bar_length,
            bar_color_elapsed: self.bar_color_elapsed.clone(),
            bar_color_total: self.bar_color_total.clone(),
            cpu_display: self.cpu_display,
            memory_display: self.memory_display,
            battery_display: self.battery_display,
            disk_display: self.disk_display,
        }
    }
}

impl Default for FormatConfig {
    fn default() -> (format: FormatConfig)
        ensures
            format.is_default(),
    {
        FormatConfig {
            color_blocks: true,
            block_range: (0, 15),
            block_width: 3,
            block_height: 1,
            col_offset: "auto".to_string(),
            bar_char_elapsed: "\u{2501}".to_string(),
            bar_char_total: "\u{2501}".to_string(),
            bar_border: true,
            bar_length: 15,
            bar_color_elapsed: "distro".to_string(),
            bar_color_total: "distro".to_string(),
            cpu_display: DisplayMode::Off,
            memory_display: DisplayMode::Off,
            battery_display: DisplayMode::Off,
            disk_display: DisplayMode::Off,
        }
    }
}

impl BehaviorConfig {
    /// Whether these are the settings that hold when nothing else was asked
    /// for, with the cached data kept in `dir`.
    pub open spec fn is_default_in(self, dir: Seq<char>) -> bool {
        &&& self.cache_dir@ == dir
        &&& self.config_file is None
        &&& !self.stdout
        &&& !self.verbose
        &&& !self.json
    }

    /// The settings that hold when nothing else was asked for, with the
    /// cached data kept in `cache_dir`.
    pub fn new(cache_dir: &str) -> (behavior: BehaviorConfig)
        ensures
            behavior.is_default_in(cache_dir@),
    {
        BehaviorConfig {
            cache_dir: cache_dir.to_string(),
            config_file: None,
            stdout: false,
            verbose: false,
            json: false,
        }
    }
}

} // verus!
