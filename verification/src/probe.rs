//! What the readings of the host mean: each function here takes what a
//! probe came back with and gives the text of one fact.

use vstd::prelude::*;
use vstd::string::*;
use crate::ansi::ESC;
use crate::output::known;
use crate::text::{
    after_first, before_first, chars_of, contains, decimal, decimal_string, digit_of, digit_value,
    find_from, found_in, has_substring, join, joined_with, lemma_index_of_bounds,
    lemma_split_has_a_piece, lines, lines_of, lowercase, option_text, parse_up_to, parsed_up_to,
    replace, replaced, split, split_on, split_whitespace, str_eq, substring, texts, trim,
    trimmed_space, words_of,
};
use crate::utils::{format_uptime, uptime_text};

verus! {

/// The kinds of system that the probes tell apart.
#[derive(Debug, Clone, Copy, PartialEq, Eq, Structural)]
pub enum Platform {
    Linux,
    MacOs,
    Windows,
    Other,
}

/// The text of a reading, or `Unknown` where there is none.
pub open spec fn text_or_unknown(value: Option<Seq<char>>) -> Seq<char> {
    match value {
        Some(text) => text,
        None => "Unknown"@,
    }
}

/// The text of a reading, or `Unknown` where there is none.
pub fn or_unknown(value: Option<String>) -> (out: String)
    ensures
        out@ == text_or_unknown(option_text(value)),
{
    match value {
        Some(text) => text,
        None => "Unknown".to_string(),
    }
}

/// The first of two readings that is there, or `Unknown`.
pub fn first_or_unknown(first: Option<String>, second: Option<String>) -> (out: String)
    ensures
        out@ == match option_text(first) {
            Some(text) => text,
            None => text_or_unknown(option_text(second)),
        },
{
    match first {
        Some(text) => text,
        None => or_unknown(second),
    }
}

/// The part of a host name before its first dot.
pub open spec fn short_hostname(hostname: Seq<char>) -> Seq<char> {
    split_on(hostname, '.')[0]
}

/// The title: the user, an `@`, and the short name of the host, which is
/// `unknown` where the host has no name.
pub open spec fn title_text(username: Seq<char>, hostname: Option<Seq<char>>) -> Seq<char> {
    username + seq!['@'] + short_hostname(
        match hostname {
            Some(name) => name,
            None => "unknown"@,
        },
    )
}

/// The title of the display.
pub fn title_of(username: &str, hostname: Option<String>) -> (title: String)
    ensures
        title@ == title_text(username@, option_text(hostname)),
{
    let hostname = match hostname {
        Some(name) => name,
        None => "unknown".to_string(),
    };
    let pieces = split(hostname.as_str(), '.');
    proof {
        lemma_split_has_a_piece(hostname@, '.');
    }
    let mut title = String::new();
    title.append(username);
    title.push('@');
    title.append(pieces[0].as_str());
    title
}

/// The operating system: its name and its version, each `Unknown` where it
/// was not found.
pub fn os_of(name: Option<String>, version: Option<String>) -> (os: String)
    ensures
        os@ == text_or_unknown(option_text(name)) + seq![' '] + text_or_unknown(
            option_text(version),
        ),
{
    let mut os = or_unknown(name);
    os.push(' ');
    os.append(or_unknown(version).as_str());
    os
}

/// The model of the machine: the product name, or else the board name,
/// without the white space round it.
pub fn host_of(product_name: Option<String>, board_name: Option<String>) -> (host: String)
    ensures
        host@ == match option_text(product_name) {
            Some(name) => trimmed_space(name),
            None => match option_text(board_name) {
                Some(name) => trimmed_space(name),
                None => "Unknown"@,
            },
        },
{
    match product_name {
        Some(name) => trim(name.as_str()),
        None => match board_name {
            Some(name) => trim(name.as_str()),
            None => "Unknown".to_string(),
        },
    }
}

/// What a line of a report says after its first colon, up to the next one,
/// without the white space round it.
pub open spec fn value_after_colon(line: Seq<char>) -> Seq<char> {
    let pieces = split_on(line, ':');
    if pieces.len() > 1 {
        trimmed_space(pieces[1])
    } else {
        trimmed_space(Seq::empty())
    }
}

/// What the lines that hold `label` say after their colon, line by line.
pub open spec fn labelled(lines: Seq<Seq<char>>, label: Seq<char>) -> Seq<Seq<char>>
    decreases lines.len(),
{
    if lines.len() == 0 {
        lines
    } else if has_substring(lines.last(), label) {
        labelled(lines.drop_last(), label).push(value_after_colon(lines.last()))
    } else {
        labelled(lines.drop_last(), label)
    }
}

/// What the lines of `report` that hold `label` say after their colon.
pub fn labelled_values(report: &str, label: &str) -> (values: Vec<String>)
    ensures
        texts(values@) == labelled(lines_of(report@), label@),
{
    let all = lines(report);
    let mut values: Vec<String> = Vec::new();
    let mut i: usize = 0;
    while i < all.len()
        invariant
            i <= all.len(),
            texts(values@) == labelled(texts(all@).take(i as int), label@),
        decreases all.len() - i,
    {
        let line = all[i].as_str();
        let ghost before = texts(values@);
        assert(texts(all@).take(i + 1).drop_last() =~= texts(all@).take(i as int));
        if contains(line, label) {
            let pieces = split(line, ':');
            let value = if pieces.len() > 1 {
                trim(pieces[1].as_str())
            } else {
                trim("")
            };
            proof {
                reveal_strlit("");
                assert(""@ =~= Seq::<char>::empty());
            }
            values.push(value);
            assert(texts(values@) =~= before.push(value_after_colon(line@)));
        }
        i = i + 1;
    }
    assert(texts(all@).take(all.len() as int) =~= texts(all@));
    values
}

/// The values that were found out, in their order.
pub open spec fn known_only(values: Seq<Seq<char>>) -> Seq<Seq<char>>
    decreases values.len(),
{
    if values.len() == 0 {
        values
    } else if known(values.last()) {
        known_only(values.drop_last()).push(values.last())
    } else {
        known_only(values.drop_last())
    }
}

/// Keeps the values that were found out.
pub fn keep_known(values: &Vec<String>) -> (kept: Vec<String>)
    ensures
        texts(kept@) == known_only(texts(values@)),
{
    let mut kept: Vec<String> = Vec::new();
    let mut i: usize = 0;
    while i < values.len()
        invariant
            i <= values.len(),
            texts(kept@) == known_only(texts(values@).take(i as int)),
        decreases values.len() - i,
    {
        let ghost before = texts(kept@);
        assert(texts(values@).take(i + 1).drop_last() =~= texts(values@).take(i as int));
        let value = values[i].as_str();
        if !value.is_empty() && !str_eq(value, "Unknown") {
            kept.push(values[i].clone());
            assert(texts(kept@) =~= before.push(value@));
        }
        i = i + 1;
    }
    assert(texts(values@).take(values.len() as int) =~= texts(values@));
    kept
}

/// The values joined by a comma and a space, or `Unknown` where there are
/// none.
pub open spec fn listed_or_unknown(values: Seq<Seq<char>>) -> Seq<char> {
    if values.len() == 0 {
        "Unknown"@
    } else {
        joined_with(values, ", "@)
    }
}

/// Writes the values with a comma and a space between them, or `Unknown`
/// where there are none.
pub fn list_or_unknown(values: &Vec<String>) -> (out: String)
    ensures
        out@ == listed_or_unknown(texts(values@)),
{
    if values.len() == 0 {
        "Unknown".to_string()
    } else {
        join(values, ", ")
    }
}

/// The model of the machine as a hardware report names it: what the first
/// line with `Model Name:` says after its colon.
pub fn host_of_report(report: &str) -> (host: String)
    ensures
        host@ == ({
            let names = labelled(lines_of(report@), "Model Name:"@);
            if names.len() > 0 {
                names[0]
            } else {
                "Unknown"@
            }
        }),
{
    let names = labelled_values(report, "Model Name:");
    if names.len() > 0 {
        names[0].clone()
    } else {
        "Unknown".to_string()
    }
}

/// The graphics chip as a display report names it: the first thing found
/// out that a line with `Chipset Model:` says after its colon.
pub fn gpu_of_report(report: &str) -> (gpu: String)
    ensures
        gpu@ == ({
            let chips = known_only(labelled(lines_of(report@), "Chipset Model:"@));
            if chips.len() > 0 {
                chips[0]
            } else {
                "Unknown"@
            }
        }),
{
    let chips = keep_known(&labelled_values(report, "Chipset Model:"));
    if chips.len() > 0 {
        chips[0].clone()
    } else {
        "Unknown".to_string()
    }
}

/// The resolutions as a display report names them: everything found out
/// that the lines with `Resolution:` say after their colon.
pub fn resolution_of_report(report: &str) -> (resolution: String)
    ensures
        resolution@ == listed_or_unknown(
            known_only(labelled(lines_of(report@), "Resolution:"@)),
        ),
{
    list_or_unknown(&keep_known(&labelled_values(report, "Resolution:")))
}

/// How a command that was to report something ended.
#[derive(Debug, Clone)]
pub enum Report {
    /// The command could not be run.
    NotRun,
    /// The command ran and failed.
    Failed,
    /// The command ran well and printed this.
    Printed(String),
}

/// What a report holds.
pub enum ReportText {
    NotRun,
    Failed,
    Printed(Seq<char>),
}

impl View for Report {
    type V = ReportText;

    open spec fn view(&self) -> ReportText {
        match self {
            Report::NotRun => ReportText::NotRun,
            Report::Failed => ReportText::Failed,
            Report::Printed(text) => ReportText::Printed(text@),
        }
    }
}

/// What the reports of a list hold.
pub open spec fn reports_of(reports: Seq<Report>) -> Seq<ReportText> {
    Seq::new(reports.len(), |i: int| reports[i]@)
}

/// A package manager: the name it is listed under, and how many lines at
/// the head of its listing name no package.
#[derive(Debug, Clone)]
pub struct PackageManager {
    pub name: String,
    pub header_lines: usize,
}

/// The number of packages in the listing of a package manager: one for
/// each line, but for the header lines. A listing that could not be had
/// counts for none.
pub open spec fn package_count(listing: ReportText, header_lines: nat) -> nat {
    match listing {
        ReportText::Printed(text) => if lines_of(text).len() > header_lines {
            (lines_of(text).len() - header_lines) as nat
        } else {
            0
        },
        _ => 0,
    }
}

/// How a package manager with `count` packages is listed.
pub open spec fn package_entry(count: nat, name: Seq<char>) -> Seq<char> {
    decimal(count) + seq![' ', '('] + name + seq![')']
}

/// The entries of the package managers that hold any package, in their
/// order. Each manager is given by its name and the number of its header
/// lines. A manager without a listing is passed over.
pub open spec fn package_entries(
    managers: Seq<(Seq<char>, nat)>,
    listings: Seq<ReportText>,
) -> Seq<Seq<char>>
    decreases managers.len(),
{
    if managers.len() == 0 {
        Seq::empty()
    } else {
        let rest = package_entries(managers.drop_last(), listings);
        let last = managers.len() - 1;
        if last < listings.len() && package_count(listings[last], managers[last].1) > 0 {
            rest.push(
                package_entry(package_count(listings[last], managers[last].1), managers[last].0),
            )
        } else {
            rest
        }
    }
}

/// What a list of package managers holds.
pub open spec fn managers_view(managers: Seq<PackageManager>) -> Seq<(Seq<char>, nat)> {
    Seq::new(managers.len(), |i: int| (managers[i].name@, managers[i].header_lines as nat))
}

/// Counts the packages in a listing.
pub fn count_packages(listing: &Report, header_lines: usize) -> (count: usize)
    ensures
        count == package_count(listing@, header_lines as nat),
{
    match listing {
        Report::Printed(text) => {
            let all = lines(text.as_str());
            if all.len() > header_lines {
                all.len() - header_lines
            } else {
                0
            }
        },
        _ => 0,
    }
}

/// The packages of the host: for each package manager that holds any, the
/// number of its packages and its name, or `Unknown` where none holds any.
pub fn packages_of(managers: &Vec<PackageManager>, listings: &Vec<Report>) -> (packages: String)
    ensures
        packages@ == listed_or_unknown(
            package_entries(managers_view(managers@), reports_of(listings@)),
        ),
{
    let mut entries: Vec<String> = Vec::new();
    let mut i: usize = 0;
    while i < managers.len()
        invariant
            i <= managers.len(),
            texts(entries@) == package_entries(
                managers_view(managers@).take(i as int),
                reports_of(listings@),
            ),
        decreases managers.len() - i,
    {
        let ghost before = texts(entries@);
        assert(managers_view(managers@).take(i + 1).drop_last() =~= managers_view(
            managers@,
        ).take(i as int));
        if i < listings.len() {
            let count = count_packages(&listings[i], managers[i].header_lines);
            if count > 0 {
                let mut entry = decimal_string(count as u64);
                entry.push(' ');
                entry.push('(');
                entry.append(managers[i].name.as_str());
                entry.push(')');
                assert(entry@ =~= package_entry(count as nat, managers@[i as int].name@));
                entries.push(entry);
                assert(texts(entries@) =~= before.push(
                    package_entry(count as nat, managers@[i as int].name@),
                ));
            }
        }
        i = i + 1;
    }
    assert(managers_view(managers@).take(managers.len() as int) =~= managers_view(managers@));
    list_or_unknown(&entries)
}

/// The names and header lines of the package managers of a platform, in the
/// order in which they are listed.
pub open spec fn manager_table(platform: Platform) -> Seq<(Seq<char>, nat)> {
    match platform {
        Platform::Linux => seq![
            ("apt"@, 0nat),
            ("pacman"@, 0nat),
            ("rpm"@, 0nat),
            ("flatpak"@, 0nat),
            ("snap"@, 1nat),
        ],
        Platform::MacOs => seq![("brew"@, 0nat), ("port"@, 0nat)],
        _ => Seq::empty(),
    }
}

/// A package manager.
fn manager(name: &str, header_lines: usize) -> (m: PackageManager)
    ensures
        m.name@ == name@,
        m.header_lines == header_lines,
{
    PackageManager { name: name.to_string(), header_lines }
}

/// The package managers that are asked on a platform.
pub fn package_managers(platform: Platform) -> (managers: Vec<PackageManager>)
    ensures
        managers_view(managers@) == manager_table(platform),
{
    let managers = match platform {
        Platform::Linux => vec![
            manager("apt", 0),
            manager("pacman", 0),
            manager("rpm", 0),
            manager("flatpak", 0),
            manager("snap", 1),
        ],
        Platform::MacOs => vec![manager("brew", 0), manager("port", 0)],
        _ => Vec::new(),
    };
    assert(managers_view(managers@) =~= manager_table(platform));
    managers
}

/// The first line of a text, or nothing where it has no line.
pub open spec fn first_line(text: Seq<char>) -> Seq<char> {
    if lines_of(text).len() > 0 {
        lines_of(text)[0]
    } else {
        Seq::empty()
    }
}

/// The shell: the first line of what it printed about its version, or its
/// name where that could not be had.
pub fn shell_of(shell_name: &str, version: &Report) -> (shell: String)
    ensures
        shell@ == match version@ {
            ReportText::Printed(text) => first_line(text),
            _ => shell_name@,
        },
{
    match version {
        Report::Printed(text) => {
            let all = lines(text.as_str());
            if all.len() > 0 {
                all[0].clone()
            } else {
                String::new()
            }
        },
        _ => shell_name.to_string(),
    }
}

/// The desktop environment. On Linux it is what the session says of itself:
/// the current desktop, or else the session's name, or else GNOME or KDE
/// where one of them has left its mark.
pub open spec fn de_text(
    platform: Platform,
    current_desktop: Option<Seq<char>>,
    desktop_session: Option<Seq<char>>,
    gnome: bool,
    kde: bool,
) -> Seq<char> {
    match platform {
        Platform::MacOs => "Aqua"@,
        Platform::Windows => "Windows"@,
        Platform::Other => "Unknown"@,
        Platform::Linux => match current_desktop {
            Some(name) => name,
            None => match desktop_session {
                Some(name) => name,
                None => if gnome {
                    "GNOME"@
                } else if kde {
                    "KDE"@
                } else {
                    "Unknown"@
                },
            },
        },
    }
}

/// The desktop environment.
pub fn de_of(
    platform: Platform,
    current_desktop: Option<String>,
    desktop_session: Option<String>,
    gnome: bool,
    kde: bool,
) -> (de: String)
    ensures
        de@ == de_text(
            platform,
            option_text(current_desktop),
            option_text(desktop_session),
            gnome,
            kde,
        ),
{
    match platform {
        Platform::MacOs => "Aqua".to_string(),
        Platform::Windows => "Windows".to_string(),
        Platform::Other => "Unknown".to_string(),
        Platform::Linux => match current_desktop {
            Some(name) => name,
            None => match desktop_session {
                Some(name) => name,
                None => if gnome {
                    "GNOME".to_string()
                } else if kde {
                    "KDE".to_string()
                } else {
                    "Unknown".to_string()
                },
            },
        },
    }
}

/// The window manager that a session name stands for: the well-known ones
/// under their own spelling, whatever the case of the session name, and any
/// other session under its own name.
pub open spec fn session_wm(session: Seq<char>, lowered: Seq<char>) -> Seq<char> {
    if lowered == "i3"@ {
        "i3"@
    } else if lowered == "awesome"@ {
        "awesome"@
    } else if lowered == "bspwm"@ {
        "bspwm"@
    } else if lowered == "openbox"@ {
        "Openbox"@
    } else {
        session
    }
}

/// The window manager. On Linux GNOME and KDE bring their own, and any
/// other session is taken for its window manager.
pub open spec fn wm_text(
    platform: Platform,
    gnome: bool,
    kde: bool,
    desktop_session: Option<Seq<char>>,
) -> Seq<char> {
    match platform {
        Platform::MacOs => "Quartz Compositor"@,
        Platform::Windows => "Desktop Window Manager"@,
        Platform::Other => "Unknown"@,
        Platform::Linux => if gnome {
            "Mutter"@
        } else if kde {
            "KWin"@
        } else {
            match desktop_session {
                Some(session) => session_wm(session, lowercase(session)),
                None => "Unknown"@,
            }
        },
    }
}

/// The window manager that a session name stands for, given the name in
/// lower case.
pub fn wm_of_session(session: String, lowered: &str) -> (wm: String)
    ensures
        wm@ == session_wm(session@, lowered@),
{
    if str_eq(lowered, "i3") {
        "i3".to_string()
    } else if str_eq(lowered, "awesome") {
        "awesome".to_string()
    } else if str_eq(lowered, "bspwm") {
        "bspwm".to_string()
    } else if str_eq(lowered, "openbox") {
        "Openbox".to_string()
    } else {
        session
    }
}

/// The window manager.
pub fn wm_of(platform: Platform, gnome: bool, kde: bool, desktop_session: Option<String>) -> (wm:
    String)
    ensures
        wm@ == wm_text(platform, gnome, kde, option_text(desktop_session)),
{
    match platform {
        Platform::MacOs => "Quartz Compositor".to_string(),
        Platform::Windows => "Desktop Window Manager".to_string(),
        Platform::Other => "Unknown".to_string(),
        Platform::Linux => if gnome {
            "Mutter".to_string()
        } else if kde {
            "KWin".to_string()
        } else {
            match desktop_session {
                Some(session) => {
                    let lowered = session.as_str().to_lowercase();
                    wm_of_session(session, lowered.as_str())
                },
                None => "Unknown".to_string(),
            }
        },
    }
}

/// The theme of the window manager. Only macOS tells: dark where the
/// interface style reads `Dark`, light where it reads anything else or
/// could not be read, and nothing is known where it could not be asked.
pub open spec fn wm_theme_text(platform: Platform, style: ReportText) -> Seq<char> {
    if platform == Platform::MacOs {
        match style {
            ReportText::NotRun => "Unknown"@,
            ReportText::Failed => "Blue (Light)"@,
            ReportText::Printed(text) => if trimmed_space(text) == "Dark"@ {
                "Blue (Dark)"@
            } else {
                "Blue (Light)"@
            },
        }
    } else {
        "Unknown"@
    }
}

/// The theme of the window manager.
pub fn wm_theme_of(platform: Platform, style: &Report) -> (theme: String)
    ensures
        theme@ == wm_theme_text(platform, style@),
{
    match platform {
        Platform::MacOs => match style {
            Report::NotRun => "Unknown".to_string(),
            Report::Failed => "Blue (Light)".to_string(),
            Report::Printed(text) => {
                let style = trim(text.as_str());
                if str_eq(style.as_str(), "Dark") {
                    "Blue (Dark)".to_string()
                } else {
                    "Blue (Light)".to_string()
                }
            },
        },
        _ => "Unknown".to_string(),
    }
}

/// A processor's name and its number of cores, as they are shown.
pub open spec fn with_cores(name: Seq<char>, cores: nat) -> Seq<char> {
    name + seq![' ', '('] + decimal(cores) + " cores)"@
}

/// The name of a processor as the system reports it, tidied: `(R)`, `(TM)`,
/// `CPU` and `Processor` are taken out, in this order, then every two
/// spaces become one, and the white space at both ends goes.
pub open spec fn tidy_cpu_name(name: Seq<char>) -> Seq<char> {
    let no_r = replaced(trimmed_space(name), "(R)"@, ""@);
    let no_tm = replaced(no_r, "(TM)"@, ""@);
    let no_cpu = replaced(no_tm, "CPU"@, ""@);
    let no_processor = replaced(no_cpu, "Processor"@, ""@);
    trimmed_space(replaced(no_processor, "  "@, " "@))
}

/// The processor. The brand that the machine itself reports is shown as it
/// is; failing that, the name of the first processor is tidied; failing
/// that, nothing is known.
pub open spec fn cpu_text(brand: Option<Seq<char>>, name: Option<Seq<char>>, cores: nat) -> Seq<
    char,
> {
    if brand is Some && trimmed_space(brand->0).len() > 0 {
        with_cores(trimmed_space(brand->0), cores)
    } else {
        match name {
            Some(name) => with_cores(tidy_cpu_name(name), cores),
            None => "Unknown"@,
        }
    }
}

/// Writes a processor's name with its number of cores.
fn name_with_cores(name: &str, cores: usize) -> (out: String)
    ensures
        out@ == with_cores(name@, cores as nat),
{
    let mut out = String::new();
    out.append(name);
    out.push(' ');
    out.push('(');
    out.append(decimal_string(cores as u64).as_str());
    out.append(" cores)");
    out
}

/// The processor.
pub fn cpu_of(brand: Option<String>, name: Option<String>, cores: usize) -> (cpu: String)
    ensures
        cpu@ == cpu_text(option_text(brand), option_text(name), cores as nat),
{
    match brand {
        Some(brand) => {
            let brand = trim(brand.as_str());
            if !brand.as_str().is_empty() {
                return name_with_cores(brand.as_str(), cores);
            }
        },
        None => {},
    }
    match name {
        Some(name) => {
            let name = trim(name.as_str());
            let no_r = replace(name.as_str(), "(R)", "");
            let no_tm = replace(no_r.as_str(), "(TM)", "");
            let no_cpu = replace(no_tm.as_str(), "CPU", "");
            let no_processor = replace(no_cpu.as_str(), "Processor", "");
            let single_spaced = replace(no_processor.as_str(), "  ", " ");
            let cleaned = trim(single_spaced.as_str());
            name_with_cores(cleaned.as_str(), cores)
        },
        None => "Unknown".to_string(),
    }
}

/// One block of a colour swatch: three spaces on the background that
/// `code` selects.
pub open spec fn color_block(code: Seq<char>) -> Seq<char> {
    seq![ESC, '['] + code + seq!['m', ' ', ' ', ' ', ESC, '[', '0', 'm']
}

/// The first `n` blocks of a row of a swatch. The code of a block is
/// `prefix` and then the number of the block.
pub open spec fn block_row(prefix: Seq<char>, n: nat) -> Seq<char>
    decreases n,
{
    if n == 0 {
        Seq::empty()
    } else {
        block_row(prefix, (n - 1) as nat) + color_block(prefix + decimal((n - 1) as nat))
    }
}

/// The colour swatch: a row of the eight standard colours over a row of
/// the eight bright ones.
pub open spec fn color_blocks_text() -> Seq<char> {
    block_row(seq!['4'], 8) + seq!['\n'] + block_row(seq!['1', '0'], 8)
}

/// Writes a row of eight blocks of a swatch.
fn push_block_row(colors: &mut String, prefix: &str)
    ensures
        final(colors)@ == old(colors)@ + block_row(prefix@, 8),
{
    let ghost start = colors@;
    let mut i: u64 = 0;
    while i < 8
        invariant
            i <= 8,
            colors@ == start + block_row(prefix@, i as nat),
        decreases 8 - i,
    {
        let ghost before = colors@;
        colors.push(ESC);
        colors.push('[');
        colors.append(prefix);
        colors.append(decimal_string(i).as_str());
        colors.push('m');
        colors.append("   ");
        colors.push(ESC);
        colors.append("[0m");
        proof {
            reveal_strlit("   ");
            reveal_strlit("[0m");
            assert(colors@ =~= before + color_block(prefix@ + decimal(i as nat)));
            assert(start + block_row(prefix@, i as nat) + color_block(
                prefix@ + decimal(i as nat),
            ) =~= start + block_row(prefix@, (i + 1) as nat));
        }
        i = i + 1;
    }
}

/// The colour swatch of the display.
pub fn color_blocks() -> (colors: String)
    ensures
        colors@ == color_blocks_text(),
{
    let mut colors = String::new();
    proof {
        reveal_strlit("4");
        reveal_strlit("10");
        assert("4"@ =~= seq!['4']);
        assert("10"@ =~= seq!['1', '0']);
    }
    push_block_row(&mut colors, "4");
    colors.push('\n');
    push_block_row(&mut colors, "10");
    assert(colors@ =~= color_blocks_text());
    colors
}

/// Whether a word of a screen report is a resolution: it begins with a
/// digit and holds an `x`.
pub open spec fn is_resolution(word: Seq<char>) -> bool {
    has_substring(word, "x"@) && word.len() > 0 && digit_value(word[0]) is Some
}

/// The first of the words that is a resolution.
pub open spec fn first_resolution(words: Seq<Seq<char>>) -> Option<Seq<char>>
    decreases words.len(),
{
    if words.len() == 0 {
        None
    } else if is_resolution(words[0]) {
        Some(words[0])
    } else {
        first_resolution(words.skip(1))
    }
}

/// The resolution that a line of a screen report names: the first
/// resolution among its words, where the line is about a connected screen.
pub open spec fn screen_resolution(line: Seq<char>) -> Option<Seq<char>> {
    if has_substring(line, " connected"@) && has_substring(line, "x"@) {
        first_resolution(words_of(line))
    } else {
        None
    }
}

/// The resolutions that the lines of a screen report name, line by line.
pub open spec fn screen_resolutions(lines: Seq<Seq<char>>) -> Seq<Seq<char>>
    decreases lines.len(),
{
    if lines.len() == 0 {
        lines
    } else {
        match screen_resolution(lines.last()) {
            Some(resolution) => screen_resolutions(lines.drop_last()).push(resolution),
            None => screen_resolutions(lines.drop_last()),
        }
    }
}

/// Whether a word of a screen report is a resolution.
pub fn word_is_resolution(word: &str) -> (r: bool)
    ensures
        r == is_resolution(word@),
{
    let chars = chars_of(word);
    contains(word, "x") && chars.len() > 0 && digit_of(chars[0]).is_some()
}

/// Finds the resolution that a line of a screen report names.
pub fn resolution_of_line(line: &str) -> (resolution: Option<String>)
    ensures
        option_text(resolution) == screen_resolution(line@),
{
    if !(contains(line, " connected") && contains(line, "x")) {
        return None;
    }
    let words = split_whitespace(line);
    let mut i: usize = 0;
    assert(texts(words@).skip(0) =~= texts(words@));
    while i < words.len()
        invariant
            i <= words.len(),
            texts(words@) == words_of(line@),
            has_substring(line@, " connected"@) && has_substring(line@, "x"@),
            first_resolution(texts(words@).skip(i as int)) == first_resolution(texts(words@)),
        decreases words.len() - i,
    {
        assert(texts(words@).skip(i as int).skip(1) =~= texts(words@).skip(i + 1));
        assert(texts(words@).skip(i as int)[0] == words@[i as int]@);
        if word_is_resolution(words[i].as_str()) {
            return Some(words[i].clone());
        }
        i = i + 1;
    }
    None
}

/// The resolutions of the connected screens as `xrandr` reports them, or
/// `Unknown` where it names none.
pub fn resolution_of_xrandr(report: &str) -> (resolution: String)
    ensures
        resolution@ == listed_or_unknown(screen_resolutions(lines_of(report@))),
{
    let all = lines(report);
    let mut resolutions: Vec<String> = Vec::new();
    let mut i: usize = 0;
    while i < all.len()
        invariant
            i <= all.len(),
            texts(resolutions@) == screen_resolutions(texts(all@).take(i as int)),
        decreases all.len() - i,
    {
        let ghost before = texts(resolutions@);
        assert(texts(all@).take(i + 1).drop_last() =~= texts(all@).take(i as int));
        match resolution_of_line(all[i].as_str()) {
            Some(resolution) => {
                resolutions.push(resolution);
                assert(texts(resolutions@) =~= before.push(resolution@));
            },
            None => {},
        }
        i = i + 1;
    }
    assert(texts(all@).take(all.len() as int) =~= texts(all@));
    list_or_unknown(&resolutions)
}

/// The resolution of the screens. Linux is asked through `xrandr`, macOS
/// through its display report; a report that could not be had, or names no
/// resolution, leaves it unknown.
pub fn resolution_of(platform: Platform, report: &Report) -> (resolution: String)
    ensures
        resolution@ == match (platform, report@) {
            (Platform::Linux, ReportText::Printed(text)) => listed_or_unknown(
                screen_resolutions(lines_of(text)),
            ),
            (Platform::MacOs, ReportText::Printed(text)) => listed_or_unknown(
                known_only(labelled(lines_of(text), "Resolution:"@)),
            ),
            _ => "Unknown"@,
        },
{
    match report {
        Report::Printed(text) => match platform {
            Platform::Linux => resolution_of_xrandr(text.as_str()),
            Platform::MacOs => resolution_of_report(text.as_str()),
            _ => "Unknown".to_string(),
        },
        _ => "Unknown".to_string(),
    }
}

/// The hours and minutes of an uptime in words. What is zero is not named.
pub open spec fn clock_text(hours: nat, minutes: nat) -> Option<Seq<char>> {
    if hours > 0 && minutes > 0 {
        Some(decimal(hours) + " hours, "@ + decimal(minutes) + " mins"@)
    } else if hours > 0 {
        Some(decimal(hours) + " hours"@)
    } else if minutes > 0 {
        Some(decimal(minutes) + " mins"@)
    } else {
        None
    }
}

/// What a part of the form `hours:minutes` says in words, where it has that
/// form.
pub open spec fn clock_entry(part: Seq<char>) -> Option<Seq<char>> {
    let hours = parsed_up_to(trimmed_space(before_first(part, ":"@)), u32::MAX as nat);
    let minutes = parsed_up_to(trimmed_space(after_first(part, ":"@)), u32::MAX as nat);
    if found_in(part, ":"@) && hours is Some && minutes is Some {
        clock_text(hours->0, minutes->0)
    } else {
        None
    }
}

/// Whether a part of an uptime report is past the uptime: it speaks of
/// users or of the load.
pub open spec fn past_uptime(part: Seq<char>) -> bool {
    has_substring(part, "user"@) || has_substring(part, "load"@)
}

/// The uptime that the parts between the commas of a report give: the
/// first part, and the second in words where it reads `hours:minutes`.
pub open spec fn uptime_of_parts(parts: Seq<Seq<char>>) -> Option<Seq<char>> {
    let first = trimmed_space(parts[0]);
    if parts.len() == 0 || past_uptime(first) {
        None
    } else if parts.len() > 1 && !past_uptime(trimmed_space(parts[1])) && clock_entry(
        trimmed_space(parts[1]),
    ) is Some {
        Some(first + ", "@ + clock_entry(trimmed_space(parts[1]))->0)
    } else {
        Some(first)
    }
}

/// The uptime that the report of `uptime` gives: what stands after the
/// first `up ` and before the next, read part by part.
pub open spec fn uptime_report_text(report: Seq<char>) -> Option<Seq<char>> {
    if found_in(report, "up "@) {
        uptime_of_parts(split_on(before_first(after_first(report, "up "@), "up "@), ','))
    } else {
        None
    }
}

/// Writes the hours and minutes of an uptime in words.
pub fn clock_words(hours: u64, minutes: u64) -> (out: Option<String>)
    ensures
        option_text(out) == clock_text(hours as nat, minutes as nat),
{
    if hours > 0 && minutes > 0 {
        let mut out = decimal_string(hours);
        out.append(" hours, ");
        out.append(decimal_string(minutes).as_str());
        out.append(" mins");
        Some(out)
    } else if hours > 0 {
        let mut out = decimal_string(hours);
        out.append(" hours");
        Some(out)
    } else if minutes > 0 {
        let mut out = decimal_string(minutes);
        out.append(" mins");
        Some(out)
    } else {
        None
    }
}

/// Reads a part of the form `hours:minutes`.
pub fn read_clock(part: &str) -> (out: Option<String>)
    ensures
        option_text(out) == clock_entry(part@),
{
    let chars = chars_of(part);
    let colon = chars_of(":");
    proof {
        reveal_strlit(":");
        lemma_index_of_bounds(part@, ":"@);
    }
    let at = find_from(&chars, &colon, 0);
    assert(part@.skip(0) =~= part@);
    if at >= chars.len() {
        return None;
    }
    let hours_text = substring(&chars, 0, at);
    let minutes_text = substring(&chars, at + 1, chars.len());
    proof {
        assert(part@.subrange(0, at as int) =~= before_first(part@, ":"@));
        assert(part@.subrange(at + 1, part@.len() as int) =~= after_first(part@, ":"@));
    }
    let hours = parse_up_to(trim(hours_text.as_str()).as_str(), 0xffff_ffff);
    let minutes = parse_up_to(trim(minutes_text.as_str()).as_str(), 0xffff_ffff);
    match hours {
        Some(hours) => match minutes {
            Some(minutes) => clock_words(hours, minutes),
            None => None,
        },
        None => None,
    }
}

/// Whether a part of an uptime report is past the uptime.
pub fn is_past_uptime(part: &str) -> (r: bool)
    ensures
        r == past_uptime(part@),
{
    contains(part, "user") || contains(part, "load")
}

/// Reads the uptime from the report of `uptime`.
pub fn read_uptime_report(report: &str) -> (uptime: Option<String>)
    ensures
        option_text(uptime) == uptime_report_text(report@),
{
    let chars = chars_of(report);
    let up = chars_of("up ");
    proof {
        reveal_strlit("up ");
        lemma_index_of_bounds(report@, "up "@);
    }
    let at = find_from(&chars, &up, 0);
    assert(report@.skip(0) =~= report@);
    if at >= chars.len() {
        return None;
    }
    let start = at + up.len();
    let end = find_from(&chars, &up, start);
    let up_part = substring(&chars, start, end);
    proof {
        let rest = after_first(report@, "up "@);
        assert(rest == report@.skip(start as int));
        assert(report@.subrange(start as int, end as int) =~= rest.take(end - start));
    }
    let parts = split(up_part.as_str(), ',');
    proof {
        lemma_split_has_a_piece(up_part@, ',');
    }
    let first = trim(parts[0].as_str());
    if is_past_uptime(first.as_str()) {
        return None;
    }
    if parts.len() > 1 {
        let second = trim(parts[1].as_str());
        if !is_past_uptime(second.as_str()) {
            match read_clock(second.as_str()) {
                Some(clock) => {
                    let mut uptime = first;
                    uptime.append(", ");
                    uptime.append(clock.as_str());
                    return Some(uptime);
                },
                None => {},
            }
        }
    }
    Some(first)
}

/// The uptime, from the seconds that the system counts, where it counts
/// them, or else from the report of `uptime`.
pub fn uptime_of(seconds: Option<u64>, report: &Report) -> (uptime: String)
    ensures
        uptime@ == match seconds {
            Some(seconds) => uptime_text(seconds as nat, false),
            None => match report@ {
                ReportText::Printed(text) => match uptime_report_text(text) {
                    Some(uptime) => uptime,
                    None => "Unknown"@,
                },
                _ => "Unknown"@,
            },
        },
{
    match seconds {
        Some(seconds) => format_uptime(seconds, false),
        None => match report {
            Report::Printed(text) => match read_uptime_report(text.as_str()) {
                Some(uptime) => uptime,
                None => "Unknown".to_string(),
            },
            _ => "Unknown".to_string(),
        },
    }
}

/// A copy of an optional text.
pub fn copy_text(text: &Option<String>) -> (copy: Option<String>)
    ensures
        option_text(copy) == option_text(*text),
{
    match text {
        Some(text) => Some(text.clone()),
        None => None,
    }
}

/// What the probes of the host came back with, before anything is made of
/// it. A reading that does not exist on the platform is left out: a file as
/// `None`, a command as `Report::NotRun`.
#[derive(Debug)]
pub struct Readings {
    pub platform: Platform,
    /// The name of the user.
    pub username: String,
    /// The name of the host.
    pub hostname: Option<String>,
    /// The name and the version of the operating system.
    pub os_name: Option<String>,
    pub os_version: Option<String>,
    /// On Linux, what the firmware gives as product name and as board name.
    pub product_name: Option<String>,
    pub board_name: Option<String>,
    /// On macOS, the hardware report, whether or not it ended well.
    pub hardware_report: Report,
    /// The version of the kernel.
    pub kernel_version: Option<String>,
    /// On Linux, the whole seconds since the system came up.
    pub uptime_seconds: Option<u64>,
    /// On macOS, what `uptime` printed.
    pub uptime_report: Report,
    /// The listing of each package manager of the platform, in the order
    /// of `package_managers`.
    pub package_listings: Vec<Report>,
    /// The path of the shell, and what the shell printed about its version.
    pub shell: Option<String>,
    pub shell_version: Report,
    /// The report on the screens: of `xrandr` on Linux, the display report
    /// on macOS.
    pub display_report: Report,
    /// On Linux, what the session says of its desktop.
    pub current_desktop: Option<String>,
    pub desktop_session: Option<String>,
    pub gnome_session: bool,
    pub kde_session: bool,
    /// On macOS, the interface style.
    pub interface_style: Report,
    /// The terminal program, and the kind of terminal.
    pub term_program: Option<String>,
    pub term: Option<String>,
    /// On macOS, the brand of the processor as the machine reports it.
    pub cpu_brand: Report,
    /// The name of the first processor, and the number of processors.
    pub cpu_name: Option<String>,
    pub cpu_count: usize,
    /// The memory in use and in all, already in words.
    pub memory: String,
    /// The language setting.
    pub lang: Option<String>,
}

/// What a report printed, where it printed anything.
pub open spec fn printed(report: ReportText) -> Option<Seq<char>> {
    match report {
        ReportText::Printed(text) => Some(text),
        _ => None,
    }
}

/// What a report printed, where it printed anything.
pub fn printed_text(report: &Report) -> (text: Option<String>)
    ensures
        option_text(text) == printed(report@),
{
    match report {
        Report::Printed(text) => Some(text.clone()),
        _ => None,
    }
}

impl Readings {
    /// The model of the machine, as the platform tells it.
    pub open spec fn host(self) -> Seq<char> {
        match self.platform {
            Platform::Linux => match option_text(self.product_name) {
                Some(name) => trimmed_space(name),
                None => match option_text(self.board_name) {
                    Some(name) => trimmed_space(name),
                    None => "Unknown"@,
                },
            },
            Platform::MacOs => match self.hardware_report@ {
                ReportText::Printed(text) => {
                    let names = labelled(lines_of(text), "Model Name:"@);
                    if names.len() > 0 {
                        names[0]
                    } else {
                        "Unknown"@
                    }
                },
                _ => "Unknown"@,
            },
            _ => "Unknown"@,
        }
    }

    /// The uptime, as the platform tells it.
    pub open spec fn uptime(self) -> Seq<char> {
        match self.platform {
            Platform::Linux => match self.uptime_seconds {
                Some(seconds) => uptime_text(seconds as nat, false),
                None => "Unknown"@,
            },
            Platform::MacOs => match self.uptime_report@ {
                ReportText::Printed(text) => match uptime_report_text(text) {
                    Some(uptime) => uptime,
                    None => "Unknown"@,
                },
                _ => "Unknown"@,
            },
            _ => "Unknown"@,
        }
    }

    /// The shell: `Unknown` where none is set, and otherwise what it says
    /// of its version or, failing that, the given name of it.
    pub open spec fn shell_text(self, shell_name: Seq<char>) -> Seq<char> {
        if self.shell is None {
            "Unknown"@
        } else {
            match self.shell_version@ {
                ReportText::Printed(text) => first_line(text),
                _ => shell_name,
            }
        }
    }

    /// The graphics chip, which only the display report of macOS names.
    pub open spec fn gpu(self) -> Seq<char> {
        match (self.platform, self.display_report@) {
            (Platform::MacOs, ReportText::Printed(text)) => {
                let chips = known_only(labelled(lines_of(text), "Chipset Model:"@));
                if chips.len() > 0 {
                    chips[0]
                } else {
                    "Unknown"@
                }
            },
            _ => "Unknown"@,
        }
    }

    /// The resolution of the screens, as the platform tells it.
    pub open spec fn resolution(self) -> Seq<char> {
        match (self.platform, self.display_report@) {
            (Platform::Linux, ReportText::Printed(text)) => listed_or_unknown(
                screen_resolutions(lines_of(text)),
            ),
            (Platform::MacOs, ReportText::Printed(text)) => listed_or_unknown(
                known_only(labelled(lines_of(text), "Resolution:"@)),
            ),
            _ => "Unknown"@,
        }
    }
}

} // verus!
