//! Tools for tidying what the probes of the host report.

use vstd::prelude::*;
use vstd::string::*;
use crate::config::MemoryUnit;
use crate::probe::{Report, ReportText};
use crate::text::{
    contains, decimal, decimal_string, has_prefix, has_substring, lines, lines_of, lowercase,
    option_text,
    parse_number, parsed_number, replace, replaced, split, split_on, starts_with, str_eq, texts,
    trim, trim_matches, trimmed_char, trimmed_space,
};

verus! {

/// `s` without the double quotes round it and then without the single quotes
/// round what is left.
pub open spec fn unquoted(s: Seq<char>) -> Seq<char> {
    trimmed_char(trimmed_char(s, '"'), '\'')
}

/// Takes the quotes off both ends of `s`: first every double quote, then
/// every single quote.
pub fn trim_quotes(s: &str) -> (out: String)
    ensures
        out@ == unquoted(s@),
{
    let inner = trim_matches(s, '"');
    trim_matches(inner.as_str(), '\'')
}

/// The name of a processor without the marks and words that say nothing:
/// `(R)`, `(TM)`, `(tm)`, `CPU` and `Processor` are taken out, in this
/// order, then every two spaces become one, reading from the start, and the
/// white space at both ends goes.
pub open spec fn cleaned_cpu_name(name: Seq<char>) -> Seq<char> {
    let no_r = replaced(name, "(R)"@, ""@);
    let no_tm = replaced(no_r, "(TM)"@, ""@);
    let no_small_tm = replaced(no_tm, "(tm)"@, ""@);
    let no_cpu = replaced(no_small_tm, "CPU"@, ""@);
    let no_processor = replaced(no_cpu, "Processor"@, ""@);
    trimmed_space(replaced(no_processor, "  "@, " "@))
}

/// Tidies the name of a processor.
pub fn clean_cpu_name(name: &str) -> (out: String)
    ensures
        out@ == cleaned_cpu_name(name@),
{
    let no_r = replace(name, "(R)", "");
    let no_tm = replace(no_r.as_str(), "(TM)", "");
    let no_small_tm = replace(no_tm.as_str(), "(tm)", "");
    let no_cpu = replace(no_small_tm.as_str(), "CPU", "");
    let no_processor = replace(no_cpu.as_str(), "Processor", "");
    let single_spaced = replace(no_processor.as_str(), "  ", " ");
    trim(single_spaced.as_str())
}

/// The unit that a name stands for, given the name in lower case: `kib` and
/// `gib` stand for themselves, and every other name for MiB.
pub open spec fn unit_named(lowered: Seq<char>) -> MemoryUnit {
    if lowered == "kib"@ {
        MemoryUnit::Kib
    } else if lowered == "gib"@ {
        MemoryUnit::Gib
    } else {
        MemoryUnit::Mib
    }
}

/// The unit that a name in lower case stands for.
pub fn memory_unit_of_normalized(lowered: &str) -> (unit: MemoryUnit)
    ensures
        unit == unit_named(lowered@),
{
    if str_eq(lowered, "kib") {
        MemoryUnit::Kib
    } else if str_eq(lowered, "gib") {
        MemoryUnit::Gib
    } else {
        MemoryUnit::Mib
    }
}

/// The unit that a name stands for, whatever its case.
pub fn memory_unit_of(unit: &str) -> (out: MemoryUnit)
    ensures
        out == unit_named(lowercase(unit@)),
{
    let lowered = unit.to_lowercase();
    memory_unit_of_normalized(lowered.as_str())
}

/// The whole days in a number of seconds.
pub open spec fn days_of(seconds: nat) -> nat {
    seconds / 86400
}

/// The whole hours in a number of seconds, beyond its whole days.
pub open spec fn hours_of(seconds: nat) -> nat {
    (seconds % 86400) / 3600
}

/// The whole minutes in a number of seconds, beyond its whole hours.
pub open spec fn minutes_of(seconds: nat) -> nat {
    (seconds % 3600) / 60
}

/// An uptime in words. Days are named only where there are some, hours only
/// where there are days or hours, and minutes always.
pub open spec fn uptime_text(seconds: nat, shorthand: bool) -> Seq<char> {
    let days = decimal(days_of(seconds));
    let hours = decimal(hours_of(seconds));
    let minutes = decimal(minutes_of(seconds));
    if shorthand {
        if days_of(seconds) > 0 {
            days + "d "@ + hours + "h "@ + minutes + "m"@
        } else if hours_of(seconds) > 0 {
            hours + "h "@ + minutes + "m"@
        } else {
            minutes + "m"@
        }
    } else {
        if days_of(seconds) > 0 {
            days + " days, "@ + hours + " hours, "@ + minutes + " mins"@
        } else if hours_of(seconds) > 0 {
            hours + " hours, "@ + minutes + " mins"@
        } else {
            minutes + " mins"@
        }
    }
}

/// Writes an uptime of `seconds` in words, short or long.
pub fn format_uptime(seconds: u64, shorthand: bool) -> (out: String)
    ensures
        out@ == uptime_text(seconds as nat, shorthand),
{
    let days = seconds / 86400;
    let hours = (seconds % 86400) / 3600;
    let minutes = (seconds % 3600) / 60;
    let (day_mark, hour_mark, minute_mark) = if shorthand {
        ("d ", "h ", "m")
    } else {
        (" days, ", " hours, ", " mins")
    };
    let mut out = String::new();
    if days > 0 {
        out.append(decimal_string(days).as_str());
        out.append(day_mark);
    }
    if days > 0 || hours > 0 {
        out.append(decimal_string(hours).as_str());
        out.append(hour_mark);
    }
    out.append(decimal_string(minutes).as_str());
    out.append(minute_mark);
    assert(out@ =~= uptime_text(seconds as nat, shorthand));
    out
}

/// What `regex` finds of `pattern` in `text`: the text that the first group
/// of the pattern matched in the leftmost match, or nothing where the
/// pattern is no regular expression, matches nowhere, or matches without
/// its first group.
pub uninterp spec fn first_group(pattern: Seq<char>, text: Seq<char>) -> Option<Seq<char>>;

/// `regex::Regex::new` on `pattern`, `Regex::captures` on `text`, and
/// `Captures::get` for group 1.
///
/// The result is the text of the first group in the leftmost match. It is
/// nothing where the pattern does not compile, where it matches nowhere in
/// the text, and where its first group took no part in the match. It
/// depends on the pattern and the text alone.
#[verifier::external_body]
pub(crate) fn capture_first_group(pattern: &str, text: &str) -> (found: Option<String>)
    ensures
        option_text(found) == first_group(pattern@, text@),
{
    match regex::Regex::new(pattern) {
        Ok(re) => match re.captures(text) {
            Some(captures) => captures.get(1).map(|group| group.as_str().to_string()),
            None => None,
        },
        Err(_) => None,
    }
}

/// The patterns that a version number is looked for with, in the order in
/// which they are tried.
pub open spec fn version_patterns() -> Seq<Seq<char>> {
    seq![
        "(\\d+\\.\\d+\\.\\d+)"@,
        "(\\d+\\.\\d+)"@,
        "version (\\d+\\.\\d+\\.\\d+)"@,
        "v(\\d+\\.\\d+\\.\\d+)"@,
    ]
}

/// The first of the candidates that holds something.
pub open spec fn first_found(candidates: Seq<Option<Seq<char>>>) -> Option<Seq<char>>
    decreases candidates.len(),
{
    if candidates.len() == 0 {
        None
    } else if candidates[0] is Some {
        candidates[0]
    } else {
        first_found(candidates.skip(1))
    }
}

/// What each of the candidates holds.
pub open spec fn option_texts(candidates: Seq<Option<String>>) -> Seq<Option<Seq<char>>> {
    Seq::new(candidates.len(), |i: int| option_text(candidates[i]))
}

/// Picks the first of the candidates that holds something.
pub fn pick_first(candidates: &Vec<Option<String>>) -> (found: Option<String>)
    ensures
        option_text(found) == first_found(option_texts(candidates@)),
{
    let mut i: usize = 0;
    assert(option_texts(candidates@).skip(0) =~= option_texts(candidates@));
    while i < candidates.len()
        invariant
            i <= candidates.len(),
            first_found(option_texts(candidates@).skip(i as int)) == first_found(
                option_texts(candidates@),
            ),
        decreases candidates.len() - i,
    {
        assert(option_texts(candidates@).skip(i as int).skip(1) =~= option_texts(
            candidates@,
        ).skip(i + 1));
        match &candidates[i] {
            Some(text) => {
                return Some(text.clone());
            },
            None => {},
        }
        i = i + 1;
    }
    None
}

/// Finds a version number in what a command printed: whatever the first of
/// the version patterns that finds anything finds.
pub fn parse_version_from_output(output: &str) -> (version: Option<String>)
    ensures
        option_text(version) == first_found(
            version_patterns().map_values(|pattern: Seq<char>| first_group(pattern, output@)),
        ),
{
    let candidates = vec![
        capture_first_group("(\\d+\\.\\d+\\.\\d+)", output),
        capture_first_group("(\\d+\\.\\d+)", output),
        capture_first_group("version (\\d+\\.\\d+\\.\\d+)", output),
        capture_first_group("v(\\d+\\.\\d+\\.\\d+)", output),
    ];
    assert(option_texts(candidates@) =~= version_patterns().map_values(
        |pattern: Seq<char>| first_group(pattern, output@),
    ));
    pick_first(&candidates)
}

/// What a command printed, as a fact: its output without the white space
/// round it, or nothing where the command failed.
pub fn command_text(success: bool, stdout: &str) -> (out: String)
    ensures
        out@ == if success {
            trimmed_space(stdout@)
        } else {
            Seq::empty()
        },
{
    if success {
        trim(stdout)
    } else {
        String::new()
    }
}

/// What a line of the form `KEY=value` gives for its value: what stands
/// between the first and the second equals sign, without its quotes.
pub open spec fn assigned_value(line: Seq<char>) -> Seq<char> {
    let pieces = split_on(line, '=');
    if pieces.len() > 1 {
        unquoted(pieces[1])
    } else {
        unquoted(Seq::empty())
    }
}

/// The value of the first of the lines that begins with `key`.
pub open spec fn first_assigned(lines: Seq<Seq<char>>, key: Seq<char>) -> Option<Seq<char>>
    decreases lines.len(),
{
    if lines.len() == 0 {
        None
    } else if has_prefix(lines[0], key) {
        Some(assigned_value(lines[0]))
    } else {
        first_assigned(lines.skip(1), key)
    }
}

/// Looks a key up in the text of a release file. `key` ends with the equals
/// sign.
pub fn release_value(content: &str, key: &str) -> (value: Option<String>)
    ensures
        option_text(value) == first_assigned(lines_of(content@), key@),
{
    let all = lines(content);
    let mut i: usize = 0;
    assert(texts(all@).skip(0) =~= texts(all@));
    while i < all.len()
        invariant
            i <= all.len(),
            texts(all@) == lines_of(content@),
            first_assigned(texts(all@).skip(i as int), key@) == first_assigned(
                lines_of(content@),
                key@,
            ),
        decreases all.len() - i,
    {
        let line = all[i].as_str();
        assert(texts(all@).skip(i as int).skip(1) =~= texts(all@).skip(i + 1));
        assert(texts(all@).skip(i as int)[0] == line@);
        if starts_with(line, key) {
            let pieces = split(line, '=');
            let value = if pieces.len() > 1 {
                trim_quotes(pieces[1].as_str())
            } else {
                trim_quotes("")
            };
            proof {
                reveal_strlit("");
                assert(""@ =~= Seq::<char>::empty());
            }
            return Some(value);
        }
        i = i + 1;
    }
    None
}

/// The name of a Linux system: the pretty name that its release file
/// gives, or else the description that its LSB release file gives, or else
/// plainly `Linux`. A file that could not be read gives nothing.
pub open spec fn linux_name(os_release: Option<Seq<char>>, lsb_release: Option<Seq<char>>) -> Seq<
    char,
> {
    let pretty = match os_release {
        Some(content) => first_assigned(lines_of(content), "PRETTY_NAME="@),
        None => None,
    };
    let described = match lsb_release {
        Some(content) => first_assigned(lines_of(content), "DISTRIB_DESCRIPTION="@),
        None => None,
    };
    match pretty {
        Some(name) => name,
        None => match described {
            Some(name) => name,
            None => "Linux"@,
        },
    }
}

/// Names a Linux system from its release files.
pub fn detect_linux(os_release: Option<String>, lsb_release: Option<String>) -> (name: String)
    ensures
        name@ == linux_name(option_text(os_release), option_text(lsb_release)),
{
    match os_release {
        Some(content) => match release_value(content.as_str(), "PRETTY_NAME=") {
            Some(name) => {
                return name;
            },
            None => {},
        },
        None => {},
    }
    match lsb_release {
        Some(content) => match release_value(content.as_str(), "DISTRIB_DESCRIPTION=") {
            Some(name) => {
                return name;
            },
            None => {},
        },
        None => {},
    }
    "Linux".to_string()
}

/// Names a macOS system from what it says of its product: the name and the
/// version, the name alone where the version could not be asked, and
/// `macOS` where the name could not be asked.
pub fn detect_macos(product_name: Option<String>, product_version: Option<String>) -> (name:
    String)
    ensures
        name@ == match option_text(product_name) {
            Some(product) => match option_text(product_version) {
                Some(version) => product + seq![' '] + version,
                None => product,
            },
            None => "macOS"@,
        },
{
    match product_name {
        Some(product) => match product_version {
            Some(version) => {
                let mut name = product;
                name.push(' ');
                name.append(version.as_str());
                name
            },
            None => product,
        },
        None => "macOS".to_string(),
    }
}

/// A dimension of the terminal: the number that `tput` printed, or else
/// the number in the environment variable, or else `fallback`.
pub open spec fn dimension(tput: ReportText, variable: Option<Seq<char>>, fallback: usize) -> usize {
    let reported = match tput {
        ReportText::Printed(text) => parsed_number(trimmed_space(text)),
        _ => None,
    };
    let set = match variable {
        Some(text) => parsed_number(text),
        None => None,
    };
    match reported {
        Some(n) => n,
        None => match set {
            Some(n) => n,
            None => fallback,
        },
    }
}

/// Works out a dimension of the terminal.
pub fn terminal_dimension(tput: &Report, variable: Option<String>, fallback: usize) -> (n: usize)
    ensures
        n == dimension(tput@, option_text(variable), fallback),
{
    match tput {
        Report::Printed(text) => match parse_number(trim(text.as_str()).as_str()) {
            Some(n) => {
                return n;
            },
            None => {},
        },
        _ => {},
    }
    match variable {
        Some(text) => match parse_number(text.as_str()) {
            Some(n) => {
                return n;
            },
            None => {},
        },
        None => {},
    }
    fallback
}

/// The width of the terminal in columns: 80 where nothing tells.
pub fn terminal_width_of(tput_cols: &Report, columns: Option<String>) -> (width: usize)
    ensures
        width == dimension(tput_cols@, option_text(columns), 80),
{
    terminal_dimension(tput_cols, columns, 80)
}

/// The height of the terminal in lines: 24 where nothing tells.
pub fn terminal_height_of(tput_lines: &Report, lines: Option<String>) -> (height: usize)
    ensures
        height == dimension(tput_lines@, option_text(lines), 24),
{
    terminal_dimension(tput_lines, lines, 24)
}

/// Whether the signs of a container are there: the marker file of Docker,
/// the variable `container`, or a control group of the first process that
/// names Docker or LXC.
pub fn container_signs(dockerenv: bool, container_variable: bool, cgroup: Option<String>) -> (r:
    bool)
    ensures
        r == (dockerenv || container_variable || match option_text(cgroup) {
            Some(content) => has_substring(content, "docker"@) || has_substring(content, "lxc"@),
            None => false,
        }),
{
    dockerenv || container_variable || match cgroup {
        Some(content) => contains(content.as_str(), "docker") || contains(content.as_str(), "lxc"),
        None => false,
    }
}

/// What `Path::file_name` gives for a path: its last component, where it
/// has one that is a name.
pub uninterp spec fn file_name(path: Seq<char>) -> Option<Seq<char>>;

/// `std::path::Path::file_name` on `path`.
///
/// The result is the last component of the path, and nothing where the
/// path ends in `..` or has no component. It depends on the path alone.
#[verifier::external_body]
pub(crate) fn path_file_name(path: &str) -> (name: Option<String>)
    ensures
        option_text(name) == file_name(path@),
{
    std::path::Path::new(path).file_name().and_then(|name| name.to_str()).map(
        |name| name.to_string(),
    )
}

/// The name of a shell, given the file name of its path: `Unknown` where
/// no shell is set or its path names no file.
pub fn shell_name(shell_set: bool, name: Option<String>) -> (out: String)
    ensures
        out@ == if shell_set && name is Some {
            name->0@
        } else {
            "Unknown"@
        },
{
    if shell_set {
        match name {
            Some(name) => name,
            None => "Unknown".to_string(),
        }
    } else {
        "Unknown".to_string()
    }
}

/// The name of the shell that the variable `SHELL` names: the file name of
/// its path.
pub fn shell_of_variable(shell: Option<String>) -> (out: String)
    ensures
        out@ == match option_text(shell) {
            Some(path) => match file_name(path) {
                Some(name) => name,
                None => "Unknown"@,
            },
            None => "Unknown"@,
        },
{
    match shell {
        Some(path) => shell_name(true, path_file_name(path.as_str())),
        None => shell_name(false, None),
    }
}

} // verus!
