//! The rows of the display and the layout that sets them beside the logo.

use vstd::prelude::*;
use vstd::string::*;
use crate::ansi::{
    escaping, lemma_truncate_then_strip, lemma_visible_concat, lemma_visible_of_plain,
    strip_ansi_for_length, truncate_text, truncated, visible, ESC,
};
use crate::ascii_art::{
    colorized, lemma_art_fits, lemma_widest_covers, logo_art, logo_palette, resolve, tinted, widest,
    AsciiArt, LogoKind,
};
use crate::config::{Config, InfoConfig};
use crate::json::{pretty_json, to_pretty_json};
use crate::style::{
    lemma_painted_visible, lemma_styled_visible, paint, paint_bold, styled, Color,
};
use crate::system_info::SystemInfo;
use crate::text::{chars_of, lowercase, repeat_char, repeated, split, split_on, str_eq, texts};

verus! {

/// One row of the display. A row without a label is the title, the line
/// under the title, or a colour swatch.
#[derive(Debug, Clone)]
pub struct InfoItem {
    pub label: String,
    pub value: String,
    pub show: bool,
}

/// What a row holds.
pub struct Row {
    pub label: Seq<char>,
    pub value: Seq<char>,
    pub show: bool,
}

impl View for InfoItem {
    type V = Row;

    open spec fn view(&self) -> Row {
        Row { label: self.label@, value: self.value@, show: self.show }
    }
}

/// What the rows of a list hold.
pub open spec fn rows_of(items: Seq<InfoItem>) -> Seq<Row> {
    Seq::new(items.len(), |i: int| items[i]@)
}

/// Whether a fact was found out: it is neither empty nor `Unknown`.
pub open spec fn known(value: Seq<char>) -> bool {
    value.len() > 0 && value != "Unknown"@
}

/// `n` copies of `pat`, one after the other.
pub open spec fn repeated_text(pat: Seq<char>, n: nat) -> Seq<char>
    decreases n,
{
    if n == 0 {
        Seq::empty()
    } else {
        repeated_text(pat, (n - 1) as nat) + pat
    }
}

/// The line under a title: the underline text once for each character of the
/// title, or nothing where underlining is switched off.
pub open spec fn underline(title: Seq<char>, info: InfoConfig) -> Seq<char> {
    if info.underline_enabled {
        repeated_text(info.underline_char@, title.len())
    } else {
        Seq::empty()
    }
}

/// A row that is shown whatever its value.
pub open spec fn fixed_row(label: Seq<char>, value: Seq<char>) -> Row {
    Row { label, value, show: true }
}

/// A row that is shown only where its fact was found out.
pub open spec fn optional_row(label: Seq<char>, value: Seq<char>) -> Row {
    Row { label, value, show: known(value) }
}

/// The rows of the display, in their fixed order.
pub open spec fn catalog(info: SystemInfo, config: Config) -> Seq<Row> {
    seq![
        Row { label: Seq::empty(), value: info.title@, show: true },
        Row {
            label: Seq::empty(),
            value: underline(info.title@, config.info),
            show: config.info.underline_enabled,
        },
        fixed_row("OS"@, info.os@),
        fixed_row("Host"@, info.host@),
        fixed_row("Kernel"@, info.kernel@),
        fixed_row("Uptime"@, info.uptime@),
        fixed_row("Packages"@, info.packages@),
        fixed_row("Shell"@, info.shell@),
        optional_row("Resolution"@, info.resolution@),
        optional_row("DE"@, info.de@),
        optional_row("WM"@, info.wm@),
        optional_row("WM Theme"@, info.wm_theme@),
        optional_row("Theme"@, info.theme@),
        optional_row("Icons"@, info.icons@),
        fixed_row("Terminal"@, info.terminal@),
        optional_row("Terminal Font"@, info.terminal_font@),
        fixed_row("CPU"@, info.cpu@),
        optional_row("GPU"@, info.gpu@),
        fixed_row("Memory"@, info.memory@),
    ]
}

/// The line under the title.
pub fn generate_underline(title: &str, config: &Config) -> (line: String)
    ensures
        line@ == underline(title@, config.info),
{
    if !config.info.underline_enabled {
        return String::new();
    }
    let length = title.unicode_len();
    let mut line = String::new();
    let mut i: usize = 0;
    while i < length
        invariant
            i <= length,
            line@ == repeated_text(config.info.underline_char@, i as nat),
        decreases length - i,
    {
        line.append(config.info.underline_char.as_str());
        i = i + 1;
    }
    line
}

/// Whether a fact was found out: it is neither empty nor `Unknown`.
pub fn is_known(value: &str) -> (r: bool)
    ensures
        r == known(value@),
{
    !value.is_empty() && !str_eq(value, "Unknown")
}

/// A row that is shown whatever its value.
fn fixed_item(label: &str, value: &str) -> (item: InfoItem)
    ensures
        item@ == fixed_row(label@, value@),
{
    InfoItem { label: label.to_string(), value: value.to_string(), show: true }
}

/// A row that is shown only where its fact was found out.
fn optional_item(label: &str, value: &str) -> (item: InfoItem)
    ensures
        item@ == optional_row(label@, value@),
{
    InfoItem { label: label.to_string(), value: value.to_string(), show: is_known(value) }
}

/// The rows of the display, in their fixed order: the title, the line under
/// it, and one row for each fact.
pub fn get_info_items(system_info: &SystemInfo, config: &Config) -> (items: Vec<InfoItem>)
    ensures
        rows_of(items@) == catalog(*system_info, *config),
{
    let mut items: Vec<InfoItem> = Vec::new();
    items.push(InfoItem { label: String::new(), value: system_info.title.clone(), show: true });
    items.push(
        InfoItem {
            label: String::new(),
            value: generate_underline(system_info.title.as_str(), config),
            show: config.info.underline_enabled,
        },
    );
    items.push(fixed_item("OS", system_info.os.as_str()));
    items.push(fixed_item("Host", system_info.host.as_str()));
    items.push(fixed_item("Kernel", system_info.kernel.as_str()));
    items.push(fixed_item("Uptime", system_info.uptime.as_str()));
    items.push(fixed_item("Packages", system_info.packages.as_str()));
    items.push(fixed_item("Shell", system_info.shell.as_str()));
    items.push(optional_item("Resolution", system_info.resolution.as_str()));
    items.push(optional_item("DE", system_info.de.as_str()));
    items.push(optional_item("WM", system_info.wm.as_str()));
    items.push(optional_item("WM Theme", system_info.wm_theme.as_str()));
    items.push(optional_item("Theme", system_info.theme.as_str()));
    items.push(optional_item("Icons", system_info.icons.as_str()));
    items.push(fixed_item("Terminal", system_info.terminal.as_str()));
    items.push(optional_item("Terminal Font", system_info.terminal_font.as_str()));
    items.push(fixed_item("CPU", system_info.cpu.as_str()));
    items.push(optional_item("GPU", system_info.gpu.as_str()));
    items.push(fixed_item("Memory", system_info.memory.as_str()));
    assert(rows_of(items@) =~= catalog(*system_info, *config));
    items
}

/// A labelled row as it is written: the label, the separator, a space and
/// the value.
pub open spec fn info_line(label: Seq<char>, separator: Seq<char>, value: Seq<char>) -> Seq<char> {
    label + separator + seq![' '] + value
}

/// Whether `out` is what styling `text` and fitting it to `max_width` columns
/// can give.
pub open spec fn styled_to_fit(
    out: Seq<char>,
    text: Seq<char>,
    color: Color,
    bold: bool,
    max_width: nat,
) -> bool {
    exists|painted: Seq<char>|
        styled(painted, text, color, bold) && out == #[trigger] truncated(painted, max_width)
}

/// Whether `out` is what formatting a labelled row can give. A row whose fact
/// was not found out gives nothing. Any other row gives its label in cyan,
/// bold where the settings say so, the separator and the value in white, all
/// fitted to `max_width` columns.
pub open spec fn renders_info(out: Seq<char>, row: Row, info: InfoConfig, max_width: nat) -> bool {
    if !known(row.value) {
        out.len() == 0
    } else {
        exists|label: Seq<char>, separator: Seq<char>, value: Seq<char>|
            styled(label, row.label, Color::Cyan, info.bold) && styled(
                separator,
                info.separator@,
                Color::White,
                false,
            ) && styled(value, row.value, Color::White, false) && out == truncated(
                #[trigger] info_line(label, separator, value),
                max_width,
            )
    }
}

/// Whether a text is made of the characters that underlines are drawn with.
pub open spec fn is_rule(s: Seq<char>) -> bool {
    forall|i: int| 0 <= i < s.len() ==> s[i] == '-' || s[i] == '=' || s[i] == '_'
}

/// Whether `out` is what formatting a row can give. A row whose fact was not
/// found out gives nothing, with or without a label. A row with a label is
/// formatted as `renders_info` says. Of the rows without one, a value that
/// already holds escapes is a colour swatch and stays as it is, a value made
/// of underline characters is drawn in cyan, and any other value is the
/// title, drawn in green, bold where the settings say so.
pub open spec fn renders(out: Seq<char>, row: Row, info: InfoConfig, max_width: nat) -> bool {
    if !known(row.value) {
        out.len() == 0
    } else if row.label.len() > 0 {
        renders_info(out, row, info, max_width)
    } else if row.value.contains(ESC) {
        out == row.value
    } else if is_rule(row.value) {
        styled_to_fit(out, row.value, Color::Cyan, false, max_width)
    } else {
        styled_to_fit(out, row.value, Color::Green, info.bold, max_width)
    }
}

/// A row whose fact was not found out is not rendered: formatting it gives
/// nothing, whatever its label and whatever its `show` flag says.
pub proof fn lemma_unknown_fact_is_not_shown(
    out: Seq<char>,
    row: Row,
    info: InfoConfig,
    max_width: nat,
)
    requires
        renders(out, row, info, max_width),
        !known(row.value),
    ensures
        out.len() == 0,
        visible(out).len() == 0,
{
    assert(out =~= Seq::<char>::empty());
}

/// Whether a text is free of escape characters.
pub open spec fn is_plain(s: Seq<char>) -> bool {
    forall|i: int| 0 <= i < s.len() ==> s[i] != ESC
}

/// Whatever the colours do, a labelled row of plain texts shows its label,
/// the separator, a space and its value, fitted to the width.
pub proof fn lemma_info_row_shows_its_text(
    out: Seq<char>,
    row: Row,
    info: InfoConfig,
    max_width: nat,
)
    requires
        renders_info(out, row, info, max_width),
        known(row.value),
        is_plain(row.label),
        is_plain(info.separator@),
        is_plain(row.value),
    ensures
        visible(out) == truncated(info_line(row.label, info.separator@, row.value), max_width),
{
    let (label, separator, value) = choose|
        label: Seq<char>,
        separator: Seq<char>,
        value: Seq<char>,
    |
        styled(label, row.label, Color::Cyan, info.bold) && styled(
            separator,
            info.separator@,
            Color::White,
            false,
        ) && styled(value, row.value, Color::White, false) && out == truncated(
            #[trigger] info_line(label, separator, value),
            max_width,
        );
    lemma_visible_of_plain(row.label);
    lemma_visible_of_plain(info.separator@);
    lemma_visible_of_plain(row.value);
    lemma_painted_visible(row.label, Color::Cyan, info.bold);
    lemma_painted_visible(info.separator@, Color::White, false);
    lemma_painted_visible(row.value, Color::White, false);
    let space = seq![' '];
    lemma_visible_of_plain(space);
    lemma_visible_concat(label, separator);
    lemma_visible_concat(label + separator, space);
    lemma_visible_concat(label + separator + space, value);
    lemma_truncate_then_strip(info_line(label, separator, value), max_width);
}

/// Whatever the colours do, a title or an underline of plain text shows
/// that text, fitted to the width.
pub proof fn lemma_special_row_shows_its_text(
    out: Seq<char>,
    row: Row,
    info: InfoConfig,
    max_width: nat,
)
    requires
        renders(out, row, info, max_width),
        row.label.len() == 0,
        known(row.value),
        is_plain(row.value),
    ensures
        visible(out) == truncated(row.value, max_width),
{
    assert(!row.value.contains(ESC));
    lemma_visible_of_plain(row.value);
    if is_rule(row.value) {
        let painted = choose|painted: Seq<char>|
            styled(painted, row.value, Color::Cyan, false) && out == #[trigger] truncated(
                painted,
                max_width,
            );
        lemma_styled_visible(painted, row.value, Color::Cyan, false);
        lemma_truncate_then_strip(painted, max_width);
    } else {
        let painted = choose|painted: Seq<char>|
            styled(painted, row.value, Color::Green, info.bold) && out == #[trigger] truncated(
                painted,
                max_width,
            );
        lemma_styled_visible(painted, row.value, Color::Green, info.bold);
        lemma_truncate_then_strip(painted, max_width);
    }
}

/// What a row of plain texts shows once it is formatted: nothing where its
/// fact was not found out, and otherwise its text, fitted to the width.
pub open spec fn row_text(row: Row, info: InfoConfig, max_width: nat) -> Seq<char> {
    if !known(row.value) {
        Seq::empty()
    } else if row.label.len() == 0 {
        truncated(row.value, max_width)
    } else {
        truncated(info_line(row.label, info.separator@, row.value), max_width)
    }
}

/// Whatever the colours do, a row of plain texts shows the same text.
pub proof fn lemma_row_shows_its_text(out: Seq<char>, row: Row, info: InfoConfig, max_width: nat)
    requires
        renders(out, row, info, max_width),
        is_plain(row.label),
        is_plain(info.separator@),
        is_plain(row.value),
    ensures
        visible(out) == row_text(row, info, max_width),
{
    if !known(row.value) {
        lemma_unknown_fact_is_not_shown(out, row, info, max_width);
        assert(visible(out) =~= Seq::<char>::empty());
    } else if row.label.len() == 0 {
        lemma_special_row_shows_its_text(out, row, info, max_width);
    } else {
        lemma_info_row_shows_its_text(out, row, info, max_width);
    }
}

/// A row whose fact was not found out leaves no line in the plain text,
/// whatever its `show` flag says.
pub proof fn lemma_unknown_fact_has_no_plain_line(rows: Seq<Row>, row: Row)
    requires
        !known(row.value),
    ensures
        plain_rows(rows.push(row)) == plain_rows(rows),
{
    assert(rows.push(row).drop_last() =~= rows);
}

/// The labels of the rows.
pub open spec fn labels_of(rows: Seq<Row>) -> Seq<Seq<char>> {
    Seq::new(rows.len(), |i: int| rows[i].label)
}

/// The rows always come in the same order, whatever the facts and the
/// settings are: the title, the line under it, and then the facts from the
/// operating system down to the memory.
pub proof fn lemma_catalog_order(info: SystemInfo, config: Config)
    ensures
        labels_of(catalog(info, config)) == seq![
            Seq::<char>::empty(),
            Seq::<char>::empty(),
            "OS"@,
            "Host"@,
            "Kernel"@,
            "Uptime"@,
            "Packages"@,
            "Shell"@,
            "Resolution"@,
            "DE"@,
            "WM"@,
            "WM Theme"@,
            "Theme"@,
            "Icons"@,
            "Terminal"@,
            "Terminal Font"@,
            "CPU"@,
            "GPU"@,
            "Memory"@,
        ],
{
    assert(labels_of(catalog(info, config)) =~= seq![
        Seq::<char>::empty(),
        Seq::<char>::empty(),
        "OS"@,
        "Host"@,
        "Kernel"@,
        "Uptime"@,
        "Packages"@,
        "Shell"@,
        "Resolution"@,
        "DE"@,
        "WM"@,
        "WM Theme"@,
        "Theme"@,
        "Icons"@,
        "Terminal"@,
        "Terminal Font"@,
        "CPU"@,
        "GPU"@,
        "Memory"@,
    ]);
}

/// Joins the styled parts of a labelled row and fits them to `max_width`
/// columns.
pub fn assemble_info_line(label: &str, separator: &str, value: &str, max_width: usize) -> (out:
    String)
    ensures
        out@ == truncated(info_line(label@, separator@, value@), max_width as nat),
{
    let mut formatted = String::new();
    formatted.append(label);
    formatted.append(separator);
    formatted.push(' ');
    formatted.append(value);
    assert(formatted@ =~= info_line(label@, separator@, value@));
    truncate_text(formatted.as_str(), max_width)
}

/// Formats a labelled row for a column of `max_width`.
pub fn format_info_item_with_width(item: &InfoItem, config: &Config, max_width: usize) -> (out:
    String)
    ensures
        renders_info(out@, item@, config.info, max_width as nat),
        !known(item.value@) ==> out@.len() == 0,
{
    if item.value.as_str().is_empty() || str_eq(item.value.as_str(), "Unknown") {
        return String::new();
    }
    let colored_label = if config.info.bold {
        paint_bold(item.label.as_str(), Color::Cyan)
    } else {
        paint(item.label.as_str(), Color::Cyan)
    };
    let colored_separator = paint(config.info.separator.as_str(), Color::White);
    let colored_value = paint(item.value.as_str(), Color::White);
    let out = assemble_info_line(
        colored_label.as_str(),
        colored_separator.as_str(),
        colored_value.as_str(),
        max_width,
    );
    assert(out@ == truncated(
        info_line(colored_label@, colored_separator@, colored_value@),
        max_width as nat,
    ));
    out
}

/// Whether `c` is among the characters of `s`.
pub fn has_char(s: &str, c: char) -> (r: bool)
    ensures
        r == s@.contains(c),
{
    let chars = chars_of(s);
    let mut i: usize = 0;
    while i < chars.len()
        invariant
            chars@ == s@,
            i <= chars.len(),
            forall|k: int| 0 <= k < i ==> s@[k] != c,
        decreases chars.len() - i,
    {
        if chars[i] == c {
            return true;
        }
        i = i + 1;
    }
    false
}

/// Whether a text is made of the characters that underlines are drawn with.
pub fn is_rule_text(s: &str) -> (r: bool)
    ensures
        r == is_rule(s@),
{
    let chars = chars_of(s);
    let mut i: usize = 0;
    while i < chars.len()
        invariant
            chars@ == s@,
            i <= chars.len(),
            forall|k: int| 0 <= k < i ==> s@[k] == '-' || s@[k] == '=' || s@[k] == '_',
        decreases chars.len() - i,
    {
        let c = chars[i];
        if !(c == '-' || c == '=' || c == '_') {
            return false;
        }
        i = i + 1;
    }
    true
}

/// Formats a row for a column of `max_width`: nothing where its fact was
/// not found out; otherwise the title, the line under it or a colour swatch
/// where the row has no label, and a labelled row where it has one.
pub fn format_special_item_with_width(item: &InfoItem, config: &Config, max_width: usize) -> (out:
    String)
    ensures
        renders(out@, item@, config.info, max_width as nat),
        !known(item.value@) ==> out@.len() == 0,
{
    if !is_known(item.value.as_str()) {
        return String::new();
    }
    if item.label.as_str().is_empty() {
        if has_char(item.value.as_str(), ESC) {
            item.value.clone()
        } else if is_rule_text(item.value.as_str()) {
            let colored_underline = paint(item.value.as_str(), Color::Cyan);
            let out = truncate_text(colored_underline.as_str(), max_width);
            assert(out@ == truncated(colored_underline@, max_width as nat));
            out
        } else {
            let colored_title = if config.info.bold {
                paint_bold(item.value.as_str(), Color::Green)
            } else {
                paint(item.value.as_str(), Color::Green)
            };
            let out = truncate_text(colored_title.as_str(), max_width);
            assert(out@ == truncated(colored_title@, max_width as nat));
            out
        }
    } else {
        format_info_item_with_width(item, config, max_width)
    }
}

/// The rows that are to be shown, in their order.
pub open spec fn shown_rows(rows: Seq<Row>) -> Seq<Row>
    decreases rows.len(),
{
    if rows.len() == 0 {
        rows
    } else if rows.last().show {
        shown_rows(rows.drop_last()).push(rows.last())
    } else {
        shown_rows(rows.drop_last())
    }
}

/// Whether `out` holds, row by row, what formatting `rows` can give.
pub open spec fn renders_all(
    out: Seq<Seq<char>>,
    rows: Seq<Row>,
    info: InfoConfig,
    max_width: nat,
) -> bool {
    &&& out.len() == rows.len()
    &&& forall|i: int| 0 <= i < rows.len() ==> renders(#[trigger] out[i], rows[i], info, max_width)
}

/// Formats the rows that are to be shown, each for a column of `max_width`.
pub fn format_visible_items(items: &Vec<InfoItem>, config: &Config, max_width: usize) -> (out:
    Vec<String>)
    ensures
        renders_all(texts(out@), shown_rows(rows_of(items@)), config.info, max_width as nat),
{
    let mut out: Vec<String> = Vec::new();
    let mut i: usize = 0;
    while i < items.len()
        invariant
            i <= items.len(),
            renders_all(
                texts(out@),
                shown_rows(rows_of(items@).take(i as int)),
                config.info,
                max_width as nat,
            ),
        decreases items.len() - i,
    {
        let item = &items[i];
        let ghost before = texts(out@);
        let ghost rows_before = shown_rows(rows_of(items@).take(i as int));
        proof {
            assert(rows_of(items@).take(i + 1).drop_last() =~= rows_of(items@).take(i as int));
            assert(rows_of(items@).take(i + 1).last() == item@);
        }
        if item.show {
            let formatted = format_special_item_with_width(item, config, max_width);
            out.push(formatted);
            proof {
                let rows_after = shown_rows(rows_of(items@).take(i + 1));
                assert(rows_after == rows_before.push(item@));
                assert forall|k: int| 0 <= k < rows_after.len() implies renders(
                    #[trigger] texts(out@)[k],
                    rows_after[k],
                    config.info,
                    max_width as nat,
                ) by {
                    if k < rows_before.len() {
                        assert(texts(out@)[k] == before[k]);
                    }
                }
            }
        }
        i = i + 1;
    }
    assert(rows_of(items@).take(items.len() as int) =~= rows_of(items@));
    out
}

/// `n` spaces.
pub open spec fn spaces(n: nat) -> Seq<char> {
    repeated(' ', n)
}

/// The logo's part of line `i`: the logo line, filled up with spaces to
/// `logo_width` shown characters, or that many spaces below the logo.
pub open spec fn logo_column(logo: Seq<Seq<char>>, logo_width: nat, i: int) -> Seq<char> {
    if 0 <= i < logo.len() {
        if visible(logo[i]).len() < logo_width {
            logo[i] + spaces((logo_width - visible(logo[i]).len()) as nat)
        } else {
            logo[i]
        }
    } else {
        spaces(logo_width)
    }
}

/// Line `i` of the display: the logo's part, the gap, and row `i` where
/// there is one.
pub open spec fn composed_line(
    logo: Seq<Seq<char>>,
    logo_width: nat,
    gap: nat,
    rows: Seq<Seq<char>>,
    i: int,
) -> Seq<char> {
    if 0 <= i < rows.len() {
        logo_column(logo, logo_width, i) + spaces(gap) + rows[i]
    } else {
        logo_column(logo, logo_width, i) + spaces(gap)
    }
}

/// The lines of the display: as many as the logo or the rows need,
/// whichever is more.
pub open spec fn composed(
    logo: Seq<Seq<char>>,
    logo_width: nat,
    gap: nat,
    rows: Seq<Seq<char>>,
) -> Seq<Seq<char>> {
    Seq::new(
        if logo.len() > rows.len() {
            logo.len()
        } else {
            rows.len()
        },
        |i: int| composed_line(logo, logo_width, gap, rows, i),
    )
}

/// Spaces are shown as they are.
pub proof fn lemma_spaces_visible(n: nat)
    ensures
        visible(spaces(n)) == spaces(n),
        !escaping(spaces(n)),
{
    lemma_visible_of_plain(spaces(n));
}

/// The logo's part of a line is exactly `logo_width` columns wide on screen,
/// where the logo line is no wider than that and ends outside every escape
/// span.
pub proof fn lemma_logo_column_width(logo: Seq<Seq<char>>, logo_width: nat, i: int)
    requires
        0 <= i < logo.len() ==> visible(logo[i]).len() <= logo_width && !escaping(logo[i]),
    ensures
        visible(logo_column(logo, logo_width, i)).len() == logo_width,
        !escaping(logo_column(logo, logo_width, i)),
{
    if 0 <= i < logo.len() {
        let fill = (logo_width - visible(logo[i]).len()) as nat;
        lemma_spaces_visible(fill);
        lemma_visible_concat(logo[i], spaces(fill));
    } else {
        lemma_spaces_visible(logo_width);
    }
}

/// In every line of a display the text of the row starts in the same
/// column, however the logo was coloured: the logo's part shows exactly as
/// many columns as the logo is wide, the gap follows, and then the row.
pub proof fn lemma_text_column_aligned(
    kind: LogoKind,
    logo: Seq<Seq<char>>,
    gap: nat,
    rows: Seq<Seq<char>>,
    i: int,
)
    requires
        colorized(logo, logo_art(kind), logo_palette(kind)),
        0 <= i < rows.len(),
    ensures
        visible(logo_column(logo, widest(logo_art(kind)), i)).len() == widest(logo_art(kind)),
        visible(composed_line(logo, widest(logo_art(kind)), gap, rows, i)) == visible(
            logo_column(logo, widest(logo_art(kind)), i),
        ) + spaces(gap) + visible(rows[i]),
{
    let art = logo_art(kind);
    let logo_width = widest(art);
    if i < logo.len() {
        let color = logo_palette(kind)[i % (logo_palette(kind).len() as int)];
        assert(tinted(logo[i], art[i], color));
        lemma_art_fits(kind);
        lemma_visible_of_plain(art[i]);
        lemma_painted_visible(art[i], color, false);
        lemma_widest_covers(art, i);
    }
    lemma_logo_column_width(logo, logo_width, i);
    let column = logo_column(logo, logo_width, i);
    lemma_spaces_visible(gap);
    lemma_visible_concat(column, spaces(gap));
    lemma_visible_concat(column + spaces(gap), rows[i]);
}

/// Whatever the colours do, a line of the display shows the line of the
/// logo, filled up with spaces to the width of the logo, then the gap, and
/// then the text of its row.
pub proof fn lemma_line_shows_logo_and_row(
    kind: LogoKind,
    logo: Seq<Seq<char>>,
    gap: nat,
    rows: Seq<Seq<char>>,
    shown: Seq<Row>,
    info: InfoConfig,
    max_width: nat,
    i: int,
)
    requires
        colorized(logo, logo_art(kind), logo_palette(kind)),
        renders_all(rows, shown, info, max_width),
        0 <= i < rows.len(),
        is_plain(shown[i].label),
        is_plain(info.separator@),
        is_plain(shown[i].value),
    ensures
        visible(composed_line(logo, widest(logo_art(kind)), gap, rows, i)) == logo_column(
            logo_art(kind),
            widest(logo_art(kind)),
            i,
        ) + spaces(gap) + row_text(shown[i], info, max_width),
{
    let art = logo_art(kind);
    let logo_width = widest(art);
    lemma_text_column_aligned(kind, logo, gap, rows, i);
    lemma_row_shows_its_text(rows[i], shown[i], info, max_width);
    if i < logo.len() {
        let color = logo_palette(kind)[i % (logo_palette(kind).len() as int)];
        assert(tinted(logo[i], art[i], color));
        lemma_art_fits(kind);
        lemma_visible_of_plain(art[i]);
        lemma_painted_visible(art[i], color, false);
        lemma_widest_covers(art, i);
        let fill = spaces((logo_width - art[i].len()) as nat);
        lemma_spaces_visible((logo_width - art[i].len()) as nat);
        lemma_visible_concat(logo[i], fill);
        assert(art[i] + spaces(0) =~= art[i]);
    } else {
        lemma_spaces_visible(logo_width);
    }
}

/// Sets the formatted rows beside the coloured logo, line by line. Neither
/// running out before the other moves the other out of its column.
pub fn compose(colored_logo: &Vec<String>, logo_width: usize, gap: usize, rows: &Vec<String>) -> (lines:
    Vec<String>)
    ensures
        texts(lines@) == composed(
            texts(colored_logo@),
            logo_width as nat,
            gap as nat,
            texts(rows@),
        ),
{
    let logo_height = colored_logo.len();
    let max_lines = if logo_height > rows.len() {
        logo_height
    } else {
        rows.len()
    };
    let mut lines: Vec<String> = Vec::new();
    let mut i: usize = 0;
    while i < max_lines
        invariant
            i <= max_lines,
            logo_height == colored_logo.len(),
            max_lines == if logo_height > rows.len() {
                logo_height
            } else {
                rows.len()
            },
            lines.len() == i,
            forall|k: int|
                0 <= k < i ==> (#[trigger] lines@[k])@ == composed_line(
                    texts(colored_logo@),
                    logo_width as nat,
                    gap as nat,
                    texts(rows@),
                    k,
                ),
        decreases max_lines - i,
    {
        let mut line = String::new();
        if i < logo_height {
            line.append(colored_logo[i].as_str());
            let actual_width = strip_ansi_for_length(colored_logo[i].as_str());
            if actual_width < logo_width {
                line.append(repeat_char(' ', logo_width - actual_width).as_str());
            }
        } else {
            line.append(repeat_char(' ', logo_width).as_str());
        }
        assert(line@ =~= logo_column(texts(colored_logo@), logo_width as nat, i as int));
        line.append(repeat_char(' ', gap).as_str());
        if i < rows.len() {
            line.append(rows[i].as_str());
        }
        lines.push(line);
        i = i + 1;
    }
    assert(texts(lines@) =~= composed(
        texts(colored_logo@),
        logo_width as nat,
        gap as nat,
        texts(rows@),
    ));
    lines
}

/// The lines that the pieces of a swatch give: each piece that is not empty,
/// behind `indent` spaces.
pub open spec fn indented(pieces: Seq<Seq<char>>, indent: nat) -> Seq<Seq<char>>
    decreases pieces.len(),
{
    if pieces.len() == 0 {
        pieces
    } else if pieces.last().len() > 0 {
        indented(pieces.drop_last(), indent).push(spaces(indent) + pieces.last())
    } else {
        indented(pieces.drop_last(), indent)
    }
}

/// The lines of the colour swatch `colors`, set under the text column.
pub open spec fn swatch_lines(colors: Seq<char>, indent: nat) -> Seq<Seq<char>> {
    indented(split_on(colors, '\n'), indent)
}

/// Sets the lines of a colour swatch under the text column, `indent` columns
/// in. Empty lines of the swatch are left out.
pub fn indent_swatch(colors: &str, indent: usize) -> (lines: Vec<String>)
    ensures
        texts(lines@) == swatch_lines(colors@, indent as nat),
{
    let pieces = split(colors, '\n');
    let mut lines: Vec<String> = Vec::new();
    let mut i: usize = 0;
    while i < pieces.len()
        invariant
            i <= pieces.len(),
            texts(lines@) == indented(texts(pieces@).take(i as int), indent as nat),
        decreases pieces.len() - i,
    {
        let color_line = pieces[i].as_str();
        let ghost before = texts(lines@);
        assert(texts(pieces@).take(i + 1).drop_last() =~= texts(pieces@).take(i as int));
        if !color_line.is_empty() {
            let mut line = repeat_char(' ', indent);
            line.append(color_line);
            lines.push(line);
            assert(texts(lines@) =~= before.push(spaces(indent as nat) + color_line@));
        }
        i = i + 1;
    }
    assert(texts(pieces@).take(pieces.len() as int) =~= texts(pieces@));
    lines
}

/// The text made of the lines, each ended by a line feed.
pub open spec fn joined(lines: Seq<Seq<char>>) -> Seq<char>
    decreases lines.len(),
{
    if lines.len() == 0 {
        Seq::empty()
    } else {
        joined(lines.drop_last()) + lines.last() + seq!['\n']
    }
}

/// Writes the lines one after the other, each ended by a line feed.
pub fn join_lines(lines: &Vec<String>) -> (text: String)
    ensures
        text@ == joined(texts(lines@)),
{
    let mut text = String::new();
    let mut i: usize = 0;
    while i < lines.len()
        invariant
            i <= lines.len(),
            text@ == joined(texts(lines@).take(i as int)),
        decreases lines.len() - i,
    {
        assert(texts(lines@).take(i + 1).drop_last() =~= texts(lines@).take(i as int));
        text.append(lines[i].as_str());
        text.push('\n');
        i = i + 1;
    }
    assert(texts(lines@).take(lines.len() as int) =~= texts(lines@));
    text
}

/// The columns left for the text: what the terminal has beyond the logo and
/// the gap, less a margin of five, where that is more than ten, and forty
/// where it is not.
pub open spec fn info_width(terminal_width: nat, logo_width: nat, gap: nat) -> nat {
    if terminal_width - (logo_width + gap) - 5 > 10 {
        (terminal_width - (logo_width + gap) - 5) as nat
    } else {
        40
    }
}

/// The columns left for the text beside a logo of `logo_width` columns and a
/// gap of `gap`. A terminal too narrow for both still leaves forty.
pub fn available_info_width(terminal_width: usize, logo_width: usize, gap: usize) -> (width: usize)
    ensures
        width == info_width(terminal_width as nat, logo_width as nat, gap as nat),
{
    if logo_width <= terminal_width && gap <= terminal_width - logo_width && terminal_width
        - logo_width - gap > 15 {
        terminal_width - logo_width - gap - 5
    } else {
        40
    }
}

/// A row as plain text: its value alone where it has no label, its label, a
/// colon, a space and its value where it has one, and a line feed.
pub open spec fn plain_line(row: Row) -> Seq<char> {
    if row.label.len() == 0 {
        row.value + seq!['\n']
    } else {
        row.label + seq![':', ' '] + row.value + seq!['\n']
    }
}

/// The rows as plain text: one line for each row that is to be shown and
/// whose fact was found out.
pub open spec fn plain_rows(rows: Seq<Row>) -> Seq<char>
    decreases rows.len(),
{
    if rows.len() == 0 {
        Seq::empty()
    } else if rows.last().show && known(rows.last().value) {
        plain_rows(rows.drop_last()) + plain_line(rows.last())
    } else {
        plain_rows(rows.drop_last())
    }
}

/// The plain text of the display: the rows, and after an empty line the
/// colour swatch, where swatches are switched on and there is one.
pub open spec fn plain_text(rows: Seq<Row>, info: SystemInfo, config: Config) -> Seq<char> {
    if config.format.color_blocks && info.colors@.len() > 0 {
        plain_rows(rows) + seq!['\n'] + info.colors@ + seq!['\n']
    } else {
        plain_rows(rows)
    }
}

/// Writes the rows as plain text, without the logo, without colours and
/// without fitting them to a width.
pub fn generate_stdout_output(
    info_items: &[InfoItem],
    system_info: &SystemInfo,
    config: &Config,
) -> (output: String)
    ensures
        output@ == plain_text(rows_of(info_items@), *system_info, *config),
{
    let mut output = String::new();
    let mut i: usize = 0;
    while i < info_items.len()
        invariant
            i <= info_items.len(),
            output@ == plain_rows(rows_of(info_items@).take(i as int)),
        decreases info_items.len() - i,
    {
        let item = &info_items[i];
        proof {
            assert(rows_of(info_items@).take(i + 1).drop_last() =~= rows_of(info_items@).take(
                i as int,
            ));
            assert(rows_of(info_items@).take(i + 1).last() == item@);
        }
        if item.show && is_known(item.value.as_str()) {
            let ghost before = output@;
            if item.label.as_str().is_empty() {
                output.append(item.value.as_str());
            } else {
                output.append(item.label.as_str());
                output.append(": ");
                output.append(item.value.as_str());
                proof {
                    reveal_strlit(": ");
                    assert(": "@ =~= seq![':', ' ']);
                }
            }
            output.push('\n');
            assert(output@ =~= before + plain_line(item@));
        }
        i = i + 1;
    }
    assert(rows_of(info_items@).take(info_items.len() as int) =~= rows_of(info_items@));
    if config.format.color_blocks {
        let colors = system_info.colors.as_str();
        if !colors.is_empty() {
            output.push('\n');
            output.append(colors);
            output.push('\n');
        }
    }
    output
}

/// Why no output could be made.
#[derive(Debug)]
pub enum OutputError {
    /// The facts could not be written as JSON.
    Json(serde_json::Error),
}

/// The keys of the JSON object, in the order in which they are put in.
pub open spec fn json_keys() -> Seq<Seq<char>> {
    seq![
        "title"@,
        "os"@,
        "host"@,
        "kernel"@,
        "uptime"@,
        "packages"@,
        "shell"@,
        "cpu"@,
        "gpu"@,
        "memory"@,
    ]
}

/// The values of the JSON object, each under the key at the same place.
pub open spec fn json_values(info: SystemInfo) -> Seq<Seq<char>> {
    seq![
        info.title@,
        info.os@,
        info.host@,
        info.kernel@,
        info.uptime@,
        info.packages@,
        info.shell@,
        info.cpu@,
        info.gpu@,
        info.memory@,
    ]
}

/// What the JSON output is, given what the writer came back with: its text,
/// or its error as an error of this library.
pub fn json_outcome(written: Result<String, serde_json::Error>) -> (out: Result<
    String,
    OutputError,
>)
    ensures
        match written {
            Ok(text) => out == Ok::<String, OutputError>(text),
            Err(error) => out == Err::<String, OutputError>(OutputError::Json(error)),
        },
{
    match written {
        Ok(text) => Ok(text),
        Err(error) => Err(OutputError::Json(error)),
    }
}

/// Writes ten of the facts as one flat JSON object. Every fact is written,
/// found out or not, and the writing always succeeds.
pub fn generate_json_output(system_info: &SystemInfo) -> (out: Result<String, OutputError>)
    ensures
        out matches Ok(text) && text@ == pretty_json(json_keys(), json_values(*system_info)),
{
    let keys = vec![
        "title".to_string(),
        "os".to_string(),
        "host".to_string(),
        "kernel".to_string(),
        "uptime".to_string(),
        "packages".to_string(),
        "shell".to_string(),
        "cpu".to_string(),
        "gpu".to_string(),
        "memory".to_string(),
    ];
    let values = vec![
        system_info.title.clone(),
        system_info.os.clone(),
        system_info.host.clone(),
        system_info.kernel.clone(),
        system_info.uptime.clone(),
        system_info.packages.clone(),
        system_info.shell.clone(),
        system_info.cpu.clone(),
        system_info.gpu.clone(),
        system_info.memory.clone(),
    ];
    assert(texts(keys@) =~= json_keys());
    assert(texts(values@) =~= json_values(*system_info));
    json_outcome(to_pretty_json(&keys, &values))
}

/// The text of the display: its lines and, under them, the lines of the
/// colour swatch.
pub open spec fn display_text(
    logo: Seq<Seq<char>>,
    logo_width: nat,
    gap: nat,
    rows: Seq<Seq<char>>,
    swatch: Seq<Seq<char>>,
) -> Seq<char> {
    joined(composed(logo, logo_width, gap, rows) + swatch)
}

/// The lines of the colour swatch under the display: those of the swatch
/// that the facts hold, where swatches are switched on.
pub open spec fn swatch_of(info: SystemInfo, config: Config, indent: nat) -> Seq<Seq<char>> {
    if config.format.color_blocks {
        swatch_lines(info.colors@, indent)
    } else {
        Seq::empty()
    }
}

/// Whether `text` is a display of the facts beside the logo of their
/// operating system: the logo coloured by its palette, the rows that are to
/// be shown formatted for the columns that the terminal leaves, and the
/// colour swatch under them.
pub open spec fn displays(text: Seq<char>, info: SystemInfo, config: Config, terminal_width: nat) -> bool {
    let kind = resolve(lowercase(info.os@));
    let logo_width = widest(logo_art(kind));
    let gap = config.display.gap as nat;
    exists|logo: Seq<Seq<char>>, rows: Seq<Seq<char>>|
        colorized(logo, logo_art(kind), logo_palette(kind)) && renders_all(
            rows,
            shown_rows(catalog(info, config)),
            config.info,
            info_width(terminal_width, logo_width, gap),
        ) && text == #[trigger] display_text(
            logo,
            logo_width,
            gap,
            rows,
            swatch_of(info, config, logo_width + gap),
        )
}

/// Makes the output for a terminal of `terminal_width` columns: the JSON
/// object where JSON is asked for, plain lines where plain output is asked
/// for, and otherwise the facts beside the logo.
pub fn generate_output(system_info: &SystemInfo, config: &Config, terminal_width: usize) -> (out:
    Result<String, OutputError>)
    requires
        !config.behavior.json && !config.display.stdout ==> config.display.gap >= 0,
    ensures
        config.behavior.json ==> (out matches Ok(text) && text@ == pretty_json(
            json_keys(),
            json_values(*system_info),
        )),
        !config.behavior.json && config.display.stdout ==> (out matches Ok(text) && text@
            == plain_text(catalog(*system_info, *config), *system_info, *config)),
        !config.behavior.json && !config.display.stdout ==> (out matches Ok(text) && displays(
            text@,
            *system_info,
            *config,
            terminal_width as nat,
        )),
{
    if config.behavior.json {
        return generate_json_output(system_info);
    }
    let info_items = get_info_items(system_info, config);
    if config.display.stdout {
        return Ok(generate_stdout_output(info_items.as_slice(), system_info, config));
    }
    let ascii_art = AsciiArt::new();
    let os_name = system_info.os.as_str();
    let default_logo = vec![String::new()];
    let logo = match ascii_art.get_logo(os_name) {
        Some(logo) => logo,
        None => &default_logo,
    };
    let colored_logo = ascii_art.colorize_logo(os_name, logo.as_slice());
    let logo_width = ascii_art.get_logo_width(os_name);
    let gap = config.display.gap as usize;

    let available = available_info_width(terminal_width, logo_width, gap);
    let rows = format_visible_items(&info_items, config, available);
    let mut lines = compose(&colored_logo, logo_width, gap, &rows);
    let ghost body = texts(lines@);
    let ghost swatch = swatch_of(*system_info, *config, (logo_width + gap) as nat);
    if config.format.color_blocks {
        let mut color_lines = indent_swatch(system_info.colors.as_str(), logo_width + gap);
        lines.append(&mut color_lines);
    }
    assert(texts(lines@) =~= body + swatch);
    let text = join_lines(&lines);
    proof {
        let kind = resolve(lowercase(system_info.os@));
        assert(gap as nat == config.display.gap as nat);
        assert(colorized(texts(colored_logo@), logo_art(kind), logo_palette(kind)));
        assert(renders_all(
            texts(rows@),
            shown_rows(catalog(*system_info, *config)),
            config.info,
            info_width(terminal_width as nat, widest(logo_art(kind)), config.display.gap as nat),
        ));
        assert(text@ == display_text(
            texts(colored_logo@),
            widest(logo_art(kind)),
            config.display.gap as nat,
            texts(rows@),
            swatch_of(*system_info, *config, widest(logo_art(kind)) + config.display.gap as nat),
        ));
    }
    Ok(text)
}

} // verus!
