//! The logo store: the ASCII art and the palette of each known system, and
//! the rule that picks one of them for the name of an operating system.

use vstd::prelude::*;
use vstd::string::*;
use crate::ansi::{lemma_visible_len, strip_ansi_codes, visible, ESC};
use crate::style::{paint, styled, Color};
use crate::text::{char_count, contains, has_substring, lowercase, str_eq, texts};

verus! {

/// No line of a logo is wider than this.
pub const MAX_LOGO_WIDTH: usize = 64;

/// The systems that have a logo of their own.
#[derive(Debug, Clone, Copy, PartialEq, Eq, Structural)]
pub enum LogoKind {
    MacOS,
    Ubuntu,
    Arch,
    Debian,
    Fedora,
    Linux,
    Windows,
}

/// The lines of the macOS logo.
pub open spec fn macos_art() -> Seq<Seq<char>> {
    seq![
        "                    'c."@,
        "                 ,xNMM."@,
        "               .OMMMMo"@,
        "               OMMM0,"@,
        "     .;loddo:' loolloddol;."@,
        "   cKMMMMMMMMMMNWMMMMMMMMMM0:"@,
        " .KMMMMMMMMMMMMMMMMMMMMMMMWd."@,
        " XMMMMMMMMMMMMMMMMMMMMMMMX."@,
        ";MMMMMMMMMMMMMMMMMMMMMMMM:"@,
        ":MMMMMMMMMMMMMMMMMMMMMMMM:"@,
        ".MMMMMMMMMMMMMMMMMMMMMMMMX."@,
        " kMMMMMMMMMMMMMMMMMMMMMMMMWd."@,
        " .XMMMMMMMMMMMMMMMMMMMMMMMMMMk"@,
        "  .XMMMMMMMMMMMMMMMMMMMMMMMMK."@,
        "    kMMMMMMMMMMMMMMMMMMMMMMd"@,
        "     ;KMMMMMMMWXXWMMMMMMMk."@,
        "       .cooc,.    .,coo:."@,
    ]
}

/// The colours of the macOS logo, used line by line in turn.
pub open spec fn macos_palette() -> Seq<Color> {
    seq![Color::Green, Color::Yellow, Color::Red, Color::Magenta, Color::Blue, Color::Cyan]
}

/// The lines of the Ubuntu logo.
pub open spec fn ubuntu_art() -> Seq<Seq<char>> {
    seq![
        "         _"@,
        "     ---(_)"@,
        " _/  ---  \\"@,
        "(_) |   |"@,
        "  \\  --- _/"@,
        "     ---(_)"@,
        ""@,
        ""@,
        ""@,
        ""@,
        ""@,
        ""@,
        ""@,
        ""@,
        ""@,
        ""@,
        ""@,
    ]
}

/// The colours of the Ubuntu logo, used line by line in turn.
pub open spec fn ubuntu_palette() -> Seq<Color> {
    seq![Color::Red, Color::White]
}

/// The lines of the Arch Linux logo.
pub open spec fn arch_art() -> Seq<Seq<char>> {
    seq![
        "                   -`"@,
        "                  .o+`"@,
        "                 `ooo/"@,
        "                `+oooo:"@,
        "               `+oooooo:"@,
        "               -+oooooo+:"@,
        "             `/:-:++oooo+:"@,
        "            `/++++/+++++++:"@,
        "           `/++++++++++++++:"@,
        "          `/+++ooooooooo+++/"@,
        "         ./ooosssso++osssssso+`"@,
        "        .oossssso-````/ossssss+`"@,
        "       -osssssso.      :ssssssso."@,
        "      :osssssss/        osssso+++."@,
        "     /ossssssss/        +ssssooo/-"@,
        "   `/ossssso+/:-        -:/+osssso+-"@,
        "  `+sso+:-`                 `.-/+oso:"@,
        " `++:.                           `-/+/"@,
        " .`                                 `/"@,
    ]
}

/// The colours of the Arch Linux logo, used line by line in turn.
pub open spec fn arch_palette() -> Seq<Color> {
    seq![Color::Cyan, Color::Blue]
}

/// The lines of the Debian logo.
pub open spec fn debian_art() -> Seq<Seq<char>> {
    seq![
        "       _,met$$$$$gg."@,
        "    ,g$$$$$$$$$$$$$$$P."@,
        "  ,g$$P\"     \"\"\"Y$$.\"."@,
        " ,$$P'              `$$$."@,
        "',$$P       ,ggs.     `$$b:"@,
        "`d$$'     ,$P\"'   .    $$$"@,
        " $$P      d$'     ,    $$P"@,
        " $$:      $$.   -    ,d$$'"@,
        " $$;      Y$b._   _,d$P'"@,
        " Y$$.    `.`\"Y$$$$P\"'"@,
        " `$$b      \"-.__"@,
        "  `Y$$"@,
        "   `Y$$."@,
        "     `$$b."@,
        "       `Y$$b."@,
        "          `\"Y$b._"@,
        "              `\"\""@,
    ]
}

/// The colours of the Debian logo, used line by line in turn.
pub open spec fn debian_palette() -> Seq<Color> {
    seq![Color::Red, Color::White]
}

/// The lines of the Fedora logo.
pub open spec fn fedora_art() -> Seq<Seq<char>> {
    seq![
        "             .',;::::;,'."@,
        "         .';;;;;;;;;;;;;,'."@,
        "      .,;;;;;;;;;;;;;;;;;;;,."@,
        "    .,;;;;;;;;;;;;;;;;;;;;;;;;,"@,
        "   .;;;;;;;;;;;;;;;;;;;;;;;;;;;;;,"@,
        "  .;;;;;;;;;;;;;;;;;;;;;;;;;;;;;;;;,"@,
        " .;;;;;;;;;;;;;;;;;;;;;;;;;;;;;;;;;;;;,"@,
        ".;;;;;;;;;;;;;;;;;;;;;;;;;;;;;;;;;;;;;;;;;,"@,
        ";;;;;;;;;;;;;;;;;;;;;;;;;;;;;;;;;;;;;;;;;;;;;;"@,
        ";;;;;;;;;;;;;;;;;;;;;;;;;;;;;;;;;;;;;;;;;;;;;;"@,
        ";;;;;;;;;;;;;;;;;;;;;;;;;;;;;;;;;;;;;;;;;;;;;;"@,
        ";;;;;;;;;;;;;;;;;;;;;;;;;;;;;;;;;;;;;;;;;;;;;;"@,
        ".;;;;;;;;;;;;;;;;;;;;;;;;;;;;;;;;;;;;;;;;;;;;;"@,
        " ';;;;;;;;;;;;;;;;;;;;;;;;;;;;;;;;;;;;;;;;;'"@,
        "  ';;;;;;;;;;;;;;;;;;;;;;;;;;;;;;;;;;;;;'"@,
        "    ';;;;;;;;;;;;;;;;;;;;;;;;;;;;;;'"@,
        "        '''''''''''''''''''''"@,
    ]
}

/// The colours of the Fedora logo, used line by line in turn.
pub open spec fn fedora_palette() -> Seq<Color> {
    seq![Color::Blue, Color::White]
}

/// The lines of the generic Linux logo.
pub open spec fn linux_art() -> Seq<Seq<char>> {
    seq![
        "        #####"@,
        "       #######"@,
        "       ##O#O##"@,
        "       #VVVVV#"@,
        "       ##>|<##"@,
        "      #########"@,
        "     ###########"@,
        "    #############"@,
        "   ###############"@,
        "  #################"@,
        " ###################"@,
        "#####################"@,
        "#####################"@,
        "#####################"@,
        " ###################"@,
        "  #################"@,
        "   ###############"@,
    ]
}

/// The colours of the generic Linux logo, used line by line in turn.
pub open spec fn linux_palette() -> Seq<Color> {
    seq![Color::Yellow, Color::White]
}

/// The lines of the Windows logo.
pub open spec fn windows_art() -> Seq<Seq<char>> {
    seq![
        "        ,.=:!!t3Z3z.,"@,
        "       :tt:::tt333EE3"@,
        "       Et:::ztt33EEEL"@,
        "      @Ee., ..,]3333"@,
        "     ;[=t]::;]3333333"@,
        "    :t]::;]]]3333333"@,
        "   :]]]]]]]]]]333333"@,
        "  .]]]]]]]]]]]33333"@,
        " .]]]]]]]]]]]]3333"@,
        ".]]]]]]]]]]]]333"@,
        "]]]]]]]]]]]]]33"@,
        "3]]]]]]]]]]]]3"@,
        "33]]]]]]]]]]3"@,
        "333]]]]]]]]3"@,
        "3333]]]]]]3"@,
        "33333]]]]3"@,
        "333333]]3"@,
    ]
}

/// The colours of the Windows logo, used line by line in turn.
pub open spec fn windows_palette() -> Seq<Color> {
    seq![Color::Blue, Color::Red, Color::Green, Color::Yellow]
}

/// The lines of the logo of `kind`.
pub open spec fn logo_art(kind: LogoKind) -> Seq<Seq<char>> {
    match kind {
        LogoKind::MacOS => macos_art(),
        LogoKind::Ubuntu => ubuntu_art(),
        LogoKind::Arch => arch_art(),
        LogoKind::Debian => debian_art(),
        LogoKind::Fedora => fedora_art(),
        LogoKind::Linux => linux_art(),
        LogoKind::Windows => windows_art(),
    }
}

/// The colours of the logo of `kind`.
pub open spec fn logo_palette(kind: LogoKind) -> Seq<Color> {
    match kind {
        LogoKind::MacOS => macos_palette(),
        LogoKind::Ubuntu => ubuntu_palette(),
        LogoKind::Arch => arch_palette(),
        LogoKind::Debian => debian_palette(),
        LogoKind::Fedora => fedora_palette(),
        LogoKind::Linux => linux_palette(),
        LogoKind::Windows => windows_palette(),
    }
}

/// Every line of the macOS logo fits the widest logo column and is free of
/// escapes.
pub proof fn lemma_macos_art_fits()
    ensures
        macos_art().len() == 17,
        forall|i: int| 0 <= i < macos_art().len() ==> (#[trigger] macos_art()[i]).len() <= MAX_LOGO_WIDTH,
        forall|i: int, j: int|
            0 <= i < macos_art().len() && 0 <= j < macos_art()[i].len() ==> #[trigger] macos_art()[i][j] != ESC,
{
    reveal_strlit("                    'c.");
    reveal_strlit("                 ,xNMM.");
    reveal_strlit("               .OMMMMo");
    reveal_strlit("               OMMM0,");
    reveal_strlit("     .;loddo:' loolloddol;.");
    reveal_strlit("   cKMMMMMMMMMMNWMMMMMMMMMM0:");
    reveal_strlit(" .KMMMMMMMMMMMMMMMMMMMMMMMWd.");
    reveal_strlit(" XMMMMMMMMMMMMMMMMMMMMMMMX.");
    reveal_strlit(";MMMMMMMMMMMMMMMMMMMMMMMM:");
    reveal_strlit(":MMMMMMMMMMMMMMMMMMMMMMMM:");
    reveal_strlit(".MMMMMMMMMMMMMMMMMMMMMMMMX.");
    reveal_strlit(" kMMMMMMMMMMMMMMMMMMMMMMMMWd.");
    reveal_strlit(" .XMMMMMMMMMMMMMMMMMMMMMMMMMMk");
    reveal_strlit("  .XMMMMMMMMMMMMMMMMMMMMMMMMK.");
    reveal_strlit("    kMMMMMMMMMMMMMMMMMMMMMMd");
    reveal_strlit("     ;KMMMMMMMWXXWMMMMMMMk.");
    reveal_strlit("       .cooc,.    .,coo:.");
}

/// Every line of the Ubuntu logo fits the widest logo column and is free of
/// escapes.
pub proof fn lemma_ubuntu_art_fits()
    ensures
        ubuntu_art().len() == 17,
        forall|i: int| 0 <= i < ubuntu_art().len() ==> (#[trigger] ubuntu_art()[i]).len() <= MAX_LOGO_WIDTH,
        forall|i: int, j: int|
            0 <= i < ubuntu_art().len() && 0 <= j < ubuntu_art()[i].len() ==> #[trigger] ubuntu_art()[i][j] != ESC,
{
    reveal_strlit("         _");
    reveal_strlit("     ---(_)");
    reveal_strlit(" _/  ---  \\");
    reveal_strlit("(_) |   |");
    reveal_strlit("  \\  --- _/");
    reveal_strlit("");
}

/// Every line of the Arch Linux logo fits the widest logo column and is free of
/// escapes.
pub proof fn lemma_arch_art_fits()
    ensures
        arch_art().len() == 19,
        forall|i: int| 0 <= i < arch_art().len() ==> (#[trigger] arch_art()[i]).len() <= MAX_LOGO_WIDTH,
        forall|i: int, j: int|
            0 <= i < arch_art().len() && 0 <= j < arch_art()[i].len() ==> #[trigger] arch_art()[i][j] != ESC,
{
    reveal_strlit("                   -`");
    reveal_strlit("                  .o+`");
    reveal_strlit("                 `ooo/");
    reveal_strlit("                `+oooo:");
    reveal_strlit("               `+oooooo:");
    reveal_strlit("               -+oooooo+:");
    reveal_strlit("             `/:-:++oooo+:");
    reveal_strlit("            `/++++/+++++++:");
    reveal_strlit("           `/++++++++++++++:");
    reveal_strlit("          `/+++ooooooooo+++/");
    reveal_strlit("         ./ooosssso++osssssso+`");
    reveal_strlit("        .oossssso-````/ossssss+`");
    reveal_strlit("       -osssssso.      :ssssssso.");
    reveal_strlit("      :osssssss/        osssso+++.");
    reveal_strlit("     /ossssssss/        +ssssooo/-");
    reveal_strlit("   `/ossssso+/:-        -:/+osssso+-");
    reveal_strlit("  `+sso+:-`                 `.-/+oso:");
    reveal_strlit(" `++:.                           `-/+/");
    reveal_strlit(" .`                                 `/");
}

/// Every line of the Debian logo fits the widest logo column and is free of
/// escapes.
pub proof fn lemma_debian_art_fits()
    ensures
        debian_art().len() == 17,
        forall|i: int| 0 <= i < debian_art().len() ==> (#[trigger] debian_art()[i]).len() <= MAX_LOGO_WIDTH,
        forall|i: int, j: int|
            0 <= i < debian_art().len() && 0 <= j < debian_art()[i].len() ==> #[trigger] debian_art()[i][j] != ESC,
{
    reveal_strlit("       _,met$$$$$gg.");
    reveal_strlit("    ,g$$$$$$$$$$$$$$$P.");
    reveal_strlit("  ,g$$P\"     \"\"\"Y$$.\".");
    reveal_strlit(" ,$$P'              `$$$.");
    reveal_strlit("',$$P       ,ggs.     `$$b:");
    reveal_strlit("`d$$'     ,$P\"'   .    $$$");
    reveal_strlit(" $$P      d$'     ,    $$P");
    reveal_strlit(" $$:      $$.   -    ,d$$'");
    reveal_strlit(" $$;      Y$b._   _,d$P'");
    reveal_strlit(" Y$$.    `.`\"Y$$$$P\"'");
    reveal_strlit(" `$$b      \"-.__");
    reveal_strlit("  `Y$$");
    reveal_strlit("   `Y$$.");
    reveal_strlit("     `$$b.");
    reveal_strlit("       `Y$$b.");
    reveal_strlit("          `\"Y$b._");
    reveal_strlit("              `\"\"");
}

/// Every line of the Fedora logo fits the widest logo column and is free of
/// escapes.
pub proof fn lemma_fedora_art_fits()
    ensures
        fedora_art().len() == 17,
        forall|i: int| 0 <= i < fedora_art().len() ==> (#[trigger] fedora_art()[i]).len() <= MAX_LOGO_WIDTH,
        forall|i: int, j: int|
            0 <= i < fedora_art().len() && 0 <= j < fedora_art()[i].len() ==> #[trigger] fedora_art()[i][j] != ESC,
{
    reveal_strlit("             .',;::::;,'.");
    reveal_strlit("         .';;;;;;;;;;;;;,'.");
    reveal_strlit("      .,;;;;;;;;;;;;;;;;;;;,.");
    reveal_strlit("    .,;;;;;;;;;;;;;;;;;;;;;;;;,");
    reveal_strlit("   .;;;;;;;;;;;;;;;;;;;;;;;;;;;;;,");
    reveal_strlit("  .;;;;;;;;;;;;;;;;;;;;;;;;;;;;;;;;,");
    reveal_strlit(" .;;;;;;;;;;;;;;;;;;;;;;;;;;;;;;;;;;;;,");
    reveal_strlit(".;;;;;;;;;;;;;;;;;;;;;;;;;;;;;;;;;;;;;;;;;,");
    reveal_strlit(";;;;;;;;;;;;;;;;;;;;;;;;;;;;;;;;;;;;;;;;;;;;;;");
    reveal_strlit(".;;;;;;;;;;;;;;;;;;;;;;;;;;;;;;;;;;;;;;;;;;;;;");
    reveal_strlit(" ';;;;;;;;;;;;;;;;;;;;;;;;;;;;;;;;;;;;;;;;;'");
    reveal_strlit("  ';;;;;;;;;;;;;;;;;;;;;;;;;;;;;;;;;;;;;'");
    reveal_strlit("    ';;;;;;;;;;;;;;;;;;;;;;;;;;;;;;'");
    reveal_strlit("        '''''''''''''''''''''");
}

/// Every line of the generic Linux logo fits the widest logo column and is free of
/// escapes.
pub proof fn lemma_linux_art_fits()
    ensures
        linux_art().len() == 17,
        forall|i: int| 0 <= i < linux_art().len() ==> (#[trigger] linux_art()[i]).len() <= MAX_LOGO_WIDTH,
        forall|i: int, j: int|
            0 <= i < linux_art().len() && 0 <= j < linux_art()[i].len() ==> #[trigger] linux_art()[i][j] != ESC,
{
    reveal_strlit("        #####");
    reveal_strlit("       #######");
    reveal_strlit("       ##O#O##");
    reveal_strlit("       #VVVVV#");
    reveal_strlit("       ##>|<##");
    reveal_strlit("      #########");
    reveal_strlit("     ###########");
    reveal_strlit("    #############");
    reveal_strlit("   ###############");
    reveal_strlit("  #################");
    reveal_strlit(" ###################");
    reveal_strlit("#####################");
}

/// Every line of the Windows logo fits the widest logo column and is free of
/// escapes.
pub proof fn lemma_windows_art_fits()
    ensures
        windows_art().len() == 17,
        forall|i: int| 0 <= i < windows_art().len() ==> (#[trigger] windows_art()[i]).len() <= MAX_LOGO_WIDTH,
        forall|i: int, j: int|
            0 <= i < windows_art().len() && 0 <= j < windows_art()[i].len() ==> #[trigger] windows_art()[i][j] != ESC,
{
    reveal_strlit("        ,.=:!!t3Z3z.,");
    reveal_strlit("       :tt:::tt333EE3");
    reveal_strlit("       Et:::ztt33EEEL");
    reveal_strlit("      @Ee., ..,]3333");
    reveal_strlit("     ;[=t]::;]3333333");
    reveal_strlit("    :t]::;]]]3333333");
    reveal_strlit("   :]]]]]]]]]]333333");
    reveal_strlit("  .]]]]]]]]]]]33333");
    reveal_strlit(" .]]]]]]]]]]]]3333");
    reveal_strlit(".]]]]]]]]]]]]333");
    reveal_strlit("]]]]]]]]]]]]]33");
    reveal_strlit("3]]]]]]]]]]]]3");
    reveal_strlit("33]]]]]]]]]]3");
    reveal_strlit("333]]]]]]]]3");
    reveal_strlit("3333]]]]]]3");
    reveal_strlit("33333]]]]3");
    reveal_strlit("333333]]3");
}

/// Every line of every logo fits the widest logo column and is free of
/// escapes.
pub proof fn lemma_art_fits(kind: LogoKind)
    ensures
        forall|i: int| 0 <= i < logo_art(kind).len() ==> (#[trigger] logo_art(kind)[i]).len() <= MAX_LOGO_WIDTH,
        forall|i: int, j: int|
            0 <= i < logo_art(kind).len() && 0 <= j < logo_art(kind)[i].len() ==> #[trigger] logo_art(kind)[i][j] != ESC,
{
    match kind {
        LogoKind::MacOS => lemma_macos_art_fits(),
        LogoKind::Ubuntu => lemma_ubuntu_art_fits(),
        LogoKind::Arch => lemma_arch_art_fits(),
        LogoKind::Debian => lemma_debian_art_fits(),
        LogoKind::Fedora => lemma_fedora_art_fits(),
        LogoKind::Linux => lemma_linux_art_fits(),
        LogoKind::Windows => lemma_windows_art_fits(),
    }
}

/// A logo: its lines and the colours that its lines take in turn.
pub struct Logo {
    pub lines: Vec<String>,
    pub colors: Vec<Color>,
}

/// Builds the macOS logo.
fn macos_logo() -> (logo: Logo)
    ensures
        texts(logo.lines@) == macos_art(),
        logo.colors@ == macos_palette(),
{
    let lines = vec![
        "                    'c.".to_string(),
        "                 ,xNMM.".to_string(),
        "               .OMMMMo".to_string(),
        "               OMMM0,".to_string(),
        "     .;loddo:' loolloddol;.".to_string(),
        "   cKMMMMMMMMMMNWMMMMMMMMMM0:".to_string(),
        " .KMMMMMMMMMMMMMMMMMMMMMMMWd.".to_string(),
        " XMMMMMMMMMMMMMMMMMMMMMMMX.".to_string(),
        ";MMMMMMMMMMMMMMMMMMMMMMMM:".to_string(),
        ":MMMMMMMMMMMMMMMMMMMMMMMM:".to_string(),
        ".MMMMMMMMMMMMMMMMMMMMMMMMX.".to_string(),
        " kMMMMMMMMMMMMMMMMMMMMMMMMWd.".to_string(),
        " .XMMMMMMMMMMMMMMMMMMMMMMMMMMk".to_string(),
        "  .XMMMMMMMMMMMMMMMMMMMMMMMMK.".to_string(),
        "    kMMMMMMMMMMMMMMMMMMMMMMd".to_string(),
        "     ;KMMMMMMMWXXWMMMMMMMk.".to_string(),
        "       .cooc,.    .,coo:.".to_string(),
    ];
    let colors = vec![Color::Green, Color::Yellow, Color::Red, Color::Magenta, Color::Blue, Color::Cyan];
    assert(texts(lines@) =~= macos_art());
    Logo { lines, colors }
}

/// Builds the Ubuntu logo.
fn ubuntu_logo() -> (logo: Logo)
    ensures
        texts(logo.lines@) == ubuntu_art(),
        logo.colors@ == ubuntu_palette(),
{
    let lines = vec![
        "         _".to_string(),
        "     ---(_)".to_string(),
        " _/  ---  \\".to_string(),
        "(_) |   |".to_string(),
        "  \\  --- _/".to_string(),
        "     ---(_)".to_string(),
        "".to_string(),
        "".to_string(),
        "".to_string(),
        "".to_string(),
        "".to_string(),
        "".to_string(),
        "".to_string(),
        "".to_string(),
        "".to_string(),
        "".to_string(),
        "".to_string(),
    ];
    let colors = vec![Color::Red, Color::White];
    assert(texts(lines@) =~= ubuntu_art());
    Logo { lines, colors }
}

/// Builds the Arch Linux logo.
fn arch_logo() -> (logo: Logo)
    ensures
        texts(logo.lines@) == arch_art(),
        logo.colors@ == arch_palette(),
{
    let lines = vec![
        "                   -`".to_string(),
        "                  .o+`".to_string(),
        "                 `ooo/".to_string(),
        "                `+oooo:".to_string(),
        "               `+oooooo:".to_string(),
        "               -+oooooo+:".to_string(),
        "             `/:-:++oooo+:".to_string(),
        "            `/++++/+++++++:".to_string(),
        "           `/++++++++++++++:".to_string(),
        "          `/+++ooooooooo+++/".to_string(),
        "         ./ooosssso++osssssso+`".to_string(),
        "        .oossssso-````/ossssss+`".to_string(),
        "       -osssssso.      :ssssssso.".to_string(),
        "      :osssssss/        osssso+++.".to_string(),
        "     /ossssssss/        +ssssooo/-".to_string(),
        "   `/ossssso+/:-        -:/+osssso+-".to_string(),
        "  `+sso+:-`                 `.-/+oso:".to_string(),
        " `++:.                           `-/+/".to_string(),
        " .`                                 `/".to_string(),
    ];
    let colors = vec![Color::Cyan, Color::Blue];
    assert(texts(lines@) =~= arch_art());
    Logo { lines, colors }
}

/// Builds the Debian logo.
fn debian_logo() -> (logo: Logo)
    ensures
        texts(logo.lines@) == debian_art(),
        logo.colors@ == debian_palette(),
{
    let lines = vec![
        "       _,met$$$$$gg.".to_string(),
        "    ,g$$$$$$$$$$$$$$$P.".to_string(),
        "  ,g$$P\"     \"\"\"Y$$.\".".to_string(),
        " ,$$P'              `$$$.".to_string(),
        "',$$P       ,ggs.     `$$b:".to_string(),
        "`d$$'     ,$P\"'   .    $$$".to_string(),
        " $$P      d$'     ,    $$P".to_string(),
        " $$:      $$.   -    ,d$$'".to_string(),
        " $$;      Y$b._   _,d$P'".to_string(),
        " Y$$.    `.`\"Y$$$$P\"'".to_string(),
        " `$$b      \"-.__".to_string(),
        "  `Y$$".to_string(),
        "   `Y$$.".to_string(),
        "     `$$b.".to_string(),
        "       `Y$$b.".to_string(),
        "          `\"Y$b._".to_string(),
        "              `\"\"".to_string(),
    ];
    let colors = vec![Color::Red, Color::White];
    assert(texts(lines@) =~= debian_art());
    Logo { lines, colors }
}

/// Builds the Fedora logo.
fn fedora_logo() -> (logo: Logo)
    ensures
        texts(logo.lines@) == fedora_art(),
        logo.colors@ == fedora_palette(),
{
    let lines = vec![
        "             .',;::::;,'.".to_string(),
        "         .';;;;;;;;;;;;;,'.".to_string(),
        "      .,;;;;;;;;;;;;;;;;;;;,.".to_string(),
        "    .,;;;;;;;;;;;;;;;;;;;;;;;;,".to_string(),
        "   .;;;;;;;;;;;;;;;;;;;;;;;;;;;;;,".to_string(),
        "  .;;;;;;;;;;;;;;;;;;;;;;;;;;;;;;;;,".to_string(),
        " .;;;;;;;;;;;;;;;;;;;;;;;;;;;;;;;;;;;;,".to_string(),
        ".;;;;;;;;;;;;;;;;;;;;;;;;;;;;;;;;;;;;;;;;;,".to_string(),
        ";;;;;;;;;;;;;;;;;;;;;;;;;;;;;;;;;;;;;;;;;;;;;;".to_string(),
        ";;;;;;;;;;;;;;;;;;;;;;;;;;;;;;;;;;;;;;;;;;;;;;".to_string(),
        ";;;;;;;;;;;;;;;;;;;;;;;;;;;;;;;;;;;;;;;;;;;;;;".to_string(),
        ";;;;;;;;;;;;;;;;;;;;;;;;;;;;;;;;;;;;;;;;;;;;;;".to_string(),
        ".;;;;;;;;;;;;;;;;;;;;;;;;;;;;;;;;;;;;;;;;;;;;;".to_string(),
        " ';;;;;;;;;;;;;;;;;;;;;;;;;;;;;;;;;;;;;;;;;'".to_string(),
        "  ';;;;;;;;;;;;;;;;;;;;;;;;;;;;;;;;;;;;;'".to_string(),
        "    ';;;;;;;;;;;;;;;;;;;;;;;;;;;;;;'".to_string(),
        "        '''''''''''''''''''''".to_string(),
    ];
    let colors = vec![Color::Blue, Color::White];
    assert(texts(lines@) =~= fedora_art());
    Logo { lines, colors }
}

/// Builds the generic Linux logo.
fn linux_logo() -> (logo: Logo)
    ensures
        texts(logo.lines@) == linux_art(),
        logo.colors@ == linux_palette(),
{
    let lines = vec![
        "        #####".to_string(),
        "       #######".to_string(),
        "       ##O#O##".to_string(),
        "       #VVVVV#".to_string(),
        "       ##>|<##".to_string(),
        "      #########".to_string(),
        "     ###########".to_string(),
        "    #############".to_string(),
        "   ###############".to_string(),
        "  #################".to_string(),
        " ###################".to_string(),
        "#####################".to_string(),
        "#####################".to_string(),
        "#####################".to_string(),
        " ###################".to_string(),
        "  #################".to_string(),
        "   ###############".to_string(),
    ];
    let colors = vec![Color::Yellow, Color::White];
    assert(texts(lines@) =~= linux_art());
    Logo { lines, colors }
}

/// Builds the Windows logo.
fn windows_logo() -> (logo: Logo)
    ensures
        texts(logo.lines@) == windows_art(),
        logo.colors@ == windows_palette(),
{
    let lines = vec![
        "        ,.=:!!t3Z3z.,".to_string(),
        "       :tt:::tt333EE3".to_string(),
        "       Et:::ztt33EEEL".to_string(),
        "      @Ee., ..,]3333".to_string(),
        "     ;[=t]::;]3333333".to_string(),
        "    :t]::;]]]3333333".to_string(),
        "   :]]]]]]]]]]333333".to_string(),
        "  .]]]]]]]]]]]33333".to_string(),
        " .]]]]]]]]]]]]3333".to_string(),
        ".]]]]]]]]]]]]333".to_string(),
        "]]]]]]]]]]]]]33".to_string(),
        "3]]]]]]]]]]]]3".to_string(),
        "33]]]]]]]]]]3".to_string(),
        "333]]]]]]]]3".to_string(),
        "3333]]]]]]3".to_string(),
        "33333]]]]3".to_string(),
        "333333]]3".to_string(),
    ];
    let colors = vec![Color::Blue, Color::Red, Color::Green, Color::Yellow];
    assert(texts(lines@) =~= windows_art());
    Logo { lines, colors }
}

/// The logo that stands for a system name, given in lower case. A name that
/// is one of the seven keys has that key's logo. Any other name is searched
/// for the keys in a fixed order, and a name that holds none of them has the
/// generic Linux logo.
pub open spec fn resolve(name: Seq<char>) -> LogoKind {
    if name == "macos"@ {
        LogoKind::MacOS
    } else if name == "ubuntu"@ {
        LogoKind::Ubuntu
    } else if name == "arch"@ {
        LogoKind::Arch
    } else if name == "debian"@ {
        LogoKind::Debian
    } else if name == "fedora"@ {
        LogoKind::Fedora
    } else if name == "linux"@ {
        LogoKind::Linux
    } else if name == "windows"@ {
        LogoKind::Windows
    } else if has_substring(name, "ubuntu"@) {
        LogoKind::Ubuntu
    } else if has_substring(name, "arch"@) {
        LogoKind::Arch
    } else if has_substring(name, "debian"@) {
        LogoKind::Debian
    } else if has_substring(name, "fedora"@) {
        LogoKind::Fedora
    } else if has_substring(name, "mac"@) || has_substring(name, "darwin"@) {
        LogoKind::MacOS
    } else if has_substring(name, "windows"@) {
        LogoKind::Windows
    } else {
        LogoKind::Linux
    }
}

/// The widest of the lines, counting only the characters that are shown.
pub open spec fn widest(lines: Seq<Seq<char>>) -> nat
    decreases lines.len(),
{
    if lines.len() == 0 {
        0
    } else if visible(lines.last()).len() > widest(lines.drop_last()) {
        visible(lines.last()).len()
    } else {
        widest(lines.drop_last())
    }
}

/// The widest line is no wider than a bound on the length of every line.
pub proof fn lemma_widest_bounded(lines: Seq<Seq<char>>, bound: nat)
    requires
        forall|i: int| 0 <= i < lines.len() ==> (#[trigger] lines[i]).len() <= bound,
    ensures
        widest(lines) <= bound,
    decreases lines.len(),
{
    if lines.len() > 0 {
        lemma_widest_bounded(lines.drop_last(), bound);
        lemma_visible_len(lines.last());
    }
}

/// No line is wider than the widest.
pub proof fn lemma_widest_covers(lines: Seq<Seq<char>>, i: int)
    requires
        0 <= i < lines.len(),
    ensures
        visible(lines[i]).len() <= widest(lines),
    decreases lines.len(),
{
    if i < lines.len() - 1 {
        lemma_widest_covers(lines.drop_last(), i);
    }
}

/// Whether `out` is what colouring the logo line `text` with `color` can
/// give. Black is not among the colours that logos are drawn in, and leaves
/// the line as it was.
pub open spec fn tinted(out: Seq<char>, text: Seq<char>, color: Color) -> bool {
    if color == Color::Black {
        out == text
    } else {
        styled(out, text, color, false)
    }
}

/// Whether `out` is what colouring the lines of `logo` by `palette`, taken
/// in turn, can give.
pub open spec fn colorized(out: Seq<Seq<char>>, logo: Seq<Seq<char>>, palette: Seq<Color>) -> bool {
    &&& out.len() == logo.len()
    &&& forall|i: int|
        0 <= i < logo.len() ==> tinted(
            #[trigger] out[i],
            logo[i],
            palette[i % (palette.len() as int)],
        )
}

impl LogoKind {
    /// Picks the logo for a system name that is already in lower case.
    pub fn from_normalized(name: &str) -> (kind: LogoKind)
        ensures
            kind == resolve(name@),
    {
        if str_eq(name, "macos") {
            LogoKind::MacOS
        } else if str_eq(name, "ubuntu") {
            LogoKind::Ubuntu
        } else if str_eq(name, "arch") {
            LogoKind::Arch
        } else if str_eq(name, "debian") {
            LogoKind::Debian
        } else if str_eq(name, "fedora") {
            LogoKind::Fedora
        } else if str_eq(name, "linux") {
            LogoKind::Linux
        } else if str_eq(name, "windows") {
            LogoKind::Windows
        } else if contains(name, "ubuntu") {
            LogoKind::Ubuntu
        } else if contains(name, "arch") {
            LogoKind::Arch
        } else if contains(name, "debian") {
            LogoKind::Debian
        } else if contains(name, "fedora") {
            LogoKind::Fedora
        } else if contains(name, "mac") || contains(name, "darwin") {
            LogoKind::MacOS
        } else if contains(name, "windows") {
            LogoKind::Windows
        } else {
            LogoKind::Linux
        }
    }

    /// Picks the logo for the name of an operating system, whatever its case.
    pub fn from_os_name(os_name: &str) -> (kind: LogoKind)
        ensures
            kind == resolve(lowercase(os_name@)),
    {
        let normalized_name = os_name.to_lowercase();
        LogoKind::from_normalized(normalized_name.as_str())
    }
}

/// The logos of all known systems. It is filled once, when it is made, and
/// never changes.
pub struct AsciiArt {
    macos: Logo,
    ubuntu: Logo,
    arch: Logo,
    debian: Logo,
    fedora: Logo,
    linux: Logo,
    windows: Logo,
}

impl AsciiArt {
    /// The stored logo of `kind`.
    pub closed spec fn logo(self, kind: LogoKind) -> Logo {
        match kind {
            LogoKind::MacOS => self.macos,
            LogoKind::Ubuntu => self.ubuntu,
            LogoKind::Arch => self.arch,
            LogoKind::Debian => self.debian,
            LogoKind::Fedora => self.fedora,
            LogoKind::Linux => self.linux,
            LogoKind::Windows => self.windows,
        }
    }

    /// Every stored logo holds the lines and the colours of its kind.
    #[verifier::type_invariant]
    pub open spec fn wf(self) -> bool {
        forall|kind: LogoKind|
            texts((#[trigger] self.logo(kind)).lines@) == logo_art(kind) && self.logo(kind).colors@
                == logo_palette(kind)
    }

    /// Creates the store, with every logo in it.
    pub fn new() -> (art: AsciiArt)
        ensures
            art.wf(),
    {
        AsciiArt::load_default_logos()
    }

    /// Builds the store from the art of each system.
    fn load_default_logos() -> (art: AsciiArt)
        ensures
            art.wf(),
    {
        let art = AsciiArt {
            macos: macos_logo(),
            ubuntu: ubuntu_logo(),
            arch: arch_logo(),
            debian: debian_logo(),
            fedora: fedora_logo(),
            linux: linux_logo(),
            windows: windows_logo(),
        };
        assert(art.wf()) by {
            assert forall|kind: LogoKind|
                texts((#[trigger] art.logo(kind)).lines@) == logo_art(kind) && art.logo(
                    kind,
                ).colors@ == logo_palette(kind) by {}
        }
        art
    }

    /// The stored logo of `kind`.
    fn entry(&self, kind: LogoKind) -> (logo: &Logo)
        ensures
            texts(logo.lines@) == logo_art(kind),
            logo.colors@ == logo_palette(kind),
    {
        proof {
            use_type_invariant(self);
            assert(texts(self.logo(kind).lines@) == logo_art(kind));
        }
        match kind {
            LogoKind::MacOS => &self.macos,
            LogoKind::Ubuntu => &self.ubuntu,
            LogoKind::Arch => &self.arch,
            LogoKind::Debian => &self.debian,
            LogoKind::Fedora => &self.fedora,
            LogoKind::Linux => &self.linux,
            LogoKind::Windows => &self.windows,
        }
    }

    /// The lines of the logo of `kind`.
    pub fn lines(&self, kind: LogoKind) -> (lines: &Vec<String>)
        ensures
            texts(lines@) == logo_art(kind),
    {
        &self.entry(kind).lines
    }

    /// The colours of the logo of `kind`.
    pub fn palette(&self, kind: LogoKind) -> (colors: &Vec<Color>)
        ensures
            colors@ == logo_palette(kind),
    {
        &self.entry(kind).colors
    }

    /// The lines of the logo that stands for the operating system `os_name`.
    /// There always is one.
    pub fn get_logo(&self, os_name: &str) -> (logo: Option<&Vec<String>>)
        ensures
            logo is Some,
            texts(logo->0@) == logo_art(resolve(lowercase(os_name@))),
    {
        Some(self.lines(LogoKind::from_os_name(os_name)))
    }

    /// The colours of the logo that stands for the operating system
    /// `os_name`. There always are some.
    pub fn get_colors(&self, os_name: &str) -> (colors: Option<&Vec<Color>>)
        ensures
            colors is Some,
            colors->0@ == logo_palette(resolve(lowercase(os_name@))),
    {
        Some(self.palette(LogoKind::from_os_name(os_name)))
    }

    /// Colours the lines of `logo`, line `i` in colour `i` of the palette of
    /// `os_name`, counted round and round.
    pub fn colorize_logo(&self, os_name: &str, logo: &[String]) -> (colored_lines: Vec<String>)
        ensures
            colorized(
                texts(colored_lines@),
                texts(logo@),
                logo_palette(resolve(lowercase(os_name@))),
            ),
    {
        let default_colors = vec![Color::White];
        let colors = match self.get_colors(os_name) {
            Some(colors) => colors,
            None => &default_colors,
        };
        colorize_lines(logo, colors)
    }

    /// The width of the logo of `os_name`: the greatest number of shown
    /// characters in any of its lines.
    pub fn get_logo_width(&self, os_name: &str) -> (width: usize)
        ensures
            width == widest(logo_art(resolve(lowercase(os_name@)))),
            width <= MAX_LOGO_WIDTH,
    {
        match self.get_logo(os_name) {
            Some(logo) => {
                proof {
                    lemma_art_fits(resolve(lowercase(os_name@)));
                    lemma_widest_bounded(texts(logo@), MAX_LOGO_WIDTH as nat);
                }
                measure_width(logo)
            },
            None => 0,
        }
    }

    /// Removes every escape span from `text`.
    pub fn strip_ansi_codes(&self, text: &str) -> (out: String)
        ensures
            out@ == visible(text@),
    {
        strip_ansi_codes(text)
    }

    /// The height of the logo of `os_name`: the number of its lines.
    pub fn get_logo_height(&self, os_name: &str) -> (height: usize)
        ensures
            height == logo_art(resolve(lowercase(os_name@))).len(),
    {
        match self.get_logo(os_name) {
            Some(logo) => logo.len(),
            None => 0,
        }
    }
}

/// Colours each line in the colour that `colors` holds for it, the colours
/// taken in turn and started over when they run out.
pub fn colorize_lines(logo: &[String], colors: &Vec<Color>) -> (colored_lines: Vec<String>)
    requires
        colors.len() > 0,
    ensures
        colorized(texts(colored_lines@), texts(logo@), colors@),
{
    let mut colored_lines: Vec<String> = Vec::new();
    let mut i: usize = 0;
    while i < logo.len()
        invariant
            i <= logo.len(),
            colors.len() > 0,
            colored_lines.len() == i,
            forall|k: int|
                0 <= k < i ==> tinted(
                    #[trigger] colored_lines@[k]@,
                    logo@[k]@,
                    colors@[k % (colors.len() as int)],
                ),
        decreases logo.len() - i,
    {
        let color_index = i % colors.len();
        let color = colors[color_index];
        let line = logo[i].as_str();
        let colored_line = match color {
            Color::Black => line.to_string(),
            _ => paint(line, color),
        };
        colored_lines.push(colored_line);
        i = i + 1;
    }
    assert forall|k: int| 0 <= k < texts(logo@).len() implies tinted(
        #[trigger] texts(colored_lines@)[k],
        texts(logo@)[k],
        colors@[k % (colors.len() as int)],
    ) by {
        assert(tinted(colored_lines@[k]@, logo@[k]@, colors@[k % (colors.len() as int)]));
    }
    colored_lines
}

/// The greatest number of shown characters in any of the lines.
pub fn measure_width(lines: &Vec<String>) -> (width: usize)
    ensures
        width == widest(texts(lines@)),
{
    let mut width: usize = 0;
    let mut i: usize = 0;
    while i < lines.len()
        invariant
            i <= lines.len(),
            width == widest(texts(lines@).take(i as int)),
        decreases lines.len() - i,
    {
        let stripped = strip_ansi_codes(lines[i].as_str());
        let actual = char_count(stripped.as_str());
        proof {
            assert(texts(lines@).take(i + 1).drop_last() =~= texts(lines@).take(i as int));
        }
        if actual > width {
            width = actual;
        }
        i = i + 1;
    }
    assert(texts(lines@).take(lines.len() as int) =~= texts(lines@));
    width
}

} // verus!
