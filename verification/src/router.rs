//! The command router: which built-in, if any, a line names. A line is
//! matched whole, after trimming, against a fixed table of names; a line
//! that names none is a pipeline for the operating system.

use crate::text::{
    is_blank, lemma_trimmed_blank, lemma_trimmed_empty_is_blank, same, trim, trimmed,
};
use vstd::prelude::*;

verus! {

/// The built-in operations of the shell.
#[derive(Clone, Copy, Debug, PartialEq, Eq, Structural)]
pub enum Builtin {
    StartServer,
    ViewModules,
    ScanPorts,
    SetDecode,
    SearchExploit,
    SetModule,
    WinAdapterDump,
    SysInfo,
    Defang,
    Whois,
    MalQuery,
    Id,
    CrackHash,
    DomainGen,
    SetExtract,
    DetectLang,
    Launch,
    Version,
    Install,
    Help,
}

impl Builtin {
    /// The name that selects this built-in.
    pub open spec fn name(self) -> Seq<char> {
        match self {
            Builtin::StartServer => "start_server"@,
            Builtin::ViewModules => "view_modules"@,
            Builtin::ScanPorts => "scan_ports"@,
            Builtin::SetDecode => "set_decode"@,
            Builtin::SearchExploit => "search_exploit"@,
            Builtin::SetModule => "set_module"@,
            Builtin::WinAdapterDump => "win_adapter_dump"@,
            Builtin::SysInfo => "sys_info"@,
            Builtin::Defang => "defang"@,
            Builtin::Whois => "whois"@,
            Builtin::MalQuery => "mal_query"@,
            Builtin::Id => "id"@,
            Builtin::CrackHash => "crack_hash"@,
            Builtin::DomainGen => "domain_gen"@,
            Builtin::SetExtract => "set_extract"@,
            Builtin::DetectLang => "detect_lang"@,
            Builtin::Launch => "launch"@,
            Builtin::Version => "version"@,
            Builtin::Install => "install"@,
            Builtin::Help => "help"@,
        }
    }

    /// Whether `word` selects this built-in: it is the name, or the short
    /// form `h` of `help`.
    pub open spec fn answers_to(self, word: Seq<char>) -> bool {
        word == self.name() || (self == Builtin::Help && word == "h"@)
    }
}

/// Whether `word` ends the shell.
pub open spec fn leaves(word: Seq<char>) -> bool {
    word == "exit"@ || word == "quit"@
}

/// The built-in that `word` selects, if it selects one.
pub open spec fn builtin_named(word: Seq<char>) -> Option<Builtin> {
    if word == "start_server"@ {
        Some(Builtin::StartServer)
    } else if word == "view_modules"@ {
        Some(Builtin::ViewModules)
    } else if word == "scan_ports"@ {
        Some(Builtin::ScanPorts)
    } else if word == "set_decode"@ {
        Some(Builtin::SetDecode)
    } else if word == "search_exploit"@ {
        Some(Builtin::SearchExploit)
    } else if word == "set_module"@ {
        Some(Builtin::SetModule)
    } else if word == "win_adapter_dump"@ {
        Some(Builtin::WinAdapterDump)
    } else if word == "sys_info"@ {
        Some(Builtin::SysInfo)
    } else if word == "defang"@ {
        Some(Builtin::Defang)
    } else if word == "whois"@ {
        Some(Builtin::Whois)
    } else if word == "mal_query"@ {
        Some(Builtin::MalQuery)
    } else if word == "id"@ {
        Some(Builtin::Id)
    } else if word == "crack_hash"@ {
        Some(Builtin::CrackHash)
    } else if word == "domain_gen"@ {
        Some(Builtin::DomainGen)
    } else if word == "set_extract"@ {
        Some(Builtin::SetExtract)
    } else if word == "detect_lang"@ {
        Some(Builtin::DetectLang)
    } else if word == "launch"@ {
        Some(Builtin::Launch)
    } else if word == "version"@ {
        Some(Builtin::Version)
    } else if word == "install"@ {
        Some(Builtin::Install)
    } else if word == "help"@ || word == "h"@ {
        Some(Builtin::Help)
    } else {
        None
    }
}

/// Where a line goes.
#[derive(Debug, PartialEq, Eq)]
pub enum Route {
    /// To this built-in.
    Builtin(Builtin),
    /// Out of the shell.
    Exit,
    /// Nowhere: the line holds no command.
    Empty,
    /// To the pipeline executor, as this trimmed line.
    Pipeline(String),
}

/// A `Route`, with the line as a sequence of characters.
pub enum RouteView {
    Builtin(Builtin),
    Exit,
    Empty,
    Pipeline(Seq<char>),
}

impl View for Route {
    type V = RouteView;

    open spec fn view(&self) -> RouteView {
        match self {
            Route::Builtin(b) => RouteView::Builtin(*b),
            Route::Exit => RouteView::Exit,
            Route::Empty => RouteView::Empty,
            Route::Pipeline(line) => RouteView::Pipeline(line@),
        }
    }
}

/// Where `line` goes: the trimmed line is matched whole against the names.
pub open spec fn route_of(line: Seq<char>) -> RouteView {
    let word = trimmed(line);
    if word.len() == 0 {
        RouteView::Empty
    } else if leaves(word) {
        RouteView::Exit
    } else {
        match builtin_named(word) {
            Some(b) => RouteView::Builtin(b),
            None => RouteView::Pipeline(word),
        }
    }
}

/// Looks `word` up in the table of built-in names.
pub fn lookup(word: &str) -> (r: Option<Builtin>)
    ensures
        r == builtin_named(word@),
{
    if same(word, "start_server") {
        Some(Builtin::StartServer)
    } else if same(word, "view_modules") {
        Some(Builtin::ViewModules)
    } else if same(word, "scan_ports") {
        Some(Builtin::ScanPorts)
    } else if same(word, "set_decode") {
        Some(Builtin::SetDecode)
    } else if same(word, "search_exploit") {
        Some(Builtin::SearchExploit)
    } else if same(word, "set_module") {
        Some(Builtin::SetModule)
    } else if same(word, "win_adapter_dump") {
        Some(Builtin::WinAdapterDump)
    } else if same(word, "sys_info") {
        Some(Builtin::SysInfo)
    } else if same(word, "defang") {
        Some(Builtin::Defang)
    } else if same(word, "whois") {
        Some(Builtin::Whois)
    } else if same(word, "mal_query") {
        Some(Builtin::MalQuery)
    } else if same(word, "id") {
        Some(Builtin::Id)
    } else if same(word, "crack_hash") {
        Some(Builtin::CrackHash)
    } else if same(word, "domain_gen") {
        Some(Builtin::DomainGen)
    } else if same(word, "set_extract") {
        Some(Builtin::SetExtract)
    } else if same(word, "detect_lang") {
        Some(Builtin::DetectLang)
    } else if same(word, "launch") {
        Some(Builtin::Launch)
    } else if same(word, "version") {
        Some(Builtin::Version)
    } else if same(word, "install") {
        Some(Builtin::Install)
    } else if same(word, "help") || same(word, "h") {
        Some(Builtin::Help)
    } else {
        None
    }
}

/// Routes one line of input.
pub fn route(line: &str) -> (r: Route)
    ensures
        r@ == route_of(line@),
{
    let word = trim(line);
    if word.as_str().unicode_len() == 0 {
        Route::Empty
    } else if same(word.as_str(), "exit") || same(word.as_str(), "quit") {
        Route::Exit
    } else {
        match lookup(word.as_str()) {
            Some(b) => Route::Builtin(b),
            None => Route::Pipeline(word),
        }
    }
}

/// What the names of the table hold, character by character.
proof fn reveal_names()
    ensures
        "start_server"@ =~= seq!['s', 't', 'a', 'r', 't', '_', 's', 'e', 'r', 'v', 'e', 'r'],
        "view_modules"@ =~= seq!['v', 'i', 'e', 'w', '_', 'm', 'o', 'd', 'u', 'l', 'e', 's'],
        "scan_ports"@ =~= seq!['s', 'c', 'a', 'n', '_', 'p', 'o', 'r', 't', 's'],
        "set_decode"@ =~= seq!['s', 'e', 't', '_', 'd', 'e', 'c', 'o', 'd', 'e'],
        "search_exploit"@ =~= seq![
            's',
            'e',
            'a',
            'r',
            'c',
            'h',
            '_',
            'e',
            'x',
            'p',
            'l',
            'o',
            'i',
            't',
        ],
        "set_module"@ =~= seq!['s', 'e', 't', '_', 'm', 'o', 'd', 'u', 'l', 'e'],
        "win_adapter_dump"@ =~= seq![
            'w',
            'i',
            'n',
            '_',
            'a',
            'd',
            'a',
            'p',
            't',
            'e',
            'r',
            '_',
            'd',
            'u',
            'm',
            'p',
        ],
        "sys_info"@ =~= seq!['s', 'y', 's', '_', 'i', 'n', 'f', 'o'],
        "defang"@ =~= seq!['d', 'e', 'f', 'a', 'n', 'g'],
        "whois"@ =~= seq!['w', 'h', 'o', 'i', 's'],
        "mal_query"@ =~= seq!['m', 'a', 'l', '_', 'q', 'u', 'e', 'r', 'y'],
        "id"@ =~= seq!['i', 'd'],
        "crack_hash"@ =~= seq!['c', 'r', 'a', 'c', 'k', '_', 'h', 'a', 's', 'h'],
        "domain_gen"@ =~= seq!['d', 'o', 'm', 'a', 'i', 'n', '_', 'g', 'e', 'n'],
        "set_extract"@ =~= seq!['s', 'e', 't', '_', 'e', 'x', 't', 'r', 'a', 'c', 't'],
        "detect_lang"@ =~= seq!['d', 'e', 't', 'e', 'c', 't', '_', 'l', 'a', 'n', 'g'],
        "launch"@ =~= seq!['l', 'a', 'u', 'n', 'c', 'h'],
        "version"@ =~= seq!['v', 'e', 'r', 's', 'i', 'o', 'n'],
        "install"@ =~= seq!['i', 'n', 's', 't', 'a', 'l', 'l'],
        "help"@ =~= seq!['h', 'e', 'l', 'p'],
        "h"@ =~= seq!['h'],
        "exit"@ =~= seq!['e', 'x', 'i', 't'],
        "quit"@ =~= seq!['q', 'u', 'i', 't'],
{
    reveal_strlit("start_server");
    reveal_strlit("view_modules");
    reveal_strlit("scan_ports");
    reveal_strlit("set_decode");
    reveal_strlit("search_exploit");
    reveal_strlit("set_module");
    reveal_strlit("win_adapter_dump");
    reveal_strlit("sys_info");
    reveal_strlit("defang");
    reveal_strlit("whois");
    reveal_strlit("mal_query");
    reveal_strlit("id");
    reveal_strlit("crack_hash");
    reveal_strlit("domain_gen");
    reveal_strlit("set_extract");
    reveal_strlit("detect_lang");
    reveal_strlit("launch");
    reveal_strlit("version");
    reveal_strlit("install");
    reveal_strlit("help");
    reveal_strlit("h");
    reveal_strlit("exit");
    reveal_strlit("quit");
}

/// Every name of the table selects its own built-in and no other, and none
/// of them is empty or ends the shell.
pub proof fn lemma_names_are_distinct(b: Builtin)
    ensures
        builtin_named(b.name()) == Some(b),
        builtin_named("h"@) == Some(Builtin::Help),
        b.name().len() > 0,
        !leaves(b.name()),
        !leaves("h"@),
        "h"@.len() > 0,
        forall|word: Seq<char>| leaves(word) ==> word.len() > 0 && builtin_named(word) is None,
{
    reveal_names();
}

/// A line that holds nothing but white space goes nowhere: no built-in is
/// selected and no pipeline is made of it.
pub proof fn law_blank_line_is_empty(line: Seq<char>)
    requires
        is_blank(line),
    ensures
        route_of(line) == RouteView::Empty,
{
    lemma_trimmed_blank(line);
}

/// A line that is, once trimmed, the name of a built-in or its short form
/// goes to that built-in, and so neither to the pipeline executor nor to
/// another built-in.
pub proof fn law_name_selects_builtin(line: Seq<char>, b: Builtin)
    requires
        b.answers_to(trimmed(line)),
    ensures
        route_of(line) == RouteView::Builtin(b),
{
    lemma_names_are_distinct(b);
}

/// Only its name, or its short form, selects a built-in: the match is on the
/// whole trimmed line.
pub proof fn law_builtin_needs_name(line: Seq<char>, b: Builtin)
    requires
        route_of(line) == RouteView::Builtin(b),
    ensures
        b.answers_to(trimmed(line)),
{
}

/// A line that is not blank, does not end the shell and names no built-in
/// goes to the pipeline executor, trimmed and otherwise as it is.
pub proof fn law_other_lines_are_pipelines(line: Seq<char>)
    requires
        !is_blank(line),
        !leaves(trimmed(line)),
        forall|b: Builtin| !b.answers_to(trimmed(line)),
    ensures
        route_of(line) == RouteView::Pipeline(trimmed(line)),
{
    if trimmed(line).len() == 0 {
        lemma_trimmed_empty_is_blank(line);
    }
    match builtin_named(trimmed(line)) {
        Some(b) => {
            assert(b.answers_to(trimmed(line)));
        },
        None => {},
    }
}

} // verus!
