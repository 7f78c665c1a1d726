//! The dialogue of the shell. Some built-ins ask for more before they can be
//! carried out: which scanner, which level, which text. The shell is at one
//! prompt at a time; a line answered there decides what is to be done and
//! which prompt comes next.

use crate::router::{
    law_blank_line_is_empty, law_name_selects_builtin, leaves, lemma_names_are_distinct, route,
    route_of, Builtin, Route, RouteView,
};
use crate::text::{is_blank, same, trim, trimmed};
use vstd::prelude::*;

verus! {

/// The port scanners.
#[derive(Clone, Copy, Debug, PartialEq, Eq, Structural)]
pub enum Engine {
    Catherine,
    Nmap,
}

/// How far a port scan goes.
#[derive(Clone, Copy, Debug, PartialEq, Eq, Structural)]
pub enum Level {
    /// All ports.
    All,
    /// A range of ports, asked for by the scanner.
    Range,
    /// A quick scan that pings open ports.
    Quick,
}

/// A text that a built-in asks for before it is carried out.
#[derive(Clone, Copy, Debug, PartialEq, Eq, Structural)]
pub enum Inquiry {
    /// The address and port that the server binds to.
    ServerAddress,
    /// A message in base64, to decode.
    Base64Message,
    /// A message in rot13, to decode.
    Rot13Message,
    /// A URL to defang.
    DefangUrl,
    /// A URL to look up with whois.
    WhoisUrl,
    /// A URL to check for malice.
    MaliciousUrl,
    /// A string to identify.
    IdentifyText,
    /// A hash to crack.
    CrackHash,
    /// A domain to generate names from.
    DomainName,
    /// A zip archive to extract.
    ZipName,
    /// An email file to parse.
    EmailFile,
    /// A text whose language is to be detected.
    LanguageText,
}

/// Where the dialogue stands: what the next line of input answers.
#[derive(Clone, Copy, Debug, PartialEq, Eq, Structural)]
pub enum Prompt {
    /// A command.
    Command,
    /// Which port scanner.
    ScanEngine,
    /// How far the scan of this scanner goes.
    ScanLevel(Engine),
    /// Which coding to decode from.
    DecodeMethod,
    /// Which kind of file to extract from.
    ExtractMethod,
    /// This text.
    Input(Inquiry),
}

/// What is to be done on a line of input.
#[derive(Debug, PartialEq, Eq)]
pub enum Reaction {
    /// Nothing but to ask again, at the next prompt.
    Ask,
    /// Tell that no command is present.
    Notice,
    /// Carry out this built-in, which asks for nothing more here.
    Invoke(Builtin),
    /// Scan ports with this scanner, this far.
    Scan(Engine, Level),
    /// Carry out the built-in that asked for this text, with the text.
    Submit(Inquiry, String),
    /// Run this line as a pipeline.
    Execute(String),
    /// Tell the time of the shutdown and leave the shell.
    Exit,
}

/// A `Reaction`, with its text as a sequence of characters.
pub enum ReactionView {
    Ask,
    Notice,
    Invoke(Builtin),
    Scan(Engine, Level),
    Submit(Inquiry, Seq<char>),
    Execute(Seq<char>),
    Exit,
}

impl View for Reaction {
    type V = ReactionView;

    open spec fn view(&self) -> ReactionView {
        match self {
            Reaction::Ask => ReactionView::Ask,
            Reaction::Notice => ReactionView::Notice,
            Reaction::Invoke(b) => ReactionView::Invoke(*b),
            Reaction::Scan(engine, level) => ReactionView::Scan(*engine, *level),
            Reaction::Submit(inquiry, text) => ReactionView::Submit(*inquiry, text@),
            Reaction::Execute(line) => ReactionView::Execute(line@),
            Reaction::Exit => ReactionView::Exit,
        }
    }
}

/// The prompt that a built-in opens with, and what is to be done at once. A
/// built-in that asks for nothing is carried out at once, and the next line
/// is a command again.
pub open spec fn entry_of(b: Builtin) -> (Prompt, ReactionView) {
    match b {
        Builtin::StartServer => (Prompt::Input(Inquiry::ServerAddress), ReactionView::Ask),
        Builtin::ScanPorts => (Prompt::ScanEngine, ReactionView::Ask),
        Builtin::SetDecode => (Prompt::DecodeMethod, ReactionView::Ask),
        Builtin::Defang => (Prompt::Input(Inquiry::DefangUrl), ReactionView::Ask),
        Builtin::Whois => (Prompt::Input(Inquiry::WhoisUrl), ReactionView::Ask),
        Builtin::MalQuery => (Prompt::Input(Inquiry::MaliciousUrl), ReactionView::Ask),
        Builtin::Id => (Prompt::Input(Inquiry::IdentifyText), ReactionView::Ask),
        Builtin::CrackHash => (Prompt::Input(Inquiry::CrackHash), ReactionView::Ask),
        Builtin::DomainGen => (Prompt::Input(Inquiry::DomainName), ReactionView::Ask),
        Builtin::SetExtract => (Prompt::ExtractMethod, ReactionView::Ask),
        Builtin::DetectLang => (Prompt::Input(Inquiry::LanguageText), ReactionView::Ask),
        Builtin::ViewModules
        | Builtin::SearchExploit
        | Builtin::SetModule
        | Builtin::WinAdapterDump
        | Builtin::SysInfo
        | Builtin::Launch
        | Builtin::Version
        | Builtin::Install
        | Builtin::Help => (Prompt::Command, ReactionView::Invoke(b)),
    }
}

/// What a line does at the command prompt.
pub open spec fn command_of(line: Seq<char>) -> (Prompt, ReactionView) {
    match route_of(line) {
        RouteView::Empty => (Prompt::Command, ReactionView::Notice),
        RouteView::Exit => (Prompt::Command, ReactionView::Exit),
        RouteView::Pipeline(text) => (Prompt::Command, ReactionView::Execute(text)),
        RouteView::Builtin(b) => entry_of(b),
    }
}

/// What the trimmed answer `word` does at the prompt for a scanner.
pub open spec fn scan_engine_of(word: Seq<char>) -> (Prompt, ReactionView) {
    if word == "0"@ || word == "catherine"@ {
        (Prompt::ScanLevel(Engine::Catherine), ReactionView::Ask)
    } else if word == "1"@ || word == "nmap"@ {
        (Prompt::ScanLevel(Engine::Nmap), ReactionView::Ask)
    } else {
        (Prompt::Command, ReactionView::Ask)
    }
}

/// What the trimmed answer `word` does at the prompt for the level of a scan.
/// The first scanner scans a range unless all ports are asked for; the
/// second scans only on one of its two levels.
pub open spec fn scan_level_of(engine: Engine, word: Seq<char>) -> (Prompt, ReactionView) {
    match engine {
        Engine::Catherine => if word == "all"@ {
            (Prompt::Command, ReactionView::Scan(Engine::Catherine, Level::All))
        } else {
            (Prompt::Command, ReactionView::Scan(Engine::Catherine, Level::Range))
        },
        Engine::Nmap => if word == "all"@ {
            (Prompt::Command, ReactionView::Scan(Engine::Nmap, Level::All))
        } else if word == "quick"@ {
            (Prompt::Command, ReactionView::Scan(Engine::Nmap, Level::Quick))
        } else {
            (Prompt::Command, ReactionView::Ask)
        },
    }
}

/// What the trimmed answer `word` does at the prompt for a coding.
pub open spec fn decode_method_of(word: Seq<char>) -> (Prompt, ReactionView) {
    if word == "0"@ || word == "base64"@ {
        (Prompt::Input(Inquiry::Base64Message), ReactionView::Ask)
    } else if word == "1"@ || word == "rot13"@ {
        (Prompt::Input(Inquiry::Rot13Message), ReactionView::Ask)
    } else {
        (Prompt::Command, ReactionView::Ask)
    }
}

/// What the trimmed answer `word` does at the prompt for a kind of file.
pub open spec fn extract_method_of(word: Seq<char>) -> (Prompt, ReactionView) {
    if word == "0"@ || word == "zip"@ {
        (Prompt::Input(Inquiry::ZipName), ReactionView::Ask)
    } else if word == "1"@ || word == "email"@ || word == "eml"@ {
        (Prompt::Input(Inquiry::EmailFile), ReactionView::Ask)
    } else {
        (Prompt::Command, ReactionView::Ask)
    }
}

/// The next prompt and what is to be done when `line` is answered at
/// `prompt`. An answer is trimmed before it is looked at or passed on.
pub open spec fn respond_of(prompt: Prompt, line: Seq<char>) -> (Prompt, ReactionView) {
    match prompt {
        Prompt::Command => command_of(line),
        Prompt::ScanEngine => scan_engine_of(trimmed(line)),
        Prompt::ScanLevel(engine) => scan_level_of(engine, trimmed(line)),
        Prompt::DecodeMethod => decode_method_of(trimmed(line)),
        Prompt::ExtractMethod => extract_method_of(trimmed(line)),
        Prompt::Input(inquiry) => (Prompt::Command, ReactionView::Submit(inquiry, trimmed(line))),
    }
}

/// The prompt that the built-in `b` opens with, and what is to be done at
/// once.
pub fn enter(b: Builtin) -> (r: (Prompt, Reaction))
    ensures
        (r.0, r.1@) == entry_of(b),
{
    match b {
        Builtin::StartServer => (Prompt::Input(Inquiry::ServerAddress), Reaction::Ask),
        Builtin::ScanPorts => (Prompt::ScanEngine, Reaction::Ask),
        Builtin::SetDecode => (Prompt::DecodeMethod, Reaction::Ask),
        Builtin::Defang => (Prompt::Input(Inquiry::DefangUrl), Reaction::Ask),
        Builtin::Whois => (Prompt::Input(Inquiry::WhoisUrl), Reaction::Ask),
        Builtin::MalQuery => (Prompt::Input(Inquiry::MaliciousUrl), Reaction::Ask),
        Builtin::Id => (Prompt::Input(Inquiry::IdentifyText), Reaction::Ask),
        Builtin::CrackHash => (Prompt::Input(Inquiry::CrackHash), Reaction::Ask),
        Builtin::DomainGen => (Prompt::Input(Inquiry::DomainName), Reaction::Ask),
        Builtin::SetExtract => (Prompt::ExtractMethod, Reaction::Ask),
        Builtin::DetectLang => (Prompt::Input(Inquiry::LanguageText), Reaction::Ask),
        Builtin::ViewModules => (Prompt::Command, Reaction::Invoke(b)),
        Builtin::SearchExploit => (Prompt::Command, Reaction::Invoke(b)),
        Builtin::SetModule => (Prompt::Command, Reaction::Invoke(b)),
        Builtin::WinAdapterDump => (Prompt::Command, Reaction::Invoke(b)),
        Builtin::SysInfo => (Prompt::Command, Reaction::Invoke(b)),
        Builtin::Launch => (Prompt::Command, Reaction::Invoke(b)),
        Builtin::Version => (Prompt::Command, Reaction::Invoke(b)),
        Builtin::Install => (Prompt::Command, Reaction::Invoke(b)),
        Builtin::Help => (Prompt::Command, Reaction::Invoke(b)),
    }
}

/// Takes the line that was answered at `prompt`: hands back the next prompt
/// and what is to be done.
pub fn respond(prompt: Prompt, line: &str) -> (r: (Prompt, Reaction))
    ensures
        (r.0, r.1@) == respond_of(prompt, line@),
{
    match prompt {
        Prompt::Command => match route(line) {
            Route::Empty => (Prompt::Command, Reaction::Notice),
            Route::Exit => (Prompt::Command, Reaction::Exit),
            Route::Pipeline(text) => (Prompt::Command, Reaction::Execute(text)),
            Route::Builtin(b) => enter(b),
        },
        Prompt::ScanEngine => {
            let word = trim(line);
            if same(word.as_str(), "0") || same(word.as_str(), "catherine") {
                (Prompt::ScanLevel(Engine::Catherine), Reaction::Ask)
            } else if same(word.as_str(), "1") || same(word.as_str(), "nmap") {
                (Prompt::ScanLevel(Engine::Nmap), Reaction::Ask)
            } else {
                (Prompt::Command, Reaction::Ask)
            }
        },
        Prompt::ScanLevel(Engine::Catherine) => {
            let word = trim(line);
            if same(word.as_str(), "all") {
                (Prompt::Command, Reaction::Scan(Engine::Catherine, Level::All))
            } else {
                (Prompt::Command, Reaction::Scan(Engine::Catherine, Level::Range))
            }
        },
        Prompt::ScanLevel(Engine::Nmap) => {
            let word = trim(line);
            if same(word.as_str(), "all") {
                (Prompt::Command, Reaction::Scan(Engine::Nmap, Level::All))
            } else if same(word.as_str(), "quick") {
                (Prompt::Command, Reaction::Scan(Engine::Nmap, Level::Quick))
            } else {
                (Prompt::Command, Reaction::Ask)
            }
        },
        Prompt::DecodeMethod => {
            let word = trim(line);
            if same(word.as_str(), "0") || same(word.as_str(), "base64") {
                (Prompt::Input(Inquiry::Base64Message), Reaction::Ask)
            } else if same(word.as_str(), "1") || same(word.as_str(), "rot13") {
                (Prompt::Input(Inquiry::Rot13Message), Reaction::Ask)
            } else {
                (Prompt::Command, Reaction::Ask)
            }
        },
        Prompt::ExtractMethod => {
            let word = trim(line);
            if same(word.as_str(), "0") || same(word.as_str(), "zip") {
                (Prompt::Input(Inquiry::ZipName), Reaction::Ask)
            } else if same(word.as_str(), "1") || same(word.as_str(), "email") || same(
                word.as_str(),
                "eml",
            ) {
                (Prompt::Input(Inquiry::EmailFile), Reaction::Ask)
            } else {
                (Prompt::Command, Reaction::Ask)
            }
        },
        Prompt::Input(inquiry) => (Prompt::Command, Reaction::Submit(inquiry, trim(line))),
    }
}

/// The colour of a label.
#[derive(Clone, Copy, Debug, PartialEq, Eq, Structural)]
pub enum Tint {
    Green,
    Blue,
}

/// The colour of the label of each prompt: green where a command is asked
/// for, blue inside the dialogue of a built-in.
pub open spec fn tint_of(prompt: Prompt) -> Tint {
    if prompt == Prompt::Command {
        Tint::Green
    } else {
        Tint::Blue
    }
}

/// The colour in which the shell shows the label of `prompt`.
pub fn tint(prompt: Prompt) -> (r: Tint)
    ensures
        r == tint_of(prompt),
{
    match prompt {
        Prompt::Command => Tint::Green,
        _ => Tint::Blue,
    }
}

/// What the shell prints before it asks at `prompt`: the choices, where the
/// prompt offers some, and nothing elsewhere.
pub open spec fn preface_of(prompt: Prompt) -> Seq<char> {
    match prompt {
        Prompt::ScanEngine => "\nAvailable options:\n[0] catherine (experimental)\n[1] nmap\n\n"@,
        Prompt::ScanLevel(Engine::Catherine) =>
            "\nall: Scan all 65,535 available ports\nset: Scan a set range of ports\n\n"@,
        Prompt::ScanLevel(Engine::Nmap) =>
            "\nall: Scan all 65,535 available ports\nquick: Runs a quick scan, pinging open ports\n\n"@,
        Prompt::DecodeMethod => "\nAvailable options:\n[0] base64\n[1] rot13\n\n"@,
        Prompt::ExtractMethod => "\nAvailable options:\n[0] zip\n[1] email, eml\n\n"@,
        Prompt::Command | Prompt::Input(_) => ""@,
    }
}

/// What the shell prints before it asks at `prompt`.
pub fn preface(prompt: Prompt) -> (r: &'static str)
    ensures
        r@ == preface_of(prompt),
{
    match prompt {
        Prompt::ScanEngine => "\nAvailable options:\n[0] catherine (experimental)\n[1] nmap\n\n",
        Prompt::ScanLevel(Engine::Catherine) =>
            "\nall: Scan all 65,535 available ports\nset: Scan a set range of ports\n\n",
        Prompt::ScanLevel(Engine::Nmap) =>
            "\nall: Scan all 65,535 available ports\nquick: Runs a quick scan, pinging open ports\n\n",
        Prompt::DecodeMethod => "\nAvailable options:\n[0] base64\n[1] rot13\n\n",
        Prompt::ExtractMethod => "\nAvailable options:\n[0] zip\n[1] email, eml\n\n",
        Prompt::Command => "",
        Prompt::Input(_) => "",
    }
}

/// The label that the shell shows at `prompt`.
pub fn label(prompt: Prompt) -> (r: &'static str)
    ensures
        r@ == label_of(prompt),
{
    match prompt {
        Prompt::Command => "None",
        Prompt::ScanEngine => "scan_ports",
        Prompt::ScanLevel(_) => "scan_ports/set_level",
        Prompt::DecodeMethod => "set_decode",
        Prompt::ExtractMethod => "set_extract",
        Prompt::Input(Inquiry::ServerAddress) => "Enter ip address & port (ex: 127.0.0.1:1337)",
        Prompt::Input(Inquiry::Base64Message) => "set_decode/base64_input",
        Prompt::Input(Inquiry::Rot13Message) => "set_decode/rot13_input",
        Prompt::Input(Inquiry::DefangUrl) => "defang/url",
        Prompt::Input(Inquiry::WhoisUrl) => "whois/url",
        Prompt::Input(Inquiry::MaliciousUrl) => "mal_query/url",
        Prompt::Input(Inquiry::IdentifyText) => "identify/string",
        Prompt::Input(Inquiry::CrackHash) => "crack_hash/hash",
        Prompt::Input(Inquiry::DomainName) => "domain_gen/domain",
        Prompt::Input(Inquiry::ZipName) => "set_extract/zip",
        Prompt::Input(Inquiry::EmailFile) => "set_extract/eml",
        Prompt::Input(Inquiry::LanguageText) => "detect_lang",
    }
}

/// The label of each prompt.
pub open spec fn label_of(prompt: Prompt) -> Seq<char> {
    match prompt {
        Prompt::Command => "None"@,
        Prompt::ScanEngine => "scan_ports"@,
        Prompt::ScanLevel(_) => "scan_ports/set_level"@,
        Prompt::DecodeMethod => "set_decode"@,
        Prompt::ExtractMethod => "set_extract"@,
        Prompt::Input(Inquiry::ServerAddress) => "Enter ip address & port (ex: 127.0.0.1:1337)"@,
        Prompt::Input(Inquiry::Base64Message) => "set_decode/base64_input"@,
        Prompt::Input(Inquiry::Rot13Message) => "set_decode/rot13_input"@,
        Prompt::Input(Inquiry::DefangUrl) => "defang/url"@,
        Prompt::Input(Inquiry::WhoisUrl) => "whois/url"@,
        Prompt::Input(Inquiry::MaliciousUrl) => "mal_query/url"@,
        Prompt::Input(Inquiry::IdentifyText) => "identify/string"@,
        Prompt::Input(Inquiry::CrackHash) => "crack_hash/hash"@,
        Prompt::Input(Inquiry::DomainName) => "domain_gen/domain"@,
        Prompt::Input(Inquiry::ZipName) => "set_extract/zip"@,
        Prompt::Input(Inquiry::EmailFile) => "set_extract/eml"@,
        Prompt::Input(Inquiry::LanguageText) => "detect_lang"@,
    }
}

/// How many answers a prompt is away, at most, from the command prompt.
pub open spec fn depth(prompt: Prompt) -> nat {
    match prompt {
        Prompt::Command => 0,
        Prompt::Input(_) => 1,
        Prompt::ScanLevel(_) => 1,
        Prompt::ScanEngine => 2,
        Prompt::DecodeMethod => 2,
        Prompt::ExtractMethod => 2,
    }
}

/// A blank line at the command prompt is told to hold no command, and that
/// is all: no built-in is carried out and no pipeline is run.
pub proof fn law_blank_command_is_noticed(line: Seq<char>)
    requires
        is_blank(line),
    ensures
        respond_of(Prompt::Command, line) == (Prompt::Command, ReactionView::Notice),
{
    law_blank_line_is_empty(line);
}

/// A line at the command prompt that is the name of a built-in enters that
/// built-in, once, and runs no pipeline: the built-in is carried out at
/// once where it asks for nothing, and asks its first question otherwise.
pub proof fn law_named_builtin_is_entered(line: Seq<char>, b: Builtin)
    requires
        b.answers_to(trimmed(line)),
    ensures
        respond_of(Prompt::Command, line) == entry_of(b),
        entry_of(b).1 == ReactionView::Invoke(b) || entry_of(b).1 == ReactionView::Ask,
        entry_of(b).1 == ReactionView::Ask <==> entry_of(b).0 != Prompt::Command,
{
    law_name_selects_builtin(line, b);
}

/// A pipeline is run only from the command prompt, and only on a line that
/// is not blank, does not end the shell and names no built-in; it is run on
/// the trimmed line.
pub proof fn law_pipeline_needs_unknown_command(prompt: Prompt, line: Seq<char>)
    requires
        respond_of(prompt, line).1 is Execute,
    ensures
        prompt == Prompt::Command,
        respond_of(prompt, line) == (Prompt::Command, ReactionView::Execute(trimmed(line))),
        trimmed(line).len() > 0,
        !leaves(trimmed(line)),
        forall|b: Builtin| !b.answers_to(trimmed(line)),
{
    assert forall|b: Builtin| !b.answers_to(trimmed(line)) by {
        if b.answers_to(trimmed(line)) {
            law_name_selects_builtin(line, b);
        }
    }
}

/// The shell is left only from the command prompt, on one of the two words
/// that end it.
pub proof fn law_exit_needs_its_word(prompt: Prompt, line: Seq<char>)
    ensures
        respond_of(prompt, line).1 is Exit <==> prompt == Prompt::Command && leaves(
            trimmed(line),
        ),
{
    lemma_names_are_distinct(Builtin::Help);
    if prompt == Prompt::Command && route_of(line) is Builtin {
        assert(entry_of(route_of(line)->Builtin_0).1 != ReactionView::Exit);
    }
}

/// Every answer outside the command prompt brings the dialogue nearer to
/// the command prompt: after two answers at most the shell takes commands
/// again, whatever was answered.
pub proof fn law_dialogue_comes_back(prompt: Prompt, line: Seq<char>)
    requires
        prompt != Prompt::Command,
    ensures
        depth(respond_of(prompt, line).0) < depth(prompt),
        depth(prompt) <= 2,
{
}

} // verus!
