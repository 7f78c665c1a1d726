use catherine::dialog::{
    enter, label, preface, respond, tint, Engine, Inquiry, Level, Prompt, Reaction, Tint,
};
use catherine::router::Builtin;

#[test]
fn empty_command_is_noticed_and_nothing_else() {
    assert_eq!(respond(Prompt::Command, ""), (Prompt::Command, Reaction::Notice));
    assert_eq!(respond(Prompt::Command, "  \t"), (Prompt::Command, Reaction::Notice));
}

#[test]
fn builtins_that_ask_nothing_are_invoked_at_once() {
    let cases = [
        ("view_modules", Builtin::ViewModules),
        ("search_exploit", Builtin::SearchExploit),
        ("set_module", Builtin::SetModule),
        ("win_adapter_dump", Builtin::WinAdapterDump),
        ("sys_info", Builtin::SysInfo),
        ("launch", Builtin::Launch),
        ("version", Builtin::Version),
        ("install", Builtin::Install),
        ("help", Builtin::Help),
        ("h", Builtin::Help),
    ];
    for (line, builtin) in cases {
        assert_eq!(respond(Prompt::Command, line), (Prompt::Command, Reaction::Invoke(builtin)));
    }
}

#[test]
fn builtins_that_ask_open_their_prompt() {
    let cases = [
        ("start_server", Prompt::Input(Inquiry::ServerAddress)),
        ("scan_ports", Prompt::ScanEngine),
        ("set_decode", Prompt::DecodeMethod),
        ("defang", Prompt::Input(Inquiry::DefangUrl)),
        ("whois", Prompt::Input(Inquiry::WhoisUrl)),
        ("mal_query", Prompt::Input(Inquiry::MaliciousUrl)),
        ("id", Prompt::Input(Inquiry::IdentifyText)),
        ("crack_hash", Prompt::Input(Inquiry::CrackHash)),
        ("domain_gen", Prompt::Input(Inquiry::DomainName)),
        ("set_extract", Prompt::ExtractMethod),
        ("detect_lang", Prompt::Input(Inquiry::LanguageText)),
    ];
    for (line, prompt) in cases {
        assert_eq!(respond(Prompt::Command, line), (prompt, Reaction::Ask), "{}", line);
    }
}

#[test]
fn enter_agrees_with_the_command_prompt() {
    assert_eq!(enter(Builtin::Whois), (Prompt::Input(Inquiry::WhoisUrl), Reaction::Ask));
    assert_eq!(enter(Builtin::Version), (Prompt::Command, Reaction::Invoke(Builtin::Version)));
    assert_eq!(enter(Builtin::ScanPorts), (Prompt::ScanEngine, Reaction::Ask));
}

#[test]
fn exit_and_quit_end_the_dialogue() {
    assert_eq!(respond(Prompt::Command, "exit"), (Prompt::Command, Reaction::Exit));
    assert_eq!(respond(Prompt::Command, "quit"), (Prompt::Command, Reaction::Exit));
}

#[test]
fn exit_is_an_answer_like_any_other_elsewhere() {
    assert_eq!(
        respond(Prompt::Input(Inquiry::DefangUrl), "exit"),
        (Prompt::Command, Reaction::Submit(Inquiry::DefangUrl, "exit".to_string()))
    );
    assert_eq!(respond(Prompt::ScanEngine, "exit"), (Prompt::Command, Reaction::Ask));
}

#[test]
fn unknown_command_is_executed_as_pipeline() {
    assert_eq!(
        respond(Prompt::Command, " ls | grep foo \n"),
        (Prompt::Command, Reaction::Execute("ls | grep foo".to_string()))
    );
    assert_eq!(
        respond(Prompt::Command, "nonexistent_cmd_xyz"),
        (Prompt::Command, Reaction::Execute("nonexistent_cmd_xyz".to_string()))
    );
}

#[test]
fn scan_engine_is_chosen_by_number_or_name() {
    for answer in ["0", "catherine", " 0 "] {
        assert_eq!(respond(Prompt::ScanEngine, answer), (Prompt::ScanLevel(Engine::Catherine), Reaction::Ask));
    }
    for answer in ["1", "nmap", "nmap\n"] {
        assert_eq!(respond(Prompt::ScanEngine, answer), (Prompt::ScanLevel(Engine::Nmap), Reaction::Ask));
    }
    for answer in ["", "2", "Nmap", "masscan"] {
        assert_eq!(respond(Prompt::ScanEngine, answer), (Prompt::Command, Reaction::Ask));
    }
}

#[test]
fn first_scanner_scans_a_range_unless_all_is_asked() {
    let prompt = Prompt::ScanLevel(Engine::Catherine);
    assert_eq!(respond(prompt, "all"), (Prompt::Command, Reaction::Scan(Engine::Catherine, Level::All)));
    for answer in ["set", "", "quick", "ALL"] {
        assert_eq!(respond(prompt, answer), (Prompt::Command, Reaction::Scan(Engine::Catherine, Level::Range)));
    }
}

#[test]
fn second_scanner_scans_only_on_its_two_levels() {
    let prompt = Prompt::ScanLevel(Engine::Nmap);
    assert_eq!(respond(prompt, "all"), (Prompt::Command, Reaction::Scan(Engine::Nmap, Level::All)));
    assert_eq!(respond(prompt, "quick"), (Prompt::Command, Reaction::Scan(Engine::Nmap, Level::Quick)));
    for answer in ["set", "", "slow"] {
        assert_eq!(respond(prompt, answer), (Prompt::Command, Reaction::Ask));
    }
}

#[test]
fn decode_method_is_chosen_by_number_or_name() {
    for answer in ["0", "base64"] {
        assert_eq!(respond(Prompt::DecodeMethod, answer), (Prompt::Input(Inquiry::Base64Message), Reaction::Ask));
    }
    for answer in ["1", "rot13"] {
        assert_eq!(respond(Prompt::DecodeMethod, answer), (Prompt::Input(Inquiry::Rot13Message), Reaction::Ask));
    }
    for answer in ["", "2", "hex"] {
        assert_eq!(respond(Prompt::DecodeMethod, answer), (Prompt::Command, Reaction::Ask));
    }
}

#[test]
fn extract_method_is_chosen_by_number_or_name() {
    for answer in ["0", "zip"] {
        assert_eq!(respond(Prompt::ExtractMethod, answer), (Prompt::Input(Inquiry::ZipName), Reaction::Ask));
    }
    for answer in ["1", "email", "eml"] {
        assert_eq!(respond(Prompt::ExtractMethod, answer), (Prompt::Input(Inquiry::EmailFile), Reaction::Ask));
    }
    for answer in ["", "tar", "e-mail"] {
        assert_eq!(respond(Prompt::ExtractMethod, answer), (Prompt::Command, Reaction::Ask));
    }
}

#[test]
fn an_input_is_submitted_trimmed() {
    assert_eq!(
        respond(Prompt::Input(Inquiry::Base64Message), " aGVsbG8= \n"),
        (Prompt::Command, Reaction::Submit(Inquiry::Base64Message, "aGVsbG8=".to_string()))
    );
    assert_eq!(
        respond(Prompt::Input(Inquiry::ServerAddress), "127.0.0.1:1337"),
        (Prompt::Command, Reaction::Submit(Inquiry::ServerAddress, "127.0.0.1:1337".to_string()))
    );
    assert_eq!(
        respond(Prompt::Input(Inquiry::LanguageText), ""),
        (Prompt::Command, Reaction::Submit(Inquiry::LanguageText, String::new()))
    );
}

#[test]
fn a_builtin_name_is_only_an_answer_inside_a_dialogue() {
    assert_eq!(
        respond(Prompt::Input(Inquiry::IdentifyText), "help"),
        (Prompt::Command, Reaction::Submit(Inquiry::IdentifyText, "help".to_string()))
    );
}

#[test]
fn whole_scan_dialogue() {
    let (prompt, reaction) = respond(Prompt::Command, "scan_ports");
    assert_eq!(reaction, Reaction::Ask);
    let (prompt, reaction) = respond(prompt, "1");
    assert_eq!(reaction, Reaction::Ask);
    let (prompt, reaction) = respond(prompt, "quick");
    assert_eq!(reaction, Reaction::Scan(Engine::Nmap, Level::Quick));
    assert_eq!(prompt, Prompt::Command);
}

#[test]
fn labels_of_the_prompts() {
    assert_eq!(label(Prompt::Command), "None");
    assert_eq!(label(Prompt::ScanEngine), "scan_ports");
    assert_eq!(label(Prompt::ScanLevel(Engine::Catherine)), "scan_ports/set_level");
    assert_eq!(label(Prompt::ScanLevel(Engine::Nmap)), "scan_ports/set_level");
    assert_eq!(label(Prompt::DecodeMethod), "set_decode");
    assert_eq!(label(Prompt::ExtractMethod), "set_extract");
    assert_eq!(label(Prompt::Input(Inquiry::ServerAddress)), "Enter ip address & port (ex: 127.0.0.1:1337)");
    assert_eq!(label(Prompt::Input(Inquiry::Base64Message)), "set_decode/base64_input");
    assert_eq!(label(Prompt::Input(Inquiry::Rot13Message)), "set_decode/rot13_input");
    assert_eq!(label(Prompt::Input(Inquiry::DefangUrl)), "defang/url");
    assert_eq!(label(Prompt::Input(Inquiry::WhoisUrl)), "whois/url");
    assert_eq!(label(Prompt::Input(Inquiry::MaliciousUrl)), "mal_query/url");
    assert_eq!(label(Prompt::Input(Inquiry::IdentifyText)), "identify/string");
    assert_eq!(label(Prompt::Input(Inquiry::CrackHash)), "crack_hash/hash");
    assert_eq!(label(Prompt::Input(Inquiry::DomainName)), "domain_gen/domain");
    assert_eq!(label(Prompt::Input(Inquiry::ZipName)), "set_extract/zip");
    assert_eq!(label(Prompt::Input(Inquiry::EmailFile)), "set_extract/eml");
    assert_eq!(label(Prompt::Input(Inquiry::LanguageText)), "detect_lang");
}

#[test]
fn command_prompt_is_green_and_the_others_are_blue() {
    assert_eq!(tint(Prompt::Command), Tint::Green);
    for prompt in [
        Prompt::ScanEngine,
        Prompt::ScanLevel(Engine::Catherine),
        Prompt::ScanLevel(Engine::Nmap),
        Prompt::DecodeMethod,
        Prompt::ExtractMethod,
        Prompt::Input(Inquiry::ServerAddress),
        Prompt::Input(Inquiry::LanguageText),
    ] {
        assert_eq!(tint(prompt), Tint::Blue);
    }
}

#[test]
fn prompts_with_choices_show_them_first() {
    assert_eq!(
        preface(Prompt::ScanEngine),
        "\nAvailable options:\n[0] catherine (experimental)\n[1] nmap\n\n"
    );
    assert_eq!(
        preface(Prompt::ScanLevel(Engine::Catherine)),
        "\nall: Scan all 65,535 available ports\nset: Scan a set range of ports\n\n"
    );
    assert_eq!(
        preface(Prompt::ScanLevel(Engine::Nmap)),
        "\nall: Scan all 65,535 available ports\nquick: Runs a quick scan, pinging open ports\n\n"
    );
    assert_eq!(preface(Prompt::DecodeMethod), "\nAvailable options:\n[0] base64\n[1] rot13\n\n");
    assert_eq!(preface(Prompt::ExtractMethod), "\nAvailable options:\n[0] zip\n[1] email, eml\n\n");
    assert_eq!(preface(Prompt::Command), "");
    assert_eq!(preface(Prompt::Input(Inquiry::WhoisUrl)), "");
}
