use lenny_fetch::banner::{default_facts, pusher, request, Fact, Outcome, Request, HELP};
use lenny_fetch::info::{Info, Sources};

fn some(text: &str) -> Option<String> {
    Some(text.to_string())
}

fn args(text: &[&str]) -> Vec<String> {
    text.iter().map(|l| l.to_string()).collect()
}

fn strings(text: &[&str]) -> Vec<String> {
    text.iter().map(|l| l.to_string()).collect()
}

fn full() -> Info {
    Info::new(Sources {
        shell: some("/bin/zsh"),
        desktop: some("sway"),
        term: some("foot"),
        session: some("wayland"),
        kernel: some("Linux 6.1.0"),
        uptime: some("up 2 hours"),
        gpu: Some(b"Some VGA adapter".to_vec()),
        os_release: Some(strings(&["PRETTY_NAME=\"Example Linux\""])),
        cpuinfo: Some(strings(&["model name\t: Fast CPU @ 3.00GHz"])),
        meminfo: Some(strings(&[
            "MemTotal: 1000 kB",
            "MemFree: 200 kB",
            "Buffers: 50 kB",
            "Cached: 50 kB",
        ])),
        product_name: Some(strings(&["ThinkPad"])),
    })
}

fn bare() -> Info {
    Info::new(Sources::default())
}

#[test]
fn pusher_adds_label_and_value() {
    let mut lines = strings(&["first"]);
    pusher(&(String::from("Shell:\t"), some("/bin/sh")), &mut lines);
    assert_eq!(lines, strings(&["first", "Shell:\t/bin/sh"]));
}

#[test]
fn pusher_adds_nothing_for_a_fact_without_a_value() {
    let mut lines = strings(&["first"]);
    pusher(&(String::from("Shell:\t"), None), &mut lines);
    assert_eq!(lines, strings(&["first"]));
}

#[test]
fn pusher_adds_a_line_for_an_empty_value() {
    let mut lines = Vec::new();
    pusher(&(String::from("Shell:\t"), some("")), &mut lines);
    assert_eq!(lines, strings(&["Shell:\t"]));
}

#[test]
fn unset_variable_leaves_no_line() {
    let info = Info::new(Sources {
        shell: None,
        term: some("foot"),
        session: None,
        ..Sources::default()
    });
    let outcome = info.run(None, None, &args(&["lenny-fetch"]));
    assert_eq!(outcome, Outcome::Banner(strings(&["", "", "", "Terminal: foot", ""])));
    let asked = info.run(None, None, &args(&["lenny-fetch", "-s", "-t", "-ds"]));
    assert_eq!(asked, Outcome::Banner(strings(&["", "", "", "Terminal: foot", ""])));
}

#[test]
fn unset_user_leaves_no_line_and_an_empty_rule() {
    let outcome = bare().run(None, some("host.example"), &args(&["lenny-fetch"]));
    assert_eq!(outcome, Outcome::Banner(strings(&["", "", "", ""])));
}

#[test]
fn banner_without_arguments_shows_the_default_facts_in_order() {
    let outcome = full().run(some("amy"), some("box"), &args(&["lenny-fetch"]));
    assert_eq!(
        outcome,
        Outcome::Banner(strings(&[
            "",
            "amy@box\t\t",
            "=======",
            "",
            "Distro:\tExample Linux",
            "Shell:\t/bin/zsh",
            "Terminal: foot",
            "Session: wayland",
            "Kernel:\tLinux 6.1.0",
            "CPU:\tFast CPU",
            "Uptime:\tup 2 hours",
            "GPU:\tSome VGA adapter",
            "Host Device: ThinkPad",
            "Memory:\t0/0 MiB",
            "",
        ]))
    );
}

#[test]
fn default_facts_leave_the_desktop_out() {
    assert_eq!(
        default_facts(),
        vec![
            Fact::Distro,
            Fact::Shell,
            Fact::Term,
            Fact::Session,
            Fact::Kernel,
            Fact::Cpu,
            Fact::Uptime,
            Fact::Gpu,
            Fact::HostDevice,
            Fact::Memory,
        ]
    );
}

#[test]
fn heading_without_a_host_sets_the_user_between_tabs() {
    let outcome = bare().run(some("amy"), None, &args(&["lenny-fetch"]));
    assert_eq!(outcome, Outcome::Banner(strings(&["", "\t\tamy\t\t", "===", "", ""])));
}

#[test]
fn rule_counts_bytes() {
    let outcome = bare().run(some("zo\u{eb}"), some("h\u{f4}te"), &args(&["lenny-fetch"]));
    assert_eq!(
        outcome,
        Outcome::Banner(strings(&["", "zo\u{eb}@h\u{f4}te\t\t", "==========", "", ""]))
    );
    let alone = bare().run(some("\u{30c4}"), None, &args(&["lenny-fetch"]));
    assert_eq!(alone, Outcome::Banner(strings(&["", "\t\t\u{30c4}\t\t", "===", "", ""])));
}

#[test]
fn empty_names_still_give_their_line() {
    let outcome = bare().run(some(""), some(""), &args(&["lenny-fetch"]));
    assert_eq!(outcome, Outcome::Banner(strings(&["", "@\t\t", "=", "", ""])));
}

#[test]
fn arguments_pick_the_facts_in_their_order() {
    let outcome = full().run(some("amy"), None, &args(&["lenny-fetch", "-k", "--desktop", "-k"]));
    assert_eq!(
        outcome,
        Outcome::Banner(strings(&[
            "",
            "\t\tamy\t\t",
            "===",
            "",
            "Kernel:\tLinux 6.1.0",
            "DE/WM:\tsway",
            "Kernel:\tLinux 6.1.0",
            "",
        ]))
    );
}

#[test]
fn every_flag_has_a_long_and_a_short_form() {
    let pairs = [
        ("--distro", "-d", Fact::Distro),
        ("--shell", "-s", Fact::Shell),
        ("--desktop", "-de", Fact::Desktop),
        ("--term", "-t", Fact::Term),
        ("--session", "-ds", Fact::Session),
        ("--kernel", "-k", Fact::Kernel),
        ("--host_device", "-hd", Fact::HostDevice),
        ("--uptime", "-u", Fact::Uptime),
        ("--cpu", "-c", Fact::Cpu),
        ("--gpu", "-g", Fact::Gpu),
        ("--memory", "-m", Fact::Memory),
    ];
    for (long, short, fact) in pairs {
        assert_eq!(request(long), Request::Show(fact));
        assert_eq!(request(short), Request::Show(fact));
    }
    assert_eq!(request("--help"), Request::Help);
    assert_eq!(request("-h"), Request::Help);
}

#[test]
fn other_arguments_are_unknown() {
    let unknown =
        ["", "-", "--", "-a", "-D", "--Distro", "distro", "--distro ", "--mem", "-H", "help"];
    for arg in unknown {
        assert_eq!(request(arg), Request::Unknown);
    }
}

#[test]
fn each_flag_shows_its_own_fact() {
    let info = full();
    let expected = [
        ("-d", "Distro:\tExample Linux"),
        ("-s", "Shell:\t/bin/zsh"),
        ("-de", "DE/WM:\tsway"),
        ("-t", "Terminal: foot"),
        ("-ds", "Session: wayland"),
        ("-k", "Kernel:\tLinux 6.1.0"),
        ("-hd", "Host Device: ThinkPad"),
        ("-u", "Uptime:\tup 2 hours"),
        ("-c", "CPU:\tFast CPU"),
        ("-g", "GPU:\tSome VGA adapter"),
        ("-m", "Memory:\t0/0 MiB"),
    ];
    for (flag, line) in expected {
        let mut lines = Vec::new();
        assert_eq!(info.parse_args(flag, &mut lines), None);
        assert_eq!(lines, strings(&[line]));
    }
}

#[test]
fn unrecognized_flag_is_named_and_no_banner_made() {
    let outcome = full().run(some("amy"), some("box"), &args(&["lenny-fetch", "--bogus"]));
    assert_eq!(outcome, Outcome::Exit(strings(&["'--bogus' not a valid argument"])));
}

#[test]
fn unrecognized_flag_after_known_ones_still_ends_the_run() {
    let outcome = full().run(None, None, &args(&["lenny-fetch", "-k", "-c", "-x", "-m"]));
    assert_eq!(outcome, Outcome::Exit(strings(&["'-x' not a valid argument"])));
}

#[test]
fn argument_without_a_dash_gets_a_notice_first() {
    let outcome = full().run(None, None, &args(&["lenny-fetch", "kernel"]));
    assert_eq!(
        outcome,
        Outcome::Exit(strings(&["missing arguments", "'kernel' not a valid argument"]))
    );
    let empty = full().run(None, None, &args(&["lenny-fetch", ""]));
    assert_eq!(empty, Outcome::Exit(strings(&["missing arguments", "'' not a valid argument"])));
}

#[test]
fn help_shows_the_usage_and_no_banner() {
    let outcome = full().run(some("amy"), some("box"), &args(&["lenny-fetch", "--help"]));
    assert_eq!(outcome, Outcome::Exit(strings(&[HELP])));
    let short = full().run(some("amy"), some("box"), &args(&["lenny-fetch", "-h"]));
    assert_eq!(short, Outcome::Exit(strings(&[HELP])));
}

#[test]
fn first_ending_argument_decides() {
    let info = full();
    let help_first = info.run(None, None, &args(&["lenny-fetch", "-k", "-h", "--bogus"]));
    assert_eq!(help_first, Outcome::Exit(strings(&[HELP])));
    let bogus_first = info.run(None, None, &args(&["lenny-fetch", "--bogus", "-h"]));
    assert_eq!(bogus_first, Outcome::Exit(strings(&["'--bogus' not a valid argument"])));
}

#[test]
fn usage_text_is_the_programs() {
    assert!(HELP.starts_with("\nUsage: lenny-fetch [FLAG]\n\nFLAGS:\n"));
    assert!(HELP.contains("\nFLAGS:\n\t-a\t\tView system architecture\n"));
    assert!(HELP.ends_with("\t-S\t\tView current graphics session\n"));
    assert!(HELP.contains("\n\t-h, --help\tView this help information\n"));
    assert_eq!(HELP.lines().count(), 17);
}

#[test]
fn parse_args_leaves_the_lines_alone_when_it_ends_the_run() {
    let info = full();
    let mut lines = strings(&["kept"]);
    assert_eq!(info.parse_args("--help", &mut lines), Some(strings(&[HELP])));
    assert_eq!(lines, strings(&["kept"]));
    assert_eq!(
        info.parse_args("-z", &mut lines),
        Some(strings(&["'-z' not a valid argument"]))
    );
    assert_eq!(lines, strings(&["kept"]));
}

#[test]
fn command_line_without_even_a_name_gives_the_heading_alone() {
    let outcome = full().run(some("amy"), None, &Vec::new());
    assert_eq!(outcome, Outcome::Banner(strings(&["", "\t\tamy\t\t", "===", "", ""])));
}

#[test]
fn program_name_is_not_an_argument() {
    let outcome = bare().run(None, None, &args(&["--help"]));
    assert_eq!(outcome, Outcome::Banner(strings(&["", "", "", ""])));
}

#[test]
fn get_hands_out_each_fact() {
    let info = full();
    assert_eq!(info.get(Fact::Desktop), &(String::from("DE/WM:\t"), some("sway")));
    assert_eq!(info.get(Fact::Memory), &(String::from("Memory:\t"), some("0/0 MiB")));
    assert_eq!(info.get(Fact::HostDevice), &(String::from("Host Device: "), some("ThinkPad")));
}
