//! The lines of the banner: a heading with the user and the host, then one
//! line for each fact that was asked for and found.

use crate::info::Info;
use crate::text::{has_char, lemma_repeated_add, repeat, repeated, same_text};
use vstd::prelude::*;
use vstd::utf8::encode_utf8;

verus! {

/// How to call the program.
pub const HELP: &'static str = "
Usage: lenny-fetch [FLAG]\n
FLAGS:
\t-a\t\tView system architecture
\t-b\t\tView system board family
\t-c\t\tView system CPU
\t-d\t\tView desktop environment
\t-D\t\tView Linux Distribution
\t-h, --help\tView this help information
\t-H\t\tView current user home directory
\t-k\t\tView system kernel
\t-m\t\tView system memory
\t-n\t\tView system host name
\t-o\t\tView system OS
\t-s\t\tView user shell
\t-S\t\tView current graphics session
";

/// One of the facts that a banner can show.
#[derive(Clone, Copy, Debug, PartialEq, Eq, Structural)]
pub enum Fact {
    Distro,
    Shell,
    Desktop,
    Term,
    Session,
    Kernel,
    HostDevice,
    Uptime,
    Cpu,
    Gpu,
    Memory,
}

/// What one argument of the command line asks for.
#[derive(Clone, Copy, Debug, PartialEq, Eq, Structural)]
pub enum Request {
    /// To show a fact.
    Show(Fact),
    /// To explain the flags.
    Help,
    /// Nothing that the program knows.
    Unknown,
}

/// How a run ends.
#[derive(Debug, PartialEq, Eq)]
pub enum Outcome {
    /// With a banner of these lines, each to be shown beside the face.
    Banner(Vec<String>),
    /// Without a banner, after these messages.
    Exit(Vec<String>),
}

/// An `Outcome` as text.
pub enum OutcomeText {
    Banner(Seq<Seq<char>>),
    Exit(Seq<Seq<char>>),
}

impl DeepView for Outcome {
    type V = OutcomeText;

    open spec fn deep_view(&self) -> OutcomeText {
        match self {
            Outcome::Banner(lines) => OutcomeText::Banner(lines.deep_view()),
            Outcome::Exit(messages) => OutcomeText::Exit(messages.deep_view()),
        }
    }
}

/// What the argument `arg` asks for.
pub open spec fn request_of(arg: Seq<char>) -> Request {
    if arg == "--help"@ || arg == "-h"@ {
        Request::Help
    } else if arg == "--distro"@ || arg == "-d"@ {
        Request::Show(Fact::Distro)
    } else if arg == "--shell"@ || arg == "-s"@ {
        Request::Show(Fact::Shell)
    } else if arg == "--desktop"@ || arg == "-de"@ {
        Request::Show(Fact::Desktop)
    } else if arg == "--term"@ || arg == "-t"@ {
        Request::Show(Fact::Term)
    } else if arg == "--session"@ || arg == "-ds"@ {
        Request::Show(Fact::Session)
    } else if arg == "--kernel"@ || arg == "-k"@ {
        Request::Show(Fact::Kernel)
    } else if arg == "--host_device"@ || arg == "-hd"@ {
        Request::Show(Fact::HostDevice)
    } else if arg == "--uptime"@ || arg == "-u"@ {
        Request::Show(Fact::Uptime)
    } else if arg == "--cpu"@ || arg == "-c"@ {
        Request::Show(Fact::Cpu)
    } else if arg == "--gpu"@ || arg == "-g"@ {
        Request::Show(Fact::Gpu)
    } else if arg == "--memory"@ || arg == "-m"@ {
        Request::Show(Fact::Memory)
    } else {
        Request::Unknown
    }
}

/// Tells what the argument `arg` asks for. Whatever asks for something begins
/// with a dash.
pub fn request(arg: &str) -> (r: Request)
    ensures
        r == request_of(arg@),
        !(r is Unknown) ==> arg@.len() > 0 && arg@[0] == '-',
{
    proof {
        if !(request_of(arg@) is Unknown) {
            lemma_known_arguments_hold_dash(arg@);
        }
    }
    if same_text(arg, "--help") || same_text(arg, "-h") {
        Request::Help
    } else if same_text(arg, "--distro") || same_text(arg, "-d") {
        Request::Show(Fact::Distro)
    } else if same_text(arg, "--shell") || same_text(arg, "-s") {
        Request::Show(Fact::Shell)
    } else if same_text(arg, "--desktop") || same_text(arg, "-de") {
        Request::Show(Fact::Desktop)
    } else if same_text(arg, "--term") || same_text(arg, "-t") {
        Request::Show(Fact::Term)
    } else if same_text(arg, "--session") || same_text(arg, "-ds") {
        Request::Show(Fact::Session)
    } else if same_text(arg, "--kernel") || same_text(arg, "-k") {
        Request::Show(Fact::Kernel)
    } else if same_text(arg, "--host_device") || same_text(arg, "-hd") {
        Request::Show(Fact::HostDevice)
    } else if same_text(arg, "--uptime") || same_text(arg, "-u") {
        Request::Show(Fact::Uptime)
    } else if same_text(arg, "--cpu") || same_text(arg, "-c") {
        Request::Show(Fact::Cpu)
    } else if same_text(arg, "--gpu") || same_text(arg, "-g") {
        Request::Show(Fact::Gpu)
    } else if same_text(arg, "--memory") || same_text(arg, "-m") {
        Request::Show(Fact::Memory)
    } else {
        Request::Unknown
    }
}

/// `lines` with the line of `field` added: its label and its value, where it
/// has a value; `lines` as they are where it has none.
pub open spec fn pushed(lines: Seq<Seq<char>>, field: (Seq<char>, Option<Seq<char>>)) -> Seq<
    Seq<char>,
> {
    match field.1 {
        Some(value) => lines.push(field.0 + value),
        None => lines,
    }
}

/// Adds the line of the fact `obj` to `info`, where the fact has a value.
pub fn pusher(obj: &(String, Option<String>), info: &mut Vec<String>)
    ensures
        final(info).deep_view() == pushed(old(info).deep_view(), obj.deep_view()),
        obj.1 is None ==> *final(info) == *old(info),
{
    match &obj.1 {
        Some(val) => {
            info.push(obj.0.clone().concat(val.as_str()));
        },
        None => {},
    }
}

impl Info {
    /// The fact `f` of these.
    pub open spec fn fact(&self, f: Fact) -> (String, Option<String>) {
        match f {
            Fact::Distro => self.distro,
            Fact::Shell => self.shell,
            Fact::Desktop => self.desktop,
            Fact::Term => self.term,
            Fact::Session => self.session,
            Fact::Kernel => self.kernel,
            Fact::HostDevice => self.host_device,
            Fact::Uptime => self.uptime,
            Fact::Cpu => self.cpu,
            Fact::Gpu => self.gpu,
            Fact::Memory => self.mem,
        }
    }

    /// Hands out the fact `f`.
    pub fn get(&self, f: Fact) -> (r: &(String, Option<String>))
        ensures
            *r == self.fact(f),
    {
        match f {
            Fact::Distro => &self.distro,
            Fact::Shell => &self.shell,
            Fact::Desktop => &self.desktop,
            Fact::Term => &self.term,
            Fact::Session => &self.session,
            Fact::Kernel => &self.kernel,
            Fact::HostDevice => &self.host_device,
            Fact::Uptime => &self.uptime,
            Fact::Cpu => &self.cpu,
            Fact::Gpu => &self.gpu,
            Fact::Memory => &self.mem,
        }
    }
}

/// The facts of a banner that was asked for without arguments, in the order
/// of their lines.
pub open spec fn default_order() -> Seq<Fact> {
    seq![
        Fact::Distro,
        Fact::Shell,
        Fact::Term,
        Fact::Session,
        Fact::Kernel,
        Fact::Cpu,
        Fact::Uptime,
        Fact::Gpu,
        Fact::HostDevice,
        Fact::Memory,
    ]
}

/// Lists the facts of a banner that was asked for without arguments.
pub fn default_facts() -> (r: Vec<Fact>)
    ensures
        r@ == default_order(),
{
    let mut order: Vec<Fact> = Vec::new();
    order.push(Fact::Distro);
    order.push(Fact::Shell);
    order.push(Fact::Term);
    order.push(Fact::Session);
    order.push(Fact::Kernel);
    order.push(Fact::Cpu);
    order.push(Fact::Uptime);
    order.push(Fact::Gpu);
    order.push(Fact::HostDevice);
    order.push(Fact::Memory);
    order
}

/// `lines` followed by the lines of `facts`, in their order, each fact
/// without a value leaving no line.
pub open spec fn shown(info: Info, facts: Seq<Fact>, lines: Seq<Seq<char>>) -> Seq<Seq<char>>
    decreases facts.len(),
{
    if facts.len() == 0 {
        lines
    } else {
        pushed(shown(info, facts.drop_last(), lines), info.fact(facts.last()).deep_view())
    }
}

/// The length of `s` in bytes of UTF-8.
pub open spec fn byte_len(s: Seq<char>) -> nat {
    encode_utf8(s).len()
}

/// The top of every banner: an empty line; where the user is known, the user
/// and, where it is known too, the host; a rule of `=`, one for each byte of
/// the names and of the `@` between them; and another empty line.
pub open spec fn header(user: Option<Seq<char>>, host: Option<Seq<char>>) -> Seq<Seq<char>> {
    match user {
        Some(u) => match host {
            Some(h) => seq![
                Seq::empty(),
                u + "@"@ + h + "\t\t"@,
                repeated("="@, byte_len(u) + byte_len(h) + 1),
                Seq::empty(),
            ],
            None => seq![
                Seq::empty(),
                "\t\t"@ + u + "\t\t"@,
                repeated("="@, byte_len(u)),
                Seq::empty(),
            ],
        },
        None => seq![Seq::empty(), repeated("="@, 0), Seq::empty()],
    }
}

/// The complaint about the argument `arg`.
pub open spec fn complaint(arg: Seq<char>) -> Seq<char> {
    "'"@ + arg + "' not a valid argument"@
}

/// The messages with which the argument `arg` ends the run, if it does: the
/// usage for a call for help; a complaint about an argument that is not
/// known, after a notice where it holds no dash at all. An argument that asks
/// for a fact ends nothing.
pub open spec fn refusal(arg: Seq<char>) -> Option<Seq<Seq<char>>> {
    match request_of(arg) {
        Request::Show(_) => None,
        Request::Help => Some(seq![HELP@]),
        Request::Unknown => Some(
            if arg.contains('-') {
                seq![complaint(arg)]
            } else {
                seq!["missing arguments"@, complaint(arg)]
            },
        ),
    }
}

/// `lines` after the argument `arg` was served: with the line of the fact
/// that it asks for, where it asks for one that has a value.
pub open spec fn served(info: Info, arg: Seq<char>, lines: Seq<Seq<char>>) -> Seq<Seq<char>> {
    match request_of(arg) {
        Request::Show(f) => pushed(lines, info.fact(f).deep_view()),
        _ => lines,
    }
}

/// How serving `args` one after the other ends, starting from `lines`: at the
/// first argument that ends the run, with its messages; else with all the
/// lines.
pub open spec fn walk(info: Info, args: Seq<Seq<char>>, lines: Seq<Seq<char>>) -> OutcomeText
    decreases args.len(),
{
    if args.len() == 0 {
        OutcomeText::Banner(lines)
    } else {
        match refusal(args[0]) {
            Some(messages) => OutcomeText::Exit(messages),
            None => walk(info, args.drop_first(), served(info, args[0], lines)),
        }
    }
}

/// How a run ends. `args` is the whole command line, the program's name
/// first. With the name alone the banner shows every fact of the default
/// order; else it shows what the arguments after the name ask for. An empty
/// line closes a banner.
pub open spec fn outcome_of(
    info: Info,
    user: Option<Seq<char>>,
    host: Option<Seq<char>>,
    args: Seq<Seq<char>>,
) -> OutcomeText {
    let top = header(user, host);
    if args.len() == 1 {
        OutcomeText::Banner(shown(info, default_order(), top).push(Seq::empty()))
    } else if args.len() == 0 {
        OutcomeText::Banner(top.push(Seq::empty()))
    } else {
        match walk(info, args.drop_first(), top) {
            OutcomeText::Banner(lines) => OutcomeText::Banner(lines.push(Seq::empty())),
            OutcomeText::Exit(messages) => OutcomeText::Exit(messages),
        }
    }
}

/// Writes the top of the banner.
fn heading(user: &Option<String>, host: &Option<String>) -> (r: Vec<String>)
    ensures
        r.deep_view() == header(user.deep_view(), host.deep_view()),
{
    let mut lines: Vec<String> = Vec::new();
    lines.push(String::new());
    let mut rule: String = String::new();
    match user {
        Some(uname) => {
            rule = repeat("=", uname.as_str().as_bytes().len());
            match host {
                Some(hname) => {
                    rule.append(repeat("=", hname.as_str().as_bytes().len()).as_str());
                    rule.append("=");
                    proof {
                        lemma_repeated_add("="@, byte_len(uname@), byte_len(hname@));
                    }
                    lines.push(
                        uname.clone().concat("@").concat(hname.as_str()).concat("\t\t"),
                    );
                },
                None => {
                    lines.push(String::from_str("\t\t").concat(uname.as_str()).concat("\t\t"));
                },
            }
        },
        None => {},
    }
    lines.push(rule);
    lines.push(String::new());
    lines
}

impl Info {
    /// Serves one argument of the command line: adds the line of the fact that
    /// it asks for to `info`, or returns the messages with which the run ends.
    pub fn parse_args(&self, arg: &str, info: &mut Vec<String>) -> (r: Option<Vec<String>>)
        ensures
            r.deep_view() == refusal(arg@),
            final(info).deep_view() == served(*self, arg@, old(info).deep_view()),
            r is Some ==> *final(info) == *old(info),
    {
        match request(arg) {
            Request::Show(f) => {
                pusher(self.get(f), info);
                None
            },
            Request::Help => {
                let mut messages: Vec<String> = Vec::new();
                messages.push(String::from_str(HELP));
                Some(messages)
            },
            Request::Unknown => {
                let mut messages: Vec<String> = Vec::new();
                if !has_char(arg, '-') {
                    messages.push(String::from_str("missing arguments"));
                }
                messages.push(String::from_str("'").concat(arg).concat("' not a valid argument"));
                Some(messages)
            },
        }
    }

    /// Makes the banner for these facts, or the messages to leave with. `user`
    /// is the user's name and `host` the host's, where they could be had;
    /// `args` is the command line, the program's name first.
    pub fn run(&self, user: Option<String>, host: Option<String>, args: &Vec<String>) -> (r:
        Outcome)
        ensures
            r.deep_view() == outcome_of(
                *self,
                user.deep_view(),
                host.deep_view(),
                args.deep_view(),
            ),
    {
        let mut lines = heading(&user, &host);
        let ghost top = lines.deep_view();
        if args.len() == 1 {
            let order = default_facts();
            let mut k: usize = 0;
            while k < order.len()
                invariant
                    k <= order.len(),
                    lines.deep_view() == shown(*self, order@.take(k as int), top),
                decreases order.len() - k,
            {
                assert(order@.take(k + 1).drop_last() == order@.take(k as int));
                pusher(self.get(order[k]), &mut lines);
                k = k + 1;
            }
            assert(order@.take(k as int) == order@);
        } else if args.len() > 1 {
            let mut i: usize = 1;
            while i < args.len()
                invariant
                    1 <= i <= args.len(),
                    top == header(user.deep_view(), host.deep_view()),
                    walk(*self, args.deep_view().drop_first(), top) == walk(
                        *self,
                        args.deep_view().skip(i as int),
                        lines.deep_view(),
                    ),
                decreases args.len() - i,
            {
                assert(args.deep_view().skip(i as int).drop_first() == args.deep_view().skip(
                    i + 1,
                ));
                match self.parse_args(args[i].as_str(), &mut lines) {
                    Some(messages) => {
                        return Outcome::Exit(messages);
                    },
                    None => {},
                }
                i = i + 1;
            }
        }
        let ghost body = lines.deep_view();
        lines.push(String::new());
        assert(lines.deep_view() == body.push(Seq::empty()));
        Outcome::Banner(lines)
    }
}

/// Every argument that the program knows begins with a dash. So the notice
/// of a missing dash only ever comes before a complaint.
pub proof fn lemma_known_arguments_hold_dash(arg: Seq<char>)
    requires
        !(request_of(arg) is Unknown),
    ensures
        arg.len() > 0,
        arg[0] == '-',
{
    reveal_strlit("--help");
    reveal_strlit("-h");
    reveal_strlit("--distro");
    reveal_strlit("-d");
    reveal_strlit("--shell");
    reveal_strlit("-s");
    reveal_strlit("--desktop");
    reveal_strlit("-de");
    reveal_strlit("--term");
    reveal_strlit("-t");
    reveal_strlit("--session");
    reveal_strlit("-ds");
    reveal_strlit("--kernel");
    reveal_strlit("-k");
    reveal_strlit("--host_device");
    reveal_strlit("-hd");
    reveal_strlit("--uptime");
    reveal_strlit("-u");
    reveal_strlit("--cpu");
    reveal_strlit("-c");
    reveal_strlit("--gpu");
    reveal_strlit("-g");
    reveal_strlit("--memory");
    reveal_strlit("-m");
}

/// A fact without a value leaves no line: the lines are those that the other
/// facts alone give.
pub proof fn lemma_absent_fact_shows_nothing(
    info: Info,
    facts: Seq<Fact>,
    lines: Seq<Seq<char>>,
    i: int,
)
    requires
        0 <= i < facts.len(),
        info.fact(facts[i]).1 is None,
    ensures
        shown(info, facts, lines) == shown(info, facts.remove(i), lines),
    decreases facts.len(),
{
    if i < facts.len() - 1 {
        lemma_absent_fact_shows_nothing(info, facts.drop_last(), lines, i);
        assert(facts.remove(i).drop_last() == facts.drop_last().remove(i));
    }
}

/// An argument that asks for a fact without a value changes nothing: the run
/// ends as it does without that argument.
pub proof fn lemma_absent_fact_asked_for(
    info: Info,
    args: Seq<Seq<char>>,
    lines: Seq<Seq<char>>,
    i: int,
)
    requires
        0 <= i < args.len(),
        request_of(args[i]) matches Request::Show(f) && info.fact(f).1 is None,
    ensures
        walk(info, args, lines) == walk(info, args.remove(i), lines),
    decreases args.len(),
{
    if i > 0 {
        assert(args.remove(i).drop_first() == args.drop_first().remove(i - 1));
        if refusal(args[0]) is None {
            lemma_absent_fact_asked_for(
                info,
                args.drop_first(),
                served(info, args[0], lines),
                i - 1,
            );
        }
    }
}

/// In a banner that was asked for without arguments, a fact without a value
/// is left out entirely: the banner is the one of the other nine facts.
pub proof fn lemma_unset_fact_omitted(
    info: Info,
    user: Option<Seq<char>>,
    host: Option<Seq<char>>,
    args: Seq<Seq<char>>,
    i: int,
)
    requires
        args.len() == 1,
        0 <= i < default_order().len(),
        info.fact(default_order()[i]).1 is None,
    ensures
        outcome_of(info, user, host, args) == OutcomeText::Banner(
            shown(info, default_order().remove(i), header(user, host)).push(Seq::empty()),
        ),
{
    lemma_absent_fact_shows_nothing(info, default_order(), header(user, host), i);
}

/// Serving arguments ends at the first of them that ends the run, with the
/// messages of that one.
pub proof fn lemma_walk_first_refusal(
    info: Info,
    args: Seq<Seq<char>>,
    lines: Seq<Seq<char>>,
    k: int,
)
    requires
        0 <= k < args.len(),
        forall|j: int| 0 <= j < k ==> refusal(#[trigger] args[j]) is None,
        refusal(args[k]) is Some,
    ensures
        walk(info, args, lines) == OutcomeText::Exit(refusal(args[k]).unwrap()),
    decreases k,
{
    if k > 0 {
        lemma_walk_first_refusal(info, args.drop_first(), served(info, args[0], lines), k - 1);
    }
}

/// Serving arguments of which one ends the run gives no banner.
pub proof fn lemma_walk_refused(info: Info, args: Seq<Seq<char>>, lines: Seq<Seq<char>>, k: int)
    requires
        0 <= k < args.len(),
        refusal(args[k]) is Some,
    ensures
        walk(info, args, lines) is Exit,
    decreases k,
{
    if refusal(args[0]) is None {
        lemma_walk_refused(info, args.drop_first(), served(info, args[0], lines), k - 1);
    }
}

/// An argument that the program does not know ends the run without a banner,
/// wherever it stands after the program's name. Where only requests for facts
/// stand before it, the last message is the complaint that names it.
pub proof fn lemma_unknown_argument_refused(
    info: Info,
    user: Option<Seq<char>>,
    host: Option<Seq<char>>,
    args: Seq<Seq<char>>,
    i: int,
)
    requires
        1 <= i < args.len(),
        request_of(args[i]) is Unknown,
    ensures
        outcome_of(info, user, host, args) is Exit,
        (forall|j: int| 1 <= j < i ==> request_of(#[trigger] args[j]) is Show) ==> ({
            &&& outcome_of(info, user, host, args) matches OutcomeText::Exit(messages)
            &&& messages.len() > 0
            &&& messages.last() == complaint(args[i])
        }),
{
    lemma_walk_refused(info, args.drop_first(), header(user, host), i - 1);
    if forall|j: int| 1 <= j < i ==> request_of(#[trigger] args[j]) is Show {
        lemma_walk_first_refusal(info, args.drop_first(), header(user, host), i - 1);
    }
}

/// A call for help ends the run without a banner, wherever it stands after
/// the program's name. Where only requests for facts stand before it, the
/// usage is the one message.
pub proof fn lemma_help_shows_usage(
    info: Info,
    user: Option<Seq<char>>,
    host: Option<Seq<char>>,
    args: Seq<Seq<char>>,
    i: int,
)
    requires
        1 <= i < args.len(),
        args[i] == "--help"@ || args[i] == "-h"@,
    ensures
        outcome_of(info, user, host, args) is Exit,
        (forall|j: int| 1 <= j < i ==> request_of(#[trigger] args[j]) is Show) ==> outcome_of(
            info,
            user,
            host,
            args,
        ) == OutcomeText::Exit(seq![HELP@]),
{
    lemma_walk_refused(info, args.drop_first(), header(user, host), i - 1);
    if forall|j: int| 1 <= j < i ==> request_of(#[trigger] args[j]) is Show {
        lemma_walk_first_refusal(info, args.drop_first(), header(user, host), i - 1);
    }
}

} // verus!
