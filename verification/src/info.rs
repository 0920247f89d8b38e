//! The facts that the banner shows, and how each is read out of what the
//! system reported: the lines of a file, or the output of a command.

use crate::bytes::decode_strict;
use crate::number::{decimal, decimal_string, parse_u32, parsed_u32};
use crate::text::{pieces, split_trim, starts_with, trim, trimmed, trimmed_piece};
use vstd::prelude::*;
use vstd::utf8::{decode_utf8, valid_utf8};

verus! {

/// What was read from the system, before any of it is interpreted. A value
/// is absent where the variable was not set, the command could not be run, or
/// the file could not be read.
#[derive(Debug, Default, PartialEq, Eq)]
pub struct Sources {
    /// The value of `SHELL`.
    pub shell: Option<String>,
    /// The value of `XDG_SESSION_DESKTOP`.
    pub desktop: Option<String>,
    /// The value of `TERM`.
    pub term: Option<String>,
    /// The value of `XDG_SESSION_TYPE`.
    pub session: Option<String>,
    /// The text of what `uname -sr` wrote.
    pub kernel: Option<String>,
    /// The text of what `uptime -p` wrote.
    pub uptime: Option<String>,
    /// The bytes that remain of the listing of `lspci`: of its lines that hold
    /// `VGA`, the third of the fields that colons separate.
    pub gpu: Option<Vec<u8>>,
    /// The lines of `/etc/os-release`.
    pub os_release: Option<Vec<String>>,
    /// The lines of `/proc/cpuinfo`.
    pub cpuinfo: Option<Vec<String>>,
    /// The lines of `/proc/meminfo`.
    pub meminfo: Option<Vec<String>>,
    /// The lines of `/sys/devices/virtual/dmi/id/product_name`.
    pub product_name: Option<Vec<String>>,
}

/// The facts of the banner. Each is a label, which is always there, and a
/// value, which is there where the fact could be found.
#[derive(Debug, PartialEq, Eq)]
pub struct Info {
    pub shell: (String, Option<String>),
    pub desktop: (String, Option<String>),
    pub term: (String, Option<String>),
    pub session: (String, Option<String>),
    pub kernel: (String, Option<String>),
    pub distro: (String, Option<String>),
    pub cpu: (String, Option<String>),
    pub mem: (String, Option<String>),
    pub uptime: (String, Option<String>),
    pub gpu: (String, Option<String>),
    pub host_device: (String, Option<String>),
}

/// What `reading` finds in the lines of a file, where the file was read.
pub open spec fn found(
    lines: Option<Vec<String>>,
    reading: spec_fn(Seq<Seq<char>>) -> Option<Seq<char>>,
) -> Option<Seq<char>> {
    match lines {
        Some(l) => reading(l.deep_view()),
        None => None,
    }
}

/// Where the first line that begins with `key` stands in `lines`; the number
/// of lines where none does.
pub open spec fn first_line_with(lines: Seq<Seq<char>>, key: Seq<char>) -> int
    decreases lines.len(),
{
    if lines.len() == 0 || key.is_prefix_of(lines[0]) {
        0
    } else {
        1 + first_line_with(lines.drop_first(), key)
    }
}

/// A position with no line before it that begins with `key`, which holds such
/// a line or is the end, is the first line with `key`.
pub proof fn lemma_first_line_with(lines: Seq<Seq<char>>, key: Seq<char>, i: int)
    requires
        0 <= i <= lines.len(),
        forall|j: int| 0 <= j < i ==> !key.is_prefix_of(#[trigger] lines[j]),
        i < lines.len() ==> key.is_prefix_of(lines[i]),
    ensures
        first_line_with(lines, key) == i,
    decreases i,
{
    if i > 0 {
        lemma_first_line_with(lines.drop_first(), key, i - 1);
    }
}

/// Finds the first of `lines` that begins with `key`.
pub fn find_line(lines: &Vec<String>, key: &str) -> (r: Option<usize>)
    ensures
        match r {
            Some(i) => i < lines.len() && i == first_line_with(lines.deep_view(), key@),
            None => first_line_with(lines.deep_view(), key@) == lines.len(),
        },
{
    let mut i: usize = 0;
    while i < lines.len()
        invariant
            i <= lines.len(),
            forall|j: int| 0 <= j < i ==> !key@.is_prefix_of(#[trigger] lines.deep_view()[j]),
        decreases lines.len() - i,
    {
        if starts_with(lines[i].as_str(), key) {
            proof {
                lemma_first_line_with(lines.deep_view(), key@, i as int);
            }
            return Some(i);
        }
        i = i + 1;
    }
    proof {
        lemma_first_line_with(lines.deep_view(), key@, i as int);
    }
    None
}

/// `s` without the pair of double quotes that encloses it; `s` as it is where
/// it does not both begin and end with a double quote of its own.
pub open spec fn unquoted(s: Seq<char>) -> Seq<char> {
    if s.len() >= 2 && s[0] == '"' && s.last() == '"' {
        s.subrange(1, s.len() - 1)
    } else {
        s
    }
}

/// Only quotes are stripped: what stands between a pair of double quotes
/// comes out whole, and what does not begin with a double quote, or does not
/// end with one, stays as it is.
pub proof fn lemma_only_quotes_stripped(s: Seq<char>)
    ensures
        unquoted(seq!['"'] + s + seq!['"']) == s,
        s.len() == 0 || s[0] != '"' || s.last() != '"' ==> unquoted(s) == s,
{
    let quoted = seq!['"'] + s + seq!['"'];
    assert(quoted.subrange(1, quoted.len() - 1) == s);
}

/// Takes the enclosing pair of double quotes off `s`, where it has one.
pub fn unquote(s: &str) -> (r: String)
    ensures
        r@ == unquoted(s@),
{
    let n: usize = s.unicode_len();
    if n >= 2 && s.get_char(0) == '"' && s.get_char(n - 1) == '"' {
        String::from_str(s.substring_char(1, n - 1))
    } else {
        String::from_str(s)
    }
}

/// The name of the distribution in the lines of an os-release file: on the
/// first line that begins with `PRETTY_NAME`, what follows the first `=`, up
/// to the next one, trimmed and without the double quotes that enclose it.
/// Nothing where no line begins so, or where that line holds no `=`.
pub open spec fn distro_of(lines: Seq<Seq<char>>) -> Option<Seq<char>> {
    let i = first_line_with(lines, "PRETTY_NAME"@);
    if 0 <= i < lines.len() {
        match trimmed_piece(lines[i], '=', 1) {
            Some(value) => Some(unquoted(value)),
            None => None,
        }
    } else {
        None
    }
}

/// The processor's model in the lines of `/proc/cpuinfo`: on the first line
/// that begins with `model name`, what stands between the first `:` and the
/// next, cut off at the first `@` and trimmed.
pub open spec fn cpu_of(lines: Seq<Seq<char>>) -> Option<Seq<char>> {
    let i = first_line_with(lines, "model name"@);
    if 0 <= i < lines.len() {
        match trimmed_piece(lines[i], ':', 1) {
            Some(model) => Some(trim(pieces(model, '@')[0])),
            None => None,
        }
    } else {
        None
    }
}

/// The graphics adapter in the bytes of its listing: the text that they
/// encode, trimmed. Nothing where the bytes are not well-formed UTF-8, and
/// nothing where only white space is left.
pub open spec fn gpu_of(listing: Seq<u8>) -> Option<Seq<char>> {
    if valid_utf8(listing) && trim(decode_utf8(listing)).len() > 0 {
        Some(trim(decode_utf8(listing)))
    } else {
        None
    }
}

/// The machine's product name: the first of the lines, where there is one.
pub open spec fn host_device_of(lines: Seq<Seq<char>>) -> Option<Seq<char>> {
    if lines.len() > 0 {
        Some(lines[0])
    } else {
        None
    }
}

/// The number on a line of `/proc/meminfo`: what stands between the first `:`
/// and the next, up to its first blank, read as a `u32`.
pub open spec fn mem_value(line: Seq<char>) -> Option<u32> {
    match trimmed_piece(line, ':', 1) {
        Some(amount) => parsed_u32(trim(pieces(amount, ' ')[0])),
        None => None,
    }
}

/// The counter `name` in the lines of `/proc/meminfo`: the number on the
/// first line that begins with `name`. Nothing where no line begins so, or
/// where that line holds no number.
pub open spec fn counter_of(lines: Seq<Seq<char>>, name: Seq<char>) -> Option<u32> {
    let i = first_line_with(lines, name);
    if 0 <= i < lines.len() {
        mem_value(lines[i])
    } else {
        None
    }
}

/// A counter goes with the name on its own line, wherever that line stands:
/// where one line alone begins with `name`, the counter is the number on it.
pub proof fn lemma_counter_by_name(lines: Seq<Seq<char>>, name: Seq<char>, i: int)
    requires
        0 <= i < lines.len(),
        forall|j: int|
            0 <= j < lines.len() ==> (name.is_prefix_of(#[trigger] lines[j]) <==> j == i),
    ensures
        counter_of(lines, name) == mem_value(lines[i]),
{
    lemma_first_line_with(lines, name, i);
}

/// The memory line for the four counters, all in KiB: the memory in use, which
/// is the total less what is free, in buffers or cached, then `/`, the total,
/// both in whole MiB, and ` MiB`. Nothing where the three exceed the total.
pub open spec fn mem_usage_of(total: nat, free: nat, buffers: nat, cached: nat) -> Option<
    Seq<char>,
> {
    if free + buffers + cached <= total {
        Some(
            decimal(((total - (free + buffers + cached)) / 1024) as nat) + "/"@ + decimal(
                total / 1024,
            ) + " MiB"@,
        )
    } else {
        None
    }
}

/// The memory line for the lines of `/proc/meminfo`: the one for the counters
/// `MemTotal`, `MemFree`, `Buffers` and `Cached`, each found by its name.
/// Nothing where one of the four is missing.
pub open spec fn mem_of(lines: Seq<Seq<char>>) -> Option<Seq<char>> {
    match (
        counter_of(lines, "MemTotal"@),
        counter_of(lines, "MemFree"@),
        counter_of(lines, "Buffers"@),
        counter_of(lines, "Cached"@),
    ) {
        (Some(total), Some(free), Some(buffers), Some(cached)) => mem_usage_of(
            total as nat,
            free as nat,
            buffers as nat,
            cached as nat,
        ),
        _ => None,
    }
}

/// Reads the number on a line of `/proc/meminfo`.
fn mem_number(line: &str) -> (r: Option<u32>)
    ensures
        r == mem_value(line@),
{
    match split_trim(line, ':', 1) {
        Some(amount) => match split_trim(amount.as_str(), ' ', 0) {
            Some(digits) => parse_u32(digits.as_str()),
            None => None,
        },
        None => None,
    }
}

/// Reads the counter `name` out of the lines of `/proc/meminfo`.
pub fn counter(lines: &Vec<String>, name: &str) -> (r: Option<u32>)
    ensures
        r == counter_of(lines.deep_view(), name@),
{
    match find_line(lines, name) {
        Some(i) => mem_number(lines[i].as_str()),
        None => None,
    }
}

/// Writes the memory line for the four counters, all in KiB.
pub fn mem_usage(total: u32, free: u32, buffers: u32, cached: u32) -> (r: Option<String>)
    ensures
        r.deep_view() == mem_usage_of(total as nat, free as nat, buffers as nat, cached as nat),
{
    let unused: u64 = free as u64 + buffers as u64 + cached as u64;
    if unused <= total as u64 {
        let used: u32 = (total - unused as u32) / 1024;
        let line = decimal_string(used).concat("/").concat(
            decimal_string(total / 1024).as_str(),
        ).concat(" MiB");
        Some(line)
    } else {
        None
    }
}

impl Info {
    /// Interprets what was read from the system: every fact gets its label,
    /// and the value that its source yields.
    pub fn new(src: Sources) -> (r: Info)
        ensures
            r.distro.deep_view() == ("Distro:\t"@, found(src.os_release, |l| distro_of(l))),
            r.shell.deep_view() == ("Shell:\t"@, src.shell.deep_view()),
            r.desktop.deep_view() == ("DE/WM:\t"@, src.desktop.deep_view()),
            r.term.deep_view() == ("Terminal: "@, src.term.deep_view()),
            r.session.deep_view() == ("Session: "@, src.session.deep_view()),
            r.kernel.deep_view() == ("Kernel:\t"@, src.kernel.deep_view()),
            r.host_device.deep_view() == (
                "Host Device: "@,
                found(src.product_name, |l| host_device_of(l)),
            ),
            r.cpu.deep_view() == ("CPU:\t"@, found(src.cpuinfo, |l| cpu_of(l))),
            r.uptime.deep_view() == ("Uptime:\t"@, src.uptime.deep_view()),
            r.gpu.deep_view() == (
                "GPU:\t"@,
                match src.gpu {
                    Some(listing) => gpu_of(listing@),
                    None => None,
                },
            ),
            r.mem.deep_view() == ("Memory:\t"@, found(src.meminfo, |l| mem_of(l))),
    {
        let distro = match &src.os_release {
            Some(lines) => Self::get_distro(lines),
            None => None,
        };
        let host_device = match &src.product_name {
            Some(lines) => Self::get_host_device(lines),
            None => None,
        };
        let cpu = match &src.cpuinfo {
            Some(lines) => Self::get_cpu(lines),
            None => None,
        };
        let mem = match &src.meminfo {
            Some(lines) => Self::get_mem(lines),
            None => None,
        };
        let gpu = match src.gpu {
            Some(listing) => Self::get_gpu(listing),
            None => None,
        };
        Info {
            distro: (String::from_str("Distro:\t"), distro),
            shell: (String::from_str("Shell:\t"), src.shell),
            desktop: (String::from_str("DE/WM:\t"), src.desktop),
            term: (String::from_str("Terminal: "), src.term),
            session: (String::from_str("Session: "), src.session),
            kernel: (String::from_str("Kernel:\t"), src.kernel),
            host_device: (String::from_str("Host Device: "), host_device),
            cpu: (String::from_str("CPU:\t"), cpu),
            uptime: (String::from_str("Uptime:\t"), src.uptime),
            gpu: (String::from_str("GPU:\t"), gpu),
            mem: (String::from_str("Memory:\t"), mem),
        }
    }

    /// Reads the distribution's name out of the lines of an os-release file.
    pub fn get_distro(lines: &Vec<String>) -> (r: Option<String>)
        ensures
            r.deep_view() == distro_of(lines.deep_view()),
    {
        match find_line(lines, "PRETTY_NAME") {
            Some(i) => match split_trim(lines[i].as_str(), '=', 1) {
                Some(value) => Some(unquote(value.as_str())),
                None => None,
            },
            None => None,
        }
    }

    /// Reads the processor's model out of the lines of `/proc/cpuinfo`.
    pub fn get_cpu(lines: &Vec<String>) -> (r: Option<String>)
        ensures
            r.deep_view() == cpu_of(lines.deep_view()),
    {
        match find_line(lines, "model name") {
            Some(i) => match split_trim(lines[i].as_str(), ':', 1) {
                Some(model) => split_trim(model.as_str(), '@', 0),
                None => None,
            },
            None => None,
        }
    }

    /// Reads the product name out of the lines of the DMI file that holds it.
    pub fn get_host_device(lines: &Vec<String>) -> (r: Option<String>)
        ensures
            r.deep_view() == host_device_of(lines.deep_view()),
    {
        if lines.len() > 0 {
            Some(lines[0].clone())
        } else {
            None
        }
    }

    /// Reads the graphics adapter's name out of the bytes of its listing.
    pub fn get_gpu(listing: Vec<u8>) -> (r: Option<String>)
        ensures
            r.deep_view() == gpu_of(listing@),
    {
        match decode_strict(listing) {
            Some(decoded) => {
                let name = trimmed(decoded.as_str());
                if name.as_str().is_empty() {
                    None
                } else {
                    Some(name)
                }
            },
            None => None,
        }
    }

    /// Reads the memory line out of the lines of `/proc/meminfo`.
    pub fn get_mem(lines: &Vec<String>) -> (r: Option<String>)
        ensures
            r.deep_view() == mem_of(lines.deep_view()),
    {
        let total = counter(lines, "MemTotal");
        let free = counter(lines, "MemFree");
        let buffers = counter(lines, "Buffers");
        let cached = counter(lines, "Cached");
        match (total, free, buffers, cached) {
            (Some(total), Some(free), Some(buffers), Some(cached)) => mem_usage(
                total,
                free,
                buffers,
                cached,
            ),
            _ => None,
        }
    }
}

} // verus!
