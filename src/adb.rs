use crate::entry::LogCatEntry;
use vstd::prelude::*;

verus! {

/// What went wrong while finding a device or talking to it.
#[derive(Clone, Copy, Debug, PartialEq, Eq, Structural)]
pub enum AdbErrorKind {
    /// The listing held no device row.
    NoDeviceFound,
    /// The listing held more than one device row; a device must be named.
    AmbiguousDevice,
    /// The bridge utility could not be started, or its output not read.
    SubprocessError,
    /// An injection call did not succeed.
    InjectionFailure,
    /// A line of standard input could not be read.
    StdinReadError,
}

/// An error with its kind and a message for the operator.
#[derive(Debug)]
pub struct AdbError {
    kind: AdbErrorKind,
    error_msg: String,
}

impl AdbError {
    pub closed spec fn spec_kind(&self) -> AdbErrorKind {
        self.kind
    }

    pub closed spec fn spec_message(&self) -> Seq<char> {
        self.error_msg@
    }

    pub fn new(kind: AdbErrorKind, msg: &str) -> (r: AdbError)
        ensures
            r.spec_kind() == kind,
            r.spec_message() == msg@,
    {
        AdbError { kind, error_msg: msg.to_owned() }
    }

    pub fn kind(&self) -> (r: AdbErrorKind)
        ensures
            r == self.spec_kind(),
    {
        self.kind
    }

    pub fn message(&self) -> (r: &String)
        ensures
            r@ == self.spec_message(),
    {
        &self.error_msg
    }
}

/// The characters of Unicode's White_Space property, by which the bridge
/// utility's columns are split.
pub open spec fn is_white_space(c: char) -> bool {
    let u = c as u32;
    ||| 0x09 <= u <= 0x0d
    ||| u == 0x20
    ||| u == 0x85
    ||| u == 0xa0
    ||| u == 0x1680
    ||| 0x2000 <= u <= 0x200a
    ||| u == 0x2028
    ||| u == 0x2029
    ||| u == 0x202f
    ||| u == 0x205f
    ||| u == 0x3000
}

/// Whether `c` is white space in Unicode's sense, as `char::is_whitespace`
/// and `str::split_whitespace` decide it.
pub fn white_space(c: char) -> (r: bool)
    ensures
        r == is_white_space(c),
{
    let u = c as u32;
    (0x09 <= u && u <= 0x0d) || u == 0x20 || u == 0x85 || u == 0xa0 || u == 0x1680 || (0x2000
        <= u && u <= 0x200a) || u == 0x2028 || u == 0x2029 || u == 0x202f || u == 0x205f || u
        == 0x3000
}

/// The word that a line of the device listing carries when it is the header
/// or a device row.
pub open spec fn device_marker() -> Seq<char> {
    seq!['d', 'e', 'v', 'i', 'c', 'e']
}

pub open spec fn occurs_at(line: Seq<char>, word: Seq<char>, i: int) -> bool {
    0 <= i && i + word.len() <= line.len() && line.subrange(i, i + word.len()) == word
}

/// The line holds the marker word somewhere.
pub open spec fn marks_device(line: Seq<char>) -> bool {
    exists|i: int| occurs_at(line, device_marker(), i)
}

/// The line with its leading white space removed.
pub open spec fn skip_white(line: Seq<char>) -> Seq<char>
    decreases line.len(),
{
    if line.len() > 0 && is_white_space(line[0]) {
        skip_white(line.drop_first())
    } else {
        line
    }
}

/// The characters before the first white space.
pub open spec fn leading_word(line: Seq<char>) -> Seq<char>
    decreases line.len(),
{
    if line.len() == 0 || is_white_space(line[0]) {
        seq![]
    } else {
        seq![line[0]] + leading_word(line.drop_first())
    }
}

/// The first whitespace-delimited token of a line (empty if it has none).
pub open spec fn first_token(line: Seq<char>) -> Seq<char> {
    leading_word(skip_white(line))
}

fn marker_at(line: &str, i: usize) -> (r: bool)
    requires
        i + 6 <= line@.len() <= usize::MAX,
    ensures
        r == occurs_at(line@, device_marker(), i as int),
{
    let r = line.get_char(i) == 'd' && line.get_char(i + 1) == 'e' && line.get_char(i + 2) == 'v'
        && line.get_char(i + 3) == 'i' && line.get_char(i + 4) == 'c' && line.get_char(i + 5)
        == 'e';
    proof {
        let s = line@.subrange(i as int, i + 6);
        assert(device_marker().len() == 6);
        if r {
            assert(s =~= device_marker());
        }
        if s == device_marker() {
            assert(s[0] == 'd' && s[1] == 'e' && s[2] == 'v' && s[3] == 'i' && s[4] == 'c' && s[5]
                == 'e');
        }
    }
    r
}

/// Whether the line holds the marker word.
pub fn has_device_marker(line: &str) -> (r: bool)
    ensures
        r == marks_device(line@),
{
    let n = line.unicode_len();
    assert(device_marker().len() == 6);
    let mut i: usize = 0;
    while n >= 6 && i <= n - 6
        invariant
            n == line@.len(),
            forall|j: int| 0 <= j < i ==> !occurs_at(line@, device_marker(), j),
        decreases n + 1 - i,
    {
        if marker_at(line, i) {
            return true;
        }
        i += 1;
    }
    false
}

/// The first whitespace-delimited token of the line.
pub fn first_token_of(line: &str) -> (r: String)
    ensures
        r@ == first_token(line@),
{
    let n = line.unicode_len();
    let mut a: usize = 0;
    assert(line@.subrange(0, n as int) =~= line@);
    while a < n && white_space(line.get_char(a))
        invariant
            a <= n,
            n == line@.len(),
            skip_white(line@.subrange(a as int, n as int)) == skip_white(line@),
        decreases n - a,
    {
        assert(line@.subrange(a as int, n as int).drop_first() =~= line@.subrange(
            a + 1,
            n as int,
        ));
        a += 1;
    }
    let mut b: usize = a;
    assert(line@.subrange(a as int, a as int) + line@.subrange(a as int, n as int)
        =~= line@.subrange(a as int, n as int));
    while b < n && !white_space(line.get_char(b))
        invariant
            a <= b <= n,
            n == line@.len(),
            leading_word(line@.subrange(a as int, n as int)) == line@.subrange(a as int, b as int)
                + leading_word(line@.subrange(b as int, n as int)),
        decreases n - b,
    {
        assert(line@.subrange(b as int, n as int).drop_first() =~= line@.subrange(
            b + 1,
            n as int,
        ));
        assert(line@.subrange(a as int, b + 1) =~= line@.subrange(a as int, b as int) + seq![
            line@[b as int],
        ]);
        b += 1;
    }
    assert(line@.subrange(a as int, b as int) + seq![] =~= line@.subrange(a as int, b as int));
    line.substring_char(a, b).to_owned()
}

/// The character sequences held by a list of strings.
pub open spec fn views(v: Seq<String>) -> Seq<Seq<char>> {
    v.map_values(|s: String| s@)
}

/// Some line of the list carries the marker word.
pub open spec fn seen_marker(lines: Seq<Seq<char>>) -> bool {
    exists|i: int| 0 <= i < lines.len() && marks_device(lines[i])
}

/// The device identifiers named by the lines of a device listing. The first
/// line that carries the marker word is the listing's header; every later one
/// is a device row, and its first token names a device.
pub open spec fn listed_devices(lines: Seq<Seq<char>>) -> Seq<Seq<char>>
    decreases lines.len(),
{
    if lines.len() == 0 {
        seq![]
    } else {
        let prev = lines.drop_last();
        let rest = listed_devices(prev);
        if marks_device(lines.last()) && seen_marker(prev) {
            rest.push(first_token(lines.last()))
        } else {
            rest
        }
    }
}

/// The device identifiers named by the lines of a device listing, in order.
pub fn listed_device_names(lines: &Vec<String>) -> (r: Vec<String>)
    ensures
        views(r@) == listed_devices(views(lines@)),
{
    let ghost ls = views(lines@);
    let mut out: Vec<String> = Vec::new();
    let mut seen = false;
    let mut i: usize = 0;
    assert(ls.subrange(0, 0) =~= Seq::<Seq<char>>::empty());
    assert(views(out@) =~= Seq::<Seq<char>>::empty());
    while i < lines.len()
        invariant
            i <= lines.len(),
            ls == views(lines@),
            seen == seen_marker(ls.subrange(0, i as int)),
            views(out@) == listed_devices(ls.subrange(0, i as int)),
        decreases lines.len() - i,
    {
        let line = lines[i].as_str();
        let marked = has_device_marker(line);
        let ghost prev = ls.subrange(0, i as int);
        let ghost pre = ls.subrange(0, i + 1);
        assert(pre.drop_last() =~= prev);
        assert(pre.last() == line@);
        if marked {
            if seen {
                let tok = first_token_of(line);
                let ghost before = out@;
                out.push(tok);
                assert(views(out@) =~= views(before).push(tok@));
            }
            assert(pre[i as int] == line@);
            seen = true;
        }
        proof {
            if !marked && seen_marker(pre) {
                let j = choose|j: int| 0 <= j < pre.len() && marks_device(pre[j]);
                assert(prev[j] == pre[j]);
            }
            if seen_marker(prev) {
                let j = choose|j: int| 0 <= j < prev.len() && marks_device(prev[j]);
                assert(pre[j] == prev[j]);
            }
        }
        i += 1;
    }
    assert(ls.subrange(0, lines.len() as int) =~= ls);
    out
}

/// A handle on one attached device, named by its identifier.
#[derive(Debug)]
pub struct AdbWrapper {
    device: String,
}

impl View for AdbWrapper {
    type V = Seq<char>;

    closed spec fn view(&self) -> Seq<char> {
        self.device@
    }
}

/// The bridge-utility arguments that inject one log line: the device is
/// named when it is known, then the shell's `log` command with the tag and
/// the message as literal arguments.
pub open spec fn log_command(device: Seq<char>, tag: Seq<char>, msg: Seq<char>) -> Seq<
    Seq<char>,
> {
    let inject = seq!["shell"@, "log"@, "-t"@, tag, msg];
    if device.len() == 0 {
        inject
    } else {
        seq!["-s"@, device] + inject
    }
}

impl AdbWrapper {
    /// Selects the one device that the lines of a device listing name.
    pub fn discover(lines: &Vec<String>) -> (r: Result<AdbWrapper, AdbError>)
        ensures
            r is Ok <==> listed_devices(views(lines@)).len() == 1,
            r is Ok ==> r->Ok_0@ == listed_devices(views(lines@))[0],
            r is Err && r->Err_0.spec_kind() == AdbErrorKind::NoDeviceFound <==> listed_devices(
                views(lines@),
            ).len() == 0,
            r is Err && r->Err_0.spec_kind() == AdbErrorKind::AmbiguousDevice <==> listed_devices(
                views(lines@),
            ).len() > 1,
    {
        let mut names = listed_device_names(lines);
        if names.len() < 1 {
            Err(AdbError::new(AdbErrorKind::NoDeviceFound, "No adb device found"))
        } else if names.len() > 1 {
            Err(
                AdbError::new(
                    AdbErrorKind::AmbiguousDevice,
                    "Multiple adb devices found, please explicit provide device name",
                ),
            )
        } else {
            let device = names.remove(0);
            Ok(AdbWrapper { device })
        }
    }

    /// A handle on the device the operator named; the name is not checked.
    pub fn set_device_from_matches(device_name: &str) -> (r: AdbWrapper)
        ensures
            r@ == device_name@,
    {
        AdbWrapper { device: device_name.to_owned() }
    }

    /// The device identifier, if one is set.
    pub fn device_name(&self) -> (r: Option<String>)
        ensures
            r is None <==> self@.len() == 0,
            r is Some ==> r->Some_0@ == self@,
    {
        if self.device.as_str().is_empty() {
            None
        } else {
            Some(self.device.clone())
        }
    }

    /// The arguments to hand the bridge utility to inject `entry`.
    pub fn log_command_args(&self, entry: &LogCatEntry) -> (r: Vec<String>)
        ensures
            views(r@) == log_command(self@, entry.tag(), entry.msg()),
    {
        let mut args: Vec<String> = Vec::new();
        if !self.device.as_str().is_empty() {
            args.push("-s".to_owned());
            args.push(self.device.clone());
        }
        args.push("shell".to_owned());
        args.push("log".to_owned());
        args.push("-t".to_owned());
        args.push(entry.get_log_tag().clone());
        args.push(entry.get_log_msg().clone());
        proof {
            let inject = seq!["shell"@, "log"@, "-t"@, entry.tag(), entry.msg()];
            if self@.len() == 0 {
                assert(views(args@) =~= inject);
            } else {
                assert(views(args@) =~= seq!["-s"@, self@] + inject);
            }
        }
        args
    }
}

} // verus!
