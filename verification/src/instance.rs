//! The single-instance lock file: the running instance writes its process
//! id and a secret on two lines, and a second instance reads them back.
use vstd::prelude::*;
use crate::query::{after_char, after_char_exec, before_char, before_char_exec};
use crate::text::{
    chars_of, contains_str, decimal, decimal_string, digit_char, find_from, occurs_at, opt_view, push_char,
    spec_contains, spec_starts_with, starts_with_str, string_of, views,
};

verus! {

broadcast use vstd::string::group_string_axioms;

/// Unicode white space (`char::is_whitespace`).
pub open spec fn is_white_space(c: char) -> bool {
    let u = c as u32;
    (0x9 <= u && u <= 0xD) || u == 0x20 || u == 0x85 || u == 0xA0 || u == 0x1680 || (0x2000 <= u
        && u <= 0x200A) || u == 0x2028 || u == 0x2029 || u == 0x202F || u == 0x205F || u == 0x3000
}

/// The text without leading white space.
pub open spec fn trim_start(s: Seq<char>) -> Seq<char>
    decreases s.len(),
{
    if s.len() > 0 && is_white_space(s[0]) {
        trim_start(s.drop_first())
    } else {
        s
    }
}

/// The text without trailing white space.
pub open spec fn trim_end(s: Seq<char>) -> Seq<char>
    decreases s.len(),
{
    if s.len() > 0 && is_white_space(s.last()) {
        trim_end(s.drop_last())
    } else {
        s
    }
}

/// The text without leading or trailing white space (`str::trim`).
pub open spec fn spec_trim(s: Seq<char>) -> Seq<char> {
    trim_end(trim_start(s))
}

fn is_white_space_exec(c: char) -> (b: bool)
    ensures
        b == is_white_space(c),
{
    let u = c as u32;
    (0x9 <= u && u <= 0xD) || u == 0x20 || u == 0x85 || u == 0xA0 || u == 0x1680 || (0x2000 <= u
        && u <= 0x200A) || u == 0x2028 || u == 0x2029 || u == 0x202F || u == 0x205F || u == 0x3000
}

/// The text without leading or trailing white space.
pub fn trim(s: &str) -> (r: String)
    ensures
        r@ == spec_trim(s@),
{
    let v = chars_of(s);
    let mut a: usize = 0;
    assert(v@.skip(0) == v@);
    while a < v.len() && is_white_space_exec(v[a])
        invariant
            a <= v.len(),
            trim_start(v@) == trim_start(v@.skip(a as int)),
        decreases v.len() - a,
    {
        assert(v@.skip(a as int).drop_first() == v@.skip(a + 1));
        a += 1;
    }
    let mut b: usize = v.len();
    assert(v@.skip(a as int).take((b - a) as int) == v@.skip(a as int));
    while b > a && is_white_space_exec(v[b - 1])
        invariant
            a <= b <= v.len(),
            trim_end(trim_start(v@)) == trim_end(v@.subrange(a as int, b as int)),
        decreases b,
    {
        assert(v@.subrange(a as int, b as int).drop_last() == v@.subrange(a as int, b - 1));
        b -= 1;
    }
    proof {
        if a < v.len() {
            assert(trim_start(v@.skip(a as int)) == v@.skip(a as int));
        } else {
            assert(v@.skip(a as int).len() == 0);
        }
        assert(v@.skip(a as int) == v@.subrange(a as int, v@.len() as int));
        if b > a {
            assert(trim_end(v@.subrange(a as int, b as int)) == v@.subrange(a as int, b as int));
        }
    }
    string_of(&v[a..b])
}

/// An ASCII decimal digit.
pub open spec fn is_digit(c: char) -> bool {
    '0' <= c && c <= '9'
}

/// The value of a string of decimal digits.
pub open spec fn digits_value(d: Seq<char>) -> int
    decreases d.len(),
{
    if d.len() == 0 {
        0
    } else {
        digits_value(d.drop_last()) * 10 + (d.last() as int - '0' as int)
    }
}

/// What `u32::from_str` accepts: an optional `+`, then one or more decimal
/// digits whose value fits in 32 bits.
pub open spec fn spec_parse_u32(s: Seq<char>) -> Option<u32> {
    let d = unsigned_digits(s);
    if d.len() == 0 || !all_digits(d) || digits_value(d) > u32::MAX {
        None
    } else {
        Some(digits_value(d) as u32)
    }
}

/// The text after an optional leading `+`.
pub open spec fn unsigned_digits(s: Seq<char>) -> Seq<char> {
    if s.len() > 0 && s[0] == '+' {
        s.drop_first()
    } else {
        s
    }
}

/// Every character is a decimal digit.
pub open spec fn all_digits(d: Seq<char>) -> bool {
    forall|i: int| 0 <= i < d.len() ==> is_digit(#[trigger] d[i])
}

proof fn lemma_digits_value_nonneg(d: Seq<char>)
    requires
        forall|i: int| 0 <= i < d.len() ==> is_digit(#[trigger] d[i]),
    ensures
        digits_value(d) >= 0,
    decreases d.len(),
{
    if d.len() > 0 {
        lemma_digits_value_nonneg(d.drop_last());
        assert(is_digit(d[d.len() - 1]));
    }
}

/// A decimal number as `u32::from_str` reads it.
pub fn parse_u32(s: &str) -> (r: Option<u32>)
    ensures
        r == spec_parse_u32(s@),
{
    let v = chars_of(s);
    let mut i: usize = 0;
    if v.len() > 0 && v[0] == '+' {
        i = 1;
    }
    let ghost d = unsigned_digits(s@);
    assert(d == v@.skip(i as int));
    if i == v.len() {
        return None;
    }
    let mut value: u64 = 0;
    let start = i;
    assert(v@.subrange(start as int, start as int) == Seq::<char>::empty());
    while i < v.len()
        invariant
            v@ == s@,
            start == (if s@.len() > 0 && s@[0] == '+' { 1usize } else { 0usize }),
            d == unsigned_digits(s@),
            start <= i <= v.len(),
            d == v@.skip(start as int),
            forall|k: int| start <= k < i ==> is_digit(#[trigger] v@[k]),
            value as int == digits_value(v@.subrange(start as int, i as int)),
            value <= u32::MAX,
        decreases v.len() - i,
    {
        let c = v[i];
        if !('0' <= c && c <= '9') {
            assert(d[i - start] == c);
            assert(!is_digit(d[i - start]));
            assert(!all_digits(d));
            return None;
        }
        assert(v@.subrange(start as int, i + 1).drop_last() == v@.subrange(start as int, i as int));
        let digit = (c as u32 - '0' as u32) as u64;
        let next = value * 10 + digit;
        if next > 0xFFFF_FFFF {
            proof {
                assert(v@.subrange(start as int, i + 1) == d.take((i + 1 - start) as int));
                if all_digits(d) {
                    // the value of the remaining digits can only grow
                    lemma_digits_prefix_grows(d, (i + 1 - start) as int);
                }
            }
            return None;
        }
        value = next;
        i += 1;
    }
    assert(v@.subrange(start as int, v@.len() as int) == d);
    Some(value as u32)
}

proof fn lemma_digits_prefix_grows(d: Seq<char>, n: int)
    requires
        0 <= n <= d.len(),
        forall|i: int| 0 <= i < d.len() ==> is_digit(#[trigger] d[i]),
    ensures
        digits_value(d.take(n)) <= digits_value(d),
    decreases d.len() - n,
{
    if n < d.len() {
        lemma_digits_prefix_grows(d, n + 1);
        assert(d.take(n + 1).drop_last() == d.take(n));
        assert(d.take(n + 1).last() == d[n]);
        assert(is_digit(d[n]));
        assert forall|i: int| 0 <= i < d.take(n).len() implies is_digit(#[trigger] d.take(n)[i]) by {
            assert(d.take(n)[i] == d[i]);
        }
        lemma_digits_value_nonneg(d.take(n));
    } else {
        assert(d.take(n) == d);
    }
}

/// The first line of the lock file and the one after it (empty when there
/// is none); line breaks are `\n`, and a `\r` before one is white space
/// that trimming removes.
pub open spec fn lock_lines(contents: Seq<char>) -> (Seq<char>, Seq<char>) {
    (
        before_char(contents, '\n'),
        match after_char(contents, '\n') {
            Some(rest) => before_char(rest, '\n'),
            None => Seq::empty(),
        },
    )
}

/// What a lock file holds: the process id on the first line and a
/// non-empty secret on the second, each trimmed.
pub open spec fn spec_parse_lock_file(contents: Seq<char>) -> Option<(u32, Seq<char>)> {
    let (first, second) = lock_lines(contents);
    match spec_parse_u32(spec_trim(first)) {
        None => None,
        Some(pid) => if spec_trim(second).len() == 0 {
            None
        } else {
            Some((pid, spec_trim(second)))
        },
    }
}

/// Reads the process id and the secret of a lock file.
pub fn parse_lock_file(contents: &str) -> (r: Option<(u32, String)>)
    ensures
        match spec_parse_lock_file(contents@) {
            None => r is None,
            Some((pid, secret)) => r matches Some((p, s)) && p == pid && s@ == secret,
        },
{
    let first = before_char_exec(contents, '\n');
    let first_trimmed = trim(first.as_str());
    let pid = match parse_u32(first_trimmed.as_str()) {
        Some(p) => p,
        None => return None,
    };
    let second = match after_char_exec(contents, '\n') {
        Some(rest) => before_char_exec(rest.as_str(), '\n'),
        None => String::new(),
    };
    let secret = trim(second.as_str());
    if secret.as_str().unicode_len() == 0 {
        return None;
    }
    Some((pid, secret))
}

/// What the running instance writes to the lock file: its process id and
/// its secret, each on a line of its own.
pub open spec fn lock_file_text(pid: u32, secret: Seq<char>) -> Seq<char> {
    decimal(pid as nat) + seq!['\n'] + secret + seq!['\n']
}

/// The text of a lock file.
pub fn lock_file_contents(pid: u32, secret: &str) -> (r: String)
    ensures
        r@ == lock_file_text(pid, secret@),
{
    let mut r = decimal_string(pid as u64);
    push_char(&mut r, '\n');
    r.append(secret);
    push_char(&mut r, '\n');
    r
}

proof fn lemma_digit_char(d: nat)
    requires
        d < 10,
    ensures
        is_digit(digit_char(d)),
        digit_char(d) as int - '0' as int == d,
        !is_white_space(digit_char(d)),
        digit_char(d) != '+',
        digit_char(d) != '\n',
{
}

pub(crate) proof fn lemma_decimal_digits(n: nat)
    ensures
        decimal(n).len() > 0,
        all_digits(decimal(n)),
        digits_value(decimal(n)) == n,
        forall|i: int| 0 <= i < decimal(n).len() ==> !is_white_space(#[trigger] decimal(n)[i]) && decimal(n)[i] != '\n' && decimal(n)[i] != '+',
    decreases n,
{
    if n < 10 {
        lemma_digit_char(n);
        assert(decimal(n).drop_last() == Seq::<char>::empty());
        assert(decimal(n).last() == digit_char(n));
        assert(digits_value(decimal(n)) == digits_value(Seq::<char>::empty()) * 10 + (digit_char(n) as int - '0' as int));
        assert(digits_value(decimal(n)) == n);
    } else {
        lemma_decimal_digits(n / 10);
        lemma_digit_char(n % 10);
        let d = decimal(n);
        assert(d.drop_last() == decimal(n / 10));
        assert(d.last() == digit_char(n % 10));
        assert(n == (n / 10) * 10 + n % 10);
        assert(digits_value(d) == digits_value(decimal(n / 10)) * 10 + (digit_char(n % 10) as int - '0' as int));
        assert(digits_value(d) == n);
        assert forall|i: int| 0 <= i < d.len() implies is_digit(#[trigger] d[i]) && !is_white_space(d[i]) && d[i] != '\n' && d[i] != '+' by {
            if i < d.len() - 1 {
                assert(d[i] == decimal(n / 10)[i]);
            }
        }
    }
}

proof fn lemma_first_newline(s: Seq<char>, i: int, m: int)
    requires
        0 <= i <= m < s.len(),
        s[m] == '\n',
        forall|k: int| i <= k < m ==> s[k] != '\n',
    ensures
        find_from(s, seq!['\n'], i) == Some(m),
    decreases m - i,
{
    assert(s.subrange(i, i + 1) == seq![s[i]]);
    if i < m {
        assert(s.subrange(i, i + 1)[0] == s[i]);
        assert(seq!['\n'][0] == '\n');
        assert(!occurs_at(s, seq!['\n'], i));
        lemma_first_newline(s, i + 1, m);
    } else {
        assert(occurs_at(s, seq!['\n'], i));
    }
}

proof fn lemma_no_newline(s: Seq<char>, i: int)
    requires
        0 <= i,
        forall|k: int| i <= k < s.len() ==> s[k] != '\n',
    ensures
        find_from(s, seq!['\n'], i) is None,
    decreases s.len() + 1 - i,
{
    if i + 1 <= s.len() {
        assert(s.subrange(i, i + 1) == seq![s[i]]);
        assert(s.subrange(i, i + 1)[0] == s[i]);
        assert(seq!['\n'][0] == '\n');
        assert(!occurs_at(s, seq!['\n'], i));
        lemma_no_newline(s, i + 1);
    }
}

proof fn lemma_trim_plain(s: Seq<char>)
    requires
        s.len() > 0,
        !is_white_space(s[0]),
        !is_white_space(s.last()),
    ensures
        spec_trim(s) == s,
{
}

/// What a second instance reads from the lock file is what the running
/// instance wrote there, for any process id and any non-empty secret
/// without white space (such as the hexadecimal secret the instance draws).
pub proof fn law_lock_file_roundtrip(pid: u32, secret: Seq<char>)
    requires
        secret.len() > 0,
        forall|i: int| 0 <= i < secret.len() ==> !is_white_space(#[trigger] secret[i]),
    ensures
        spec_parse_lock_file(lock_file_text(pid, secret)) == Some((pid, secret)),
{
    let d = decimal(pid as nat);
    lemma_decimal_digits(pid as nat);
    let text = lock_file_text(pid, secret);
    let m = d.len() as int;
    assert(text[m] == '\n');
    assert forall|k: int| 0 <= k < m implies text[k] != '\n' by {
        assert(text[k] == d[k]);
    }
    lemma_first_newline(text, 0, m);
    let rest = text.skip(m + 1);
    assert(rest == secret + seq!['\n']);
    assert(text.take(m) == d);
    let n = secret.len() as int;
    assert(rest[n] == '\n');
    assert forall|k: int| 0 <= k < n implies rest[k] != '\n' by {
        assert(rest[k] == secret[k]);
        assert(!is_white_space(secret[k]));
    }
    lemma_first_newline(rest, 0, n);
    assert(rest.take(n) == secret);
    lemma_trim_plain(d);
    assert(!is_white_space(secret[0]) && !is_white_space(secret[n - 1]));
    lemma_trim_plain(secret);
    assert(unsigned_digits(d) == d);
}

/// What a second instance sends the running one over the local socket:
/// the secret from the lock file, a newline, and the URL to open.
pub open spec fn spec_ipc_payload(secret: Seq<char>, url: Seq<char>) -> Seq<char> {
    secret + seq!['\n'] + url
}

/// The message for the running instance.
pub fn ipc_payload(secret: &str, url: &str) -> (r: String)
    ensures
        r@ == spec_ipc_payload(secret@, url@),
{
    let mut r = String::new();
    r.append(secret);
    push_char(&mut r, '\n');
    r.append(url);
    r
}

/// What the running instance makes of a message.
#[derive(Debug)]
pub enum IpcMessage {
    /// No secret of its own yet: every message is ignored.
    NoSecret,
    /// No newline between secret and URL.
    Malformed,
    /// The secret is not the instance's own.
    Unauthorized,
    /// The right secret and no URL.
    Empty,
    /// A URL to open.
    Url(String),
}

/// A message as plain values.
pub enum IpcMessageView {
    NoSecret,
    Malformed,
    Unauthorized,
    Empty,
    Url(Seq<char>),
}

impl View for IpcMessage {
    type V = IpcMessageView;

    open spec fn view(&self) -> IpcMessageView {
        match self {
            IpcMessage::NoSecret => IpcMessageView::NoSecret,
            IpcMessage::Malformed => IpcMessageView::Malformed,
            IpcMessage::Unauthorized => IpcMessageView::Unauthorized,
            IpcMessage::Empty => IpcMessageView::Empty,
            IpcMessage::Url(u) => IpcMessageView::Url(u@),
        }
    }
}

/// What the running instance, whose secret is `expected`, makes of a
/// message: the parts before and after the first newline, trimmed, are the
/// secret and the URL; only the instance's own secret is accepted.
pub open spec fn spec_read_ipc(message: Seq<char>, expected: Option<Seq<char>>) -> IpcMessageView {
    match expected {
        None => IpcMessageView::NoSecret,
        Some(e) => match after_char(message, '\n') {
            None => IpcMessageView::Malformed,
            Some(rest) => {
                let secret = spec_trim(before_char(message, '\n'));
                let url = spec_trim(rest);
                if secret != e {
                    IpcMessageView::Unauthorized
                } else if url.len() == 0 {
                    IpcMessageView::Empty
                } else {
                    IpcMessageView::Url(url)
                }
            },
        },
    }
}

/// What the running instance makes of a message.
pub fn read_ipc_message(message: &str, expected: Option<&str>) -> (r: IpcMessage)
    ensures
        r@ == spec_read_ipc(message@, match expected {
            Some(e) => Some(e@),
            None => None,
        }),
{
    let e = match expected {
        Some(e) => e,
        None => return IpcMessage::NoSecret,
    };
    let rest = match after_char_exec(message, '\n') {
        Some(rest) => rest,
        None => return IpcMessage::Malformed,
    };
    let head = before_char_exec(message, '\n');
    let secret = trim(head.as_str());
    let url = trim(rest.as_str());
    if !crate::text::str_eq(secret.as_str(), e) {
        IpcMessage::Unauthorized
    } else if url.as_str().unicode_len() == 0 {
        IpcMessage::Empty
    } else {
        IpcMessage::Url(url)
    }
}

/// A URL handed over by another instance, read without a secret: trimmed,
/// none when empty.
pub fn read_plain_message(message: &str) -> (r: Option<String>)
    ensures
        match r {
            Some(u) => u@ == spec_trim(message@) && u@.len() > 0,
            None => spec_trim(message@).len() == 0,
        },
{
    let url = trim(message);
    if url.as_str().unicode_len() == 0 {
        None
    } else {
        Some(url)
    }
}

/// What the running instance reads is the URL the other one sent, when it
/// holds the same secret, the secret has no newline and no white space
/// around it, and the URL is not empty and has no white space around it.
pub proof fn law_ipc_roundtrip(secret: Seq<char>, url: Seq<char>)
    requires
        forall|i: int| 0 <= i < secret.len() ==> #[trigger] secret[i] != '\n',
        spec_trim(secret) == secret,
        spec_trim(url) == url,
        url.len() > 0,
    ensures
        spec_read_ipc(spec_ipc_payload(secret, url), Some(secret)) == IpcMessageView::Url(url),
{
    let m = spec_ipc_payload(secret, url);
    let n = secret.len() as int;
    assert(m[n] == '\n');
    assert forall|k: int| 0 <= k < n implies m[k] != '\n' by {
        assert(m[k] == secret[k]);
    }
    lemma_first_newline(m, 0, n);
    assert(m.take(n) == secret);
    assert(m.skip(n + 1) == url);
}

/// A URL another instance hands over is a sign-in callback when it names
/// the auth or OAuth path or carries a token; otherwise it is a deep link.
pub open spec fn spec_is_callback_url(url: Seq<char>) -> bool {
    spec_contains(url, "/auth"@) || spec_contains(url, "/oauth"@) || spec_contains(url, "?token="@)
        || spec_contains(url, "&token="@)
}

/// Whether a URL handed over by another instance is a sign-in callback.
pub fn is_callback_url(url: &str) -> (b: bool)
    ensures
        b == spec_is_callback_url(url@),
{
    contains_str(url, "/auth") || contains_str(url, "/oauth") || contains_str(url, "?token=")
        || contains_str(url, "&token=")
}

/// The first program argument (after the program's name) that is a
/// `plex-desktop://` link.
pub open spec fn deep_link_argument_from(args: Seq<Seq<char>>, k: int) -> Option<Seq<char>>
    decreases args.len() - k,
{
    if k < 1 || k >= args.len() {
        None
    } else if spec_starts_with(args[k], "plex-desktop://"@) {
        Some(args[k])
    } else {
        deep_link_argument_from(args, k + 1)
    }
}

/// The deep link the program was started with, if any.
pub fn deep_link_argument(args: &Vec<String>) -> (r: Option<String>)
    ensures
        opt_view(r) == deep_link_argument_from(views(args@), 1),
{
    let ghost a = views(args@);
    let mut i: usize = 1;
    while i < args.len()
        invariant
            a == views(args@),
            1 <= i,
            i <= args.len() || args.len() == 0,
            deep_link_argument_from(a, 1) == deep_link_argument_from(a, i as int),
        decreases args.len() - i,
    {
        assert(a[i as int] == args@[i as int]@);
        if starts_with_str(args[i].as_str(), "plex-desktop://") {
            return Some(args[i].clone());
        }
        i += 1;
    }
    None
}

/// What starting the program does about an instance already running.
#[derive(Debug)]
pub enum StartupAction {
    /// No other instance: start.
    Start,
    /// Hand this link to the running instance (and start after all if that fails).
    HandOver(String),
    /// Nothing to hand over: leave it to the running instance.
    Exit,
}

/// What starting the program does: start when no other instance runs, else
/// hand the link it was started with to that instance, or just exit.
pub fn startup_action(another_running: bool, deep_link: Option<String>) -> (r: StartupAction)
    ensures
        !another_running ==> r is Start,
        another_running ==> match deep_link {
            Some(u) => r matches StartupAction::HandOver(x) && x@ == u@,
            None => r is Exit,
        },
{
    if !another_running {
        return StartupAction::Start;
    }
    match deep_link {
        Some(u) => StartupAction::HandOver(u),
        None => StartupAction::Exit,
    }
}

} // verus!
