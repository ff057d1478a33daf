//! The terminal lines shown for each event.
//!
//! The lines are returned, not written: the caller writes each line followed by a
//! newline, then flushes.

use vstd::prelude::*;

use crate::event::GbaEvent;
use crate::text::{chars_of, decimal, string_of_range, usize_to_decimal, views};

verus! {

/// Number of bytes of the UTF-8 encoding of `c`.
pub open spec fn utf8_width(c: char) -> nat {
    let u = c as u32;
    if u < 0x80 {
        1
    } else if u < 0x800 {
        2
    } else if u < 0x10000 {
        3
    } else {
        4
    }
}

/// Number of bytes of the UTF-8 encoding of `s` (what `str::len` returns).
pub open spec fn byte_len(s: Seq<char>) -> nat
    decreases s.len(),
{
    if s.len() == 0 {
        0
    } else {
        byte_len(s.drop_last()) + utf8_width(s.last())
    }
}

/// Messages longer than this many bytes are shortened when not verbose.
pub const MAX_MESSAGE_BYTES: usize = 100;

/// A shortened message keeps this many bytes before the ellipsis.
pub const KEPT_MESSAGE_BYTES: usize = 97;

/// A long message can be cut at `KEPT_MESSAGE_BYTES` bytes without splitting a
/// character (otherwise slicing it there would panic).
pub open spec fn can_shorten(msg: Seq<char>) -> bool {
    byte_len(msg) > MAX_MESSAGE_BYTES ==> exists|k: int|
        0 <= k <= msg.len() && #[trigger] byte_len(msg.take(k)) == KEPT_MESSAGE_BYTES
}

/// The line shown for an assistant message: indented; when not verbose and longer
/// than `MAX_MESSAGE_BYTES` bytes, its first `KEPT_MESSAGE_BYTES` bytes followed by `...`.
pub open spec fn assistant_line(msg: Seq<char>, verbose: bool, line: Seq<char>) -> bool {
    if verbose || byte_len(msg) <= MAX_MESSAGE_BYTES {
        line == "  "@ + msg
    } else {
        exists|k: int|
            0 <= k <= msg.len() && #[trigger] byte_len(msg.take(k)) == KEPT_MESSAGE_BYTES && line
                == "  "@ + msg.take(k) + "..."@
    }
}

/// The lines shown for an event other than an assistant message.
pub open spec fn event_lines(e: GbaEvent) -> Seq<Seq<char>> {
    match e {
        GbaEvent::AssistantMessage(msg) => seq![],
        GbaEvent::WaitingForInput => seq!["  \x1b[33mWaiting for input...\x1b[0m"@],
        GbaEvent::PhaseStarted { name, index, total } => seq![
            "\n\x1b[36m--- Phase "@ + decimal(index as nat) + "/"@ + decimal(total as nat) + ": "@
                + name@ + " ---\x1b[0m"@,
        ],
        GbaEvent::PhaseCommitted { name } => seq!["  \x1b[32m[OK] Committed: "@ + name@ + "\x1b[0m"@],
        GbaEvent::ReviewStarted => seq!["\n\x1b[35m--- Code Review ---\x1b[0m"@],
        GbaEvent::IssuesFound(issues) => seq![
            "  \x1b[33m[!] Found "@ + decimal(issues@.len()) + " issue(s):\x1b[0m"@,
        ] + views(issues@).map_values(|i: Seq<char>| "    - "@ + i),
        GbaEvent::FixingIssues => seq!["  \x1b[33m[*] Fixing issues...\x1b[0m"@],
        GbaEvent::VerificationResult { passed, details } => seq![
            "\n\x1b[34m--- Verification ---\x1b[0m"@,
            if passed {
                "  \x1b[32m[OK] Passed: "@ + details@ + "\x1b[0m"@
            } else {
                "  \x1b[31m[X] Failed: "@ + details@ + "\x1b[0m"@
            },
        ],
        GbaEvent::PrCreated { url } => seq![
            "\n\x1b[32m--- Pull Request ---\x1b[0m"@,
            "  \x1b[32m[OK] Created: "@ + url@ + "\x1b[0m"@,
        ],
        GbaEvent::Error(msg) => seq!["  \x1b[31m[X] Error: "@ + msg@ + "\x1b[0m"@],
    }
}

/// Bytes of the UTF-8 encoding of one character.
fn char_width(c: char) -> (r: usize)
    ensures
        r == utf8_width(c),
        1 <= r <= 4,
{
    let u = c as u32;
    if u < 0x80 {
        1
    } else if u < 0x800 {
        2
    } else if u < 0x10000 {
        3
    } else {
        4
    }
}

proof fn lemma_byte_len_step(s: Seq<char>, k: int)
    requires
        0 <= k < s.len(),
    ensures
        byte_len(s.take(k + 1)) == byte_len(s.take(k)) + utf8_width(s[k]),
{
    assert(s.take(k + 1).drop_last() =~= s.take(k));
}

proof fn lemma_byte_len_mono(s: Seq<char>, j: int, k: int)
    requires
        0 <= j <= k <= s.len(),
    ensures
        byte_len(s.take(j)) + (k - j) <= byte_len(s.take(k)),
    decreases k - j,
{
    if j < k {
        lemma_byte_len_mono(s, j, k - 1);
        lemma_byte_len_step(s, k - 1);
    }
}

/// Displays an assistant message, shortening it when not verbose.
pub fn display_assistant_message(msg: &str, verbose: bool) -> (r: String)
    requires
        !verbose ==> can_shorten(msg@),
    ensures
        assistant_line(msg@, verbose, r@),
{
    let mut line = String::from_str("  ");
    if verbose {
        line.append(msg);
        return line;
    }
    let v = chars_of(msg);
    let n = v.len();
    let mut bytes: usize = 0;
    let mut i: usize = 0;
    let mut cut: Option<usize> = None;
    assert(v@.take(0) =~= Seq::<char>::empty());
    while i < n && bytes <= MAX_MESSAGE_BYTES
        invariant
            n == v@.len(),
            v@ == msg@,
            i <= n,
            bytes == byte_len(v@.take(i as int)),
            bytes <= MAX_MESSAGE_BYTES + 4,
            cut matches Some(k) ==> k < i && byte_len(v@.take(k as int)) == KEPT_MESSAGE_BYTES,
            cut is None ==> forall|k: int|
                0 <= k < i ==> #[trigger] byte_len(v@.take(k)) != KEPT_MESSAGE_BYTES,
        decreases n - i,
    {
        if bytes == KEPT_MESSAGE_BYTES {
            cut = Some(i);
        }
        proof {
            lemma_byte_len_step(v@, i as int);
        }
        bytes = bytes + char_width(v[i]);
        i = i + 1;
    }
    if bytes <= MAX_MESSAGE_BYTES {
        assert(v@.take(n as int) =~= v@);
        line.append(msg);
        return line;
    }
    proof {
        lemma_byte_len_mono(v@, i as int, n as int);
        assert(v@.take(n as int) =~= v@);
    }
    match cut {
        Some(k) => {
            let kept = string_of_range(&v, 0, k);
            assert(v@.subrange(0, k as int) =~= v@.take(k as int));
            line.append(kept.as_str());
            line.append("...");
            line
        },
        None => {
            proof {
                let k = choose|k: int|
                    0 <= k <= v@.len() && #[trigger] byte_len(v@.take(k)) == KEPT_MESSAGE_BYTES;
                if k >= i {
                    lemma_byte_len_mono(v@, i as int, k);
                }
                assert(false);
            }
            line
        },
    }
}

/// The prefixed lines of the issues.
fn issue_lines(issues: &Vec<String>) -> (r: Vec<String>)
    ensures
        views(r@) == views(issues@).map_values(|i: Seq<char>| "    - "@ + i),
{
    let mut r: Vec<String> = Vec::new();
    let mut j: usize = 0;
    while j < issues.len()
        invariant
            j <= issues@.len(),
            views(r@) == views(issues@).subrange(0, j as int).map_values(
                |i: Seq<char>| "    - "@ + i,
            ),
        decreases issues@.len() - j,
    {
        let mut l = String::from_str("    - ");
        l.append(issues[j].as_str());
        let ghost old_r = r@;
        let ghost lv = l@;
        r.push(l);
        assert(views(r@) =~= views(old_r).push(lv));
        assert(views(issues@)[j as int] == issues@[j as int]@);
        j = j + 1;
        assert(views(r@) =~= views(issues@).subrange(0, j as int).map_values(
            |i: Seq<char>| "    - "@ + i,
        ));
    }
    assert(views(issues@).subrange(0, issues@.len() as int) =~= views(issues@));
    r
}

/// Wraps a single line.
fn one(l: String) -> (r: Vec<String>)
    ensures
        views(r@) == seq![l@],
{
    let r = vec![l];
    assert(views(r@) =~= seq![l@]);
    r
}

/// Wraps two lines.
fn two(a: String, b: String) -> (r: Vec<String>)
    ensures
        views(r@) == seq![a@, b@],
{
    let r = vec![a, b];
    assert(views(r@) =~= seq![a@, b@]);
    r
}

/// The lines to display for a single event.
pub fn display_event(event: &GbaEvent, verbose: bool) -> (r: Vec<String>)
    requires
        !verbose ==> (event matches GbaEvent::AssistantMessage(msg) ==> can_shorten(msg@)),
    ensures
        match event {
            GbaEvent::AssistantMessage(msg) => r@.len() == 1 && assistant_line(
                msg@,
                verbose,
                r@[0]@,
            ),
            _ => views(r@) == event_lines(*event),
        },
{
    match event {
        GbaEvent::AssistantMessage(msg) => {
            let l = display_assistant_message(msg.as_str(), verbose);
            let r = vec![l];
            r
        },
        GbaEvent::WaitingForInput => one(
            String::from_str("  \x1b[33mWaiting for input...\x1b[0m"),
        ),
        GbaEvent::PhaseStarted { name, index, total } => {
            let mut l = String::from_str("\n\x1b[36m--- Phase ");
            l.append(usize_to_decimal(*index).as_str());
            l.append("/");
            l.append(usize_to_decimal(*total).as_str());
            l.append(": ");
            l.append(name.as_str());
            l.append(" ---\x1b[0m");
            one(l)
        },
        GbaEvent::PhaseCommitted { name } => {
            let mut l = String::from_str("  \x1b[32m[OK] Committed: ");
            l.append(name.as_str());
            l.append("\x1b[0m");
            one(l)
        },
        GbaEvent::ReviewStarted => one(String::from_str("\n\x1b[35m--- Code Review ---\x1b[0m")),
        GbaEvent::IssuesFound(issues) => {
            let mut l = String::from_str("  \x1b[33m[!] Found ");
            l.append(usize_to_decimal(issues.len()).as_str());
            l.append(" issue(s):\x1b[0m");
            let mut r = one(l);
            let mut rest = issue_lines(issues);
            let ghost head = r@;
            let ghost tail = rest@;
            r.append(&mut rest);
            assert(views(r@) =~= views(head) + views(tail));
            r
        },
        GbaEvent::FixingIssues => one(String::from_str("  \x1b[33m[*] Fixing issues...\x1b[0m")),
        GbaEvent::VerificationResult { passed, details } => {
            let mut l = if *passed {
                String::from_str("  \x1b[32m[OK] Passed: ")
            } else {
                String::from_str("  \x1b[31m[X] Failed: ")
            };
            l.append(details.as_str());
            l.append("\x1b[0m");
            two(String::from_str("\n\x1b[34m--- Verification ---\x1b[0m"), l)
        },
        GbaEvent::PrCreated { url } => {
            let mut l = String::from_str("  \x1b[32m[OK] Created: ");
            l.append(url.as_str());
            l.append("\x1b[0m");
            two(String::from_str("\n\x1b[32m--- Pull Request ---\x1b[0m"), l)
        },
        GbaEvent::Error(msg) => {
            let mut l = String::from_str("  \x1b[31m[X] Error: ");
            l.append(msg.as_str());
            l.append("\x1b[0m");
            one(l)
        },
    }
}

/// A verification result is shown under the verification heading, labelled
/// "[OK] Passed" in green when it passed and "[X] Failed" in red when it did not,
/// followed by its details; the two labels differ.
pub proof fn law_verification_label(details: String)
    ensures
        event_lines(GbaEvent::VerificationResult { passed: true, details }) == seq![
            "\n\x1b[34m--- Verification ---\x1b[0m"@,
            "  \x1b[32m[OK] Passed: "@ + details@ + "\x1b[0m"@,
        ],
        event_lines(GbaEvent::VerificationResult { passed: false, details }) == seq![
            "\n\x1b[34m--- Verification ---\x1b[0m"@,
            "  \x1b[31m[X] Failed: "@ + details@ + "\x1b[0m"@,
        ],
        event_lines(GbaEvent::VerificationResult { passed: true, details }) != event_lines(
            GbaEvent::VerificationResult { passed: false, details },
        ),
{
    reveal_strlit("  \x1b[32m[OK] Passed: ");
    reveal_strlit("  \x1b[31m[X] Failed: ");
    let a = event_lines(GbaEvent::VerificationResult { passed: true, details });
    let b = event_lines(GbaEvent::VerificationResult { passed: false, details });
    assert(a[1][5] != b[1][5]);
}

} // verus!
