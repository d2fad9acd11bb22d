//! Turns text echoed by a hostile peer into a line that is safe to log:
//! ANSI escape sequences are dropped, newlines kept, other control
//! characters written as `\xHH`, and the result cut to 128 characters.
use vstd::prelude::*;

use crate::text::push_char;

verus! {

/// Longest sanitised line, in characters, the ellipsis included.
pub const MAX_LOG_CHARS: usize = 128;

pub open spec fn is_control(c: char) -> bool {
    c <= '\u{1f}' || ('\u{7f}' <= c && c <= '\u{9f}')
}

/// Characters that end a CSI escape sequence.
pub open spec fn is_csi_final(c: char) -> bool {
    '@' <= c && c <= '~'
}

pub open spec fn hex_char(d: u32) -> char {
    "0123456789abcdef"@[d as int]
}

/// A control character written as `\x` and two lower-case hex digits.
pub open spec fn escaped(c: char) -> Seq<char> {
    seq!['\\', 'x', hex_char((c as u32) / 16), hex_char((c as u32) % 16)]
}

/// What one character outside an escape sequence becomes.
pub open spec fn emitted(c: char) -> Seq<char> {
    if c == '\n' {
        seq![c]
    } else if is_control(c) {
        escaped(c)
    } else {
        seq![c]
    }
}

/// Reader states: plain text, just after ESC, inside a CSI sequence.
pub open spec fn cleaned(s: Seq<char>, state: u8) -> Seq<char>
    decreases s.len(),
{
    if s.len() == 0 {
        Seq::empty()
    } else {
        let c = s[0];
        let rest = s.drop_first();
        if state == 2 {
            if is_csi_final(c) {
                cleaned(rest, 0)
            } else {
                cleaned(rest, 2)
            }
        } else if c == '\u{1b}' {
            cleaned(rest, 1)
        } else if state == 1 && c == '[' {
            cleaned(rest, 2)
        } else {
            emitted(c) + cleaned(rest, 0)
        }
    }
}

/// At most 128 characters: a longer text keeps its first 127 and ends in `…`.
pub open spec fn truncated(s: Seq<char>) -> Seq<char> {
    if s.len() <= MAX_LOG_CHARS {
        s
    } else {
        s.subrange(0, MAX_LOG_CHARS - 1) + seq!['\u{2026}']
    }
}

pub open spec fn sanitized(s: Seq<char>) -> Seq<char> {
    truncated(cleaned(s, 0))
}

/// Text with no control character but the newline.
pub open spec fn is_plain(s: Seq<char>) -> bool {
    forall|i: int| 0 <= i < s.len() ==> #[trigger] s[i] == '\n' || !is_control(s[i])
}

proof fn lemma_emitted_plain(c: char)
    ensures
        is_plain(emitted(c)),
{
    reveal_strlit("0123456789abcdef");
    if c != '\n' && is_control(c) {
        let e = escaped(c);
        assert((c as u32) / 16 < 16 && (c as u32) % 16 < 16);
        assert forall|i: int| 0 <= i < e.len() implies #[trigger] e[i] == '\n' || !is_control(
            e[i],
        ) by {
            if i >= 2 {
                let d: u32 = if i == 2 {
                    (c as u32) / 16
                } else {
                    (c as u32) % 16
                };
                assert(e[i] == "0123456789abcdef"@[d as int]);
            }
        }
    }
}

proof fn lemma_cleaned_plain(s: Seq<char>, state: u8)
    ensures
        is_plain(cleaned(s, state)),
    decreases s.len(),
{
    if s.len() > 0 {
        let c = s[0];
        let rest = s.drop_first();
        lemma_cleaned_plain(rest, 0);
        lemma_cleaned_plain(rest, 1);
        lemma_cleaned_plain(rest, 2);
        lemma_emitted_plain(c);
        let a = emitted(c);
        let b = cleaned(rest, 0);
        assert forall|i: int| 0 <= i < (a + b).len() implies #[trigger] (a + b)[i] == '\n'
            || !is_control((a + b)[i]) by {
            if i < a.len() {
                assert((a + b)[i] == a[i]);
            } else {
                assert((a + b)[i] == b[i - a.len()]);
            }
        }
    }
}

proof fn lemma_plain_cleaned_unchanged(s: Seq<char>)
    requires
        is_plain(s),
    ensures
        cleaned(s, 0) == s,
    decreases s.len(),
{
    if s.len() > 0 {
        let rest = s.drop_first();
        assert(is_plain(rest)) by {
            assert forall|i: int| 0 <= i < rest.len() implies #[trigger] rest[i] == '\n'
                || !is_control(rest[i]) by {
                assert(rest[i] == s[i + 1]);
            }
        }
        lemma_plain_cleaned_unchanged(rest);
        assert(s[0] == '\n' || !is_control(s[0]));
        assert(seq![s[0]] + rest =~= s);
    }
}

/// Sanitising an already sanitised line changes nothing.
pub proof fn lemma_sanitize_idempotent(s: Seq<char>)
    ensures
        sanitized(sanitized(s)) == sanitized(s),
{
    let c = cleaned(s, 0);
    lemma_cleaned_plain(s, 0);
    let t = truncated(c);
    assert(is_plain(t)) by {
        if c.len() > MAX_LOG_CHARS {
            assert forall|i: int| 0 <= i < t.len() implies #[trigger] t[i] == '\n' || !is_control(
                t[i],
            ) by {
                if i < MAX_LOG_CHARS - 1 {
                    assert(t[i] == c[i]);
                }
            }
        }
    }
    lemma_plain_cleaned_unchanged(t);
}

fn hex_digit_char(d: u32) -> (r: char)
    requires
        d < 16,
    ensures
        r == hex_char(d),
{
    proof {
        reveal_strlit("0123456789abcdef");
    }
    "0123456789abcdef".get_char(d as usize)
}

fn push_emitted(out: &mut String, c: char)
    ensures
        final(out)@ == old(out)@ + emitted(c),
{
    if c != '\n' && (c <= '\u{1f}' || ('\u{7f}' <= c && c <= '\u{9f}')) {
        let v = c as u32;
        push_char(out, '\\');
        push_char(out, 'x');
        push_char(out, hex_digit_char(v / 16));
        push_char(out, hex_digit_char(v % 16));
    } else {
        push_char(out, c);
    }
    assert(final(out)@ =~= old(out)@ + emitted(c));
}

/// The loggable form of `text`.
pub fn sanitize_log_line(text: &str) -> (r: String)
    ensures
        r@ == sanitized(text@),
{
    let n = text.unicode_len();
    let mut out = String::new();
    let mut state: u8 = 0;
    let mut i: usize = 0;
    assert(text@.subrange(0, n as int) =~= text@);
    assert(out@ + cleaned(text@, 0) =~= cleaned(text@, 0));
    while i < n
        invariant
            n == text@.len(),
            i <= n,
            state <= 2,
            out@ + cleaned(text@.subrange(i as int, n as int), state) == cleaned(text@, 0),
        decreases n - i,
    {
        let ghost rest = text@.subrange(i as int, n as int);
        assert(rest.drop_first() =~= text@.subrange(i as int + 1, n as int));
        let c = text.get_char(i);
        if state == 2 {
            if '@' <= c && c <= '~' {
                state = 0;
            }
        } else if c == '\u{1b}' {
            state = 1;
        } else if state == 1 && c == '[' {
            state = 2;
        } else {
            push_emitted(&mut out, c);
            state = 0;
        }
        i = i + 1;
    }
    assert(text@.subrange(0, n as int) =~= text@);
    assert(text@.subrange(n as int, n as int) =~= Seq::<char>::empty());
    assert(out@ =~= cleaned(text@, 0));
    let len = out.unicode_len();
    if len <= MAX_LOG_CHARS {
        out
    } else {
        let head = out.as_str().substring_char(0, MAX_LOG_CHARS - 1);
        let mut cut = head.to_owned();
        push_char(&mut cut, '\u{2026}');
        cut
    }
}

} // verus!
