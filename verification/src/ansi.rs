//! Removing terminal escape sequences from captured output.
use vstd::prelude::*;
use crate::text::{chars_of, ascii_letter, is_ascii_letter, push_char};

verus! {

/// Where the scanner stands while it reads terminal output.
#[derive(Clone, Copy, Debug, PartialEq, Eq, Structural)]
pub enum EscapeMode {
    /// Ordinary text: characters are kept.
    Text,
    /// Just after an escape character.
    AfterEscape,
    /// Inside a control sequence that an escape and `[` opened; it ends at an ASCII letter.
    InSequence,
}

/// The escape character, `U+001B`.
pub open spec fn is_escape(c: char) -> bool {
    c == '\x1b'
}

/// What reading `c` in mode `m` keeps: the character itself in plain text, nothing otherwise.
pub open spec fn kept(m: EscapeMode, c: char) -> Seq<char> {
    if m == EscapeMode::Text && !is_escape(c) {
        seq![c]
    } else {
        seq![]
    }
}

/// The mode after reading `c` in mode `m`.
///
/// An escape opens either a control sequence (when `[` follows) or swallows the one
/// character after it; a control sequence runs up to and including an ASCII letter.
pub open spec fn next_mode(m: EscapeMode, c: char) -> EscapeMode {
    match m {
        EscapeMode::Text => if is_escape(c) {
            EscapeMode::AfterEscape
        } else {
            EscapeMode::Text
        },
        EscapeMode::AfterEscape => if c == '[' {
            EscapeMode::InSequence
        } else {
            EscapeMode::Text
        },
        EscapeMode::InSequence => if is_ascii_letter(c) {
            EscapeMode::Text
        } else {
            EscapeMode::InSequence
        },
    }
}

/// The characters kept when `s` is read starting in mode `m`.
pub open spec fn kept_from(s: Seq<char>, m: EscapeMode) -> Seq<char>
    decreases s.len(),
{
    if s.len() == 0 {
        seq![]
    } else {
        kept(m, s[0]) + kept_from(s.drop_first(), next_mode(m, s[0]))
    }
}

/// `s` without its escape sequences: what is kept when `s` is read from plain text.
pub open spec fn without_escapes(s: Seq<char>) -> Seq<char> {
    kept_from(s, EscapeMode::Text)
}

/// Removes the escape sequences (such as colour codes) from terminal output.
pub fn strip_ansi(input: &str) -> (out: String)
    ensures
        out@ == without_escapes(input@),
{
    let chars = chars_of(input);
    let mut out = String::new();
    let mut mode = EscapeMode::Text;
    let mut i: usize = 0;
    assert(chars@.skip(0) =~= chars@);
    while i < chars.len()
        invariant
            i <= chars.len(),
            chars@ == input@,
            out@ + kept_from(chars@.skip(i as int), mode) == without_escapes(input@),
        decreases chars.len() - i,
    {
        let c = chars[i];
        let ghost rest = chars@.skip(i as int);
        assert(rest.drop_first() =~= chars@.skip(i + 1));
        assert(rest[0] == c);
        match mode {
            EscapeMode::Text => {
                if c == '\x1b' {
                    mode = EscapeMode::AfterEscape;
                } else {
                    push_char(&mut out, c);
                }
            },
            EscapeMode::AfterEscape => {
                if c == '[' {
                    mode = EscapeMode::InSequence;
                } else {
                    mode = EscapeMode::Text;
                }
            },
            EscapeMode::InSequence => {
                if ascii_letter(c) {
                    mode = EscapeMode::Text;
                }
            },
        }
        i = i + 1;
    }
    assert(chars@.skip(i as int) =~= Seq::<char>::empty());
    out
}

/// No escape character survives, whatever mode the reading starts in.
proof fn lemma_kept_from_has_no_escape(s: Seq<char>, m: EscapeMode)
    ensures
        forall|i: int|
            0 <= i < kept_from(s, m).len() ==> !is_escape(#[trigger] kept_from(s, m)[i]),
        kept_from(s, m).len() <= s.len(),
    decreases s.len(),
{
    if s.len() > 0 {
        lemma_kept_from_has_no_escape(s.drop_first(), next_mode(m, s[0]));
        let head = kept(m, s[0]);
        let tail = kept_from(s.drop_first(), next_mode(m, s[0]));
        assert forall|i: int| 0 <= i < kept_from(s, m).len() implies !is_escape(
            #[trigger] kept_from(s, m)[i],
        ) by {
            if i < head.len() {
                assert(kept_from(s, m)[i] == head[i]);
            } else {
                assert(kept_from(s, m)[i] == tail[i - head.len()]);
            }
        }
    }
}

/// Output with its escape sequences removed holds no escape character, and is no longer
/// than the input.
pub proof fn lemma_without_escapes_has_no_escape(s: Seq<char>)
    ensures
        forall|i: int|
            0 <= i < without_escapes(s).len() ==> !is_escape(#[trigger] without_escapes(s)[i]),
        without_escapes(s).len() <= s.len(),
{
    lemma_kept_from_has_no_escape(s, EscapeMode::Text);
}

/// Text that holds no escape character comes back unchanged.
pub proof fn lemma_plain_text_unchanged(s: Seq<char>)
    requires
        forall|i: int| 0 <= i < s.len() ==> !is_escape(#[trigger] s[i]),
    ensures
        without_escapes(s) == s,
    decreases s.len(),
{
    if s.len() > 0 {
        let t = s.drop_first();
        assert forall|i: int| 0 <= i < t.len() implies !is_escape(#[trigger] t[i]) by {
            assert(t[i] == s[i + 1]);
        }
        lemma_plain_text_unchanged(t);
        assert(s =~= seq![s[0]] + t);
    }
}

/// Removing escape sequences a second time changes nothing.
pub proof fn lemma_strip_ansi_idempotent(s: Seq<char>)
    ensures
        without_escapes(without_escapes(s)) == without_escapes(s),
{
    lemma_without_escapes_has_no_escape(s);
    lemma_plain_text_unchanged(without_escapes(s));
}


/// Plain text read in text mode is kept as it is, and the mode stays text mode.
proof fn lemma_plain_prefix_kept(a: Seq<char>, rest: Seq<char>)
    requires
        forall|i: int| 0 <= i < a.len() ==> !is_escape(#[trigger] a[i]),
    ensures
        kept_from(a + rest, EscapeMode::Text) == a + kept_from(rest, EscapeMode::Text),
    decreases a.len(),
{
    if a.len() > 0 {
        let t = a.drop_first();
        assert forall|i: int| 0 <= i < t.len() implies !is_escape(#[trigger] t[i]) by {
            assert(t[i] == a[i + 1]);
        }
        lemma_plain_prefix_kept(t, rest);
        assert((a + rest)[0] == a[0]);
        assert((a + rest).drop_first() =~= t + rest);
        assert(a =~= seq![a[0]] + t);
        assert(a + kept_from(rest, EscapeMode::Text) =~= seq![a[0]] + (t + kept_from(
            rest,
            EscapeMode::Text,
        )));
    }
}

/// An escape character followed by any character other than `[` is removed together with
/// that character, and the plain text around them is kept: for plain `a` and `b`,
/// removing escapes from `a`, escape, `c`, `b` gives `a` followed by `b`.
pub proof fn lemma_escape_drops_next_char(a: Seq<char>, c: char, b: Seq<char>)
    requires
        forall|i: int| 0 <= i < a.len() ==> !is_escape(#[trigger] a[i]),
        forall|i: int| 0 <= i < b.len() ==> !is_escape(#[trigger] b[i]),
        c != '[',
    ensures
        without_escapes(a + seq!['\x1b', c] + b) == a + b,
{
    let s = seq!['\x1b', c] + b;
    assert(a + seq!['\x1b', c] + b =~= a + s);
    lemma_plain_prefix_kept(a, s);
    assert(s[0] == '\x1b');
    assert(s.drop_first() =~= seq![c] + b);
    let s2 = seq![c] + b;
    assert(s2[0] == c);
    assert(s2.drop_first() =~= b);
    assert(kept_from(s2, EscapeMode::AfterEscape) == kept(EscapeMode::AfterEscape, c)
        + kept_from(b, EscapeMode::Text));
    assert(kept(EscapeMode::AfterEscape, c) =~= Seq::<char>::empty());
    lemma_plain_text_unchanged(b);
    assert(kept_from(s, EscapeMode::Text) == kept(EscapeMode::Text, '\x1b') + kept_from(
        s2,
        EscapeMode::AfterEscape,
    ));
    assert(kept(EscapeMode::Text, '\x1b') =~= Seq::<char>::empty());
    assert(kept_from(s, EscapeMode::Text) =~= b);
}

/// A control sequence (escape, `[`, parameters without an ASCII letter, a closing ASCII
/// letter) is removed whole, and the plain text around it is kept.
pub proof fn lemma_control_sequence_removed(
    a: Seq<char>,
    params: Seq<char>,
    last: char,
    b: Seq<char>,
)
    requires
        forall|i: int| 0 <= i < a.len() ==> !is_escape(#[trigger] a[i]),
        forall|i: int| 0 <= i < params.len() ==> !is_ascii_letter(#[trigger] params[i]),
        is_ascii_letter(last),
        forall|i: int| 0 <= i < b.len() ==> !is_escape(#[trigger] b[i]),
    ensures
        without_escapes(a + seq!['\x1b', '['] + params + seq![last] + b) == a + b,
{
    let s = seq!['\x1b', '['] + params + seq![last] + b;
    assert(a + seq!['\x1b', '['] + params + seq![last] + b =~= a + s);
    lemma_plain_prefix_kept(a, s);
    assert(s[0] == '\x1b');
    let s1 = s.drop_first();
    assert(s1 =~= seq!['['] + (params + seq![last] + b));
    assert(s1[0] == '[');
    let s2 = s1.drop_first();
    assert(s2 =~= params + (seq![last] + b));
    lemma_sequence_body_skipped(params, seq![last] + b);
    let s3 = seq![last] + b;
    assert(s3[0] == last);
    assert(s3.drop_first() =~= b);
    assert(kept_from(s3, EscapeMode::InSequence) == kept(EscapeMode::InSequence, last) + kept_from(
        b,
        EscapeMode::Text,
    ));
    assert(kept(EscapeMode::InSequence, last) =~= Seq::<char>::empty());
    lemma_plain_text_unchanged(b);
    assert(kept_from(s1, EscapeMode::AfterEscape) == kept(EscapeMode::AfterEscape, '[') + kept_from(
        s2,
        EscapeMode::InSequence,
    ));
    assert(kept(EscapeMode::AfterEscape, '[') =~= Seq::<char>::empty());
    assert(kept_from(s, EscapeMode::Text) == kept(EscapeMode::Text, '\x1b') + kept_from(
        s1,
        EscapeMode::AfterEscape,
    ));
    assert(kept(EscapeMode::Text, '\x1b') =~= Seq::<char>::empty());
    assert(kept_from(s, EscapeMode::Text) =~= b);
}

/// Inside a control sequence, characters that are not ASCII letters are dropped and the
/// sequence goes on.
proof fn lemma_sequence_body_skipped(params: Seq<char>, rest: Seq<char>)
    requires
        forall|i: int| 0 <= i < params.len() ==> !is_ascii_letter(#[trigger] params[i]),
    ensures
        kept_from(params + rest, EscapeMode::InSequence) == kept_from(rest, EscapeMode::InSequence),
    decreases params.len(),
{
    if params.len() > 0 {
        let t = params.drop_first();
        assert forall|i: int| 0 <= i < t.len() implies !is_ascii_letter(#[trigger] t[i]) by {
            assert(t[i] == params[i + 1]);
        }
        lemma_sequence_body_skipped(t, rest);
        assert((params + rest)[0] == params[0]);
        assert((params + rest).drop_first() =~= t + rest);
        assert(kept(EscapeMode::InSequence, params[0]) =~= Seq::<char>::empty());
    } else {
        assert(params + rest =~= rest);
    }
}

} // verus!
