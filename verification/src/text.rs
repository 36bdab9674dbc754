//! Transcript normalization: every one-shot engine strips sentence
//! punctuation from the end of the text it returns, and the streaming JSON
//! session additionally removes punctuation everywhere in its final
//! transcript.

use vstd::prelude::*;

verus! {

/// The sentence punctuation set (common Chinese/English/CJK marks) that the
/// one-shot engines strip from the end of a transcript.
pub open spec fn is_trailing_punct(c: char) -> bool {
    ||| c == '\u{3002}'
    ||| c == '\u{ff0c}'
    ||| c == '\u{ff01}'
    ||| c == '\u{ff1f}'
    ||| c == '\u{3001}'
    ||| c == '\u{ff1b}'
    ||| c == '\u{ff1a}'
    ||| c == '"'
    ||| c == '.'
    ||| c == ','
    ||| c == '!'
    ||| c == '?'
    ||| c == ';'
    ||| c == ':'
    ||| c == '\''
    ||| c == '\u{ff08}'
    ||| c == '\u{ff09}'
    ||| c == '('
    ||| c == ')'
    ||| c == '\u{3010}'
    ||| c == '\u{3011}'
    ||| c == '['
    ||| c == ']'
    ||| c == '\u{300a}'
    ||| c == '\u{300b}'
    ||| c == '<'
    ||| c == '>'
    ||| c == '\u{2014}'
    ||| c == '\u{2026}'
    ||| c == '\u{b7}'
}

/// The wider set removed everywhere by the streaming JSON session: the
/// trailing set plus the curly single quotes.
pub open spec fn is_session_punct(c: char) -> bool {
    is_trailing_punct(c) || c == '\u{2018}' || c == '\u{2019}'
}

fn is_trailing_punct_char(c: char) -> (r: bool)
    ensures
        r == is_trailing_punct(c),
{
    c == '\u{3002}' || c == '\u{ff0c}' || c == '\u{ff01}' || c == '\u{ff1f}'
        || c == '\u{3001}' || c == '\u{ff1b}' || c == '\u{ff1a}' || c == '"' || c == '.'
        || c == ',' || c == '!' || c == '?' || c == ';' || c == ':' || c == '\''
        || c == '\u{ff08}' || c == '\u{ff09}' || c == '(' || c == ')' || c == '\u{3010}'
        || c == '\u{3011}' || c == '[' || c == ']' || c == '\u{300a}' || c == '\u{300b}'
        || c == '<' || c == '>' || c == '\u{2014}' || c == '\u{2026}' || c == '\u{b7}'
}

fn is_session_punct_char(c: char) -> (r: bool)
    ensures
        r == is_session_punct(c),
{
    is_trailing_punct_char(c) || c == '\u{2018}' || c == '\u{2019}'
}

/// The text with every trailing punctuation character removed: the longest
/// prefix that does not end in a punctuation character.
pub open spec fn spec_strip_trailing(s: Seq<char>) -> Seq<char>
    decreases s.len(),
{
    if s.len() == 0 {
        s
    } else if is_trailing_punct(s.last()) {
        spec_strip_trailing(s.drop_last())
    } else {
        s
    }
}

/// The text with every punctuation character of the session set removed,
/// wherever it occurs; the other characters keep their order.
pub open spec fn spec_strip_all(s: Seq<char>) -> Seq<char>
    decreases s.len(),
{
    if s.len() == 0 {
        Seq::empty()
    } else if is_session_punct(s.last()) {
        spec_strip_all(s.drop_last())
    } else {
        spec_strip_all(s.drop_last()).push(s.last())
    }
}

/// The character of one hexadecimal digit, lower case.
pub open spec fn spec_hex_char(d: nat) -> char {
    if d == 0 {
        '0'
    } else if d == 1 {
        '1'
    } else if d == 2 {
        '2'
    } else if d == 3 {
        '3'
    } else if d == 4 {
        '4'
    } else if d == 5 {
        '5'
    } else if d == 6 {
        '6'
    } else if d == 7 {
        '7'
    } else if d == 8 {
        '8'
    } else if d == 9 {
        '9'
    } else if d == 10 {
        'a'
    } else if d == 11 {
        'b'
    } else if d == 12 {
        'c'
    } else if d == 13 {
        'd'
    } else if d == 14 {
        'e'
    } else {
        'f'
    }
}

/// The JSON string-literal escape of one character: quote and backslash
/// are escaped, the named control escapes are used where they exist, any
/// other control character becomes a four-digit unicode escape, and
/// everything else stands as it is.
pub open spec fn spec_json_escape_char(c: char) -> Seq<char> {
    if c == '"' {
        seq!['\\', '"']
    } else if c == '\\' {
        seq!['\\', '\\']
    } else if c == '\u{8}' {
        seq!['\\', 'b']
    } else if c == '\u{c}' {
        seq!['\\', 'f']
    } else if c == '\n' {
        seq!['\\', 'n']
    } else if c == '\r' {
        seq!['\\', 'r']
    } else if c == '\t' {
        seq!['\\', 't']
    } else if (c as u32) < 0x20 {
        seq!['\\', 'u', '0', '0', spec_hex_char(((c as u32) / 16) as nat), spec_hex_char(((
        c as u32) % 16) as nat)]
    } else {
        seq![c]
    }
}

/// The text escaped for embedding inside a JSON string literal.
pub open spec fn spec_json_escaped(s: Seq<char>) -> Seq<char>
    decreases s.len(),
{
    if s.len() == 0 {
        Seq::empty()
    } else {
        spec_json_escaped(s.drop_last()) + spec_json_escape_char(s.last())
    }
}

fn hex_char(d: u32) -> (c: char)
    requires
        d < 16,
    ensures
        c == spec_hex_char(d as nat),
{
    if d == 0 {
        '0'
    } else if d == 1 {
        '1'
    } else if d == 2 {
        '2'
    } else if d == 3 {
        '3'
    } else if d == 4 {
        '4'
    } else if d == 5 {
        '5'
    } else if d == 6 {
        '6'
    } else if d == 7 {
        '7'
    } else if d == 8 {
        '8'
    } else if d == 9 {
        '9'
    } else if d == 10 {
        'a'
    } else if d == 11 {
        'b'
    } else if d == 12 {
        'c'
    } else if d == 13 {
        'd'
    } else if d == 14 {
        'e'
    } else {
        'f'
    }
}

fn push_json_escape_char(out: &mut String, c: char)
    ensures
        final(out)@ == old(out)@ + spec_json_escape_char(c),
{
    if c == '"' {
        string_push(out, '\\');
        string_push(out, '"');
    } else if c == '\\' {
        string_push(out, '\\');
        string_push(out, '\\');
    } else if c == '\u{8}' {
        string_push(out, '\\');
        string_push(out, 'b');
    } else if c == '\u{c}' {
        string_push(out, '\\');
        string_push(out, 'f');
    } else if c == '\n' {
        string_push(out, '\\');
        string_push(out, 'n');
    } else if c == '\r' {
        string_push(out, '\\');
        string_push(out, 'r');
    } else if c == '\t' {
        string_push(out, '\\');
        string_push(out, 't');
    } else if (c as u32) < 0x20 {
        string_push(out, '\\');
        string_push(out, 'u');
        string_push(out, '0');
        string_push(out, '0');
        string_push(out, hex_char((c as u32) / 16));
        string_push(out, hex_char((c as u32) % 16));
    } else {
        string_push(out, c);
    }
    proof {
        assert(out@ =~= old(out)@ + spec_json_escape_char(c));
    }
}

/// Escape a text for embedding inside a JSON string literal.
pub fn json_escape(s: &str) -> (r: String)
    ensures
        r@ == spec_json_escaped(s@),
{
    let n = s.unicode_len();
    let mut out = String::new();
    for i in 0..n
        invariant
            n == s@.len(),
            out@ == spec_json_escaped(s@.subrange(0, i as int)),
    {
        let c = s.get_char(i);
        proof {
            let p = s@.subrange(0, i + 1);
            assert(p.drop_last() == s@.subrange(0, i as int));
            assert(p.last() == s@[i as int]);
        }
        push_json_escape_char(&mut out, c);
    }
    proof {
        assert(s@.subrange(0, n as int) == s@);
    }
    out
}

/// The character of one decimal digit.
pub open spec fn spec_digit_char(d: nat) -> char {
    if d == 0 {
        '0'
    } else if d == 1 {
        '1'
    } else if d == 2 {
        '2'
    } else if d == 3 {
        '3'
    } else if d == 4 {
        '4'
    } else if d == 5 {
        '5'
    } else if d == 6 {
        '6'
    } else if d == 7 {
        '7'
    } else if d == 8 {
        '8'
    } else {
        '9'
    }
}

/// The decimal rendering of a number, most significant digit first.
pub open spec fn spec_dec_digits(n: nat) -> Seq<char>
    decreases n,
{
    if n < 10 {
        seq![spec_digit_char(n)]
    } else {
        spec_dec_digits(n / 10).push(spec_digit_char(n % 10))
    }
}

fn digit_char(d: u64) -> (c: char)
    requires
        d < 10,
    ensures
        c == spec_digit_char(d as nat),
{
    if d == 0 {
        '0'
    } else if d == 1 {
        '1'
    } else if d == 2 {
        '2'
    } else if d == 3 {
        '3'
    } else if d == 4 {
        '4'
    } else if d == 5 {
        '5'
    } else if d == 6 {
        '6'
    } else if d == 7 {
        '7'
    } else if d == 8 {
        '8'
    } else {
        '9'
    }
}

/// Render a number in decimal.
pub fn u64_to_string(n: u64) -> (r: String)
    ensures
        r@ == spec_dec_digits(n as nat),
    decreases n,
{
    let c = digit_char(n % 10);
    if n < 10 {
        let mut s = String::new();
        string_push(&mut s, c);
        s
    } else {
        let mut s = u64_to_string(n / 10);
        string_push(&mut s, c);
        s
    }
}

/// Relies on str's PartialEq: two string slices compare equal exactly
/// when their characters do.
#[verifier::external_body]
pub fn str_eq(a: &str, b: &str) -> (r: bool)
    ensures
        r == (a@ == b@),
{
    a == b
}

/// Relies on String::push: appends the given character to the end of the
/// string.
#[verifier::external_body]
fn string_push(s: &mut String, c: char)
    ensures
        final(s)@ == old(s)@.push(c),
{
    s.push(c);
}

proof fn lemma_strip_trailing_all_punct_suffix(s: Seq<char>, k: int)
    requires
        0 <= k <= s.len(),
        forall|j: int| k <= j < s.len() ==> is_trailing_punct(s[j]),
    ensures
        spec_strip_trailing(s) == spec_strip_trailing(s.subrange(0, k)),
    decreases s.len() - k,
{
    if k < s.len() {
        assert(s.drop_last() == s.subrange(0, s.len() - 1));
        lemma_strip_trailing_all_punct_suffix(s.subrange(0, s.len() - 1), k);
        assert(s.subrange(0, s.len() - 1).subrange(0, k) == s.subrange(0, k));
    } else {
        assert(s.subrange(0, k) == s);
    }
}

/// A text that does not end in a punctuation character is left unchanged by
/// trailing stripping.
pub proof fn lemma_strip_trailing_clean(s: Seq<char>)
    requires
        s.len() == 0 || !is_trailing_punct(s.last()),
    ensures
        spec_strip_trailing(s) == s,
{
}

/// Trailing punctuation stripping is idempotent: stripping a second time
/// changes nothing.
pub proof fn lemma_strip_trailing_idempotent(s: Seq<char>)
    ensures
        spec_strip_trailing(spec_strip_trailing(s)) == spec_strip_trailing(s),
    decreases s.len(),
{
    if s.len() == 0 {
    } else if is_trailing_punct(s.last()) {
        lemma_strip_trailing_idempotent(s.drop_last());
    } else {
        lemma_strip_trailing_clean(s);
    }
}

/// Removing the session punctuation set everywhere is idempotent as well.
pub proof fn lemma_strip_all_idempotent(s: Seq<char>)
    ensures
        spec_strip_all(spec_strip_all(s)) == spec_strip_all(s),
    decreases s.len(),
{
    if s.len() > 0 {
        lemma_strip_all_idempotent(s.drop_last());
        if !is_session_punct(s.last()) {
            let r = spec_strip_all(s.drop_last());
            assert(r.push(s.last()).drop_last() == r);
            assert(r.push(s.last()).last() == s.last());
        }
    }
}

/// Remove trailing sentence punctuation from a transcript, in place.
pub fn strip_trailing_punctuation(text: &mut String)
    ensures
        final(text)@ == spec_strip_trailing(old(text)@),
{
    let n = text.as_str().unicode_len();
    let mut end: usize = n;
    while end > 0 && is_trailing_punct_char(text.as_str().get_char(end - 1))
        invariant
            end <= n,
            n == text@.len(),
            forall|j: int| end <= j < text@.len() ==> is_trailing_punct(text@[j]),
        decreases end,
    {
        end = end - 1;
    }
    proof {
        lemma_strip_trailing_all_punct_suffix(text@, end as int);
        if end > 0 {
            let p = text@.subrange(0, end as int);
            assert(p.last() == text@[end - 1]);
            lemma_strip_trailing_clean(p);
        } else {
            assert(text@.subrange(0, 0).len() == 0);
        }
    }
    let stripped = text.as_str().substring_char(0, end).to_owned();
    *text = stripped;
}

/// Remove every character of the session punctuation set from a transcript.
pub fn strip_punctuation(text: &str) -> (r: String)
    ensures
        r@ == spec_strip_all(text@),
{
    let n = text.unicode_len();
    let mut out = String::new();
    for i in 0..n
        invariant
            n == text@.len(),
            out@ == spec_strip_all(text@.subrange(0, i as int)),
    {
        let c = text.get_char(i);
        proof {
            let p = text@.subrange(0, i + 1);
            assert(p.drop_last() == text@.subrange(0, i as int));
            assert(p.last() == text@[i as int]);
        }
        if !is_session_punct_char(c) {
            string_push(&mut out, c);
        }
    }
    proof {
        assert(text@.subrange(0, n as int) == text@);
    }
    out
}

} // verus!
