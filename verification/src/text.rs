//! Character classes and text checks shared by configuration and scene documents.

use vstd::prelude::*;
use vstd::string::*;

verus! {

/// Unicode `White_Space` code points, the set that `char::is_whitespace` and
/// `str::trim` use.
pub open spec fn is_whitespace_char(c: char) -> bool {
    let u = c as u32;
    ||| 0x09 <= u <= 0x0d
    ||| u == 0x20
    ||| u == 0x85
    ||| u == 0xa0
    ||| u == 0x1680
    ||| 0x2000 <= u <= 0x200a
    ||| u == 0x2028
    ||| u == 0x2029
    ||| u == 0x202f
    ||| u == 0x205f
    ||| u == 0x3000
}

/// Unicode general category `Cc`, the set that `char::is_control` accepts.
pub open spec fn is_control_char(c: char) -> bool {
    let u = c as u32;
    u <= 0x1f || 0x7f <= u <= 0x9f
}

/// ### Control characters are exactly the Unicode `Cc` characters
///
/// A character is a control character exactly when its code point is at most
/// U+001F or lies from U+007F to U+009F; letters, digits, punctuation and
/// every other character from U+00A0 upward are not.
pub proof fn lemma_control_characters_are_category_cc(c: char)
    ensures
        is_control_char(c) <==> ((c as u32) <= 0x1f || (0x7f <= (c as u32) && (c as u32) <= 0x9f)),
        (c as u32) >= 0xa0 ==> !is_control_char(c),
        (0x20 <= (c as u32) && (c as u32) < 0x7f) ==> !is_control_char(c),
{
}

/// ### Whitespace characters are exactly the Unicode `White_Space` characters
pub proof fn lemma_whitespace_characters_are_white_space(c: char)
    ensures
        is_whitespace_char(c) <==> {
            let u = c as u32;
            (0x09 <= u && u <= 0x0d) || u == 0x20 || u == 0x85 || u == 0xa0 || u == 0x1680 || (
            0x2000 <= u && u <= 0x200a) || u == 0x2028 || u == 0x2029 || u == 0x202f || u == 0x205f
                || u == 0x3000
        },
{
}

/// ### A text holds a control character exactly when one of its characters is `Cc`
pub proof fn lemma_control_text(s: Seq<char>)
    ensures
        has_control_text(s) <==> exists|i: int|
            0 <= i < s.len() && ((#[trigger] s[i] as u32) <= 0x1f || (0x7f <= (s[i] as u32) && (
            s[i] as u32) <= 0x9f)),
{
    if has_control_text(s) {
        let i = choose|i: int| 0 <= i < s.len() && #[trigger] is_control_char(s[i]);
        assert((s[i] as u32) <= 0x1f || (0x7f <= (s[i] as u32) && (s[i] as u32) <= 0x9f));
    }
    if exists|i: int|
        0 <= i < s.len() && ((#[trigger] s[i] as u32) <= 0x1f || (0x7f <= (s[i] as u32) && (s[i]
            as u32) <= 0x9f)) {
        let i = choose|i: int|
            0 <= i < s.len() && ((#[trigger] s[i] as u32) <= 0x1f || (0x7f <= (s[i] as u32) && (
            s[i] as u32) <= 0x9f));
        assert(is_control_char(s[i]));
    }
}

/// A text is blank when trimming its whitespace leaves nothing.
pub open spec fn is_blank_text(s: Seq<char>) -> bool {
    forall|i: int| 0 <= i < s.len() ==> #[trigger] is_whitespace_char(s[i])
}

/// A text contains a control character somewhere.
pub open spec fn has_control_text(s: Seq<char>) -> bool {
    exists|i: int| 0 <= i < s.len() && #[trigger] is_control_char(s[i])
}

pub fn is_whitespace(c: char) -> (r: bool)
    ensures
        r == is_whitespace_char(c),
        r <==> {
            let u = c as u32;
            (0x09 <= u && u <= 0x0d) || u == 0x20 || u == 0x85 || u == 0xa0 || u == 0x1680 || (
            0x2000 <= u && u <= 0x200a) || u == 0x2028 || u == 0x2029 || u == 0x202f || u == 0x205f
                || u == 0x3000
        },
{
    let u = c as u32;
    (0x09 <= u && u <= 0x0d) || u == 0x20 || u == 0x85 || u == 0xa0 || u == 0x1680 || (0x2000
        <= u && u <= 0x200a) || u == 0x2028 || u == 0x2029 || u == 0x202f || u == 0x205f || u
        == 0x3000
}

/// Returns whether `s` consists of whitespace only (so `s.trim()` is empty).
pub fn is_blank(s: &str) -> (r: bool)
    ensures
        r == is_blank_text(s@),
{
    let n = s.unicode_len();
    let mut i: usize = 0;
    while i < n
        invariant
            n == s@.len(),
            i <= n,
            forall|j: int| 0 <= j < i ==> #[trigger] is_whitespace_char(s@[j]),
        decreases n - i,
    {
        let c = s.get_char(i);
        if !is_whitespace(c) {
            return false;
        }
        i = i + 1;
    }
    true
}


/// Returns whether `c` is a control character.
pub fn is_control(c: char) -> (r: bool)
    ensures
        r == is_control_char(c),
        r <==> ((c as u32) <= 0x1f || (0x7f <= (c as u32) && (c as u32) <= 0x9f)),
{
    let u = c as u32;
    u <= 0x1f || (0x7f <= u && u <= 0x9f)
}

/// Returns whether `s` contains a control character.
pub fn has_control(s: &str) -> (r: bool)
    ensures
        r == has_control_text(s@),
        r <==> exists|i: int|
            0 <= i < s@.len() && ((#[trigger] s@[i] as u32) <= 0x1f || (0x7f <= (s@[i] as u32) && (
            s@[i] as u32) <= 0x9f)),
{
    proof {
        lemma_control_text(s@);
    }
    let n = s.unicode_len();
    let mut i: usize = 0;
    while i < n
        invariant
            n == s@.len(),
            i <= n,
            forall|j: int| 0 <= j < i ==> !#[trigger] is_control_char(s@[j]),
        decreases n - i,
    {
        let c = s.get_char(i);
        if is_control(c) {
            assert(is_control_char(s@[i as int]));
            assert((s@[i as int] as u32) <= 0x1f || (0x7f <= (s@[i as int] as u32) && (
            s@[i as int] as u32) <= 0x9f));
            return true;
        }
        i = i + 1;
    }
    false
}

/// Returns whether two texts hold the same characters.
pub fn same_text(a: &str, b: &str) -> (r: bool)
    ensures
        r == (a@ == b@),
{
    let n = a.unicode_len();
    if n != b.unicode_len() {
        return false;
    }
    let mut i: usize = 0;
    while i < n
        invariant
            n == a@.len(),
            n == b@.len(),
            i <= n,
            forall|j: int| 0 <= j < i ==> a@[j] == b@[j],
        decreases n - i,
    {
        if a.get_char(i) != b.get_char(i) {
            return false;
        }
        i = i + 1;
    }
    assert(a@ =~= b@);
    true
}

/// How one character is written inside a double-quoted basic string.
pub open spec fn escape_char(c: char) -> Seq<char> {
    if c == '\\' {
        seq!['\\', '\\']
    } else if c == '"' {
        seq!['\\', '"']
    } else {
        seq![c]
    }
}

/// `s` with every backslash and double quote preceded by a backslash.
pub open spec fn escaped(s: Seq<char>) -> Seq<char>
    decreases s.len(),
{
    if s.len() == 0 {
        seq![]
    } else {
        escape_char(s[0]) + escaped(s.skip(1))
    }
}

/// `s` written as a double-quoted basic string.
pub open spec fn quoted_text(s: Seq<char>) -> Seq<char> {
    seq!['"'] + escaped(s) + seq!['"']
}

/// Reads back the body of a basic string: a backslash takes the next
/// character literally.
pub open spec fn unescaped(s: Seq<char>) -> Seq<char>
    decreases s.len(),
{
    if s.len() == 0 {
        seq![]
    } else if s[0] == '\\' && s.len() >= 2 {
        seq![s[1]] + unescaped(s.skip(2))
    } else {
        seq![s[0]] + unescaped(s.skip(1))
    }
}

proof fn lemma_escaped_push(s: Seq<char>, c: char)
    ensures
        escaped(s.push(c)) == escaped(s) + escape_char(c),
    decreases s.len(),
{
    if s.len() == 0 {
        assert(s.push(c).skip(1) =~= seq![]);
        assert(escaped(seq![]) == Seq::<char>::empty());
        assert(escaped(s.push(c)) =~= escape_char(c));
    } else {
        lemma_escaped_push(s.skip(1), c);
        assert(s.push(c).skip(1) =~= s.skip(1).push(c));
        assert(escaped(s.push(c)) =~= escaped(s) + escape_char(c));
    }
}

/// ### Quoting can be read back
///
/// Reading the body of a quoted text back, with each backslash taking the
/// next character literally, gives the original text.
pub proof fn lemma_quoting_round_trips(s: Seq<char>)
    ensures
        unescaped(escaped(s)) == s,
    decreases s.len(),
{
    if s.len() > 0 {
        lemma_quoting_round_trips(s.skip(1));
        let e = escaped(s);
        let rest = escaped(s.skip(1));
        if s[0] == '\\' || s[0] == '"' {
            assert(e =~= seq!['\\', s[0]] + rest);
            assert(e.skip(2) =~= rest);
            assert(unescaped(e) =~= seq![s[0]] + s.skip(1));
        } else {
            assert(e =~= seq![s[0]] + rest);
            assert(e.skip(1) =~= rest);
            assert(unescaped(e) =~= seq![s[0]] + s.skip(1));
        }
        assert(s =~= seq![s[0]] + s.skip(1));
    }
}

/// The first character of how `c` is written.
proof fn lemma_escape_char_shape(c: char)
    ensures
        (c == '\\' || c == '"') ==> escape_char(c) =~= seq!['\\', c],
        !(c == '\\' || c == '"') ==> escape_char(c) =~= seq![c],
{
}

proof fn lemma_escaped_prefix(s: Seq<char>, u: Seq<char>, t1: Seq<char>, t2: Seq<char>)
    requires
        escaped(s) + seq!['"'] + t1 == escaped(u) + seq!['"'] + t2,
    ensures
        s == u,
        t1 == t2,
    decreases s.len(),
{
    let w = escaped(s) + seq!['"'] + t1;
    if s.len() == 0 || u.len() == 0 {
        if u.len() > 0 {
            let f = escape_char(u[0]);
            lemma_escape_char_shape(u[0]);
            assert(w =~= f + (escaped(u.skip(1)) + seq!['"'] + t2));
            assert(w[0] == f[0]);
            assert(w =~= seq!['"'] + t1);
        } else if s.len() > 0 {
            let e = escape_char(s[0]);
            lemma_escape_char_shape(s[0]);
            assert(w =~= e + (escaped(s.skip(1)) + seq!['"'] + t1));
            assert(w[0] == e[0]);
            assert(w =~= seq!['"'] + t2);
        } else {
            assert(w =~= seq!['"'] + t1);
            assert(w =~= seq!['"'] + t2);
            assert(t1 =~= w.skip(1));
            assert(t2 =~= w.skip(1));
            assert(s =~= u);
        }
    } else {
        let e = escape_char(s[0]);
        let f = escape_char(u[0]);
        lemma_escape_char_shape(s[0]);
        lemma_escape_char_shape(u[0]);
        let rs = escaped(s.skip(1)) + seq!['"'] + t1;
        let ru = escaped(u.skip(1)) + seq!['"'] + t2;
        assert(w =~= e + rs);
        assert(w =~= f + ru);
        assert(w[0] == e[0]);
        assert(w[0] == f[0]);
        if s[0] == '\\' || s[0] == '"' {
            assert(w[1] == e[1]);
            assert(w[1] == f[1]);
        }
        assert(e == f);
        assert(rs =~= w.skip(e.len() as int));
        assert(ru =~= w.skip(f.len() as int));
        lemma_escaped_prefix(s.skip(1), u.skip(1), t1, t2);
        assert(s =~= seq![s[0]] + s.skip(1));
        assert(u =~= seq![u[0]] + u.skip(1));
    }
}

/// ### A quoted text is read back from the front
///
/// The closing quote of a quoted text is its first unescaped double quote,
/// so a quoted text followed by anything determines both the original text
/// and what follows it.
pub proof fn lemma_quoted_text_prefix_free(s: Seq<char>, u: Seq<char>, t1: Seq<char>, t2: Seq<char>)
    requires
        quoted_text(s) + t1 == quoted_text(u) + t2,
    ensures
        s == u,
        t1 == t2,
{
    let w = quoted_text(s) + t1;
    assert(w.skip(1) =~= escaped(s) + seq!['"'] + t1);
    assert(w.skip(1) =~= escaped(u) + seq!['"'] + t2);
    lemma_escaped_prefix(s, u, t1, t2);
}

/// ### Text before a character it does not contain is read back
///
/// Two texts that do not contain `c`, each followed by `c`, start the same
/// sequence only when they are equal, and then what follows is equal too.
pub proof fn lemma_split_at_first(x1: Seq<char>, r1: Seq<char>, x2: Seq<char>, r2: Seq<char>, c: char)
    requires
        !x1.contains(c),
        !x2.contains(c),
        x1 + seq![c] + r1 == x2 + seq![c] + r2,
    ensures
        x1 == x2,
        r1 == r2,
{
    let w = x1 + seq![c] + r1;
    if x1.len() < x2.len() {
        assert(w[x1.len() as int] == c);
        assert(x2[x1.len() as int] == w[x1.len() as int]);
    } else if x2.len() < x1.len() {
        assert(w[x2.len() as int] == c);
        assert(x1[x2.len() as int] == w[x2.len() as int]);
    } else {
        assert(x1 =~= w.subrange(0, x1.len() as int));
        assert(x2 =~= w.subrange(0, x2.len() as int));
        assert(r1 =~= w.skip(x1.len() as int + 1));
        assert(r2 =~= w.skip(x2.len() as int + 1));
    }
}

/// ### Text after the last occurrence of a character is read back
///
/// Two texts that do not contain `c`, each preceded by `c`, end the same
/// sequence only when they are equal, and then what precedes is equal too.
pub proof fn lemma_split_at_last(r1: Seq<char>, x1: Seq<char>, r2: Seq<char>, x2: Seq<char>, c: char)
    requires
        !x1.contains(c),
        !x2.contains(c),
        r1 + seq![c] + x1 == r2 + seq![c] + x2,
    ensures
        r1 == r2,
        x1 == x2,
{
    let w = r1 + seq![c] + x1;
    if x1.len() < x2.len() {
        let p = w.len() - x1.len() - 1;
        assert(w[p] == c);
        assert(x2[p - r2.len() - 1] == w[p]);
    } else if x2.len() < x1.len() {
        let p = w.len() - x2.len() - 1;
        assert(w[p] == c);
        assert(x1[p - r1.len() - 1] == w[p]);
    } else {
        assert(r1 =~= w.subrange(0, r1.len() as int));
        assert(r2 =~= w.subrange(0, r2.len() as int));
        assert(x1 =~= w.skip(r1.len() as int + 1));
        assert(x2 =~= w.skip(r2.len() as int + 1));
    }
}

/// ### Writes `value` as a double-quoted basic string
///
/// Backslashes and double quotes are escaped with a backslash; every other
/// character is copied unchanged.
pub fn quoted(value: &str) -> (r: String)
    ensures
        r@ == quoted_text(value@),
{
    let quote = "\"";
    let escaped_backslash = "\\\\";
    let escaped_quote = "\\\"";
    proof {
        reveal_strlit("\"");
        reveal_strlit("\\\\");
        reveal_strlit("\\\"");
    }
    let mut output = String::from_str(quote);
    let n = value.unicode_len();
    let mut i: usize = 0;
    while i < n
        invariant
            n == value@.len(),
            i <= n,
            quote@ == seq!['"'],
            escaped_backslash@ == seq!['\\', '\\'],
            escaped_quote@ == seq!['\\', '"'],
            output@ == seq!['"'] + escaped(value@.take(i as int)),
        decreases n - i,
    {
        let c = value.get_char(i);
        proof {
            lemma_escaped_push(value@.take(i as int), c);
            assert(value@.take(i + 1) =~= value@.take(i as int).push(c));
        }
        if c == '\\' {
            output.append(escaped_backslash);
        } else if c == '"' {
            output.append(escaped_quote);
        } else {
            let single = value.substring_char(i, i + 1);
            assert(single@ =~= seq![c]);
            output.append(single);
        }
        assert(output@ =~= seq!['"'] + escaped(value@.take(i + 1)));
        i = i + 1;
    }
    output.append(quote);
    assert(value@.take(n as int) =~= value@);
    output
}

} // verus!
