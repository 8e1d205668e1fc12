//! Text handling shared by the daemon: whitespace trimming and JSON string
//! literals.
use vstd::prelude::*;

verus! {

/// Whether `c` has the Unicode `White_Space` property (the property that
/// `char::is_whitespace` and `str::trim` go by): tab, line feed, vertical
/// tab, form feed, carriage return, space, next line, no-break space, ogham
/// space mark, the spaces U+2000 to U+200A, line and paragraph separator,
/// narrow no-break space, medium mathematical space and ideographic space.
pub open spec fn is_white_space(c: char) -> bool {
    let u = c as int;
    ||| 0x09 <= u <= 0x0d
    ||| u == 0x20
    ||| u == 0x85
    ||| u == 0xa0
    ||| u == 0x1680
    ||| 0x2000 <= u <= 0x200a
    ||| u == 0x2028
    ||| u == 0x2029
    ||| u == 0x202f
    ||| u == 0x205f
    ||| u == 0x3000
}

/// The lowercase hexadecimal digit of `n`, for `n` below 16.
pub open spec fn hex_digit(n: int) -> char {
    seq!['0', '1', '2', '3', '4', '5', '6', '7', '8', '9', 'a', 'b', 'c', 'd', 'e', 'f'][n]
}

/// How `c` is written inside a JSON string literal by serde_json: quote and
/// backslash behind a backslash; backspace, tab, line feed, form feed and
/// carriage return as `\b \t \n \f \r`; the other characters below
/// U+0020 as `\u00` and two lowercase hexadecimal digits; every other
/// character as itself.
pub open spec fn json_escape(c: char) -> Seq<char> {
    let u = c as int;
    if c == '"' {
        seq!['\\', '"']
    } else if c == '\\' {
        seq!['\\', '\\']
    } else if u == 0x08 {
        seq!['\\', 'b']
    } else if u == 0x09 {
        seq!['\\', 't']
    } else if u == 0x0a {
        seq!['\\', 'n']
    } else if u == 0x0c {
        seq!['\\', 'f']
    } else if u == 0x0d {
        seq!['\\', 'r']
    } else if u < 0x20 {
        seq!['\\', 'u', '0', '0', hex_digit(u / 16), hex_digit(u % 16)]
    } else {
        seq![c]
    }
}

/// The characters of `s`, each written as inside a JSON string literal.
pub open spec fn json_escaped(s: Seq<char>) -> Seq<char>
    decreases s.len(),
{
    if s.len() == 0 {
        Seq::empty()
    } else {
        json_escaped(s.drop_last()) + json_escape(s.last())
    }
}

/// The JSON string literal, quotes included, that serde_json writes for the
/// text `s`.
pub open spec fn json_string_literal(s: Seq<char>) -> Seq<char> {
    seq!['"'] + json_escaped(s) + seq!['"']
}

/// Whether `c` has the Unicode `White_Space` property.
fn char_is_whitespace(c: char) -> (r: bool)
    ensures
        r == is_white_space(c),
{
    let u = c as u32;
    (0x09 <= u && u <= 0x0d) || u == 0x20 || u == 0x85 || u == 0xa0 || u == 0x1680 || (0x2000
        <= u && u <= 0x200a) || u == 0x2028 || u == 0x2029 || u == 0x202f || u == 0x205f || u
        == 0x3000
}

/// Calls `serde_json::to_string` on a `str`. The contract claims that the
/// result is the JSON string literal of `s`: a quote, each character of `s`
/// written as serde_json's escape table (`ESCAPE` and `write_char_escape`
/// in its `ser.rs`) says, and a quote. serde_json writes a string into an
/// in-memory buffer, where no write fails, so its `Err` arm is not reached.
#[verifier::external_body]
pub(crate) fn json_quote(s: &str) -> (r: String)
    ensures
        r@ == json_string_literal(s@),
{
    match serde_json::to_string(s) {
        Ok(t) => t,
        Err(_) => String::new(),
    }
}

/// No character of a JSON string literal is a line break: a literal always
/// fits on one line.
pub proof fn lemma_json_literal_one_line(s: Seq<char>)
    ensures
        forall|i: int|
            0 <= i < json_string_literal(s).len() ==> #[trigger] json_string_literal(s)[i]
                != '\n' && json_string_literal(s)[i] != '\r',
{
    lemma_json_escaped_no_break(s);
    let e = json_escaped(s);
    let l = json_string_literal(s);
    assert forall|i: int| 0 <= i < l.len() implies #[trigger] l[i] != '\n' && l[i] != '\r' by {
        if 1 <= i < l.len() - 1 {
            assert(l[i] == e[i - 1]);
        }
    }
}

/// A character's code is not negative.
proof fn lemma_char_code(c: char)
    ensures
        0 <= c as int,
{
}

/// Escaping leaves no line break.
proof fn lemma_json_escaped_no_break(s: Seq<char>)
    ensures
        forall|i: int|
            0 <= i < json_escaped(s).len() ==> #[trigger] json_escaped(s)[i] != '\n'
                && json_escaped(s)[i] != '\r',
    decreases s.len(),
{
    if s.len() > 0 {
        lemma_json_escaped_no_break(s.drop_last());
        let a = json_escaped(s.drop_last());
        let c = s.last();
        let b = json_escape(c);
        lemma_char_code(c);
        let u = c as int;
        if u < 0x20 && c != '"' && c != '\\' && u != 0x08 && u != 0x09 && u != 0x0a && u
            != 0x0c && u != 0x0d {
            assert(0 <= u);
            assert(0 <= u / 16 < 2) by (nonlinear_arith)
                requires
                    0 <= u < 0x20,
            ;
            assert(0 <= u % 16 < 16) by (nonlinear_arith)
                requires
                    0 <= u,
            ;
        }
        assert forall|j: int| 0 <= j < b.len() implies #[trigger] b[j] != '\n' && b[j] != '\r' by {
        }
        assert forall|i: int| 0 <= i < json_escaped(s).len() implies #[trigger] json_escaped(
            s,
        )[i] != '\n' && json_escaped(s)[i] != '\r' by {
            if i < a.len() {
                assert(json_escaped(s)[i] == a[i]);
            } else {
                assert(json_escaped(s)[i] == b[i - a.len()]);
            }
        }
    }
}

/// `s` with leading and trailing white space removed, as `str::trim` does.
pub open spec fn trim_chars(s: Seq<char>) -> Seq<char>
    decreases s.len(),
{
    if s.len() > 0 && is_white_space(s[0]) {
        trim_chars(s.drop_first())
    } else if s.len() > 0 && is_white_space(s.last()) {
        trim_chars(s.drop_last())
    } else {
        s
    }
}

/// Whether every character of `s` is white space.
pub open spec fn all_white_space(s: Seq<char>) -> bool {
    forall|i: int| 0 <= i < s.len() ==> is_white_space(#[trigger] s[i])
}

/// The trimmed text is the part between the white space at the start and the
/// white space at the end.
proof fn lemma_trim_subrange(s: Seq<char>, a: int, b: int)
    requires
        0 <= a <= b <= s.len(),
        forall|i: int| 0 <= i < a ==> is_white_space(#[trigger] s[i]),
        forall|i: int| b <= i < s.len() ==> is_white_space(#[trigger] s[i]),
        a < b ==> !is_white_space(s[a]) && !is_white_space(s[b - 1]),
    ensures
        trim_chars(s) == s.subrange(a, b),
    decreases s.len(),
{
    if s.len() > 0 && is_white_space(s[0]) {
        let t = s.drop_first();
        if a == 0 {
            // then a == b, and every character is white space
            assert(b == 0);
            lemma_trim_subrange(t, 0, 0);
            assert(s.subrange(a, b) =~= t.subrange(0, 0));
        } else {
            lemma_trim_subrange(t, a - 1, b - 1);
            assert(s.subrange(a, b) =~= t.subrange(a - 1, b - 1));
        }
    } else if s.len() > 0 && is_white_space(s.last()) {
        let t = s.drop_last();
        if b == s.len() {
            assert(a == b);
            lemma_trim_subrange(t, a - 1, a - 1);
            assert(false);
        } else {
            lemma_trim_subrange(t, a, b);
            assert(s.subrange(a, b) =~= t.subrange(a, b));
        }
    } else {
        if s.len() > 0 {
            assert(a == 0) by {
                if a > 0 {
                    assert(is_white_space(s[0]));
                }
            }
            assert(b == s.len()) by {
                if b < s.len() {
                    assert(is_white_space(s[s.len() - 1]));
                }
            }
        }
        assert(s.subrange(a, b) =~= s);
    }
}

/// Whether `s[a..b]` is what lies between the leading and the trailing
/// white space of `s`.
pub open spec fn inner_bounds(s: Seq<char>, a: int, b: int) -> bool {
    &&& 0 <= a <= b <= s.len()
    &&& forall|i: int| 0 <= i < a ==> is_white_space(#[trigger] s[i])
    &&& forall|i: int| b <= i < s.len() ==> is_white_space(#[trigger] s[i])
    &&& a < b ==> !is_white_space(s[a]) && !is_white_space(s[b - 1])
}

/// Every text has such bounds.
proof fn lemma_inner_bounds_exist(s: Seq<char>) -> (r: (int, int))
    ensures
        inner_bounds(s, r.0, r.1),
    decreases s.len(),
{
    if s.len() == 0 {
        (0, 0)
    } else if is_white_space(s[0]) {
        let t = s.drop_first();
        let (a, b) = lemma_inner_bounds_exist(t);
        assert forall|i: int| 0 <= i < a + 1 implies is_white_space(#[trigger] s[i]) by {
            if i > 0 {
                assert(s[i] == t[i - 1]);
            }
        }
        assert forall|i: int| b + 1 <= i < s.len() implies is_white_space(#[trigger] s[i]) by {
            assert(s[i] == t[i - 1]);
        }
        if a < b {
            assert(s[a + 1] == t[a] && s[b] == t[b - 1]);
        }
        (a + 1, b + 1)
    } else if is_white_space(s.last()) {
        let t = s.drop_last();
        let (a, b) = lemma_inner_bounds_exist(t);
        assert forall|i: int| 0 <= i < a implies is_white_space(#[trigger] s[i]) by {
            assert(s[i] == t[i]);
        }
        assert forall|i: int| b <= i < s.len() implies is_white_space(#[trigger] s[i]) by {
            if i < s.len() - 1 {
                assert(s[i] == t[i]);
            }
        }
        if a < b {
            assert(s[a] == t[a] && s[b - 1] == t[b - 1]);
        } else {
            assert(t.len() > 0);
            assert(s[0] == t[0]);
        }
        (a, b)
    } else {
        (0, s.len() as int)
    }
}

/// The trimmed text is the part of the text between its leading and
/// trailing white space, and neither starts nor ends with white space.
pub proof fn lemma_trim_is_inner_part(s: Seq<char>)
    ensures
        exists|a: int, b: int| inner_bounds(s, a, b) && trim_chars(s) == s.subrange(a, b),
        trim_chars(s).len() > 0 ==> !is_white_space(trim_chars(s)[0]) && !is_white_space(
            trim_chars(s).last(),
        ),
{
    let (a, b) = lemma_inner_bounds_exist(s);
    lemma_trim_subrange(s, a, b);
    assert(inner_bounds(s, a, b) && trim_chars(s) == s.subrange(a, b));
    if trim_chars(s).len() > 0 {
        assert(trim_chars(s)[0] == s[a]);
        assert(trim_chars(s).last() == s[b - 1]);
    }
}

/// The trimmed text is empty exactly when all of the text is white space.
pub proof fn lemma_trim_empty(s: Seq<char>)
    ensures
        (trim_chars(s).len() == 0) == all_white_space(s),
    decreases s.len(),
{
    if s.len() > 0 && is_white_space(s[0]) {
        lemma_trim_empty(s.drop_first());
        if all_white_space(s.drop_first()) {
            assert forall|i: int| 0 <= i < s.len() implies is_white_space(#[trigger] s[i]) by {
                if i > 0 {
                    assert(s[i] == s.drop_first()[i - 1]);
                }
            }
        }
        if all_white_space(s) {
            assert forall|i: int| 0 <= i < s.drop_first().len() implies is_white_space(
                #[trigger] s.drop_first()[i],
            ) by {
                assert(s.drop_first()[i] == s[i + 1]);
            }
        }
    } else if s.len() > 0 && is_white_space(s.last()) {
        lemma_trim_empty(s.drop_last());
        if all_white_space(s.drop_last()) {
            assert forall|i: int| 0 <= i < s.len() implies is_white_space(#[trigger] s[i]) by {
                if i < s.len() - 1 {
                    assert(s[i] == s.drop_last()[i]);
                }
            }
        }
        if all_white_space(s) {
            assert forall|i: int| 0 <= i < s.drop_last().len() implies is_white_space(
                #[trigger] s.drop_last()[i],
            ) by {
                assert(s.drop_last()[i] == s[i]);
            }
        }
    } else {
        if s.len() > 0 {
            assert(!is_white_space(s[0]));
        }
    }
}

/// White space put before a text does not change what is left of it after
/// trimming.
proof fn lemma_trim_pad_front(w: char, s: Seq<char>)
    requires
        is_white_space(w),
    ensures
        trim_chars(seq![w] + s) == trim_chars(s),
{
    assert((seq![w] + s).drop_first() =~= s);
}

/// White space put after a text does not change what is left of it after
/// trimming.
proof fn lemma_trim_pad_back(s: Seq<char>, w: char)
    requires
        is_white_space(w),
    ensures
        trim_chars(s + seq![w]) == trim_chars(s),
    decreases s.len(),
{
    let t = s + seq![w];
    if s.len() == 0 {
        assert(t.drop_first() =~= s);
    } else if is_white_space(s[0]) {
        assert(t[0] == s[0]);
        assert(t.drop_first() =~= s.drop_first() + seq![w]);
        lemma_trim_pad_back(s.drop_first(), w);
    } else {
        assert(t[0] == s[0]);
        assert(t.drop_last() =~= s);
    }
}

/// Any white space around a text leaves its trimmed form unchanged.
pub proof fn lemma_trim_ignores_padding(before: Seq<char>, s: Seq<char>, after: Seq<char>)
    requires
        all_white_space(before),
        all_white_space(after),
    ensures
        trim_chars(before + s + after) == trim_chars(s),
    decreases before.len() + after.len(),
{
    if before.len() > 0 {
        let rest = before.drop_first();
        assert(all_white_space(rest)) by {
            assert forall|i: int| 0 <= i < rest.len() implies is_white_space(#[trigger] rest[i]) by {
                assert(rest[i] == before[i + 1]);
            }
        }
        lemma_trim_ignores_padding(rest, s, after);
        assert(is_white_space(before[0]));
        assert(before + s + after =~= seq![before[0]] + (rest + s + after));
        lemma_trim_pad_front(before[0], rest + s + after);
    } else if after.len() > 0 {
        let rest = after.drop_last();
        assert(all_white_space(rest)) by {
            assert forall|i: int| 0 <= i < rest.len() implies is_white_space(#[trigger] rest[i]) by {
                assert(rest[i] == after[i]);
            }
        }
        lemma_trim_ignores_padding(before, s, rest);
        assert(is_white_space(after[after.len() - 1]));
        assert(before + s + after =~= (before + s + rest) + seq![after[after.len() - 1]]);
        lemma_trim_pad_back(before + s + rest, after[after.len() - 1]);
    } else {
        assert(before + s + after =~= s);
    }
}

/// `s` with leading and trailing white space removed.
pub fn trim(s: &str) -> (r: &str)
    ensures
        r@ == trim_chars(s@),
{
    let n = s.unicode_len();
    let mut a: usize = 0;
    while a < n && char_is_whitespace(s.get_char(a))
        invariant
            n == s@.len(),
            0 <= a <= n,
            forall|i: int| 0 <= i < a ==> is_white_space(#[trigger] s@[i]),
        decreases n - a,
    {
        a = a + 1;
    }
    let mut b: usize = n;
    while b > a && char_is_whitespace(s.get_char(b - 1))
        invariant
            n == s@.len(),
            0 <= a <= b <= n,
            a < n ==> !is_white_space(s@[a as int]),
            forall|i: int| b <= i < n ==> is_white_space(#[trigger] s@[i]),
        decreases b - a,
    {
        b = b - 1;
    }
    proof {
        lemma_trim_subrange(s@, a as int, b as int);
    }
    s.substring_char(a, b)
}

} // verus!
