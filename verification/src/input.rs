//! What is made of the operator's input: a line is cleaned, an answer to a
//! yes/no question is decided, an editor is chosen.

use vstd::prelude::*;

verus! {

/// The editor that is started when the operator has chosen none.
pub const DEFAULT_EDITOR: &'static str = "nano";

/// Whether `c` is white space: whether it has the Unicode property
/// `White_Space`. The property holds of twenty-five characters: the
/// controls from tab to carriage return, the space, the next-line control,
/// the no-break space, the ogham space mark, the spaces of fixed width from
/// the en quad to the hair space, the line and the paragraph separator, the
/// narrow no-break space, the medium mathematical space and the
/// ideographic space.
pub open spec fn is_white_space(c: char) -> bool {
    let code = c as u32;
    ||| 0x0009 <= code <= 0x000D
    ||| code == 0x0020
    ||| code == 0x0085
    ||| code == 0x00A0
    ||| code == 0x1680
    ||| 0x2000 <= code <= 0x200A
    ||| code == 0x2028
    ||| code == 0x2029
    ||| code == 0x202F
    ||| code == 0x205F
    ||| code == 0x3000
}

/// Calls `char::is_whitespace`, which tells whether a character has the
/// property `White_Space`: the answer is true of the characters listed in
/// `is_white_space` and of no other.
#[verifier::external_body]
fn char_is_whitespace(c: char) -> (white: bool)
    ensures
        white == is_white_space(c),
{
    c.is_whitespace()
}

/// `s` without its leading white space.
pub open spec fn trim_front(s: Seq<char>) -> Seq<char>
    decreases s.len(),
{
    if s.len() > 0 && is_white_space(s.first()) {
        trim_front(s.drop_first())
    } else {
        s
    }
}

/// `s` without its trailing white space.
pub open spec fn trim_back(s: Seq<char>) -> Seq<char>
    decreases s.len(),
{
    if s.len() > 0 && is_white_space(s.last()) {
        trim_back(s.drop_last())
    } else {
        s
    }
}

/// `s` without the white space at either end; white space inside stays.
pub open spec fn trimmed(s: Seq<char>) -> Seq<char> {
    trim_back(trim_front(s))
}

/// Turns a line as it was read from the console, line break included, into
/// the operator's response: the white space at both ends is removed.
pub fn clean_line(raw: &str) -> (line: String)
    ensures
        line@ == trimmed(raw@),
{
    let n: usize = raw.unicode_len();
    let mut start: usize = 0;
    assert(raw@.subrange(0, n as int) =~= raw@);
    while start < n && char_is_whitespace(raw.get_char(start))
        invariant
            start <= n,
            n == raw@.len(),
            trim_front(raw@) == trim_front(raw@.subrange(start as int, n as int)),
        decreases n - start,
    {
        proof {
            assert(raw@.subrange(start as int, n as int).drop_first() =~= raw@.subrange(
                start + 1,
                n as int,
            ));
        }
        start += 1;
    }
    let mut end: usize = n;
    while end > start && char_is_whitespace(raw.get_char(end - 1))
        invariant
            start <= end <= n,
            n == raw@.len(),
            trim_back(raw@.subrange(start as int, n as int)) == trim_back(
                raw@.subrange(start as int, end as int),
            ),
        decreases end - start,
    {
        proof {
            assert(raw@.subrange(start as int, end as int).drop_last() =~= raw@.subrange(
                start as int,
                end - 1,
            ));
        }
        end -= 1;
    }
    raw.substring_char(start, end).to_owned()
}

/// Whether nothing but white space stands in `s` before `from` and from
/// `to` on.
pub open spec fn white_outside(s: Seq<char>, from: int, to: int) -> bool {
    &&& 0 <= from <= to <= s.len()
    &&& forall|i: int| 0 <= i < from || to <= i < s.len() ==> is_white_space(#[trigger] s[i])
}

/// The white space at both ends is all that cleaning removes, and a cleaned
/// line has none left there: what comes out is a stretch of the line with
/// nothing but white space before and after it, and it neither begins nor
/// ends with white space. It is empty exactly where the line holds nothing
/// but white space.
pub proof fn lemma_trimmed_is_clean(s: Seq<char>)
    ensures
        exists|from: int, to: int|
            #[trigger] white_outside(s, from, to) && s.subrange(from, to) == trimmed(s),
        trimmed(s).len() > 0 ==> !is_white_space(trimmed(s).first()),
        trimmed(s).len() > 0 ==> !is_white_space(trimmed(s).last()),
        trimmed(s).len() == 0 <==> white_outside(s, 0, 0),
{
    let front = trim_front(s);
    let from = s.len() - front.len();
    lemma_trim_front(s);
    lemma_trim_back(front);
    let to = from + trimmed(s).len();
    assert(s.subrange(from, to) =~= trimmed(s));
    assert(white_outside(s, from, to)) by {
        assert forall|i: int| to <= i < s.len() implies is_white_space(#[trigger] s[i]) by {
            assert(s[i] == front[i - from]);
        }
    }
}

/// Cleaning a cleaned line changes nothing.
pub proof fn lemma_trimmed_twice(s: Seq<char>)
    ensures
        trimmed(trimmed(s)) == trimmed(s),
{
    lemma_trimmed_is_clean(s);
}

/// `trim_front(s)` is the end of `s` from its first character that is no
/// white space.
proof fn lemma_trim_front(s: Seq<char>)
    ensures
        trim_front(s).len() <= s.len(),
        trim_front(s) == s.subrange(s.len() - trim_front(s).len(), s.len() as int),
        forall|i: int| 0 <= i < s.len() - trim_front(s).len() ==> is_white_space(#[trigger] s[i]),
        trim_front(s).len() > 0 ==> !is_white_space(trim_front(s).first()),
    decreases s.len(),
{
    if s.len() > 0 && is_white_space(s.first()) {
        let rest = s.drop_first();
        lemma_trim_front(rest);
        let kept = trim_front(rest).len();
        assert forall|i: int| 0 <= i < s.len() - kept implies is_white_space(#[trigger] s[i]) by {
            if i > 0 {
                assert(s[i] == rest[i - 1]);
            }
        }
    }
}

/// `trim_back(s)` is the start of `s` up to its last character that is no
/// white space.
proof fn lemma_trim_back(s: Seq<char>)
    ensures
        trim_back(s).len() <= s.len(),
        trim_back(s) == s.subrange(0, trim_back(s).len() as int),
        forall|i: int| trim_back(s).len() <= i < s.len() ==> is_white_space(#[trigger] s[i]),
        trim_back(s).len() > 0 ==> !is_white_space(trim_back(s).last()),
    decreases s.len(),
{
    if s.len() > 0 && is_white_space(s.last()) {
        let rest = s.drop_last();
        lemma_trim_back(rest);
        let kept = trim_back(rest).len();
        assert forall|i: int| kept <= i < s.len() implies is_white_space(#[trigger] s[i]) by {
            if i < s.len() - 1 {
                assert(s[i] == rest[i]);
            }
        }
    }
}

/// Whether `c` is the letter given in its lower or its upper case.
pub open spec fn is_letter(c: char, lower: char, upper: char) -> bool {
    c == lower || c == upper
}

/// Whether a response gives assent: an empty response does, and so do `y`
/// and `yes` in any mix of upper and lower case. Nothing else does.
pub open spec fn affirmative(response: Seq<char>) -> bool {
    ||| response.len() == 0
    ||| response.len() == 1 && is_letter(response[0], 'y', 'Y')
    ||| response.len() == 3 && is_letter(response[0], 'y', 'Y') && is_letter(response[1], 'e', 'E')
        && is_letter(response[2], 's', 'S')
}

/// Decides a yes/no question from the operator's response.
pub fn is_affirmative(response: &str) -> (yes: bool)
    ensures
        yes == affirmative(response@),
{
    let n: usize = response.unicode_len();
    if n == 0 {
        true
    } else if n == 1 {
        let c = response.get_char(0);
        c == 'y' || c == 'Y'
    } else if n == 3 {
        let y = response.get_char(0);
        let e = response.get_char(1);
        let s = response.get_char(2);
        (y == 'y' || y == 'Y') && (e == 'e' || e == 'E') && (s == 's' || s == 'S')
    } else {
        false
    }
}

/// The view of an optional text.
pub open spec fn text_view(text: Option<String>) -> Option<Seq<char>> {
    match text {
        Some(t) => Some(t@),
        None => None,
    }
}

/// The editor to start for the message body: the operator's choice where
/// there is one, taken as it stands, and `DEFAULT_EDITOR` otherwise.
pub open spec fn chosen_editor(choice: Option<Seq<char>>) -> Seq<char> {
    match choice {
        Some(editor) => editor,
        None => DEFAULT_EDITOR@,
    }
}

/// Picks the editor binary from the operator's override, if any.
pub fn editor_command(choice: Option<String>) -> (editor: String)
    ensures
        editor@ == chosen_editor(text_view(choice)),
{
    match choice {
        Some(editor) => editor,
        None => DEFAULT_EDITOR.to_owned(),
    }
}

} // verus!
