use vstd::prelude::*;
use vstd::std_specs::iter::IteratorSpec;
use vstd::string::StrSliceExecFns;

verus! {

broadcast use vstd::string::group_string_axioms;

/// A header comment line: `//`, then one word, with any whitespace around.
pub const HEADER_PATTERN: &'static str = r"^\s*//\s*(\w+)\s*$";

/// The text that the first capture group of the regular expression `pattern`
/// takes in `text`, where the pattern compiles and matches.
pub uninterp spec fn regex_group_one(pattern: Seq<char>, text: Seq<char>) -> Option<Seq<char>>;

/// Relies on regex's `Regex::captures` (after `Regex::new`): the text of group
/// one in the leftmost match of `pattern` in `text`; `None` where the pattern
/// does not compile, does not match, or group one takes no part in the match.
#[verifier::external_body]
fn capture_group_one(pattern: &str, text: &str) -> (r: Option<String>)
    ensures
        r is Some <==> regex_group_one(pattern@, text@) is Some,
        r matches Some(g) ==> regex_group_one(pattern@, text@) == Some(g@),
{
    let re = regex::Regex::new(pattern).ok()?;
    let captures = re.captures(text)?;
    captures.get(1).map(|m| String::from(m.as_str()))
}

/// The index of the first line feed in `s` at or after `i`, or the length of
/// `s` where there is none.
pub open spec fn line_end(s: Seq<char>, i: int) -> int
    decreases s.len() - i,
{
    if i < 0 || i >= s.len() || s[i] == '\n' {
        i
    } else {
        line_end(s, i + 1)
    }
}

/// The first line of `s`: the text before the first line feed, without a
/// carriage return that ends it; `None` for an empty text, which has no line.
pub open spec fn first_line_of(s: Seq<char>) -> Option<Seq<char>> {
    if s.len() == 0 {
        None
    } else {
        let k = line_end(s, 0);
        if k < s.len() && k > 0 && s[k - 1] == '\r' {
            Some(s.subrange(0, k - 1))
        } else {
            Some(s.subrange(0, k))
        }
    }
}

/// The base type that a source text declares: the word of its first line
/// where that line is a header comment, else the empty text.
pub open spec fn base_type_of(source: Seq<char>) -> Seq<char> {
    match first_line_of(source) {
        Some(line) => match regex_group_one(HEADER_PATTERN@, line) {
            Some(word) => word,
            None => Seq::empty(),
        },
        None => Seq::empty(),
    }
}

proof fn lemma_line_end_bounds(s: Seq<char>, i: int)
    requires
        0 <= i <= s.len(),
    ensures
        i <= line_end(s, i) <= s.len(),
    decreases s.len() - i,
{
    if i < s.len() && s[i] != '\n' {
        lemma_line_end_bounds(s, i + 1);
    }
}

/// The first line of `source`, as `str::lines` gives it.
pub fn first_line(source: &str) -> (r: Option<&str>)
    ensures
        r is Some <==> first_line_of(source@) is Some,
        r matches Some(l) ==> first_line_of(source@) == Some(l@),
{
    let n = source.unicode_len();
    if n == 0 {
        return None;
    }
    let mut chars = source.chars();
    let mut k: usize = 0;
    let mut found = false;
    while k < n
        invariant_except_break
            IteratorSpec::remaining(&chars) == source@.subrange(k as int, n as int),
            !found,
        invariant
            n == source@.len(),
            0 <= k <= n,
            line_end(source@, k as int) == line_end(source@, 0),
        ensures
            0 <= k <= n,
            found ==> k < n && source@[k as int] == '\n',
            !found ==> k == n,
            line_end(source@, k as int) == line_end(source@, 0),
        decreases n - k,
    {
        match chars.next() {
            Some(c) => {
                assert(source@.subrange(k as int, n as int)[0] == source@[k as int]);
                if c == '\n' {
                    found = true;
                    break;
                }
                assert(source@.subrange(k as int, n as int).drop_first() =~= source@.subrange(
                    k + 1,
                    n as int,
                ));
                k = k + 1;
            },
            None => {
                break;
            },
        }
    }
    proof {
        lemma_line_end_bounds(source@, 0);
    }
    assert(k == n || source@[k as int] == '\n');
    assert(line_end(source@, k as int) == k);
    if found && k > 0 && source.get_char(k - 1) == '\r' {
        Some(source.substring_char(0, k - 1))
    } else {
        Some(source.substring_char(0, k))
    }
}

/// The base type declared by the header comment on the first line of
/// `source`, or the empty string where there is none.
pub fn get_base_type(source: &str) -> (r: String)
    ensures
        r@ == base_type_of(source@),
{
    match first_line(source) {
        Some(line) => match capture_group_one(HEADER_PATTERN, line) {
            Some(word) => word,
            None => String::new(),
        },
        None => String::new(),
    }
}

} // verus!
