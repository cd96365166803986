//! The name and the place of the file that a session writes.
//!
//! A name that the caller asks for is made safe first: the characters that
//! file systems reserve become underscores, white space at both ends goes,
//! and the name gets the container's extension unless it ends in it already,
//! in whatever case. The place is the directory of the first audio source.

use vstd::prelude::*;
use vstd::string::StringExecFns;
use std::path::Path;

verus! {

/// Whether the character has the Unicode property `White_Space`: one of
/// twenty-five code points.
pub open spec fn is_whitespace(c: char) -> bool {
    ||| '\u{9}' <= c <= '\u{d}'
    ||| c == '\u{20}'
    ||| c == '\u{85}'
    ||| c == '\u{a0}'
    ||| c == '\u{1680}'
    ||| '\u{2000}' <= c <= '\u{200a}'
    ||| c == '\u{2028}'
    ||| c == '\u{2029}'
    ||| c == '\u{202f}'
    ||| c == '\u{205f}'
    ||| c == '\u{3000}'
}

/// What `str::to_lowercase` of the standard library returns for `text`: its
/// lowercase equivalent by the Unicode rules.
pub uninterp spec fn lowercase(text: Seq<char>) -> Seq<char>;

/// `char::is_whitespace`: whether the character has the Unicode property
/// `White_Space`.
#[verifier::external_body]
pub(crate) fn is_whitespace_char(c: char) -> (r: bool)
    ensures
        r == is_whitespace(c),
{
    c.is_whitespace()
}

/// `str::to_lowercase`, by its name.
#[verifier::external_body]
pub(crate) fn lowercase_of(text: &str) -> (r: String)
    ensures
        r@ == lowercase(text@),
{
    text.to_lowercase()
}

/// `Path::parent`: the path without its last component. What that is
/// depends on the platform's separators; on every platform the empty path
/// has no parent.
#[verifier::external_body]
pub(crate) fn parent_dir(path: &str) -> (r: Option<String>)
    ensures
        path@.len() == 0 ==> r is None,
{
    Path::new(path).parent().map(Path::to_string_lossy).map(String::from)
}

/// Whether a text is the plain name of one file: not empty, without a
/// separator of either platform, and neither `.` nor `..`.
pub open spec fn is_file_name(name: Seq<char>) -> bool {
    &&& name.len() > 0
    &&& !name.contains('/')
    &&& !name.contains('\\')
    &&& name != seq!['.']
    &&& name != seq!['.', '.']
}

/// `Path::join`: the path of `name` inside `dir`, with the platform's
/// separator. What stands before the name depends on the platform; on
/// every platform the path of a plain file name ends with that name.
#[verifier::external_body]
pub(crate) fn join_path(dir: &str, name: &str) -> (r: String)
    ensures
        is_file_name(name@) ==> has_suffix(r@, name@),
{
    Path::new(dir).join(name).to_string_lossy().into_owned()
}

/// Whether file systems reserve the character.
pub open spec fn is_reserved(c: char) -> bool {
    c == '/' || c == '\\' || c == ':' || c == '*' || c == '?' || c == '"' || c == '<' || c == '>'
        || c == '|'
}

/// The character that stands for `c` in a safe name.
pub open spec fn safe_char(c: char) -> char {
    if is_reserved(c) {
        '_'
    } else {
        c
    }
}

/// `name` with an underscore for every reserved character.
pub open spec fn without_reserved(name: Seq<char>) -> Seq<char> {
    name.map_values(|c: char| safe_char(c))
}

/// The number of white-space characters that `s` starts with.
pub open spec fn leading_whitespace(s: Seq<char>) -> nat
    decreases s.len(),
{
    if s.len() > 0 && is_whitespace(s[0]) {
        1 + leading_whitespace(s.drop_first())
    } else {
        0
    }
}

/// The number of white-space characters that `s` ends with.
pub open spec fn trailing_whitespace(s: Seq<char>) -> nat
    decreases s.len(),
{
    if s.len() > 0 && is_whitespace(s.last()) {
        1 + trailing_whitespace(s.drop_last())
    } else {
        0
    }
}

/// `s` without the white space at its two ends.
pub open spec fn trimmed(s: Seq<char>) -> Seq<char> {
    let rest = s.skip(leading_whitespace(s) as int);
    rest.take(rest.len() - trailing_whitespace(rest))
}

/// Whether `s` ends with `suffix`.
pub open spec fn has_suffix(s: Seq<char>, suffix: Seq<char>) -> bool {
    s.len() >= suffix.len() && s.skip(s.len() - suffix.len()) == suffix
}

/// A name made safe: reserved characters replaced, then trimmed.
pub open spec fn safe_name(name: Seq<char>) -> Seq<char> {
    trimmed(without_reserved(name))
}

/// `name` with the container's extension, given the lowercase form of it.
pub open spec fn extended(name: Seq<char>, lowered: Seq<char>) -> Seq<char> {
    if has_suffix(lowered, ".mp4"@) {
        name
    } else {
        name + ".mp4"@
    }
}

/// The name of the output file for a name that the caller asked for, or for
/// none.
pub open spec fn output_name(requested: Option<Seq<char>>) -> Seq<char> {
    match requested {
        Some(name) => extended(safe_name(name), lowercase(safe_name(name))),
        None => "output.mp4"@,
    }
}

/// A safe name holds no separator of either platform.
pub proof fn lemma_safe_name_has_no_separator(name: Seq<char>)
    ensures
        !safe_name(name).contains('/'),
        !safe_name(name).contains('\\'),
{
    let replaced = without_reserved(name);
    let safe = safe_name(name);
    let start = leading_whitespace(replaced) as int;
    lemma_leading_whitespace_bounds(replaced);
    lemma_trailing_whitespace_bounds(replaced.skip(start));
    assert forall|i: int| 0 <= i < safe.len() implies safe[i] != '/' && safe[i] != '\\' by {
        assert(safe[i] == replaced[start + i]);
        assert(replaced[start + i] == safe_char(name[start + i]));
    }
}

/// The run of white space at the start of a text is no longer than the text.
pub proof fn lemma_leading_whitespace_bounds(s: Seq<char>)
    ensures
        leading_whitespace(s) <= s.len(),
    decreases s.len(),
{
    if s.len() > 0 && is_whitespace(s[0]) {
        lemma_leading_whitespace_bounds(s.drop_first());
    }
}

/// The run of white space at the end of a text is no longer than the text.
pub proof fn lemma_trailing_whitespace_bounds(s: Seq<char>)
    ensures
        trailing_whitespace(s) <= s.len(),
    decreases s.len(),
{
    if s.len() > 0 && is_whitespace(s.last()) {
        lemma_trailing_whitespace_bounds(s.drop_last());
    }
}

/// The name of the output file is the plain name of one file, unless it is
/// empty, `.` or `..`: it holds no separator of either platform.
pub proof fn lemma_output_name_is_file_name(requested: Option<Seq<char>>)
    ensures
        is_file_name(output_name(requested)) || output_name(requested).len() == 0
            || output_name(requested) == seq!['.'] || output_name(requested) == seq!['.', '.'],
        requested is None ==> is_file_name(output_name(requested)),
{
    reveal_strlit(".mp4");
    reveal_strlit("output.mp4");
    let result = output_name(requested);
    match requested {
        Some(name) => {
            let safe = safe_name(name);
            lemma_safe_name_has_no_separator(name);
            assert forall|i: int| 0 <= i < result.len() implies result[i] != '/' && result[i]
                != '\\' by {
                if i < safe.len() {
                    assert(safe.contains(result[i]));
                } else {
                    assert(result[i] == ".mp4"@[i - safe.len()]);
                }
            }
        },
        None => {
            assert(result.len() == 10);
            assert(result[0] == 'o');
        },
    }
}

/// A run of white space that ends at `k`, where `s` ends or goes on with
/// another character, is the run that `s` starts with.
pub proof fn lemma_leading_whitespace(s: Seq<char>, k: int)
    requires
        0 <= k <= s.len(),
        forall|i: int| 0 <= i < k ==> is_whitespace(#[trigger] s[i]),
        k == s.len() || !is_whitespace(s[k]),
    ensures
        leading_whitespace(s) == k,
    decreases k,
{
    if k > 0 {
        let t = s.drop_first();
        lemma_leading_whitespace(t, k - 1);
    }
}

/// A run of `k` white-space characters at the end of `s`, with another
/// character or nothing before it, is the run that `s` ends with.
pub proof fn lemma_trailing_whitespace(s: Seq<char>, k: int)
    requires
        0 <= k <= s.len(),
        forall|i: int| s.len() - k <= i < s.len() ==> is_whitespace(#[trigger] s[i]),
        k == s.len() || !is_whitespace(s[s.len() - k - 1]),
    ensures
        trailing_whitespace(s) == k,
    decreases k,
{
    if k > 0 {
        let t = s.drop_last();
        lemma_trailing_whitespace(t, k - 1);
    }
}

/// The characters of a text.
pub fn chars_of(text: &str) -> (chars: Vec<char>)
    ensures
        chars@ == text@,
{
    let mut chars: Vec<char> = Vec::new();
    for c in it: text.chars()
        invariant
            it.seq() == text@,
            chars@ == text@.take(it.index() as int),
    {
        chars.push(c);
    }
    chars
}

/// Whether the two texts are the same.
pub fn same_text(a: &str, b: &str) -> (r: bool)
    ensures
        r == (a@ == b@),
{
    a.to_owned() == b.to_owned()
}

/// Replaces every reserved character by an underscore.
pub fn replace_reserved(name: &str) -> (r: String)
    ensures
        r@ == without_reserved(name@),
{
    let ghost target = without_reserved(name@);
    let mut out = String::new();
    for c in it: name.chars()
        invariant
            it.seq() == name@,
            target == without_reserved(name@),
            out@ == target.take(it.index() as int),
    {
        let reserved: bool = c == '/' || c == '\\' || c == ':' || c == '*' || c == '?' || c == '"'
            || c == '<' || c == '>' || c == '|';
        let d: char = if reserved { '_' } else { c };
        out.push(d);
    }
    out
}

/// Removes the white space at the two ends of a text.
pub fn trim_whitespace(text: &str) -> (r: String)
    ensures
        r@ == trimmed(text@),
{
    let chars = chars_of(text);
    let n: usize = chars.len();
    let mut start: usize = 0;
    let mut stopped = false;
    while start < n && !stopped
        invariant
            n == chars.len(),
            start <= n,
            forall|i: int| 0 <= i < start ==> is_whitespace(#[trigger] chars@[i]),
            stopped ==> start < n && !is_whitespace(chars@[start as int]),
        decreases n - start + (if stopped { 0int } else { 1int }),
    {
        if is_whitespace_char(chars[start]) {
            start += 1;
        } else {
            stopped = true;
        }
    }
    let mut end: usize = n;
    stopped = false;
    while end > start && !stopped
        invariant
            n == chars.len(),
            start <= end <= n,
            forall|i: int| end <= i < n ==> is_whitespace(#[trigger] chars@[i]),
            stopped ==> end > start && !is_whitespace(chars@[end - 1]),
        decreases end - start + (if stopped { 0int } else { 1int }),
    {
        if is_whitespace_char(chars[end - 1]) {
            end -= 1;
        } else {
            stopped = true;
        }
    }
    let ghost rest = chars@.skip(start as int);
    proof {
        lemma_leading_whitespace(chars@, start as int);
        lemma_trailing_whitespace(rest, n - end);
    }
    let ghost kept = rest.take(end - start);
    let mut out = String::new();
    let mut i: usize = start;
    while i < end
        invariant
            n == chars.len(),
            start <= i <= end <= n,
            rest == chars@.skip(start as int),
            kept == rest.take(end - start),
            out@ == kept.take(i - start),
        decreases end - i,
    {
        out.push(chars[i]);
        i += 1;
    }
    out
}

/// Whether `text` ends with `suffix`.
pub fn ends_with(text: &str, suffix: &str) -> (r: bool)
    ensures
        r == has_suffix(text@, suffix@),
{
    let a = chars_of(text);
    let b = chars_of(suffix);
    if a.len() < b.len() {
        return false;
    }
    let shift: usize = a.len() - b.len();
    let ghost tail = a@.skip(shift as int);
    let mut i: usize = 0;
    while i < b.len()
        invariant
            a@ == text@,
            b@ == suffix@,
            shift + b.len() == a.len(),
            tail == a@.skip(shift as int),
            i <= b.len(),
            forall|j: int| 0 <= j < i ==> tail[j] == b@[j],
        decreases b.len() - i,
    {
        if a[shift + i] != b[i] {
            return false;
        }
        i += 1;
    }
    assert(tail =~= b@);
    true
}

/// A name made safe for the file system.
pub fn sanitize_file_name(name: &str) -> (r: String)
    ensures
        r@ == safe_name(name@),
{
    let replaced = replace_reserved(name);
    trim_whitespace(replaced.as_str())
}

/// Gives `name` the container's extension unless `lowered`, its lowercase
/// form, ends in it.
pub fn with_video_extension(name: String, lowered: &str) -> (r: String)
    ensures
        r@ == extended(name@, lowered@),
{
    if ends_with(lowered, ".mp4") {
        name
    } else {
        let mut r = name;
        r.append(".mp4");
        r
    }
}

/// The name of the output file.
pub fn output_file_name(requested: &Option<String>) -> (r: String)
    ensures
        r@ == output_name(
            match *requested {
                Some(name) => Some(name@),
                None => None,
            },
        ),
{
    match requested {
        Some(name) => {
            let safe = sanitize_file_name(name.as_str());
            let lowered = lowercase_of(safe.as_str());
            with_video_extension(safe, lowered.as_str())
        },
        None => String::from_str("output.mp4"),
    }
}

} // verus!
