//! Operations on text: suffixes, surrounding white space, file names of paths.

use vstd::prelude::*;

verus! {

/// The text `head` followed by the text `tail`.
pub(crate) fn joined(head: &str, tail: &str) -> (res: String)
    ensures
        res@ == head@ + tail@,
{
    head.to_string().concat(tail)
}

/// Whether a character has the Unicode property `White_Space`.
pub open spec fn white_space(c: char) -> bool {
    ||| '\u{9}' <= c <= '\u{d}'
    ||| c == ' '
    ||| c == '\u{85}'
    ||| c == '\u{a0}'
    ||| c == '\u{1680}'
    ||| '\u{2000}' <= c <= '\u{200a}'
    ||| c == '\u{2028}'
    ||| c == '\u{2029}'
    ||| c == '\u{202f}'
    ||| c == '\u{205f}'
    ||| c == '\u{3000}'
}

/// The text without the white space that it starts with.
pub open spec fn trim_start(s: Seq<char>) -> Seq<char>
    decreases s.len(),
{
    if s.len() > 0 && white_space(s[0]) {
        trim_start(s.drop_first())
    } else {
        s
    }
}

/// The text without the white space that it ends with.
pub open spec fn trim_end(s: Seq<char>) -> Seq<char>
    decreases s.len(),
{
    if s.len() > 0 && white_space(s.last()) {
        trim_end(s.drop_last())
    } else {
        s
    }
}

/// The text without the white space around it.
pub open spec fn trimmed(s: Seq<char>) -> Seq<char> {
    trim_end(trim_start(s))
}

/// Tells whether `c` is white space.
pub fn is_white_space(c: char) -> (res: bool)
    ensures
        res == white_space(c),
{
    ('\u{9}' <= c && c <= '\u{d}') || c == ' ' || c == '\u{85}' || c == '\u{a0}' || c == '\u{1680}'
        || ('\u{2000}' <= c && c <= '\u{200a}') || c == '\u{2028}' || c == '\u{2029}' || c
        == '\u{202f}' || c == '\u{205f}' || c == '\u{3000}'
}

/// The characters of `s`, in order.
fn chars_of(s: &str) -> (chars: Vec<char>)
    ensures
        chars@ == s@,
{
    let mut chars: Vec<char> = Vec::new();
    for c in iter: s.chars()
        invariant
            iter.seq() == s@,
            chars@ == s@.take(iter.index()),
    {
        chars.push(c);
    }
    chars
}

/// Returns `s` without the white space around it.
pub fn trim(s: &str) -> (res: String)
    ensures
        res@ == trimmed(s@),
{
    let chars = chars_of(s);
    let mut from: usize = 0;
    assert(s@.skip(0) == s@);
    while from < chars.len() && is_white_space(chars[from])
        invariant
            from <= chars.len(),
            chars@ == s@,
            trim_start(s@) == trim_start(s@.skip(from as int)),
        decreases chars.len() - from,
    {
        assert(s@.skip(from as int).drop_first() == s@.skip(from + 1));
        from += 1;
    }
    assert(trim_start(s@) == s@.skip(from as int));
    let mut to: usize = chars.len();
    assert(s@.skip(from as int) == s@.subrange(from as int, to as int));
    while from < to && is_white_space(chars[to - 1])
        invariant
            from <= to <= chars.len(),
            chars@ == s@,
            trimmed(s@) == trim_end(s@.subrange(from as int, to as int)),
        decreases to - from,
    {
        assert(s@.subrange(from as int, to as int).drop_last() == s@.subrange(
            from as int,
            to - 1,
        ));
        to -= 1;
    }
    s.substring_char(from, to).to_string()
}

/// Tells whether `s` ends with `suffix`.
pub fn ends_with(s: &str, suffix: &str) -> (res: bool)
    ensures
        res == suffix@.is_suffix_of(s@),
{
    let chars = chars_of(s);
    let tail = chars_of(suffix);
    if tail.len() > chars.len() {
        return false;
    }
    let offset: usize = chars.len() - tail.len();
    for i in 0..tail.len()
        invariant
            chars@ == s@,
            tail@ == suffix@,
            offset == chars.len() - tail.len(),
            forall|j: int| 0 <= j < i ==> #[trigger] suffix@[j] == s@[offset + j],
    {
        if chars[offset + i] != tail[i] {
            assert(s@.subrange(offset as int, s@.len() as int)[i as int] != suffix@[i as int]);
            return false;
        }
    }
    assert(suffix@ =~= s@.subrange(offset as int, s@.len() as int));
    true
}

/// Where the last component of a path starts: behind its last `/`, or at its first
/// character.
pub open spec fn component_start(path: Seq<char>) -> int
    decreases path.len(),
{
    if path.len() == 0 || path.last() == '/' {
        path.len() as int
    } else {
        component_start(path.drop_last())
    }
}

/// The file name of a path whose components are separated by `/`: its last component
/// that is neither empty nor `.`, unless there is none or it is `..`.
pub open spec fn path_file_name(path: Seq<char>) -> Option<Seq<char>>
    decreases path.len(),
{
    let component = path.skip(component_start(path));
    if path.len() == 0 {
        None
    } else if component.len() == 0 {
        path_file_name(path.drop_last())
    } else if component == seq!['.'] {
        path_file_name(path.drop_last())
    } else if component == seq!['.', '.'] {
        None
    } else {
        Some(component)
    }
}

/// A component lies within its path and holds no `/`.
proof fn lemma_component(path: Seq<char>)
    ensures
        0 <= component_start(path) <= path.len(),
        forall|i: int| component_start(path) <= i < path.len() ==> path[i] != '/',
        component_start(path) > 0 ==> path[component_start(path) - 1] == '/',
    decreases path.len(),
{
    if path.len() > 0 && path.last() != '/' {
        lemma_component(path.drop_last());
        assert forall|i: int| component_start(path) <= i < path.len() implies path[i] != '/' by {
            if i < path.len() - 1 {
                assert(path.drop_last()[i] == path[i]);
            }
        }
    }
}

/// The path with every `\` taken as `/`.
pub open spec fn with_slashes(path: Seq<char>) -> Seq<char> {
    path.map_values(
        |c: char|
            if c == '\\' {
                '/'
            } else {
                c
            },
    )
}

/// Whether a path may start with a drive, such as `C:`.
pub open spec fn may_have_drive(path: Seq<char>) -> bool {
    path.len() >= 2 && path[1] == ':'
}

/// Whether a character separates the components of a path on some platform.
pub open spec fn may_separate(c: char) -> bool {
    c == '/' || c == '\\'
}

/// Whether a path may start with a server or a device, such as `\\server\share`.
pub open spec fn may_have_server(path: Seq<char>) -> bool {
    path.len() >= 2 && may_separate(path[0]) && may_separate(path[1])
}

/// Whether every platform takes `path` apart at `/` alone.
pub open spec fn is_slash_path(path: Seq<char>) -> bool {
    &&& !path.contains('\\')
    &&& !may_have_drive(path)
    &&& !may_have_server(path)
}

/// Whether `name` is a part of `path` that starts behind a separator or with the path,
/// and is followed by nothing but separators and dots.
pub open spec fn is_last_part(path: Seq<char>, name: Seq<char>) -> bool {
    exists|from: int, to: int|
        #![trigger path.subrange(from, to)]
        {
            &&& 0 <= from < to <= path.len()
            &&& name == path.subrange(from, to)
            &&& from > 0 ==> may_separate(path[from - 1])
            &&& forall|i: int|
                to <= i < path.len() ==> may_separate(#[trigger] path[i]) || path[i] == '.'
        }
}

/// Whether `name` is the file name of `path` on some platform. Components are separated
/// by `/`, or by `/` and `\`; in the latter case a drive in front is no part of them,
/// and a server or a device in front leaves open where they start.
pub open spec fn names_file(path: Seq<char>, name: Option<Seq<char>>) -> bool {
    ||| name == path_file_name(path)
    ||| name == path_file_name(with_slashes(path))
    ||| may_have_drive(path) && name == path_file_name(with_slashes(path).skip(2))
    ||| may_have_server(path) && (name matches Some(part) ==> is_last_part(path, part))
}

/// Calls `std::path::Path::file_name`, which returns the last component of the path if
/// that is the name of a file or of a directory. The components are those of the
/// platform: separated by `/` on Unix, and by `/` or `\` on Windows, where a drive, a
/// server or a device in front is no component. Which platform it is is not said.
#[verifier::external_body]
pub(crate) fn file_name(path: &str) -> (res: Option<String>)
    ensures
        names_file(
            path@,
            match res {
                Some(name) => Some(name@),
                None => None,
            },
        ),
{
    std::path::Path::new(path).file_name().map(|name| name.to_string_lossy().into_owned())
}

/// How much of `s` is white space at its start.
proof fn lemma_trim_start(s: Seq<char>) -> (n: int)
    ensures
        0 <= n <= s.len(),
        trim_start(s) == s.skip(n),
        forall|i: int| 0 <= i < n ==> white_space(#[trigger] s[i]),
        n < s.len() ==> !white_space(s[n]),
    decreases s.len(),
{
    if s.len() > 0 && white_space(s[0]) {
        let m = lemma_trim_start(s.drop_first());
        assert(s.drop_first().skip(m) == s.skip(m + 1));
        assert forall|i: int| 0 <= i < m + 1 implies white_space(#[trigger] s[i]) by {
            if i > 0 {
                assert(s.drop_first()[i - 1] == s[i]);
            }
        }
        m + 1
    } else {
        assert(s.skip(0) == s);
        0
    }
}

/// How much of `s` is left without the white space at its end.
proof fn lemma_trim_end(s: Seq<char>) -> (n: int)
    ensures
        0 <= n <= s.len(),
        trim_end(s) == s.take(n),
        forall|i: int| n <= i < s.len() ==> white_space(#[trigger] s[i]),
        n > 0 ==> !white_space(s[n - 1]),
    decreases s.len(),
{
    if s.len() > 0 && white_space(s.last()) {
        let n = lemma_trim_end(s.drop_last());
        assert(s.drop_last().take(n) == s.take(n));
        assert forall|i: int| n <= i < s.len() implies white_space(#[trigger] s[i]) by {
            if i < s.len() - 1 {
                assert(s.drop_last()[i] == s[i]);
            }
        }
        n
    } else {
        assert(s.take(s.len() as int) == s);
        s.len() as int
    }
}

/// Trimming takes away white space only, at both ends, and leaves none there.
pub proof fn law_trimmed(s: Seq<char>)
    ensures
        exists|from: int, to: int|
            #![trigger s.subrange(from, to)]
            {
                &&& 0 <= from <= to <= s.len()
                &&& trimmed(s) == s.subrange(from, to)
                &&& forall|i: int|
                    0 <= i < from || to <= i < s.len() ==> white_space(#[trigger] s[i])
            },
        trimmed(s).len() > 0 ==> !white_space(trimmed(s)[0]) && !white_space(trimmed(s).last()),
{
    let from = lemma_trim_start(s);
    let rest = s.skip(from);
    let n = lemma_trim_end(rest);
    assert(rest.take(n) == s.subrange(from, from + n));
    assert forall|i: int| 0 <= i < from || from + n <= i < s.len() implies white_space(
        #[trigger] s[i],
    ) by {
        if i >= from {
            assert(rest[i - from] == s[i]);
        }
    }
}

/// Trimming twice is trimming once.
pub proof fn law_trim_idempotent(s: Seq<char>)
    ensures
        trimmed(trimmed(s)) == trimmed(s),
{
    law_trimmed(s);
}

/// A name without `/` that is neither empty nor `.` nor `..` is the file name of every
/// path that it ends behind a `/`, and of itself.
pub proof fn law_plain_name(dir: Seq<char>, name: Seq<char>)
    requires
        name.len() > 0,
        !name.contains('/'),
        name != seq!['.'],
        name != seq!['.', '.'],
    ensures
        path_file_name(name) == Some(name),
        path_file_name(dir + seq!['/'] + name) == Some(name),
{
    lemma_component(name);
    assert(component_start(name) == 0);
    assert(name.skip(0) == name);
    let path = dir + seq!['/'] + name;
    let start = component_start(path);
    lemma_component(path);
    assert(path[dir.len() as int] == '/');
    if start > dir.len() + 1 {
        assert(name[start - 1 - dir.len() - 1] == '/');
    }
    assert(path.skip(start) =~= name);
}

/// All platforms agree on the file name of a path that they take apart at `/` alone.
pub proof fn law_platforms_agree(path: Seq<char>, name: Option<Seq<char>>)
    requires
        is_slash_path(path),
        names_file(path, name),
    ensures
        name == path_file_name(path),
{
    assert forall|i: int| 0 <= i < path.len() implies path[i] != '\\' by {
        assert(path.contains(path[i]));
    }
    assert(with_slashes(path) =~= path);
}

/// All platforms agree on the file name of a path that ends behind a `/` with a name
/// that holds no separator and no `:` and is neither empty nor `.` nor `..`, unless the
/// path may start with a server or a device.
pub proof fn law_platforms_agree_on_plain_names(
    dir: Seq<char>,
    file: Seq<char>,
    name: Option<Seq<char>>,
)
    requires
        file.len() > 0,
        forall|i: int| 0 <= i < file.len() ==> !may_separate(#[trigger] file[i]) && file[i] != ':',
        file != seq!['.'],
        file != seq!['.', '.'],
        !may_have_server(dir + seq!['/'] + file),
        names_file(dir + seq!['/'] + file, name),
    ensures
        name == Some(file),
{
    let path = dir + seq!['/'] + file;
    law_plain_name(dir, file);
    law_plain_name(with_slashes(dir), file);
    assert(with_slashes(path) =~= with_slashes(dir) + seq!['/'] + file);
    if may_have_drive(path) {
        if dir.len() < 2 {
            assert(dir.len() == 0);
            assert(path[1] == file[0]);
        }
        let rest = with_slashes(dir).skip(2);
        law_plain_name(rest, file);
        assert(with_slashes(path).skip(2) =~= rest + seq!['/'] + file);
    }
}

/// A file name on which all platforms agree is never empty, holds no `/`, and is its own
/// file name.
pub proof fn law_file_name(path: Seq<char>)
    ensures
        path_file_name(path) matches Some(name) ==> {
            &&& name.len() > 0
            &&& !name.contains('/')
            &&& path_file_name(name) == Some(name)
        },
    decreases path.len(),
{
    if path.len() > 0 {
        lemma_component(path);
        let component = path.skip(component_start(path));
        if component.len() == 0 || component == seq!['.'] {
            law_file_name(path.drop_last());
        } else if component != seq!['.', '.'] {
            assert forall|i: int| 0 <= i < component.len() implies component[i] != '/' by {
                assert(component[i] == path[component_start(path) + i]);
            }
            law_plain_name(Seq::empty(), component);
        }
    }
}

/// Whether `whole` consists of `head` and `tail`, character for character.
pub open spec fn consists_of(whole: Seq<char>, head: Seq<char>, tail: Seq<char>) -> bool {
    &&& whole.len() == head.len() + tail.len()
    &&& forall|i: int| 0 <= i < head.len() ==> #[trigger] whole[i] == head[i]
    &&& forall|i: int| 0 <= i < tail.len() ==> whole[head.len() + i] == #[trigger] tail[i]
}

/// A text consists of nothing but the one text that its parts make together.
pub proof fn law_parts_tell_the_text(whole: Seq<char>, head: Seq<char>, tail: Seq<char>)
    ensures
        consists_of(whole, head, tail) <==> whole == head + tail,
{
    if consists_of(whole, head, tail) {
        assert forall|i: int| 0 <= i < whole.len() implies whole[i] == (head + tail)[i] by {
            if i >= head.len() {
                assert(whole[head.len() + (i - head.len())] == tail[i - head.len()]);
            }
        }
        assert(whole =~= head + tail);
    }
}

/// White space that is put around a text with none at its ends is what trimming takes
/// away.
pub proof fn law_trim_takes_padding_away(left: Seq<char>, text: Seq<char>, right: Seq<char>)
    requires
        forall|i: int| 0 <= i < left.len() ==> white_space(#[trigger] left[i]),
        forall|i: int| 0 <= i < right.len() ==> white_space(#[trigger] right[i]),
        text.len() > 0 ==> !white_space(text[0]) && !white_space(text.last()),
    ensures
        trimmed(left + text + right) == text,
{
    let s = left + text + right;
    let from = lemma_trim_start(s);
    let rest = s.skip(from);
    let n = lemma_trim_end(rest);
    if text.len() > 0 {
        assert(s[left.len() as int] == text[0]);
        if from < left.len() {
            assert(s[from] == left[from]);
        }
        assert(from == left.len());
        assert(rest[text.len() - 1] == text.last());
        if n > text.len() {
            assert(rest[n - 1] == right[n - 1 - text.len()]);
        }
        assert(n == text.len());
        assert(rest.take(n) =~= text);
    } else {
        assert forall|i: int| 0 <= i < s.len() implies white_space(#[trigger] s[i]) by {
            if i < left.len() {
                assert(s[i] == left[i]);
            } else {
                assert(s[i] == right[i - left.len()]);
            }
        }
        if n > 0 {
            assert(rest[n - 1] == s[from + n - 1]);
        }
        assert(rest.take(n) =~= text);
    }
}

/// A separator at the end of a path, or a `.` behind it, does not change the file name,
/// and a `..` behind it leaves none; nor have the empty path, `.` and `..` one.
pub proof fn law_file_name_of_other_paths(path: Seq<char>)
    ensures
        path_file_name(path + seq!['/']) == path_file_name(path),
        path_file_name(path + seq!['/', '.']) == path_file_name(path),
        path_file_name(path + seq!['/', '.', '.']) is None,
        path_file_name(Seq::empty()) is None,
        path_file_name(seq!['.']) is None,
        path_file_name(seq!['.', '.']) is None,
{
    let slash = path + seq!['/'];
    assert(slash.drop_last() =~= path);
    assert(slash.skip(slash.len() as int).len() == 0);
    let dot = path + seq!['/', '.'];
    assert(dot.drop_last() =~= slash);
    assert(component_start(slash) == slash.len());
    assert(component_start(dot) == slash.len());
    assert(dot.skip(slash.len() as int) =~= seq!['.']);
    let dots = path + seq!['/', '.', '.'];
    assert(dots.drop_last() =~= dot);
    assert(component_start(dots) == slash.len());
    assert(dots.skip(slash.len() as int) =~= seq!['.', '.']);
    let one = seq!['.'];
    assert(one.drop_last() =~= Seq::empty());
    assert(component_start(one.drop_last()) == 0);
    assert(component_start(one) == 0);
    assert(one.skip(0) =~= one);
    let two = seq!['.', '.'];
    assert(two.drop_last() =~= one);
    assert(component_start(two) == 0);
    assert(two.skip(0) =~= two);
}

/// What calls of `trim` return: the text without the white space that was put around it.
pub proof fn law_trim_calls(
    padded: &str,
    left: Seq<char>,
    text: Seq<char>,
    right: Seq<char>,
    res: String,
)
    requires
        call_ensures(trim, (padded,), res),
        padded@ == left + text + right,
        forall|i: int| 0 <= i < left.len() ==> white_space(#[trigger] left[i]),
        forall|i: int| 0 <= i < right.len() ==> white_space(#[trigger] right[i]),
        text.len() > 0 ==> !white_space(text[0]) && !white_space(text.last()),
    ensures
        res@ == text,
{
    law_trim_takes_padding_away(left, text, right);
}

/// What calls of `ends_with` return: whether the last characters of the text are those of
/// the suffix.
pub proof fn law_ends_with_calls(s: &str, suffix: &str, res: bool)
    requires
        call_ensures(ends_with, (s, suffix), res),
    ensures
        res <==> suffix@.len() <= s@.len() && forall|i: int|
            0 <= i < suffix@.len() ==> #[trigger] suffix@[i] == s@[s@.len() - suffix@.len() + i],
{
    if suffix@.len() <= s@.len() {
        let tail = s@.subrange(s@.len() - suffix@.len(), s@.len() as int);
        if res {
            assert forall|i: int| 0 <= i < suffix@.len() implies #[trigger] suffix@[i] == s@[s@.len()
                - suffix@.len() + i] by {
                assert(tail[i] == s@[s@.len() - suffix@.len() + i]);
            }
        }
        if forall|i: int|
            0 <= i < suffix@.len() ==> #[trigger] suffix@[i] == s@[s@.len() - suffix@.len() + i] {
            assert(suffix@ =~= tail);
        }
    }
}

/// Which characters are white space: those that Unicode lists as such, and no others.
pub proof fn law_white_space(c: char, res: bool)
    requires
        call_ensures(is_white_space, (c,), res),
    ensures
        res == white_space(c),
        res <==> {
            ||| c as u32 == 0x20 || 0x9 <= c as u32 <= 0xd
            ||| c as u32 == 0x85 || c as u32 == 0xa0 || c as u32 == 0x1680
            ||| 0x2000 <= c as u32 <= 0x200a
            ||| c as u32 == 0x2028 || c as u32 == 0x2029 || c as u32 == 0x202f
            ||| c as u32 == 0x205f || c as u32 == 0x3000
        },
{
}

} // verus!
