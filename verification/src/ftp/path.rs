//! Paths of the FTP server: lists of names below the root of the card.

use crate::text;
use crate::text::{position, texts};
use vstd::prelude::*;
use vstd::string::*;

verus! {

// ---------------------------------------------------------------------------
// What a path argument means
// ---------------------------------------------------------------------------

/// `s` cut at every `separator`.
pub open spec fn split(s: Seq<char>, separator: char) -> Seq<Seq<char>>
    decreases s.len(),
{
    let at = position(s, separator);
    if at >= s.len() {
        seq![s]
    } else {
        proof {
            text::position_is_first(s, separator);
        }
        seq![s.take(at)] + split(s.skip(at + 1), separator)
    }
}

/// A path argument without the white space and the quotes around it, and with
/// slashes only.
pub open spec fn cleaned(arg: Seq<char>) -> Seq<char> {
    text::without_trailing(
        text::without_leading(text::trimmed(arg), Some('"')),
        Some('"'),
    ).map_values(
        |c: char|
            if c == '\\' {
                '/'
            } else {
                c
            },
    )
}

/// The path that one more component leads to.
pub open spec fn enter(path: Seq<Seq<char>>, component: Seq<char>) -> Seq<Seq<char>> {
    if component.len() == 0 || component == seq!['.'] {
        path
    } else if component == seq!['.', '.'] {
        if path.len() > 0 {
            path.drop_last()
        } else {
            path
        }
    } else {
        path.push(component)
    }
}

/// The path that the components lead to, one after another.
pub open spec fn enter_all(path: Seq<Seq<char>>, components: Seq<Seq<char>>) -> Seq<Seq<char>>
    decreases components.len(),
{
    if components.len() == 0 {
        path
    } else {
        enter(enter_all(path, components.drop_last()), components.last())
    }
}

/// Where a path argument leads: from the root if it begins with a slash, else
/// from the current directory.
pub open spec fn normalized(cwd: Seq<Seq<char>>, arg: Seq<char>) -> Seq<Seq<char>> {
    let path = cleaned(arg);
    let start = if path.len() > 0 && path[0] == '/' {
        Seq::empty()
    } else {
        cwd
    };
    enter_all(start, split(path, '/'))
}

/// The directory that a path argument speaks of, and the name in it. There is no
/// name where the argument names the current directory, or leads to the root.
pub open spec fn path_split(cwd: Seq<Seq<char>>, arg: Seq<char>) -> (
    Seq<Seq<char>>,
    Option<Seq<char>>,
) {
    let path = normalized(cwd, arg);
    let bare = text::trimmed(arg);
    if bare.len() == 0 || bare == seq!['.'] || path.len() == 0 {
        (path, None)
    } else {
        (path.drop_last(), Some(path.last()))
    }
}

/// A listing argument without the options (`-la`) before the path.
pub open spec fn without_options(s: Seq<char>) -> Seq<char>
    decreases s.len(),
{
    let at = position(s, ' ');
    if s.len() == 0 || s[0] != '-' {
        s
    } else if at < s.len() {
        proof {
            text::position_is_first(s, ' ');
            text::without_leading_is_shorter(s.skip(at + 1), None);
        }
        without_options(text::without_leading(s.skip(at + 1), None))
    } else {
        Seq::empty()
    }
}

/// Whether `target` is the current directory or one of its ancestors.
pub open spec fn covers(cwd: Seq<Seq<char>>, target: Seq<Seq<char>>) -> bool {
    &&& target.len() <= cwd.len()
    &&& forall|i: int|
        0 <= i < target.len() ==> text::same_ignoring_case(#[trigger] cwd[i], target[i])
}

/// A component that names an entry of a directory.
pub open spec fn is_name(component: Seq<char>) -> bool {
    &&& component.len() > 0
    &&& component != seq!['.']
    &&& component != seq!['.', '.']
    &&& forall|i: int|
        0 <= i < component.len() ==> #[trigger] component[i] != '/' && component[i] != '\\'
}

/// A path made of names only.
pub open spec fn is_path(path: Seq<Seq<char>>) -> bool {
    forall|i: int| 0 <= i < path.len() ==> is_name(#[trigger] path[i])
}

// ---------------------------------------------------------------------------
// Executable operations
// ---------------------------------------------------------------------------

fn is_dot(component: &str) -> (yes: bool)
    ensures
        yes == (component@ == seq!['.']),
{
    let chars = text::chars_of(component);
    let yes = chars.len() == 1 && chars[0] == '.';
    assert(yes ==> component@ =~= seq!['.']);
    yes
}

fn is_dot_dot(component: &str) -> (yes: bool)
    ensures
        yes == (component@ == seq!['.', '.']),
{
    let chars = text::chars_of(component);
    let yes = chars.len() == 2 && chars[0] == '.' && chars[1] == '.';
    assert(yes ==> component@ =~= seq!['.', '.']);
    yes
}

/// A path argument without the white space and the quotes around it, and with
/// slashes only.
fn clean(arg: &str) -> (out: Vec<char>)
    ensures
        out@ == cleaned(arg@),
{
    let bare = text::trim(arg);
    let opened = text::trim_leading(bare.as_str(), Some('"'));
    let unquoted = text::trim_trailing(opened.as_str(), Some('"'));
    let chars = text::chars_of(unquoted.as_str());
    let mut out: Vec<char> = Vec::new();
    let mut i: usize = 0;
    while i < chars.len()
        invariant
            i <= chars@.len(),
            chars@ == unquoted@,
            out@.len() == i,
            forall|j: int|
                0 <= j < i ==> out@[j] == if #[trigger] chars@[j] == '\\' {
                    '/'
                } else {
                    chars@[j]
                },
        decreases chars@.len() - i,
    {
        let c = chars[i];
        out.push(
            if c == '\\' {
                '/'
            } else {
                c
            },
        );
        i += 1;
    }
    assert(out@ =~= cleaned(arg@));
    out
}

/// Normalize `arg` against `cwd`: absolute when it starts with `/`, `..` pops.
pub fn normalize(cwd: &[String], arg: &str) -> (path: Vec<String>)
    ensures
        texts(path@) == normalized(texts(cwd@), arg@),
{
    let chars = clean(arg);
    let ghost whole = chars@;
    let mut path: Vec<String> = if chars.len() > 0 && chars[0] == '/' {
        Vec::new()
    } else {
        text::copy_strings(cwd)
    };
    let ghost start = if whole.len() > 0 && whole[0] == '/' {
        Seq::empty()
    } else {
        texts(cwd@)
    };
    assert(texts(path@) =~= start);
    let mut from: usize = 0;
    let ghost mut done: Seq<Seq<char>> = Seq::empty();
    assert(whole.skip(0) =~= whole);
    assert(done + split(whole, '/') =~= split(whole, '/'));
    loop
        invariant_except_break
            texts(path@) == enter_all(start, done),
            done + split(whole.skip(from as int), '/') == split(whole, '/'),
        invariant
            from <= chars@.len(),
            whole == chars@,
        ensures
            texts(path@) == enter_all(start, split(whole, '/')),
        decreases chars@.len() - from,
    {
        let ghost rest = whole.skip(from as int);
        let mut end: usize = from;
        while end < chars.len() && chars[end] != '/'
            invariant
                from <= end <= chars@.len(),
                forall|j: int| from <= j < end ==> chars@[j] != '/',
            decreases chars@.len() - end,
        {
            end += 1;
        }
        proof {
            text::position_is_first(rest, '/');
            let at = position(rest, '/');
            if at < end - from {
                assert(rest[at] == chars@[from + at]);
            }
            if at > end - from {
                assert(rest[end - from] == chars@[end as int]);
            }
        }
        let component = text::string_of(chars.as_slice(), from, end);
        assert(component@ =~= rest.take(end - from));
        let ghost before = texts(path@);
        if component.as_str().unicode_len() == 0 || is_dot(component.as_str()) {
        } else if is_dot_dot(component.as_str()) {
            let _ = path.pop();
            assert(before.len() > 0 ==> texts(path@) =~= before.drop_last());
        } else {
            path.push(component.clone());
            assert(texts(path@) =~= before.push(component@));
        }
        assert(texts(path@) == enter(before, component@));
        proof {
            let more = done.push(component@);
            assert(more.drop_last() =~= done);
            if end < whole.len() {
                assert(rest.skip(end - from + 1) =~= whole.skip(end + 1));
                assert(more + split(whole.skip(end + 1), '/') =~= done + split(rest, '/'));
            } else {
                assert(rest.take(end - from) =~= rest);
                assert(more =~= done + split(rest, '/'));
            }
            done = more;
        }
        if end >= chars.len() {
            break ;
        }
        from = end + 1;
    }
    path
}

/// Split a path argument into the directory's components and the name in it.
pub fn split_path(cwd: &[String], arg: &str) -> (parts: (Vec<String>, Option<String>))
    ensures
        texts(parts.0@) == path_split(texts(cwd@), arg@).0,
        parts.1 is Some <==> path_split(texts(cwd@), arg@).1 is Some,
        parts.1 matches Some(leaf) ==> leaf@ == path_split(texts(cwd@), arg@).1->0,
{
    let mut components = normalize(cwd, arg);
    let bare = text::trim(arg);
    if bare.as_str().unicode_len() == 0 || is_dot(bare.as_str()) {
        (components, None)
    } else {
        let ghost before = texts(components@);
        let leaf = components.pop();
        assert(before.len() > 0 ==> texts(components@) =~= before.drop_last());
        assert(before.len() == 0 ==> texts(components@) =~= before);
        (components, leaf)
    }
}

/// Split a path argument that has to name an entry of a directory.
pub fn need_leaf(cwd: &[String], arg: &str) -> (parts: Option<(Vec<String>, String)>)
    ensures
        parts is Some <==> path_split(texts(cwd@), arg@).1 is Some,
        parts matches Some((parent, leaf)) ==> texts(parent@) == path_split(
            texts(cwd@),
            arg@,
        ).0 && leaf@ == path_split(texts(cwd@), arg@).1->0,
{
    let (parent, leaf) = split_path(cwd, arg);
    match leaf {
        Some(leaf) => Some((parent, leaf)),
        None => None,
    }
}

/// A listing argument without white space around it and the options before the
/// path.
pub fn strip_list_options(arg: &str) -> (rest: String)
    ensures
        rest@ == without_options(text::trimmed(arg@)),
{
    let mut rest = text::trim(arg);
    loop
        invariant_except_break
            without_options(rest@) == without_options(text::trimmed(arg@)),
        ensures
            rest@ == without_options(text::trimmed(arg@)),
        decreases rest@.len(),
    {
        let chars = text::chars_of(rest.as_str());
        let at: usize = text::find_char(chars.as_slice(), ' ');
        proof {
            text::without_leading_is_shorter(rest@.skip(at + 1), None);
        }
        if chars.len() == 0 || chars[0] != '-' {
            break ;
        }
        if at < chars.len() {
            let tail = text::string_of(chars.as_slice(), at + 1, chars.len());
            assert(tail@ =~= rest@.skip(at + 1));
            rest = text::trim_leading(tail.as_str(), None);
        } else {
            rest = String::new();
            assert(rest@ =~= without_options(text::trimmed(arg@)));
            break ;
        }
    }
    rest
}

/// `true` when `target` is the current directory or one of its ancestors.
pub fn path_covers_cwd(cwd: &[String], target: &[String]) -> (yes: bool)
    ensures
        yes == covers(texts(cwd@), texts(target@)),
{
    if target.len() > cwd.len() {
        return false;
    }
    let ghost current = texts(cwd@);
    let ghost wanted = texts(target@);
    let mut i: usize = 0;
    while i < target.len()
        invariant
            i <= target@.len() <= cwd@.len(),
            current == texts(cwd@),
            wanted == texts(target@),
            forall|j: int|
                0 <= j < i ==> text::same_ignoring_case(#[trigger] current[j], wanted[j]),
        decreases target@.len() - i,
    {
        assert(current[i as int] == cwd@[i as int]@);
        assert(wanted[i as int] == target@[i as int]@);
        if !text::eq_ignoring_case(cwd[i].as_str(), target[i].as_str()) {
            return false;
        }
        i += 1;
    }
    true
}

// ---------------------------------------------------------------------------
// Facts and laws
// ---------------------------------------------------------------------------

/// Components that `split` gives hold no separator.
proof fn split_holds_no_separator(s: Seq<char>, separator: char)
    ensures
        forall|i: int, j: int|
            0 <= i < split(s, separator).len() && 0 <= j < split(s, separator)[i].len() ==> (
            #[trigger] split(s, separator)[i][j]) != separator && s.contains(
                split(s, separator)[i][j],
            ),
    decreases s.len(),
{
    text::position_is_first(s, separator);
    let at = position(s, separator);
    if at < s.len() {
        let tail = s.skip(at + 1);
        split_holds_no_separator(tail, separator);
        let parts = split(s, separator);
        assert forall|i: int, j: int|
            0 <= i < parts.len() && 0 <= j < parts[i].len() implies (#[trigger] parts[i][j])
            != separator && s.contains(parts[i][j]) by {
            if i == 0 {
                assert(parts[0][j] == s[j]);
            } else {
                assert(parts[i] == split(tail, separator)[i - 1]);
                let c = split(tail, separator)[i - 1][j];
                assert(tail.contains(c));
                let k = choose|k: int| 0 <= k < tail.len() && tail[k] == c;
                assert(s[at + 1 + k] == c);
            }
        }
    } else {
        assert forall|j: int| 0 <= j < s.len() implies s.contains(s[j]) by {}
    }
}

/// Entering components that hold no slash keeps a path a path.
proof fn enter_all_keeps_paths(path: Seq<Seq<char>>, components: Seq<Seq<char>>)
    requires
        is_path(path),
        forall|i: int, j: int|
            0 <= i < components.len() && 0 <= j < components[i].len() ==> (
            #[trigger] components[i][j]) != '/' && components[i][j] != '\\',
    ensures
        is_path(enter_all(path, components)),
    decreases components.len(),
{
    if components.len() > 0 {
        let shorter = components.drop_last();
        assert forall|i: int, j: int|
            0 <= i < shorter.len() && 0 <= j < shorter[i].len() implies (#[trigger] shorter[i][j])
            != '/' && shorter[i][j] != '\\' by {
            assert(shorter[i] == components[i]);
        }
        enter_all_keeps_paths(path, shorter);
        let last = components.len() - 1;
        assert forall|j: int| 0 <= j < components.last().len() implies (
        #[trigger] components.last()[j]) != '/' && components.last()[j] != '\\' by {
            assert(components[last][j] == components.last()[j]);
        }
    }
}

/// Normalizing gives a path of proper names: nothing in it is empty, `.`, `..`
/// or holds a slash.
pub proof fn normalized_is_a_path(cwd: Seq<Seq<char>>, arg: Seq<char>)
    requires
        is_path(cwd),
    ensures
        is_path(normalized(cwd, arg)),
{
    let s = cleaned(arg);
    split_holds_no_separator(s, '/');
    let parts = split(s, '/');
    assert forall|i: int, j: int|
        0 <= i < parts.len() && 0 <= j < parts[i].len() implies (#[trigger] parts[i][j]) != '/'
        && parts[i][j] != '\\' by {
        assert(s.contains(parts[i][j]));
    }
    let start = if s.len() > 0 && s[0] == '/' {
        Seq::empty()
    } else {
        cwd
    };
    enter_all_keeps_paths(start, parts);
}

/// The root has no parent: `..` there stays there.
pub proof fn root_has_no_parent()
    ensures
        enter(Seq::<Seq<char>>::empty(), seq!['.', '.']) == Seq::<Seq<char>>::empty(),
{
    assert(seq!['.', '.'] != seq!['.']) by {
        assert(seq!['.', '.'].len() != seq!['.'].len());
    }
}

/// An absolute path leads to the same place from everywhere.
pub proof fn absolute_path_ignores_cwd(cwd: Seq<Seq<char>>, other: Seq<Seq<char>>, arg: Seq<char>)
    requires
        cleaned(arg).len() > 0,
        cleaned(arg)[0] == '/',
    ensures
        normalized(cwd, arg) == normalized(other, arg),
{
}

/// A last component stands at the end of the parts.
proof fn split_ends_with(front: Seq<char>, last: Seq<char>)
    requires
        forall|i: int| 0 <= i < last.len() ==> #[trigger] last[i] != '/',
    ensures
        split(front + seq!['/'] + last, '/') == split(front, '/').push(last),
    decreases front.len(),
{
    let whole = front + seq!['/'] + last;
    let at = position(front, '/');
    text::position_is_first(front, '/');
    text::position_is_first(whole, '/');
    assert(whole[front.len() as int] == '/');
    if at < front.len() {
        assert(whole[at] == '/');
        assert(position(whole, '/') == at) by {
            assert forall|i: int| 0 <= i < at implies whole[i] != '/' by {
                assert(whole[i] == front[i]);
            }
        }
        split_ends_with(front.skip(at + 1), last);
        assert(whole.skip(at + 1) =~= front.skip(at + 1) + seq!['/'] + last);
        assert(whole.take(at) =~= front.take(at));
        assert(split(whole, '/') =~= split(front, '/').push(last));
    } else {
        assert(position(whole, '/') == front.len()) by {
            assert forall|i: int| 0 <= i < front.len() implies whole[i] != '/' by {
                assert(whole[i] == front[i]);
            }
        }
        text::position_is_first(last, '/');
        assert(whole.skip(front.len() as int + 1) =~= last);
        assert(whole.take(front.len() as int) =~= front);
        assert(split(last, '/') =~= seq![last]);
        assert(split(whole, '/') =~= split(front, '/').push(last));
    }
}

/// Joining the names of a path and cutting it again gives them back.
proof fn split_of_joined(path: Seq<Seq<char>>)
    requires
        is_path(path),
        path.len() > 0,
    ensures
        split(text::joined(path, seq!['/']), '/') == path,
    decreases path.len(),
{
    let last = path.last();
    assert(is_name(path[path.len() - 1]));
    if path.len() == 1 {
        text::position_is_first(last, '/');
        assert(split(last, '/') =~= path);
    } else {
        assert forall|i: int| 0 <= i < path.drop_last().len() implies is_name(
            #[trigger] path.drop_last()[i],
        ) by {
            assert(is_name(path[i]));
        }
        split_of_joined(path.drop_last());
        split_ends_with(text::joined(path.drop_last(), seq!['/']), last);
        assert(path.drop_last().push(last) =~= path);
    }
}

/// The names of a path lead to it from the root.
proof fn enter_all_of_path(path: Seq<Seq<char>>)
    requires
        is_path(path),
    ensures
        enter_all(Seq::empty(), seq![Seq::<char>::empty()] + path) == path,
    decreases path.len(),
{
    let parts = seq![Seq::<char>::empty()] + path;
    if path.len() == 0 {
        assert(parts.drop_last() =~= Seq::<Seq<char>>::empty());
        assert(parts.last() =~= Seq::<char>::empty());
        assert(enter_all(Seq::empty(), parts.drop_last()) =~= Seq::<Seq<char>>::empty());
    } else {
        assert(is_name(path[path.len() - 1]));
        assert forall|i: int| 0 <= i < path.drop_last().len() implies is_name(
            #[trigger] path.drop_last()[i],
        ) by {
            assert(is_name(path[i]));
        }
        enter_all_of_path(path.drop_last());
        assert(parts.drop_last() =~= seq![Seq::<char>::empty()] + path.drop_last());
        assert(path.drop_last().push(path.last()) =~= path);
    }
}

/// A joined path holds no backslash.
proof fn joined_has_no_backslash(path: Seq<Seq<char>>)
    requires
        is_path(path),
    ensures
        forall|i: int|
            0 <= i < text::joined(path, seq!['/']).len() ==> #[trigger] text::joined(
                path,
                seq!['/'],
            )[i] != '\\',
        path.len() > 0 ==> text::joined(path, seq!['/']).len() > 0 && text::joined(
            path,
            seq!['/'],
        ).last() == path.last().last(),
    decreases path.len(),
{
    if path.len() > 0 {
        assert(is_name(path[path.len() - 1]));
        if path.len() > 1 {
            assert forall|i: int| 0 <= i < path.drop_last().len() implies is_name(
                #[trigger] path.drop_last()[i],
            ) by {
                assert(is_name(path[i]));
            }
            joined_has_no_backslash(path.drop_last());
            let front = text::joined(path.drop_last(), seq!['/']);
            let whole = front + seq!['/'] + path.last();
            assert forall|i: int| 0 <= i < whole.len() implies #[trigger] whole[i] != '\\' by {
                if i > front.len() {
                    assert(whole[i] == path.last()[i - front.len() - 1]);
                }
            }
        }
    }
}

/// The path that the server shows leads back to the directory, from everywhere.
/// Names that end in a space or a quotation mark are cut when a path is read.
pub proof fn shown_path_leads_back(path: Seq<Seq<char>>, cwd: Seq<Seq<char>>)
    requires
        is_path(path),
        path.len() > 0 ==> !text::is_space(path.last().last()) && path.last().last() != '"',
    ensures
        normalized(cwd, "/"@ + text::joined(path, "/"@)) == path,
{
    reveal_strlit("/");
    assert("/"@ =~= seq!['/']);
    let names = text::joined(path, seq!['/']);
    let shown = seq!['/'] + names;
    joined_has_no_backslash(path);
    assert(path.len() == 0 ==> shown =~= seq!['/']);
    assert(shown.last() == if path.len() == 0 {
        '/'
    } else {
        path.last().last()
    });
    assert(shown[0] == '/');
    assert(text::trimmed(shown) == shown);
    assert(cleaned(shown) =~= shown);
    assert(position(shown, '/') == 0);
    assert(shown.take(0) =~= Seq::<char>::empty());
    assert(shown.skip(1) =~= names);
    if path.len() == 0 {
        assert(names =~= Seq::<char>::empty());
        assert(split(names, '/') =~= seq![Seq::<char>::empty()]);
        let parts = split(shown, '/');
        assert(parts =~= seq![Seq::<char>::empty(), Seq::<char>::empty()]);
        reveal_with_fuel(enter_all, 3);
        assert(enter_all(Seq::empty(), parts) =~= path);
    } else {
        split_of_joined(path);
        enter_all_of_path(path);
    }
}


/// An argument that is taken as it stands: nothing is cut off its ends, and it has no
/// backslash.
pub open spec fn is_plain(arg: Seq<char>) -> bool {
    &&& arg.len() > 0
    &&& !text::is_space(arg[0]) && !text::is_space(arg.last())
    &&& arg[0] != '"' && arg.last() != '"'
    &&& forall|i: int| 0 <= i < arg.len() ==> #[trigger] arg[i] != '\\'
}

proof fn plain_is_clean(arg: Seq<char>)
    requires
        is_plain(arg),
    ensures
        cleaned(arg) == arg,
        text::trimmed(arg) == arg,
{
    assert(text::without_leading(arg, None) == arg);
    assert(text::trimmed(arg) == arg);
    assert(cleaned(arg) =~= arg);
}

/// Where one step from a directory leads: an empty name and `.` stay, `..` goes to the parent,
/// which the root has not, and any other name goes down to the entry of that name.
pub open spec fn one_step(from: Seq<Seq<char>>, name: Seq<char>, to: Seq<Seq<char>>) -> bool {
    if name.len() == 0 || name.len() == 1 && name[0] == '.' {
        to == from
    } else if name.len() == 2 && name[0] == '.' && name[1] == '.' {
        if from.len() == 0 {
            to.len() == 0
        } else {
            to.len() == from.len() - 1 && to == from.take(from.len() - 1)
        }
    } else {
        &&& to.len() == from.len() + 1
        &&& to.take(from.len() as int) == from
        &&& to[from.len() as int] == name
    }
}

proof fn entering_is_one_step(from: Seq<Seq<char>>, name: Seq<char>)
    ensures
        one_step(from, name, enter(from, name)),
{
    if name.len() == 1 && name[0] == '.' {
        assert(name =~= seq!['.']);
    } else if name.len() == 2 && name[0] == '.' && name[1] == '.' {
        assert(name =~= seq!['.', '.']);
        assert(seq!['.', '.'].len() != seq!['.'].len());
        assert(from.len() > 0 ==> from.drop_last() =~= from.take(from.len() - 1));
    } else if name.len() > 0 {
        assert(name != seq!['.']);
        assert(name != seq!['.', '.']);
        assert(from.push(name).take(from.len() as int) =~= from);
    }
}

/// A single name leads one step from the current directory.
pub proof fn name_is_one_step(cwd: Seq<Seq<char>>, name: Seq<char>)
    requires
        is_plain(name),
        forall|i: int| 0 <= i < name.len() ==> #[trigger] name[i] != '/',
    ensures
        one_step(cwd, name, normalized(cwd, name)),
{
    plain_is_clean(name);
    text::position_is_first(name, '/');
    let parts = split(name, '/');
    assert(parts =~= seq![name]);
    assert(parts.drop_last() =~= Seq::<Seq<char>>::empty());
    assert(parts.last() == name);
    reveal_with_fuel(enter_all, 2);
    entering_is_one_step(cwd, name);
}

/// A further name behind a slash leads one step from where the path before it leads.
pub proof fn further_name_is_one_step(cwd: Seq<Seq<char>>, front: Seq<char>, name: Seq<char>)
    requires
        is_plain(front),
        is_plain(front + seq!['/'] + name),
        forall|i: int| 0 <= i < name.len() ==> #[trigger] name[i] != '/',
    ensures
        one_step(normalized(cwd, front), name, normalized(cwd, front + seq!['/'] + name)),
{
    let whole = front + seq!['/'] + name;
    plain_is_clean(front);
    plain_is_clean(whole);
    split_ends_with(front, name);
    assert(whole[0] == front[0]);
    let parts = split(front, '/').push(name);
    assert(parts.drop_last() =~= split(front, '/'));
    assert(parts.last() == name);
    let start = if front[0] == '/' {
        Seq::<Seq<char>>::empty()
    } else {
        cwd
    };
    entering_is_one_step(enter_all(start, split(front, '/')), name);
}

/// A slash in front leads to the root, and from there on.
pub proof fn slash_leads_from_the_root(cwd: Seq<Seq<char>>, name: Seq<char>)
    requires
        is_plain(seq!['/'] + name),
        forall|i: int| 0 <= i < name.len() ==> #[trigger] name[i] != '/',
    ensures
        one_step(Seq::empty(), name, normalized(cwd, seq!['/'] + name)),
{
    let whole = seq!['/'] + name;
    let none = Seq::<char>::empty();
    plain_is_clean(whole);
    split_ends_with(none, name);
    assert(none + seq!['/'] + name =~= whole);
    text::position_is_first(none, '/');
    assert(split(none, '/') =~= seq![none]);
    let parts = seq![none].push(name);
    assert(parts.drop_last() =~= seq![none]);
    assert(seq![none].drop_last() =~= Seq::<Seq<char>>::empty());
    reveal_with_fuel(enter_all, 3);
    assert(whole[0] == '/');
    entering_is_one_step(Seq::empty(), name);
}

/// Slashes lean either way.
pub proof fn backslashes_are_slashes(cwd: Seq<Seq<char>>, arg: Seq<char>, other: Seq<char>)
    requires
        arg.len() > 0,
        arg.len() == other.len(),
        !text::is_space(arg[0]) && !text::is_space(arg.last()),
        arg[0] != '"' && arg.last() != '"',
        forall|i: int|
            0 <= i < arg.len() ==> (#[trigger] other[i] == arg[i] || arg[i] == '\\' && other[i] == '/'),
    ensures
        normalized(cwd, other) == normalized(cwd, arg),
{
    assert(text::trimmed(arg) == arg);
    assert(other[0] == arg[0] || other[0] == '/');
    assert(other.last() == arg.last() || other.last() == '/');
    assert(text::trimmed(other) == other);
    assert(cleaned(other) =~= cleaned(arg));
}

/// What a command is about: an entry, named by the last component, of the directory that the
/// rest leads to; or the directory itself where the argument is blank, a dot, or leads to the
/// root.
pub proof fn argument_names_an_entry(cwd: Seq<Seq<char>>, arg: Seq<char>)
    ensures
        ({
            let (dir, leaf) = path_split(cwd, arg);
            let bare = text::trimmed(arg);
            let whole = normalized(cwd, arg);
            &&& leaf is None <==> bare.len() == 0 || bare.len() == 1 && bare[0] == '.'
                || whole.len() == 0
            &&& leaf is None ==> dir == whole
            &&& leaf matches Some(name) ==> dir.push(name) == whole
        }),
{
    let bare = text::trimmed(arg);
    let whole = normalized(cwd, arg);
    if bare.len() == 1 && bare[0] == '.' {
        assert(bare =~= seq!['.']);
    }
    if whole.len() > 0 {
        assert(whole.drop_last().push(whole.last()) =~= whole);
    }
}

/// Options before the path of a listing are passed over, one word after another; a path that
/// begins with anything else is taken as it stands.
pub proof fn options_are_passed_over(option: Seq<char>, rest: Seq<char>)
    requires
        option.len() > 0,
        option[0] == '-',
        forall|i: int| 0 <= i < option.len() ==> #[trigger] option[i] != ' ',
        rest.len() > 0 ==> !text::is_space(rest[0]),
    ensures
        without_options(option + seq![' '] + rest) == without_options(rest),
        without_options(option) == Seq::<char>::empty(),
        rest.len() == 0 || rest[0] != '-' ==> without_options(rest) == rest,
{
    let whole = option + seq![' '] + rest;
    text::position_is_first(whole, ' ');
    text::position_is_first(option, ' ');
    assert(whole[option.len() as int] == ' ');
    assert(position(whole, ' ') == option.len()) by {
        assert forall|i: int| 0 <= i < option.len() implies whole[i] != ' ' by {
            assert(whole[i] == option[i]);
        }
    }
    assert(whole.skip(option.len() as int + 1) =~= rest);
    assert(whole[0] == '-');
}

/// A directory holds the current one when its names are the first of that one's path, in any
/// case of letters.
pub proof fn ancestors_hold_the_current_directory(
    cwd: Seq<Seq<char>>,
    other: Seq<Seq<char>>,
    count: int,
)
    requires
        0 <= count <= cwd.len(),
    ensures
        covers(cwd, cwd.take(count)),
        other.len() > cwd.len() ==> !covers(cwd, other),
        covers(cwd, other) && 0 <= count < other.len() ==> text::uppercase(cwd[count])
            == text::uppercase(other[count]),
{
}

} // verus!
