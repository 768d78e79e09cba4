//! Path naming: the file name of a path, its extension, and the scope-prefixed
//! name under which a workspace file is stored in the target directory.
//!
//! Paths are `/`-separated. The file name of a path is its last component; a
//! path whose last component is empty, `.` or `..` names no file.
use vstd::prelude::*;

verus! {

/// Index of the last occurrence of `c` in `s`, or -1 when `s` holds none.
pub open spec fn last_index(s: Seq<char>, c: char) -> int
    decreases s.len(),
{
    if s.len() == 0 {
        -1
    } else if s.last() == c {
        s.len() - 1
    } else {
        last_index(s.drop_last(), c)
    }
}

/// The last `/`-separated component of `p`.
pub open spec fn file_name(p: Seq<char>) -> Seq<char> {
    p.subrange(last_index(p, '/') + 1, p.len() as int)
}

/// Whether a component names a file: it is neither empty, `.` nor `..`.
pub open spec fn names_file(n: Seq<char>) -> bool {
    n.len() > 0 && n != seq!['.'] && n != seq!['.', '.']
}

/// The extension of the file that `p` names: what follows the last `.` of its
/// file name, when that `.` is not the name's first character.
pub open spec fn extension(p: Seq<char>) -> Option<Seq<char>> {
    let n = file_name(p);
    let d = last_index(n, '.');
    if names_file(n) && d > 0 {
        Some(n.subrange(d + 1, n.len() as int))
    } else {
        None
    }
}

/// `{target}/{scope}--{name}`.
pub open spec fn target_path(target: Seq<char>, scope: Seq<char>, name: Seq<char>) -> Seq<char> {
    target + seq!['/'] + scope + seq!['-', '-'] + name
}

/// Where the copy of `source` made for `scope` lives under `target`, if
/// `source` names a file.
pub open spec fn target_of(source: Seq<char>, target: Seq<char>, scope: Seq<char>) -> Option<
    Seq<char>,
> {
    if names_file(file_name(source)) {
        Some(target_path(target, scope, file_name(source)))
    } else {
        None
    }
}

/// Whether `s` ends with `suffix`.
pub open spec fn ends_with(s: Seq<char>, suffix: Seq<char>) -> bool {
    s.len() >= suffix.len() && s.subrange(s.len() - suffix.len(), s.len() as int) == suffix
}

proof fn lemma_last_index(s: Seq<char>, c: char, i: int)
    requires
        0 <= i <= s.len(),
        forall|k: int| i <= k < s.len() ==> s[k] != c,
        i == 0 || s[i - 1] == c,
    ensures
        last_index(s, c) == i - 1,
    decreases s.len(),
{
    if s.len() > i {
        lemma_last_index(s.drop_last(), c, i);
    }
}

/// The last index of `c` in `s`.
fn find_last(s: &str, c: char) -> (r: Option<usize>)
    ensures
        match r {
            Some(i) => i < s@.len() && i == last_index(s@, c),
            None => last_index(s@, c) == -1,
        },
{
    let n = s.unicode_len();
    let mut i: usize = n;
    while i > 0
        invariant
            i <= n,
            n == s@.len(),
            forall|k: int| i <= k < n ==> s@[k] != c,
        decreases i,
    {
        if s.get_char(i - 1) == c {
            proof {
                lemma_last_index(s@, c, i as int);
            }
            return Some(i - 1);
        }
        i = i - 1;
    }
    proof {
        lemma_last_index(s@, c, 0);
    }
    None
}

fn is_file_component(n: &str) -> (r: bool)
    ensures
        r == names_file(n@),
{
    let len = n.unicode_len();
    if len == 0 {
        return false;
    }
    if len == 1 {
        let dot = n.get_char(0) == '.';
        if dot {
            assert(n@ =~= seq!['.']);
        } else {
            assert(n@[0] != seq!['.', '.'][0]);
        }
        return !dot;
    }
    if len == 2 {
        let dots = n.get_char(0) == '.' && n.get_char(1) == '.';
        if dots {
            assert(n@ =~= seq!['.', '.']);
        } else {
            assert(n@[0] != seq!['.', '.'][0] || n@[1] != seq!['.', '.'][1]);
        }
        return !dots;
    }
    assert(n@.len() != seq!['.'].len());
    assert(n@.len() != seq!['.', '.'].len());
    true
}

/// The last component of `path`.
fn last_component(path: &str) -> (r: &str)
    ensures
        r@ == file_name(path@),
{
    let len = path.unicode_len();
    let start: usize = match find_last(path, '/') {
        Some(i) => i + 1,
        None => 0,
    };
    path.substring_char(start, len)
}

/// The file name of `path`, when it names a file.
pub fn file_name_of(path: &str) -> (r: Option<String>)
    ensures
        r.deep_view() == (if names_file(file_name(path@)) {
            Some(file_name(path@))
        } else {
            None
        }),
{
    let name = last_component(path);
    if is_file_component(name) {
        Some(String::from_str(name))
    } else {
        None
    }
}

/// The extension of the file that `path` names.
pub fn extension_of(path: &str) -> (r: Option<String>)
    ensures
        r.deep_view() == extension(path@),
{
    let name = last_component(path);
    if !is_file_component(name) {
        return None;
    }
    let len = name.unicode_len();
    match find_last(name, '.') {
        Some(d) => {
            if d > 0 {
                Some(String::from_str(name.substring_char(d + 1, len)))
            } else {
                None
            }
        },
        None => None,
    }
}

/// Whether `s` ends with `suffix`.
pub fn str_ends_with(s: &str, suffix: &str) -> (r: bool)
    ensures
        r == ends_with(s@, suffix@),
{
    let n = s.unicode_len();
    let m = suffix.unicode_len();
    if n < m {
        return false;
    }
    let mut i: usize = 0;
    while i < m
        invariant
            i <= m <= n,
            n == s@.len(),
            m == suffix@.len(),
            forall|k: int| 0 <= k < i ==> s@[n - m + k] == suffix@[k],
        decreases m - i,
    {
        if s.get_char(n - m + i) != suffix.get_char(i) {
            assert(s@.subrange(n - m, n as int)[i as int] != suffix@[i as int]);
            return false;
        }
        i = i + 1;
    }
    assert(s@.subrange(n - m, n as int) =~= suffix@);
    true
}

/// Whether `a` and `b` hold the same characters.
pub fn str_equal(a: &str, b: &str) -> (r: bool)
    ensures
        r == (a@ == b@),
{
    let n = a.unicode_len();
    if n != b.unicode_len() {
        return false;
    }
    let mut i: usize = 0;
    while i < n
        invariant
            i <= n,
            n == a@.len(),
            n == b@.len(),
            forall|k: int| 0 <= k < i ==> a@[k] == b@[k],
        decreases n - i,
    {
        if a.get_char(i) != b.get_char(i) {
            return false;
        }
        i = i + 1;
    }
    assert(a@ =~= b@);
    true
}

/// `{target}/{scope}--{name}`.
pub fn scoped_path(target: &str, scope: &str, name: &str) -> (r: String)
    ensures
        r@ == target_path(target@, scope@, name@),
{
    let mut r = String::from_str(target);
    r.append("/");
    r.append(scope);
    r.append("--");
    r.append(name);
    proof {
        reveal_strlit("/");
        reveal_strlit("--");
        assert("/"@ =~= seq!['/']);
        assert("--"@ =~= seq!['-', '-']);
    }
    r
}

/// The path under `target` that receives the copy of `source` made for
/// `scope`: `{target}/{scope}--{file name of source}`. `None` when `source`
/// names no file.
pub fn target_filename(source: &str, target: &str, scope: &str) -> (r: Option<String>)
    ensures
        r.deep_view() == target_of(source@, target@, scope@),
{
    match file_name_of(source) {
        Some(name) => Some(scoped_path(target, scope, name.as_str())),
        None => None,
    }
}

/// Whether `path` ends with `yml` or `yaml`.
pub fn is_yaml(path: &str) -> (r: bool)
    ensures
        r == (ends_with(path@, seq!['y', 'm', 'l']) || ends_with(path@, seq!['y', 'a', 'm', 'l'])),
{
    proof {
        reveal_strlit("yml");
        reveal_strlit("yaml");
        assert("yml"@ =~= seq!['y', 'm', 'l']);
        assert("yaml"@ =~= seq!['y', 'a', 'm', 'l']);
    }
    str_ends_with(path, "yml") || str_ends_with(path, "yaml")
}

proof fn lemma_target_path_scope_injective(
    target: Seq<char>,
    scope_a: Seq<char>,
    scope_b: Seq<char>,
    name: Seq<char>,
)
    requires
        scope_a != scope_b,
    ensures
        target_path(target, scope_a, name) != target_path(target, scope_b, name),
{
    let pa = target_path(target, scope_a, name);
    let pb = target_path(target, scope_b, name);
    if pa == pb {
        let t = target.len() + 1;
        assert(pa.len() == t + scope_a.len() + 2 + name.len());
        assert(pb.len() == t + scope_b.len() + 2 + name.len());
        assert(scope_a.len() == scope_b.len());
        assert forall|k: int| 0 <= k < scope_a.len() implies scope_a[k] == scope_b[k] by {
            assert(pa[t + k] == scope_a[k]);
            assert(pb[t + k] == scope_b[k]);
        }
        assert(scope_a =~= scope_b);
    }
}

/// Two workspaces with different scopes never write to the same target path
/// for source files of the same name.
pub proof fn lemma_target_paths_disjoint(
    source_a: Seq<char>,
    source_b: Seq<char>,
    target: Seq<char>,
    scope_a: Seq<char>,
    scope_b: Seq<char>,
)
    requires
        scope_a != scope_b,
        file_name(source_a) == file_name(source_b),
    ensures
        target_of(source_a, target, scope_a) is Some ==> target_of(source_a, target, scope_a)
            != target_of(source_b, target, scope_b),
{
    lemma_target_path_scope_injective(target, scope_a, scope_b, file_name(source_a));
}

} // verus!
