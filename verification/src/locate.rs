//! Locating a task folder inside a cloned repository, and the compilable
//! entry file inside a located folder.
//!
//! The repository's directory layout is handed in as a [`DirTree`] value (the
//! unverified binary reads the filesystem into it).  The search walks the
//! tree depth-first, siblings in listing order, and returns the first
//! directory whose name exactly matches one of the accepted spellings,
//! as a path relative to the root.

use vstd::prelude::*;
use crate::strutil::{str_eq, clone_strings};

verus! {

/// A directory: its name, its subdirectories in listing order, and the
/// plain-file names it holds in listing order.
pub struct DirTree {
    pub name: String,
    pub dirs: Vec<DirTree>,
    pub files: Vec<String>,
}

/// The first directory, depth-first and siblings in order, whose name is one
/// of the accepted spellings; as the sequence of path components from the
/// root down to it.  A match at a directory wins over any match below it,
/// and a match inside an earlier sibling wins over a later sibling.
pub open spec fn locate_in(dirs: Seq<DirTree>, accepted: Seq<Seq<char>>) -> Option<Seq<Seq<char>>>
    decreases dirs,
{
    if dirs.len() == 0 {
        None
    } else {
        let d = dirs[0];
        if accepted.contains(d.name@) {
            Some(seq![d.name@])
        } else {
            match locate_in(d.dirs@, accepted) {
                Some(p) => Some(seq![d.name@] + p),
                None => locate_in(dirs.subrange(1, dirs.len() as int), accepted),
            }
        }
    }
}

/// Searching a list of siblings may skip a prefix in which nothing was found.
proof fn lemma_locate_skip(dirs: Seq<DirTree>, accepted: Seq<Seq<char>>, j: int)
    requires
        0 <= j <= dirs.len(),
        locate_in(dirs.subrange(0, j), accepted) is None,
    ensures
        locate_in(dirs, accepted) == locate_in(dirs.subrange(j, dirs.len() as int), accepted),
    decreases j,
{
    if j == 0 {
        assert(dirs.subrange(0, dirs.len() as int) =~= dirs);
    } else {
        let pre = dirs.subrange(0, j);
        assert(pre[0] == dirs[0]);
        let tail = dirs.subrange(1, dirs.len() as int);
        assert(pre.subrange(1, j) =~= tail.subrange(0, j - 1));
        lemma_locate_skip(tail, accepted, j - 1);
        assert(tail.subrange(j - 1, tail.len() as int) =~= dirs.subrange(j, dirs.len() as int));
    }
}

/// Whether `name` is one of the accepted spellings.
fn contains_name(names: &Vec<String>, name: &String) -> (r: bool)
    ensures
        r == names.deep_view().contains(name@),
{
    let mut k: usize = 0;
    while k < names.len()
        invariant
            k <= names.len(),
            forall|i: int| 0 <= i < k ==> names.deep_view()[i] != name@,
        decreases names.len() - k,
    {
        if str_eq(names[k].as_str(), name.as_str()) {
            proof {
                assert(names.deep_view()[k as int] == name@);
            }
            return true;
        }
        k = k + 1;
    }
    false
}

/// The located task folder as path components from the repository root,
/// or nothing when no directory anywhere in the tree has an accepted name.
pub fn locate_components(dir: &DirTree, accepted: &Vec<String>) -> (r: Option<Vec<String>>)
    ensures
        r.deep_view() == locate_in(dir.dirs@, accepted.deep_view()),
    decreases *dir,
{
    let ghost acc = accepted.deep_view();
    let n: usize = dir.dirs.len();
    let mut j: usize = 0;
    while j < n
        invariant
            j <= n,
            n == dir.dirs@.len(),
            acc == accepted.deep_view(),
            locate_in(dir.dirs@.subrange(0, j as int), acc) is None,
        decreases n - j,
    {
        proof {
            lemma_locate_skip(dir.dirs@, acc, j as int);
            assert(dir.dirs@.subrange(j as int, n as int)[0] == dir.dirs@[j as int]);
        }
        let d = &dir.dirs[j];
        if contains_name(accepted, &d.name) {
            let mut v: Vec<String> = Vec::new();
            v.push(d.name.clone());
            proof {
                assert(v.deep_view() =~= seq![d.name@]);
            }
            return Some(v);
        }
        proof {
            assert(decreases_to!(*dir => dir.dirs));
        }
        let found = locate_components(d, accepted);
        match found {
            Some(p) => {
                let ghost pdv = p.deep_view();
                let mut p = p;
                let mut v: Vec<String> = Vec::new();
                v.push(d.name.clone());
                v.append(&mut p);
                proof {
                    assert(v.deep_view() =~= seq![d.name@] + pdv);
                }
                return Some(v);
            },
            None => {},
        }
        j = j + 1;
        proof {
            let whole = dir.dirs@.subrange(0, j as int);
            let s = whole.subrange(j - 1, j as int);
            assert(whole.subrange(0, j - 1) =~= dir.dirs@.subrange(0, j - 1));
            lemma_locate_skip(whole, acc, j - 1);
            assert(s[0] == dir.dirs@[j - 1]);
            assert(s[0] == *d);
            assert(!acc.contains(s[0].name@));
            assert(locate_in(s[0].dirs@, acc) is None);
            assert(s.subrange(1, 1) =~= Seq::<DirTree>::empty());
            assert(locate_in(s.subrange(1, 1), acc) is None);
            assert(locate_in(s, acc) is None);
            assert(locate_in(whole, acc) is None);
        }
    }
    proof {
        assert(dir.dirs@.subrange(0, n as int) =~= dir.dirs@);
    }
    None
}

/// Path components joined with `/`.
pub open spec fn join_spec(comps: Seq<Seq<char>>) -> Seq<char>
    decreases comps.len(),
{
    if comps.len() == 0 {
        Seq::empty()
    } else if comps.len() == 1 {
        comps[0]
    } else {
        comps[0] + seq!['/'] + join_spec(comps.subrange(1, comps.len() as int))
    }
}

proof fn lemma_join_push(comps: Seq<Seq<char>>, x: Seq<char>)
    ensures
        comps.len() == 0 ==> join_spec(comps.push(x)) == x,
        comps.len() != 0 ==> join_spec(comps.push(x)) == join_spec(comps) + seq!['/'] + x,
    decreases comps.len(),
{
    let q = comps.push(x);
    if comps.len() == 0 {
        assert(q[0] == x);
    } else {
        assert(q[0] == comps[0]);
        let tail = comps.subrange(1, comps.len() as int);
        assert(q.subrange(1, q.len() as int) =~= tail.push(x));
        lemma_join_push(tail, x);
        if comps.len() == 1 {
            assert(join_spec(q) =~= comps[0] + seq!['/'] + x);
            assert(join_spec(comps) + seq!['/'] + x =~= comps[0] + seq!['/'] + x);
        } else {
            assert(join_spec(q) == q[0] + seq!['/'] + join_spec(tail.push(x)));
            assert(join_spec(q) =~= join_spec(comps) + seq!['/'] + x);
        }
    }
}

/// The components joined with `/` into one relative path.
pub fn join_path(comps: &Vec<String>) -> (r: String)
    ensures
        r@ == join_spec(comps.deep_view()),
{
    let ghost dv = comps.deep_view();
    let mut out = String::new();
    let mut i: usize = 0;
    while i < comps.len()
        invariant
            i <= comps.len(),
            dv == comps.deep_view(),
            dv.len() == comps.len(),
            out@ == join_spec(dv.subrange(0, i as int)),
        decreases comps.len() - i,
    {
        if i > 0 {
            out.push('/');
        }
        out.append(comps[i].as_str());
        proof {
            assert(dv.subrange(0, i + 1 as int) =~= dv.subrange(0, i as int).push(dv[i as int]));
            lemma_join_push(dv.subrange(0, i as int), dv[i as int]);
        }
        i = i + 1;
    }
    proof {
        assert(dv.subrange(0, comps.len() as int) =~= dv);
    }
    out
}

/// The located task folder as a `/`-joined path relative to the root, or
/// nothing when no directory in the tree has an accepted name.
pub open spec fn locate_path_spec(dirs: Seq<DirTree>, accepted: Seq<Seq<char>>) -> Option<Seq<char>> {
    match locate_in(dirs, accepted) {
        Some(p) => Some(join_spec(p)),
        None => None,
    }
}

pub fn find_accepted_folder(dir: &DirTree, accepted: &Vec<String>) -> (r: Option<String>)
    ensures
        r.deep_view() == locate_path_spec(dir.dirs@, accepted.deep_view()),
{
    match locate_components(dir, accepted) {
        Some(comps) => Some(join_path(&comps)),
        None => None,
    }
}

/// The first subdirectory, in listing order, with the given name.
pub open spec fn find_child(dirs: Seq<DirTree>, name: Seq<char>) -> Option<DirTree>
    decreases dirs.len(),
{
    if dirs.len() == 0 {
        None
    } else if dirs[0].name@ == name {
        Some(dirs[0])
    } else {
        find_child(dirs.subrange(1, dirs.len() as int), name)
    }
}

proof fn lemma_find_child_skip(dirs: Seq<DirTree>, name: Seq<char>, j: int)
    requires
        0 <= j <= dirs.len(),
        forall|i: int| 0 <= i < j ==> dirs[i].name@ != name,
    ensures
        find_child(dirs, name) == find_child(dirs.subrange(j, dirs.len() as int), name),
    decreases j,
{
    if j > 0 {
        let tail = dirs.subrange(1, dirs.len() as int);
        lemma_find_child_skip(tail, name, j - 1);
        assert(tail.subrange(j - 1, tail.len() as int) =~= dirs.subrange(j, dirs.len() as int));
    } else {
        assert(dirs.subrange(0, dirs.len() as int) =~= dirs);
    }
}

/// The files of the directory reached from `d` by following the path
/// components, or nothing when a component does not name a subdirectory.
pub open spec fn files_at_spec(d: DirTree, comps: Seq<Seq<char>>) -> Option<Seq<Seq<char>>>
    decreases comps.len(),
{
    if comps.len() == 0 {
        Some(d.files.deep_view())
    } else {
        match find_child(d.dirs@, comps[0]) {
            Some(c) => files_at_spec(c, comps.subrange(1, comps.len() as int)),
            None => None,
        }
    }
}

/// The first subdirectory of `dir` named `name`, if any.
fn child_named<'a>(dir: &'a DirTree, name: &String) -> (r: Option<&'a DirTree>)
    ensures
        match r {
            Some(c) => find_child(dir.dirs@, name@) == Some(*c),
            None => find_child(dir.dirs@, name@) is None,
        },
{
    let mut m: usize = 0;
    while m < dir.dirs.len()
        invariant
            m <= dir.dirs@.len(),
            forall|i: int| 0 <= i < m ==> dir.dirs@[i].name@ != name@,
        decreases dir.dirs@.len() - m,
    {
        if str_eq(dir.dirs[m].name.as_str(), name.as_str()) {
            proof {
                lemma_find_child_skip(dir.dirs@, name@, m as int);
                assert(dir.dirs@.subrange(m as int, dir.dirs@.len() as int)[0]
                    == dir.dirs@[m as int]);
            }
            return Some(&dir.dirs[m]);
        }
        m = m + 1;
    }
    proof {
        lemma_find_child_skip(dir.dirs@, name@, dir.dirs@.len() as int);
        assert(dir.dirs@.subrange(dir.dirs@.len() as int, dir.dirs@.len() as int)
            =~= Seq::<DirTree>::empty());
    }
    None
}

/// The file listing of the directory the path components lead to.
pub fn files_at(dir: &DirTree, comps: &Vec<String>) -> (r: Option<Vec<String>>)
    ensures
        r.deep_view() == files_at_spec(*dir, comps.deep_view()),
{
    let ghost dv = comps.deep_view();
    proof {
        assert(dv.subrange(0, dv.len() as int) =~= dv);
    }
    let mut cur: &DirTree = dir;
    let mut k: usize = 0;
    while k < comps.len()
        invariant
            k <= comps.len(),
            dv == comps.deep_view(),
            dv.len() == comps.len(),
            files_at_spec(*dir, dv) == files_at_spec(*cur, dv.subrange(k as int, dv.len() as int)),
        decreases comps.len() - k,
    {
        let ghost rest = dv.subrange(k as int, dv.len() as int);
        proof {
            assert(rest[0] == dv[k as int]);
            assert(rest.subrange(1, rest.len() as int)
                =~= dv.subrange(k + 1 as int, dv.len() as int));
        }
        match child_named(cur, &comps[k]) {
            Some(c) => {
                cur = c;
            },
            None => {
                return None;
            },
        }
        k = k + 1;
    }
    proof {
        assert(dv.subrange(comps.len() as int, dv.len() as int) =~= Seq::<Seq<char>>::empty());
    }
    Some(clone_strings(&cur.files))
}

/// Whether a file name ends in the C source extension `.c`.
pub open spec fn ends_dot_c(s: Seq<char>) -> bool {
    s.len() >= 2 && s[s.len() - 2] == '.' && s[s.len() - 1] == 'c'
}

/// The first file, in listing order, whose name ends in `.c`.
pub open spec fn first_c_file(files: Seq<Seq<char>>) -> Option<Seq<char>>
    decreases files.len(),
{
    if files.len() == 0 {
        None
    } else if ends_dot_c(files[0]) {
        Some(files[0])
    } else {
        first_c_file(files.subrange(1, files.len() as int))
    }
}

/// The entry file of a task folder: a file literally named `main.c` when one
/// is there, otherwise the first file ending in `.c`, otherwise nothing.
pub open spec fn main_file_spec(files: Seq<Seq<char>>) -> Option<Seq<char>> {
    if files.contains("main.c"@) {
        Some("main.c"@)
    } else {
        first_c_file(files)
    }
}

proof fn lemma_first_c_skip(files: Seq<Seq<char>>, j: int)
    requires
        0 <= j <= files.len(),
        forall|i: int| 0 <= i < j ==> !ends_dot_c(files[i]),
    ensures
        first_c_file(files) == first_c_file(files.subrange(j, files.len() as int)),
    decreases j,
{
    if j > 0 {
        let tail = files.subrange(1, files.len() as int);
        lemma_first_c_skip(tail, j - 1);
        assert(tail.subrange(j - 1, tail.len() as int) =~= files.subrange(j, files.len() as int));
    } else {
        assert(files.subrange(0, files.len() as int) =~= files);
    }
}

/// Whether the name ends in `.c`.
fn name_ends_dot_c(name: &String) -> (r: bool)
    ensures
        r == ends_dot_c(name@),
{
    let n: usize = name.as_str().unicode_len();
    if n < 2 {
        return false;
    }
    let dot = name.as_str().get_char(n - 2);
    let c = name.as_str().get_char(n - 1);
    dot == '.' && c == 'c'
}

pub fn find_main_file(files: &Vec<String>) -> (r: Option<String>)
    ensures
        r.deep_view() == main_file_spec(files.deep_view()),
{
    let ghost dv = files.deep_view();
    let mut i: usize = 0;
    while i < files.len()
        invariant
            i <= files.len(),
            dv == files.deep_view(),
            dv.len() == files.len(),
            forall|k: int| 0 <= k < i ==> dv[k] != "main.c"@,
        decreases files.len() - i,
    {
        if str_eq(files[i].as_str(), "main.c") {
            proof {
                assert(dv[i as int] == "main.c"@);
            }
            return Some(files[i].clone());
        }
        i = i + 1;
    }
    proof {
        assert(!dv.contains("main.c"@));
    }
    let mut i: usize = 0;
    while i < files.len()
        invariant
            i <= files.len(),
            dv == files.deep_view(),
            dv.len() == files.len(),
            !dv.contains("main.c"@),
            forall|k: int| 0 <= k < i ==> !ends_dot_c(dv[k]),
        decreases files.len() - i,
    {
        if name_ends_dot_c(&files[i]) {
            proof {
                lemma_first_c_skip(dv, i as int);
                assert(dv.subrange(i as int, dv.len() as int)[0] == dv[i as int]);
            }
            return Some(files[i].clone());
        }
        i = i + 1;
    }
    proof {
        lemma_first_c_skip(dv, dv.len() as int);
        assert(dv.subrange(dv.len() as int, dv.len() as int) =~= Seq::<Seq<char>>::empty());
    }
    None
}

} // verus!
