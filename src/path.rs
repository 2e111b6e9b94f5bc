use vstd::prelude::*;

use crate::text::push_char;

verus! {

/// The fields of `s` between occurrences of `sep`, empty fields included.
pub open spec fn fields(s: Seq<char>, sep: char) -> Seq<Seq<char>>
    decreases s.len(),
{
    if s.len() == 0 {
        seq![Seq::empty()]
    } else {
        let r = fields(s.drop_last(), sep);
        if s.last() == sep {
            r.push(Seq::empty())
        } else {
            r.update(r.len() - 1, r.last().push(s.last()))
        }
    }
}

/// The text of a search-path variable that was never expanded.
pub open spec fn placeholder() -> Seq<char> {
    seq!['$', 'P', 'A', 'T', 'H']
}

/// Whether a field of the search-path variable names a directory to search.
pub open spec fn is_search_dir(e: Seq<char>) -> bool {
    e.len() > 0 && e != placeholder()
}

/// The entries of `es` that name directories to search, in order.
pub open spec fn search_dirs(es: Seq<Seq<char>>) -> Seq<Seq<char>>
    decreases es.len(),
{
    if es.len() == 0 {
        Seq::empty()
    } else if is_search_dir(es.last()) {
        search_dirs(es.drop_last()).push(es.last())
    } else {
        search_dirs(es.drop_last())
    }
}

proof fn lemma_fields_len(s: Seq<char>, sep: char)
    ensures
        fields(s, sep).len() >= 1,
    decreases s.len(),
{
    if s.len() > 0 {
        lemma_fields_len(s.drop_last(), sep);
    }
}

/// The directories named by a search-path variable: its fields between
/// separators, without empty fields and without a literal `$PATH`.
pub fn get_env_path(path_var: &str, separator: char) -> (r: Vec<String>)
    ensures
        r.deep_view() == search_dirs(fields(path_var@, separator)),
{
    proof {
        reveal_strlit("$PATH");
    }
    let placeholder_text = String::from_str("$PATH");
    let n = path_var.unicode_len();
    let mut dirs: Vec<String> = Vec::new();
    let mut current = String::new();
    let mut i: usize = 0;
    while i < n
        invariant
            n == path_var@.len(),
            i <= n,
            placeholder_text@ == placeholder(),
            fields(path_var@.subrange(0, i as int), separator).len() >= 1,
            current@ == fields(path_var@.subrange(0, i as int), separator).last(),
            dirs.deep_view() == search_dirs(
                fields(path_var@.subrange(0, i as int), separator).drop_last(),
            ),
        decreases n - i,
    {
        let ghost prefix = path_var@.subrange(0, i as int);
        let ghost next = path_var@.subrange(0, i + 1);
        proof {
            assert(next.drop_last() =~= prefix);
            lemma_fields_len(prefix, separator);
        }
        let c = path_var.get_char(i);
        if c == separator {
            if !current.as_str().is_empty() && !(current == placeholder_text) {
                let ghost before = dirs.deep_view();
                dirs.push(current);
                assert(dirs.deep_view() =~= before.push(current@));
            }
            current = String::new();
            proof {
                let f = fields(prefix, separator);
                assert(fields(next, separator).drop_last() =~= f);
                assert(f =~= f.drop_last().push(f.last()));
            }
        } else {
            push_char(&mut current, c);
            proof {
                let f = fields(prefix, separator);
                assert(fields(next, separator).drop_last() =~= f.drop_last());
            }
        }
        i += 1;
    }
    assert(path_var@.subrange(0, n as int) =~= path_var@);
    proof {
        let f = fields(path_var@, separator);
        assert(f =~= f.drop_last().push(f.last()));
    }
    if !current.as_str().is_empty() && !(current == placeholder_text) {
        let ghost before = dirs.deep_view();
        dirs.push(current);
        assert(dirs.deep_view() =~= before.push(current@));
    }
    dirs
}

/// The path of `name` inside `dir`: `name` itself when it is absolute, else
/// `dir` and `name` with one `/` between them.
pub open spec fn joined(dir: Seq<char>, name: Seq<char>) -> Seq<char> {
    if name.len() > 0 && name[0] == '/' {
        name
    } else if dir.len() > 0 && dir.last() == '/' {
        dir + name
    } else {
        dir + seq!['/'] + name
    }
}

/// The first index below `n` at or after `i` whose flag is set; a missing
/// flag counts as unset.
pub open spec fn first_set(flags: Seq<bool>, n: int, i: int) -> Option<int>
    decreases n - i,
{
    if i < 0 || i >= n || i >= flags.len() {
        None
    } else if flags[i] {
        Some(i)
    } else {
        first_set(flags, n, i + 1)
    }
}

/// Where `name` resolves, given for each directory whether `joined(dir, name)`
/// is an executable regular file: in the first directory where it is.
pub open spec fn resolved(
    name: Seq<char>,
    dirs: Seq<Seq<char>>,
    executable: Seq<bool>,
) -> Option<Seq<char>> {
    match first_set(executable, dirs.len() as int, 0) {
        Some(i) => Some(joined(dirs[i], name)),
        None => None,
    }
}

pub fn candidate_path(dir: &String, name: &String) -> (r: String)
    ensures
        r@ == joined(dir@, name@),
{
    let nl = name.as_str().unicode_len();
    if nl > 0 && name.as_str().get_char(0) == '/' {
        return name.clone();
    }
    let dl = dir.as_str().unicode_len();
    let mut r = dir.clone();
    if !(dl > 0 && dir.as_str().get_char(dl - 1) == '/') {
        push_char(&mut r, '/');
    }
    r.append(name.as_str());
    r
}

/// The paths at which `filename` is looked for, one per directory, in order.
pub fn candidate_paths(filename: &String, paths: &Vec<String>) -> (r: Vec<String>)
    ensures
        r.len() == paths.len(),
        forall|i: int| 0 <= i < paths.len() ==> #[trigger] r[i]@ == joined(paths[i]@, filename@),
{
    let mut r: Vec<String> = Vec::new();
    let mut i: usize = 0;
    while i < paths.len()
        invariant
            i <= paths.len(),
            r.len() == i,
            forall|j: int| 0 <= j < i ==> #[trigger] r[j]@ == joined(paths[j]@, filename@),
        decreases paths.len() - i,
    {
        r.push(candidate_path(&paths[i], filename));
        i += 1;
    }
    r
}

/// Looks `filename` up in the directories `paths`, in order. `executable[i]`
/// tells whether the candidate in `paths[i]` is a regular file with an
/// execute bit set (a missing entry: it is not); the first such candidate
/// is returned.
pub fn search_file_in_paths(filename: &String, paths: &Vec<String>, executable: &Vec<bool>) -> (r:
    Option<String>)
    ensures
        r.deep_view() == resolved(filename@, paths.deep_view(), executable@),
{
    let n = paths.len();
    let mut i: usize = 0;
    while i < n && i < executable.len()
        invariant
            n == paths.len(),
            i <= n,
            first_set(executable@, n as int, 0) == first_set(executable@, n as int, i as int),
        decreases n - i,
    {
        if executable[i] {
            return Some(candidate_path(&paths[i], filename));
        }
        i += 1;
    }
    None
}

proof fn lemma_first_set_from(flags: Seq<bool>, n: int, i: int, k: int)
    requires
        0 <= i <= k < n,
        k < flags.len(),
        flags[k],
        forall|m: int| i <= m < k ==> !flags[m],
    ensures
        first_set(flags, n, i) == Some(k),
    decreases k - i,
{
    if i < k {
        lemma_first_set_from(flags, n, i + 1, k);
    }
}

/// When a name is an executable in several directories of the search path,
/// it resolves to the one in the earliest of them: never past the first
/// directory `i` that holds it, and in particular never to a later `j`.
pub proof fn lemma_earliest_directory_wins(
    name: Seq<char>,
    dirs: Seq<Seq<char>>,
    executable: Seq<bool>,
    i: int,
    j: int,
)
    requires
        0 <= i < j < dirs.len(),
        j < executable.len(),
        executable[i],
        executable[j],
    ensures
        exists|k: int|
            0 <= k <= i && executable[k] && (forall|m: int| 0 <= m < k ==> !executable[m])
                && resolved(name, dirs, executable) == Some(joined(dirs[k], name)),
{
    let k = choose_first(executable, i);
    lemma_first_set_from(executable, dirs.len() as int, 0, k);
}

proof fn choose_first(flags: Seq<bool>, i: int) -> (k: int)
    requires
        0 <= i < flags.len(),
        flags[i],
    ensures
        0 <= k <= i,
        flags[k],
        forall|m: int| 0 <= m < k ==> !flags[m],
    decreases i,
{
    if exists|m: int| 0 <= m < i && flags[m] {
        let m = choose|m: int| 0 <= m < i && flags[m];
        choose_first(flags, m)
    } else {
        i
    }
}

} // verus!
