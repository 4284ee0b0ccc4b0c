use vstd::prelude::*;
use vstd::string::*;

verus! {

/// The index of the last `/` among the first `end` characters of `p`, or -1
/// when there is none.
pub open spec fn last_sep_before(p: Seq<char>, end: int) -> int
    decreases end,
{
    if end <= 0 {
        -1
    } else if p[end - 1] == '/' {
        end - 1
    } else {
        last_sep_before(p, end - 1)
    }
}

/// A path component that stands for the current directory or for nothing.
pub open spec fn is_skipped_component(seg: Seq<char>) -> bool {
    seg.len() == 0 || seg == seq!['.']
}

pub open spec fn is_parent_component(seg: Seq<char>) -> bool {
    seg == seq!['.', '.']
}

/// The final component of the first `end` characters of `p`: trailing `/`
/// and `.` components are passed over, and a path that ends in `..` or has
/// no component left has none.
pub open spec fn base_from(p: Seq<char>, end: int) -> Option<Seq<char>>
    decreases end,
    via base_from_decreases
{
    if end <= 0 {
        None
    } else {
        let s = last_sep_before(p, end);
        let seg = p.subrange(s + 1, end);
        if is_skipped_component(seg) {
            if s < 0 {
                None
            } else {
                base_from(p, s)
            }
        } else if is_parent_component(seg) {
            None
        } else {
            Some(seg)
        }
    }
}

#[via_fn]
proof fn base_from_decreases(p: Seq<char>, end: int) {
    if end > 0 {
        lemma_last_sep_bounds(p, end);
    }
}

/// The characters of an optional string.
pub open spec fn opt_text(o: Option<String>) -> Option<Seq<char>> {
    match o {
        Some(s) => Some(s@),
        None => None,
    }
}

/// The file name of a path: its final normal component, if it has one.
pub open spec fn base_name_of(p: Seq<char>) -> Option<Seq<char>> {
    base_from(p, p.len() as int)
}

/// `name` appended to `dir`, with a `/` between them unless `dir` is empty or
/// already ends in one.
pub open spec fn join_path(dir: Seq<char>, name: Seq<char>) -> Seq<char> {
    if dir.len() == 0 {
        name
    } else if dir.last() == '/' {
        dir + name
    } else {
        dir + seq!['/'] + name
    }
}

/// A component that can name a file: not empty, not `.` or `..`, and free of `/`.
pub open spec fn is_file_name(seg: Seq<char>) -> bool {
    &&& !is_skipped_component(seg)
    &&& !is_parent_component(seg)
    &&& forall|k: int| 0 <= k < seg.len() ==> seg[k] != '/'
}

proof fn lemma_last_sep_bounds(p: Seq<char>, end: int)
    requires
        end > 0,
    ensures
        -1 <= last_sep_before(p, end) < end,
        forall|k: int| last_sep_before(p, end) < k < end ==> p[k] != '/',
    decreases end,
{
    if p[end - 1] != '/' {
        if end > 1 {
            lemma_last_sep_bounds(p, end - 1);
        } else {
            assert(last_sep_before(p, 0) == -1);
        }
    }
}

proof fn lemma_base_from_is_file_name(p: Seq<char>, end: int)
    requires
        end <= p.len(),
        base_from(p, end) is Some,
    ensures
        is_file_name(base_from(p, end)->Some_0),
    decreases end,
{
    lemma_last_sep_bounds(p, end);
    let s = last_sep_before(p, end);
    let seg = p.subrange(s + 1, end);
    if is_skipped_component(seg) {
        lemma_base_from_is_file_name(p, s);
    } else {
        assert forall|k: int| 0 <= k < seg.len() implies seg[k] != '/' by {
            assert(seg[k] == p[s + 1 + k]);
        }
    }
}

proof fn lemma_last_sep_after_prefix(x: Seq<char>, name: Seq<char>, end: int)
    requires
        x.len() == 0 || x.last() == '/',
        is_file_name(name),
        x.len() <= end <= x.len() + name.len(),
    ensures
        last_sep_before(x + name, end) == x.len() - 1,
    decreases end,
{
    let q = x + name;
    if end > x.len() {
        assert(q[end - 1] == name[end - 1 - x.len()]);
        lemma_last_sep_after_prefix(x, name, end - 1);
    }
}

/// The file name of a path joined under any directory is the name joined.
pub proof fn lemma_join_keeps_file_name(dir: Seq<char>, name: Seq<char>)
    requires
        is_file_name(name),
    ensures
        base_name_of(join_path(dir, name)) == Some(name),
{
    let x = if dir.len() == 0 {
        Seq::<char>::empty()
    } else if dir.last() == '/' {
        dir
    } else {
        dir + seq!['/']
    };
    let q = x + name;
    assert(join_path(dir, name) =~= q);
    if x.len() > 0 {
        assert(x.last() == '/');
    }
    lemma_last_sep_after_prefix(x, name, q.len() as int);
    assert(q.subrange(x.len() as int, q.len() as int) =~= name);
}

/// Uploading keeps a file's name: the key that a local file is stored under,
/// in any directory, has the same file name as the local path, so downloading
/// that key writes a file of that name.
pub proof fn lemma_key_keeps_base_name(path: Seq<char>, dir: Seq<char>)
    requires
        base_name_of(path) is Some,
    ensures
        base_name_of(join_path(dir, base_name_of(path)->Some_0)) == base_name_of(path),
{
    lemma_base_from_is_file_name(path, path.len() as int);
    lemma_join_keeps_file_name(dir, base_name_of(path)->Some_0);
}

fn last_sep_index(p: &str, end: usize) -> (r: Option<usize>)
    requires
        end <= p@.len(),
    ensures
        match r {
            Some(i) => i as int == last_sep_before(p@, end as int),
            None => last_sep_before(p@, end as int) == -1,
        },
{
    let mut i: usize = end;
    while i > 0
        invariant
            i <= end <= p@.len(),
            last_sep_before(p@, i as int) == last_sep_before(p@, end as int),
        decreases i,
    {
        if p.get_char(i - 1) == '/' {
            return Some(i - 1);
        }
        i = i - 1;
    }
    None
}

/// The file name of `path`, as `std::path::Path::file_name` gives it on
/// `/`-separated paths.
pub fn base_name(path: &str) -> (r: Option<String>)
    ensures
        opt_text(r) == base_name_of(path@),
{
    let n = path.unicode_len();
    let mut end: usize = n;
    loop
        invariant
            end <= path@.len(),
            n == path@.len(),
            base_from(path@, end as int) == base_name_of(path@),
        decreases end,
    {
        if end == 0 {
            return None;
        }
        let s = last_sep_index(path, end);
        proof {
            lemma_last_sep_bounds(path@, end as int);
        }
        let start: usize = match s {
            Some(i) => i + 1,
            None => 0,
        };
        let ghost seg = path@.subrange(start as int, end as int);
        let len: usize = end - start;
        let first_dot = len >= 1 && path.get_char(start) == '.';
        let second_dot = len >= 2 && path.get_char(start + 1) == '.';
        assert(len >= 1 ==> (first_dot <==> seg[0] == '.'));
        assert(len >= 2 ==> (second_dot <==> seg[1] == '.'));
        if len == 0 || (len == 1 && first_dot) {
            assert(is_skipped_component(seg)) by {
                if len == 1 {
                    assert(seg =~= seq!['.']);
                }
            }
            match s {
                None => {
                    return None;
                },
                Some(i) => {
                    end = i;
                },
            }
        } else if len == 2 && first_dot && second_dot {
            assert(seg =~= seq!['.', '.']);
            return None;
        } else {
            assert(!is_skipped_component(seg)) by {
                if seg == seq!['.'] {
                    assert(seg.len() == 1 && seg[0] == '.');
                }
            }
            assert(!is_parent_component(seg)) by {
                if seg == seq!['.', '.'] {
                    assert(seg.len() == 2 && seg[0] == '.' && seg[1] == '.');
                }
            }
            let part = path.substring_char(start, end);
            return Some(String::from_str(part));
        }
    }
}

/// `name` joined under `dir`, as `std::path::Path::join` joins a relative
/// name on `/`-separated paths.
pub fn join(dir: &str, name: &str) -> (r: String)
    ensures
        r@ == join_path(dir@, name@),
{
    let mut r = String::from_str(dir);
    let n = dir.unicode_len();
    if n > 0 && dir.get_char(n - 1) != '/' {
        proof {
            reveal_strlit("/");
        }
        r.append("/");
    }
    r.append(name);
    r
}

} // verus!
