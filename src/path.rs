//! Paths below a user's root: a working directory is a sequence of names,
//! and a path argument is walked from it one segment at a time.

use vstd::prelude::*;

use crate::text::{chars_of, has_char, push_str, same_chars, string_of};

verus! {

pub open spec fn names_view(v: Seq<String>) -> Seq<Seq<char>> {
    v.map_values(|s: String| s@)
}

/// A name that can stand in a directory below the root: not empty, not `.`
/// or `..`, and without `/`.
pub open spec fn proper_name(n: Seq<char>) -> bool {
    &&& n.len() > 0
    &&& n != "."@
    &&& n != ".."@
    &&& !has_char(n, '/')
}

/// A path below the root, written as the names that lead to it.
pub open spec fn proper_path(p: Seq<Seq<char>>) -> bool {
    forall|i: int| 0 <= i < p.len() ==> proper_name(#[trigger] p[i])
}

/// One segment of a path argument applied to `p`: an empty segment and `.`
/// stay, `..` goes up, and any other name goes down. Going up from the root
/// leaves the root, which gives `None`, and `None` stays.
pub open spec fn apply_segment(p: Option<Seq<Seq<char>>>, seg: Seq<char>) -> Option<
    Seq<Seq<char>>,
> {
    match p {
        None => None,
        Some(p) => if seg.len() == 0 || seg == "."@ {
            Some(p)
        } else if seg == ".."@ {
            if p.len() == 0 {
                None
            } else {
                Some(p.drop_last())
            }
        } else {
            Some(p.push(seg))
        },
    }
}

/// Walking the characters `t` from `start`: the path after each finished
/// segment, and the segment under way.
pub open spec fn walk_acc(start: Seq<Seq<char>>, t: Seq<char>) -> (
    Option<Seq<Seq<char>>>,
    Seq<char>,
)
    decreases t.len(),
{
    if t.len() == 0 {
        (Some(start), Seq::empty())
    } else {
        let (p, cur) = walk_acc(start, t.drop_last());
        if t.last() == '/' {
            (apply_segment(p, cur), Seq::empty())
        } else {
            (p, cur.push(t.last()))
        }
    }
}

/// Where the path argument `arg` leads from the directory `cwd`: from the
/// root where it starts with `/`, else from `cwd`; `None` where it climbs
/// above the root on the way.
pub open spec fn resolve(cwd: Seq<Seq<char>>, arg: Seq<char>) -> Option<Seq<Seq<char>>> {
    let start = if arg.len() > 0 && arg[0] == '/' {
        Seq::empty()
    } else {
        cwd
    };
    let (p, cur) = walk_acc(start, arg);
    apply_segment(p, cur)
}

/// The names of `p` joined, each after a `/`; `/` alone for the root.
pub open spec fn display_path(p: Seq<Seq<char>>) -> Seq<char> {
    if p.len() == 0 {
        "/"@
    } else {
        joined(p)
    }
}

/// Each name of `p` after a `/`.
pub open spec fn joined(p: Seq<Seq<char>>) -> Seq<char>
    decreases p.len(),
{
    if p.len() == 0 {
        Seq::empty()
    } else {
        joined(p.drop_last()) + "/"@ + p.last()
    }
}

pub proof fn lemma_apply_keeps_proper(p: Option<Seq<Seq<char>>>, seg: Seq<char>)
    requires
        p matches Some(q) ==> proper_path(q),
        !has_char(seg, '/'),
    ensures
        apply_segment(p, seg) matches Some(q) ==> proper_path(q),
{
    if let Some(q) = p {
        if seg.len() == 0 || seg == "."@ {
        } else if seg == ".."@ {
            if q.len() > 0 {
                assert(forall|i: int| 0 <= i < q.drop_last().len() ==> q.drop_last()[i] == q[i]);
            }
        } else {
            assert(forall|i: int| 0 <= i < q.len() ==> q.push(seg)[i] == q[i]);
        }
    }
}

proof fn lemma_walk_proper(start: Seq<Seq<char>>, t: Seq<char>)
    requires
        proper_path(start),
    ensures
        walk_acc(start, t).0 matches Some(q) ==> proper_path(q),
        !has_char(walk_acc(start, t).1, '/'),
    decreases t.len(),
{
    if t.len() > 0 {
        lemma_walk_proper(start, t.drop_last());
        let (p, cur) = walk_acc(start, t.drop_last());
        if t.last() == '/' {
            lemma_apply_keeps_proper(p, cur);
        } else {
            assert(forall|j: int| 0 <= j < cur.len() ==> cur.push(t.last())[j] == cur[j]);
        }
    }
}

/// A path argument never leads from a directory below the root to one
/// outside it: where it leads anywhere, it leads below the root.
pub proof fn lemma_resolve_proper(cwd: Seq<Seq<char>>, arg: Seq<char>)
    requires
        proper_path(cwd),
    ensures
        resolve(cwd, arg) matches Some(p) ==> proper_path(p),
{
    let start = if arg.len() > 0 && arg[0] == '/' {
        Seq::<Seq<char>>::empty()
    } else {
        cwd
    };
    lemma_walk_proper(start, arg);
    let (p, cur) = walk_acc(start, arg);
    lemma_apply_keeps_proper(p, cur);
}

/// Applies the segment `seg` to the path `p`.
fn apply_seg(p: &mut Vec<String>, escaped: &mut bool, seg: &Vec<char>)
    requires
        proper_path(names_view(old(p)@)),
        !has_char(seg@, '/'),
    ensures
        proper_path(names_view(final(p)@)),
        apply_segment(
            if *old(escaped) {
                None
            } else {
                Some(names_view(old(p)@))
            },
            seg@,
        ) == if *final(escaped) {
            None::<Seq<Seq<char>>>
        } else {
            Some(names_view(final(p)@))
        },
{
    proof {
        lemma_apply_keeps_proper(
            if *escaped {
                None
            } else {
                Some(names_view(p@))
            },
            seg@,
        );
    }
    if *escaped || seg.len() == 0 || same_chars(seg, ".") {
        return;
    }
    if same_chars(seg, "..") {
        if p.len() == 0 {
            *escaped = true;
        } else {
            p.pop();
            assert(names_view(p@) =~= names_view(old(p)@).drop_last());
        }
        return;
    }
    p.push(string_of(seg));
    assert(names_view(p@) =~= names_view(old(p)@).push(seg@));
}

/// Where `arg` leads from `cwd`, or `None` where it climbs above the root.
pub fn resolve_path(cwd: &Vec<String>, arg: &str) -> (r: Option<Vec<String>>)
    requires
        proper_path(names_view(cwd@)),
    ensures
        match r {
            Some(p) => resolve(names_view(cwd@), arg@) == Some(names_view(p@)),
            None => resolve(names_view(cwd@), arg@) is None,
        },
        r matches Some(p) ==> proper_path(names_view(p@)),
{
    let t = chars_of(arg);
    let mut p: Vec<String> = if t.len() > 0 && t[0] == '/' {
        Vec::new()
    } else {
        cwd.clone()
    };
    assert(names_view(p@) =~= if t@.len() > 0 && t@[0] == '/' {
        Seq::empty()
    } else {
        names_view(cwd@)
    });
    let ghost start = names_view(p@);
    let mut escaped = false;
    let mut cur: Vec<char> = Vec::new();
    let mut i: usize = 0;
    assert(t@.take(0) =~= Seq::<char>::empty());
    while i < t.len()
        invariant
            i <= t@.len(),
            proper_path(names_view(p@)),
            !has_char(cur@, '/'),
            walk_acc(start, t@.take(i as int)) == (
                if escaped {
                    None
                } else {
                    Some(names_view(p@))
                },
                cur@,
            ),
        decreases t@.len() - i,
    {
        assert(t@.take(i + 1).drop_last() =~= t@.take(i as int));
        assert(t@.take(i + 1).last() == t@[i as int]);
        if t[i] == '/' {
            apply_seg(&mut p, &mut escaped, &cur);
            cur = Vec::new();
            assert(!has_char(cur@, '/'));
        } else {
            let ghost old_cur = cur@;
            cur.push(t[i]);
            assert(forall|j: int| 0 <= j < cur@.len() - 1 ==> cur@[j] == old_cur[j]);
        }
        i += 1;
    }
    assert(t@.take(t@.len() as int) =~= t@);
    apply_seg(&mut p, &mut escaped, &cur);
    if escaped {
        None
    } else {
        Some(p)
    }
}

/// The path `p` as the client sees it: `/` alone for the root, else each
/// name after a `/`.
pub fn path_text(p: &Vec<String>) -> (r: String)
    ensures
        r@ == display_path(names_view(p@)),
{
    if p.len() == 0 {
        return "/".to_owned();
    }
    let mut r = String::new();
    let mut i: usize = 0;
    while i < p.len()
        invariant
            i <= p@.len(),
            r@ == joined(names_view(p@).take(i as int)),
        decreases p@.len() - i,
    {
        assert(names_view(p@).take(i + 1).drop_last() =~= names_view(p@).take(i as int));
        push_str(&mut r, "/");
        push_str(&mut r, p[i].as_str());
        i += 1;
    }
    assert(names_view(p@).take(p@.len() as int) =~= names_view(p@));
    r
}

} // verus!
