//! Path values and path joining.
//!
//! Paths are plain strings; joining appends a separator and the relative
//! name. The grading logic never touches the real filesystem: it works on
//! these strings and on a snapshot of which paths exist (see `fs`).

use vstd::prelude::*;
use vstd::string::StringExecFns;

verus! {

/// The string obtained by joining the relative `name` onto the directory
/// `root`: `root`, a separator, `name`.
pub open spec fn join_seq(root: Seq<char>, name: Seq<char>) -> Seq<char> {
    root + seq!['/'] + name
}

/// Join one relative path onto a root directory.
pub fn join_path(root: &str, name: &str) -> (r: String)
    ensures
        r@ == join_seq(root@, name@),
{
    proof {
        reveal_strlit("/");
        assert("/"@ =~= seq!['/']);
    }
    let mut r: String = root.to_owned();
    r.append("/");
    r.append(name);
    r
}

/// A fresh list holding copies of the strings of `v`, in order.
pub fn clone_list(v: &Vec<String>) -> (r: Vec<String>)
    ensures
        r.deep_view() == v.deep_view(),
{
    let mut r: Vec<String> = Vec::new();
    let mut i: usize = 0;
    while i < v.len()
        invariant
            i <= v.len(),
            r.deep_view() == v.deep_view().take(i as int),
        decreases v.len() - i,
    {
        let ghost r0 = r.deep_view();
        let x = v[i].clone();
        proof {
            assert(x@ == v.deep_view()[i as int]);
        }
        r.push(x);
        proof {
            assert(r.deep_view() =~= r0.push(v.deep_view()[i as int]));
            assert(v.deep_view().take(i as int + 1) =~= r0.push(v.deep_view()[i as int]));
        }
        i += 1;
    }
    proof {
        assert(v.deep_view().take(v.deep_view().len() as int) =~= v.deep_view());
    }
    r
}

/// A fresh list holding the strings of `a`, then those of `b`, in order.
pub fn concat_lists(a: &Vec<String>, b: &Vec<String>) -> (r: Vec<String>)
    ensures
        r.deep_view() == a.deep_view() + b.deep_view(),
{
    let mut r = clone_list(a);
    let mut tail = clone_list(b);
    r.append(&mut tail);
    proof {
        assert(r.deep_view() =~= a.deep_view() + b.deep_view());
    }
    r
}

/// Every name of `names` joined onto `root`, in order, nothing dropped.
pub open spec fn joined_all(names: Seq<Seq<char>>, root: Seq<char>) -> Seq<Seq<char>>
    decreases names.len(),
{
    if names.len() == 0 {
        Seq::empty()
    } else {
        joined_all(names.drop_last(), root).push(join_seq(root, names.last()))
    }
}

/// The paths of `s` that occur in `present`, in order.
pub open spec fn present_in(s: Seq<Seq<char>>, present: Seq<Seq<char>>) -> Seq<Seq<char>>
    decreases s.len(),
{
    if s.len() == 0 {
        Seq::empty()
    } else if present.contains(s.last()) {
        present_in(s.drop_last(), present).push(s.last())
    } else {
        present_in(s.drop_last(), present)
    }
}

/// The paths of `s` that do not occur in `present`, in order.
pub open spec fn missing_from(s: Seq<Seq<char>>, present: Seq<Seq<char>>) -> Seq<Seq<char>>
    decreases s.len(),
{
    if s.len() == 0 {
        Seq::empty()
    } else if !present.contains(s.last()) {
        missing_from(s.drop_last(), present).push(s.last())
    } else {
        missing_from(s.drop_last(), present)
    }
}

/// Joining the first `i + 1` names is joining the first `i` and then one more.
pub proof fn lemma_joined_all_step(names: Seq<Seq<char>>, root: Seq<char>, i: int)
    requires
        0 <= i < names.len(),
    ensures
        joined_all(names.take(i + 1), root)
            == joined_all(names.take(i), root).push(join_seq(root, names[i])),
{
    assert(names.take(i + 1).drop_last() =~= names.take(i));
}

/// How `present_in` grows when one path is appended.
pub proof fn lemma_present_in_push(s: Seq<Seq<char>>, x: Seq<char>, present: Seq<Seq<char>>)
    ensures
        present_in(s.push(x), present) == (if present.contains(x) {
            present_in(s, present).push(x)
        } else {
            present_in(s, present)
        }),
{
    assert(s.push(x).drop_last() =~= s);
}

/// How `missing_from` grows when one path is appended.
pub proof fn lemma_missing_from_push(s: Seq<Seq<char>>, x: Seq<char>, present: Seq<Seq<char>>)
    ensures
        missing_from(s.push(x), present) == (if !present.contains(x) {
            missing_from(s, present).push(x)
        } else {
            missing_from(s, present)
        }),
{
    assert(s.push(x).drop_last() =~= s);
}

/// Every path that `present_in` keeps was in the input and is present.
pub proof fn lemma_present_in_members(s: Seq<Seq<char>>, present: Seq<Seq<char>>, p: Seq<char>)
    requires
        present_in(s, present).contains(p),
    ensures
        s.contains(p),
        present.contains(p),
    decreases s.len(),
{
    if s.len() > 0 {
        let kept = present_in(s, present);
        let rest = present_in(s.drop_last(), present);
        if present.contains(s.last()) && p == s.last() {
            assert(s[s.len() - 1] == p);
        } else {
            assert(rest.contains(p)) by {
                if present.contains(s.last()) {
                    let k = choose|k: int| 0 <= k < kept.len() && kept[k] == p;
                    assert(kept[k] == p);
                    assert(k < rest.len());
                }
            }
            lemma_present_in_members(s.drop_last(), present, p);
            let k = choose|k: int| 0 <= k < s.drop_last().len() && s.drop_last()[k] == p;
            assert(s[k] == p);
        }
    }
}

} // verus!
