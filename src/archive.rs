//! Where an archive entry goes in the staging tree.
//!
//! An entry name is cut into components at `/` and `\`; empty and `.` components are
//! dropped. A name that is absolute, or has a `..` component, is unsafe and skipped.
//! A name of fewer than two components is skipped too: it is the wrapper directory that
//! such archives put everything under. Any other entry goes under the staging directory
//! without its first component.

use crate::package::child;
use crate::text::chars_of;
use vstd::prelude::*;
use vstd::string::*;

verus! {

pub open spec fn is_separator(c: char) -> bool {
    c == '/' || c == '\\'
}

/// The parts of `s` between separators, empty ones included.
pub open spec fn split_parts(s: Seq<char>) -> Seq<Seq<char>>
    decreases s.len(),
{
    if s.len() == 0 {
        seq![Seq::empty()]
    } else {
        let p = split_parts(s.drop_last());
        if is_separator(s.last()) {
            p.push(Seq::empty())
        } else {
            p.update(p.len() - 1, p.last().push(s.last()))
        }
    }
}

/// A part that names a directory entry: not empty, not `.`.
pub open spec fn names_entry(part: Seq<char>) -> bool {
    part.len() > 0 && part != seq!['.']
}

/// The parts that name entries, in order.
pub open spec fn entry_parts(parts: Seq<Seq<char>>) -> Seq<Seq<char>>
    decreases parts.len(),
{
    if parts.len() == 0 {
        Seq::empty()
    } else if names_entry(parts.last()) {
        entry_parts(parts.drop_last()).push(parts.last())
    } else {
        entry_parts(parts.drop_last())
    }
}

/// The components of an entry name.
pub open spec fn components(name: Seq<char>) -> Seq<Seq<char>> {
    entry_parts(split_parts(name))
}

/// An ASCII letter, as a drive is named.
pub open spec fn is_drive_letter(c: char) -> bool {
    (65 <= c as int <= 90) || (97 <= c as int <= 122)
}

/// A name that starts at the root or with a drive (a letter and `:`).
pub open spec fn is_absolute(name: Seq<char>) -> bool {
    (name.len() > 0 && is_separator(name[0])) || (name.len() > 1 && is_drive_letter(name[0]) && name[1] == ':')
}

/// A name that is absolute or has a `..` component.
pub open spec fn is_unsafe(name: Seq<char>) -> bool {
    is_absolute(name) || components(name).contains(seq!['.', '.'])
}

/// The components joined by `/`.
pub open spec fn join_parts(parts: Seq<Seq<char>>) -> Seq<char>
    decreases parts.len(),
{
    if parts.len() == 0 {
        Seq::empty()
    } else if parts.len() == 1 {
        parts[0]
    } else {
        join_parts(parts.drop_last()) + "/"@ + parts.last()
    }
}

/// A component that stays where it is put: it names an entry, holds no separator, and
/// is not `..`.
pub open spec fn is_plain_component(part: Seq<char>) -> bool {
    names_entry(part) && part != seq!['.', '.'] && forall|i: int| 0 <= i < part.len() ==> !is_separator(#[trigger] part[i])
}

/// What to do with an archive entry.
#[derive(Debug)]
pub enum EntryAction {
    /// Skip it: its name is unsafe.
    Unsafe,
    /// Skip it: it has fewer than two components. `anomalous` when it is not a directory.
    Shallow { anomalous: bool },
    /// Create this directory.
    Dir(String),
    /// Write the entry's content to this file, creating parent directories as needed.
    File(String),
}

/// The entry goes, as a directory or a file as it is one, under `staging` at its name
/// without the first component.
pub open spec fn placed(r: EntryAction, staging: Seq<char>, name: Seq<char>, is_dir: bool) -> bool {
    match r {
        EntryAction::Dir(d) => is_dir && d@ == child(staging, join_parts(components(name).skip(1))),
        EntryAction::File(f) => !is_dir && f@ == child(staging, join_parts(components(name).skip(1))),
        _ => false,
    }
}

/// Where the entry `name` goes under `staging`, or why it is skipped.
pub fn entry_action(staging: &str, name: &str, is_dir: bool) -> (r: EntryAction)
    ensures
        is_unsafe(name@) ==> (r is Unsafe),
        !is_unsafe(name@) && components(name@).len() < 2 ==> (r == (EntryAction::Shallow { anomalous: !is_dir })),
        !is_unsafe(name@) && components(name@).len() >= 2 ==> placed(r, staging@, name@, is_dir),
{
    let chars = chars_of(name);
    let ghost s = name@;
    // cut into components
    let mut comps: Vec<Vec<char>> = Vec::new();
    let mut starts: Vec<usize> = Vec::new();
    let mut current: Vec<char> = Vec::new();
    let mut start: usize = 0;
    let mut i: usize = 0;
    while i < chars.len()
        invariant
            chars@ == s,
            i <= chars.len(),
            start <= i,
            current@ == s.subrange(start as int, i as int),
            starts@.len() == comps@.len(),
            forall|k: int| 0 <= k < comps@.len() ==> starts@[k] + comps@[k]@.len() <= s.len()
                && #[trigger] comps@[k]@ == s.subrange(starts@[k] as int, starts@[k] + comps@[k]@.len()),
            split_parts(s.take(i as int)).len() >= 1,
            comps@.map_values(|v: Vec<char>| v@) == entry_parts(split_parts(s.take(i as int)).drop_last()),
            current@ == split_parts(s.take(i as int)).last(),
        decreases chars.len() - i,
    {
        let c = chars[i];
        let ghost before = split_parts(s.take(i as int));
        assert(s.take(i + 1).drop_last() =~= s.take(i as int));
        if c == '/' || c == '\\' {
            let ghost done = before.drop_last();
            if current.len() > 0 && !(current.len() == 1 && current[0] == '.') {
                assert(names_entry(before.last()));
                comps.push(current);
                starts.push(start);
                assert(before.drop_last().push(before.last()) =~= before);
            } else {
                assert(!names_entry(before.last())) by {
                    if current@.len() > 0 {
                        assert(current@ =~= seq!['.']);
                    }
                }
                assert(before.drop_last().push(before.last()) =~= before);
            }
            proof {
                assert(split_parts(s.take(i + 1)).drop_last() =~= before);
            }
            current = Vec::new();
            start = i + 1;
            assert(comps@.map_values(|v: Vec<char>| v@) =~= entry_parts(before));
        } else {
            current.push(c);
            assert(current@ =~= s.subrange(start as int, i + 1));
            proof {
                assert(split_parts(s.take(i + 1)).drop_last() =~= before.drop_last());
            }
        }
        i = i + 1;
    }
    assert(s.take(chars.len() as int) =~= s);
    let ghost parts = split_parts(s);
    if current.len() > 0 && !(current.len() == 1 && current[0] == '.') {
        comps.push(current);
        starts.push(start);
        assert(parts.drop_last().push(parts.last()) =~= parts);
    } else {
        assert(!names_entry(parts.last())) by {
            if parts.last().len() > 0 {
                assert(parts.last() =~= seq!['.']);
            }
        }
        assert(parts.drop_last().push(parts.last()) =~= parts);
    }
    let ghost cs = comps@.map_values(|v: Vec<char>| v@);
    assert(cs =~= components(s));
    // an absolute name
    if chars.len() > 0 && (chars[0] == '/' || chars[0] == '\\') {
        return EntryAction::Unsafe;
    }
    if chars.len() > 1 && (('A' <= chars[0] && chars[0] <= 'Z') || ('a' <= chars[0] && chars[0] <= 'z')) && chars[1] == ':' {
        return EntryAction::Unsafe;
    }
    // a parent-directory escape
    let mut k: usize = 0;
    while k < comps.len()
        invariant
            k <= comps.len(),
            cs == comps@.map_values(|v: Vec<char>| v@),
            cs == components(s),
            s == name@,
            forall|j: int| 0 <= j < k ==> cs[j] != seq!['.', '.'],
        decreases comps.len() - k,
    {
        if comps[k].len() == 2 && comps[k][0] == '.' && comps[k][1] == '.' {
            assert(cs[k as int] =~= seq!['.', '.']);
            assert(cs.len() == comps.len());
            assert(cs[k as int] == seq!['.', '.']);
            assert(components(s).contains(seq!['.', '.']));
            return EntryAction::Unsafe;
        }
        assert(cs[k as int] != seq!['.', '.']) by {
            if cs[k as int].len() == 2 {
                assert(!(cs[k as int][0] == '.' && cs[k as int][1] == '.'));
            }
        }
        k = k + 1;
    }
    assert(!cs.contains(seq!['.', '.']));
    if comps.len() < 2 {
        return EntryAction::Shallow { anomalous: !is_dir };
    }
    // the name without its first component
    let mut dest = String::from_str(staging);
    dest.append("/");
    let ghost head = dest@;
    let mut m: usize = 1;
    while m < comps.len()
        invariant
            1 <= m <= comps.len(),
            cs == comps@.map_values(|v: Vec<char>| v@),
            starts@.len() == comps@.len(),
            forall|k: int| 0 <= k < comps@.len() ==> starts@[k] + comps@[k]@.len() <= s.len()
                && #[trigger] comps@[k]@ == s.subrange(starts@[k] as int, starts@[k] + comps@[k]@.len()),
            s == name@,
            chars@ == s,
            dest@ == head + join_parts(cs.subrange(1, m as int)),
        decreases comps.len() - m,
    {
        let ghost before = dest@;
        if m > 1 {
            dest.append("/");
        }
        assert(starts@[m as int] + comps@[m as int]@.len() <= s.len());
        assert(s.len() == chars.len());
        let from: usize = starts[m];
        let len: usize = comps[m].len();
        assert(from + len <= chars.len());
        let part = name.substring_char(from, from + len);
        dest.append(part);
        proof {
            let next = cs.subrange(1, m + 1);
            assert(next.drop_last() =~= cs.subrange(1, m as int));
            assert(part@ == cs[m as int]);
            if m == 1 {
                assert(cs.subrange(1, 1) =~= Seq::<Seq<char>>::empty());
                assert(dest@ =~= head + join_parts(next));
            } else {
                assert(dest@ =~= head + join_parts(next));
            }
        }
        m = m + 1;
    }
    assert(cs.subrange(1, comps.len() as int) =~= cs.skip(1));
    assert(head == staging@ + "/"@);
    assert(dest@ =~= child(staging@, join_parts(components(name@).skip(1))));
    if is_dir {
        EntryAction::Dir(dest)
    } else {
        EntryAction::File(dest)
    }
}

proof fn lemma_split_parts_plain(s: Seq<char>)
    ensures
        split_parts(s).len() >= 1,
        forall|i: int, j: int| 0 <= i < split_parts(s).len() && 0 <= j < split_parts(s)[i].len()
            ==> !is_separator(#[trigger] split_parts(s)[i][j]),
    decreases s.len(),
{
    if s.len() > 0 {
        lemma_split_parts_plain(s.drop_last());
        let p = split_parts(s.drop_last());
        let q = split_parts(s);
        if !is_separator(s.last()) {
            assert forall|i: int, j: int| 0 <= i < q.len() && 0 <= j < q[i].len()
                implies !is_separator(#[trigger] q[i][j]) by {
                if i == p.len() - 1 && j == p.last().len() {
                    assert(q[i][j] == s.last());
                } else if i == p.len() - 1 {
                    assert(q[i][j] == p[i][j]);
                } else {
                    assert(q[i] == p[i]);
                }
            }
        } else {
            assert forall|i: int, j: int| 0 <= i < q.len() && 0 <= j < q[i].len()
                implies !is_separator(#[trigger] q[i][j]) by {
                if i < p.len() {
                    assert(q[i] == p[i]);
                }
            }
        }
    }
}

proof fn lemma_entry_parts_from(parts: Seq<Seq<char>>)
    ensures
        forall|i: int| 0 <= i < entry_parts(parts).len() ==> names_entry(#[trigger] entry_parts(parts)[i])
            && exists|k: int| 0 <= k < parts.len() && parts[k] == entry_parts(parts)[i],
    decreases parts.len(),
{
    if parts.len() > 0 {
        let prev = parts.drop_last();
        lemma_entry_parts_from(prev);
        let e = entry_parts(parts);
        assert forall|i: int| 0 <= i < e.len() implies names_entry(#[trigger] e[i])
            && exists|k: int| 0 <= k < parts.len() && parts[k] == e[i] by {
            if i < entry_parts(prev).len() {
                assert(e[i] == entry_parts(prev)[i]);
                let k = choose|k: int| 0 <= k < prev.len() && prev[k] == entry_parts(prev)[i];
                assert(parts[k] == prev[k]);
            } else {
                assert(e[i] == parts.last());
                assert(parts[parts.len() - 1] == e[i]);
            }
        }
    }
}

/// Path safety: the components of a name that is not unsafe are all plain (not empty,
/// not `.` or `..`, free of separators), so the place that `entry_action` gives an
/// entry, the staging directory followed by such components, lies inside the staging
/// tree. Unsafe names are skipped.
pub proof fn lemma_entries_stay_in_staging(name: Seq<char>)
    requires
        !is_unsafe(name),
    ensures
        forall|i: int| 0 <= i < components(name).len() ==> is_plain_component(#[trigger] components(name)[i]),
{
    lemma_split_parts_plain(name);
    lemma_entry_parts_from(split_parts(name));
    let c = components(name);
    assert forall|i: int| 0 <= i < c.len() implies is_plain_component(#[trigger] c[i]) by {
        let k = choose|k: int| 0 <= k < split_parts(name).len() && split_parts(name)[k] == c[i];
        assert(c.contains(c[i]));
        assert forall|j: int| 0 <= j < c[i].len() implies !is_separator(#[trigger] c[i][j]) by {
            assert(split_parts(name)[k][j] == c[i][j]);
        }
    }
}

proof fn lemma_split_parts_concat(pre: Seq<char>, r: Seq<char>)
    requires
        pre.len() > 0,
        is_separator(pre.last()),
    ensures
        split_parts(pre + r) == split_parts(pre).drop_last() + split_parts(r),
    decreases r.len(),
{
    lemma_split_parts_plain(pre);
    lemma_split_parts_plain(r);
    if r.len() == 0 {
        assert(pre + r =~= pre);
        assert(pre.drop_last() + seq![pre.last()] =~= pre);
        assert(split_parts(pre).last() =~= Seq::<char>::empty());
        assert(split_parts(pre) =~= split_parts(pre).drop_last() + split_parts(r));
    } else {
        let r0 = r.drop_last();
        lemma_split_parts_concat(pre, r0);
        lemma_split_parts_plain(r0);
        assert((pre + r).drop_last() =~= pre + r0);
        assert((pre + r).last() == r.last());
        let d = split_parts(pre).drop_last();
        if is_separator(r.last()) {
            assert(split_parts(pre + r) =~= d + split_parts(r));
        } else {
            assert(split_parts(pre + r) =~= d + split_parts(r));
        }
    }
}

proof fn lemma_split_parts_single(x: Seq<char>)
    requires
        forall|i: int| 0 <= i < x.len() ==> !is_separator(#[trigger] x[i]),
    ensures
        split_parts(x) == seq![x],
    decreases x.len(),
{
    if x.len() > 0 {
        let x0 = x.drop_last();
        assert forall|i: int| 0 <= i < x0.len() implies !is_separator(#[trigger] x0[i]) by {
            assert(x0[i] == x[i]);
        }
        lemma_split_parts_single(x0);
        assert(x0.push(x.last()) =~= x);
        assert(split_parts(x) =~= seq![x]);
    } else {
        assert(x =~= Seq::<char>::empty());
    }
}

proof fn lemma_entry_parts_concat(a: Seq<Seq<char>>, b: Seq<Seq<char>>)
    ensures
        entry_parts(a + b) == entry_parts(a) + entry_parts(b),
    decreases b.len(),
{
    if b.len() == 0 {
        assert(a + b =~= a);
        assert(entry_parts(a) + entry_parts(b) =~= entry_parts(a));
    } else {
        lemma_entry_parts_concat(a, b.drop_last());
        assert((a + b).drop_last() =~= a + b.drop_last());
        assert((a + b).last() == b.last());
        if names_entry(b.last()) {
            assert(entry_parts(a + b) =~= entry_parts(a) + entry_parts(b));
        } else {
            assert(entry_parts(a + b) =~= entry_parts(a) + entry_parts(b));
        }
    }
}

/// Wrapper stripping: an entry `x/rest`, under a top-level directory `x` (a single
/// component), has the components of `rest` once the first is taken away, so
/// `entry_action` places it at `rest` under the staging directory.
pub proof fn lemma_wrapper_stripped(x: Seq<char>, rest: Seq<char>)
    requires
        names_entry(x),
        forall|i: int| 0 <= i < x.len() ==> !is_separator(#[trigger] x[i]),
    ensures
        components(x + seq!['/'] + rest) == seq![x] + components(rest),
        components(x + seq!['/'] + rest).skip(1) == components(rest),
{
    let pre = x + seq!['/'];
    assert(pre.drop_last() =~= x);
    lemma_split_parts_single(x);
    lemma_split_parts_concat(pre, rest);
    assert(split_parts(pre) =~= seq![x, Seq::<char>::empty()]);
    assert(split_parts(pre).drop_last() =~= seq![x]);
    lemma_entry_parts_concat(seq![x], split_parts(rest));
    assert(seq![x].drop_last() =~= Seq::<Seq<char>>::empty());
    assert(seq![x].last() == x);
    assert(entry_parts(Seq::<Seq<char>>::empty()) == Seq::<Seq<char>>::empty());
    assert(entry_parts(seq![x]) == entry_parts(seq![x].drop_last()).push(x));
    assert(entry_parts(seq![x]) =~= seq![x]);
    assert((seq![x] + components(rest)).skip(1) =~= components(rest));
}

} // verus!
