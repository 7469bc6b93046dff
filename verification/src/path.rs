//! Textual normalization of paths.
//!
//! A path is a sequence of bytes in which `/` separates the segments. The
//! normal form of a path has no empty segment, no `.` and no `..`: it is
//! found without asking the file system, by dropping the first two and by
//! letting `..` take back the segment before it. A path that starts with `/`
//! stays below the root: there `..` has nothing to take back.

use vstd::prelude::*;

verus! {

/// The byte that separates the segments of a path.
pub const SEPARATOR: u8 = 0x2f;

/// The byte of which the segments `.` and `..` are made.
pub const DOT: u8 = 0x2e;

/// The segments of a path: what stands between its separators. There is
/// always at least one, and a segment may be empty.
pub open spec fn split(path: Seq<u8>) -> Seq<Seq<u8>>
    decreases path.len(),
{
    if path.len() == 0 {
        seq![Seq::empty()]
    } else if path.last() == SEPARATOR {
        split(path.drop_last()).push(Seq::empty())
    } else {
        let before = split(path.drop_last());
        before.drop_last().push(before.last().push(path.last()))
    }
}

/// The segment `.`, which stands for the directory it is found in.
pub open spec fn is_cur_dir(segment: Seq<u8>) -> bool {
    segment == seq![DOT]
}

/// The segment `..`, which stands for the parent directory.
pub open spec fn is_parent_dir(segment: Seq<u8>) -> bool {
    segment == seq![DOT, DOT]
}

/// A segment that names an entry of a directory.
pub open spec fn is_normal(segment: Seq<u8>) -> bool {
    &&& segment.len() > 0
    &&& !is_cur_dir(segment)
    &&& !is_parent_dir(segment)
    &&& forall|i: int| 0 <= i < segment.len() ==> segment[i] != SEPARATOR
}

/// The names that are left after `segment` followed on `stack`.
pub open spec fn apply(stack: Seq<Seq<u8>>, segment: Seq<u8>) -> Seq<Seq<u8>> {
    if segment.len() == 0 || is_cur_dir(segment) {
        stack
    } else if is_parent_dir(segment) {
        if stack.len() > 0 {
            stack.drop_last()
        } else {
            stack
        }
    } else {
        stack.push(segment)
    }
}

/// The names that are left after `segments` followed on `stack`, one after
/// the other.
pub open spec fn resolve_onto(stack: Seq<Seq<u8>>, segments: Seq<Seq<u8>>) -> Seq<Seq<u8>>
    decreases segments.len(),
{
    if segments.len() == 0 {
        stack
    } else {
        apply(resolve_onto(stack, segments.drop_last()), segments.last())
    }
}

/// The names that are left of `segments`.
pub open spec fn resolve(segments: Seq<Seq<u8>>) -> Seq<Seq<u8>> {
    resolve_onto(Seq::empty(), segments)
}

/// The names with a separator between each two of them.
pub open spec fn join(names: Seq<Seq<u8>>) -> Seq<u8>
    decreases names.len(),
{
    if names.len() == 0 {
        Seq::empty()
    } else if names.len() == 1 {
        names[0]
    } else {
        join(names.drop_last()) + seq![SEPARATOR] + names.last()
    }
}

/// Whether the path starts at the root directory.
pub open spec fn is_rooted(path: Seq<u8>) -> bool {
    path.len() > 0 && path[0] == SEPARATOR
}

/// The path that starts at the root if `rooted`, and leads through `names`.
pub open spec fn render(rooted: bool, names: Seq<Seq<u8>>) -> Seq<u8> {
    if rooted {
        seq![SEPARATOR] + join(names)
    } else {
        join(names)
    }
}

/// The normal form of a path.
pub open spec fn spec_normalize_path(path: Seq<u8>) -> Seq<u8> {
    render(is_rooted(path), resolve(split(path)))
}

/// The segments of the vectors in `stack`.
pub open spec fn names_of(stack: Seq<Vec<u8>>) -> Seq<Seq<u8>> {
    Seq::new(stack.len(), |i: int| stack[i]@)
}

/// Let `segment` follow on `stack`.
fn apply_segment(stack: &mut Vec<Vec<u8>>, segment: Vec<u8>)
    ensures
        names_of(final(stack)@) == apply(names_of(old(stack)@), segment@),
{
    let n = segment.len();
    if n == 0 || (n == 1 && segment[0] == DOT) {
        assert(n == 1 && segment[0] == DOT ==> segment@ =~= seq![DOT]);
    } else if n == 2 && segment[0] == DOT && segment[1] == DOT {
        assert(segment@ =~= seq![DOT, DOT]);
        if stack.len() > 0 {
            stack.pop();
            assert(names_of(stack@) =~= names_of(old(stack)@).drop_last());
        }
    } else {
        assert(!is_cur_dir(segment@)) by {
            if is_cur_dir(segment@) {
                assert(seq![DOT].len() == 1);
                assert(seq![DOT][0] == DOT);
            }
        }
        assert(!is_parent_dir(segment@)) by {
            if is_parent_dir(segment@) {
                assert(seq![DOT, DOT].len() == 2);
                assert(seq![DOT, DOT][0] == DOT);
                assert(seq![DOT, DOT][1] == DOT);
            }
        }
        stack.push(segment);
        assert(names_of(stack@) =~= names_of(old(stack)@).push(segment@));
    }
}

/// The names with a separator between each two of them, after the root if
/// `rooted`.
fn render_path(rooted: bool, stack: &Vec<Vec<u8>>) -> (out: Vec<u8>)
    ensures
        out@ == render(rooted, names_of(stack@)),
{
    let ghost names = names_of(stack@);
    let mut out: Vec<u8> = Vec::new();
    if rooted {
        out.push(SEPARATOR);
    }
    let ghost root = out@;
    assert(names.take(0) =~= Seq::<Seq<u8>>::empty());
    let mut i: usize = 0;
    while i < stack.len()
        invariant
            i <= stack.len(),
            names == names_of(stack@),
            root == if rooted {
                seq![SEPARATOR]
            } else {
                Seq::<u8>::empty()
            },
            out@ == root + join(names.take(i as int)),
        decreases stack.len() - i,
    {
        let ghost before = names.take(i as int);
        let ghost after = names.take(i + 1);
        assert(after.drop_last() =~= before);
        assert(after.last() == stack@[i as int]@);
        if i > 0 {
            out.push(SEPARATOR);
        }
        out.extend_from_slice(stack[i].as_slice());
        assert(out@ =~= root + join(after));
        i += 1;
    }
    assert(names.take(stack.len() as int) =~= names);
    assert(root + join(names) =~= render(rooted, names));
    out
}

/// Bring a path into its normal form: drop the empty segments and every
/// `.`, and let every `..` take back the name before it, if there is one.
/// A path that starts at the root still does so afterwards.
pub fn normalize_path(path: &[u8]) -> (out: Vec<u8>)
    ensures
        out@ == spec_normalize_path(path@),
{
    let mut stack: Vec<Vec<u8>> = Vec::new();
    let mut current: Vec<u8> = Vec::new();
    let mut i: usize = 0;
    assert(path@.take(0) =~= Seq::<u8>::empty());
    assert(names_of(stack@) =~= Seq::<Seq<u8>>::empty());
    assert(split(Seq::<u8>::empty()).drop_last() =~= Seq::<Seq<u8>>::empty());
    while i < path.len()
        invariant
            i <= path.len(),
            names_of(stack@) == resolve(split(path@.take(i as int)).drop_last()),
            current@ == split(path@.take(i as int)).last(),
        decreases path.len() - i,
    {
        let c = path[i];
        let ghost before = path@.take(i as int);
        let ghost after = path@.take(i + 1);
        assert(after.drop_last() =~= before);
        assert(after.last() == c);
        proof {
            lemma_split_nonempty(before);
        }
        if c == SEPARATOR {
            apply_segment(&mut stack, current);
            current = Vec::new();
            assert(split(after).drop_last() =~= split(before));
            assert(split(before).drop_last().push(split(before).last()) =~= split(before));
        } else {
            current.push(c);
            assert(split(after).drop_last() =~= split(before).drop_last());
        }
        i += 1;
    }
    assert(path@.take(path.len() as int) =~= path@);
    proof {
        lemma_split_nonempty(path@);
        assert(split(path@).drop_last().push(split(path@).last()) =~= split(path@));
    }
    apply_segment(&mut stack, current);
    let rooted = path.len() > 0 && path[0] == SEPARATOR;
    render_path(rooted, &stack)
}

/// The path that `path` stands for in the directory `base`: `path` itself
/// if it starts at the root or `base` is empty, else `path` below `base`.
pub open spec fn spec_resolve_in(base: Seq<u8>, path: Seq<u8>) -> Seq<u8> {
    if is_rooted(path) || base.len() == 0 {
        path
    } else {
        base + seq![SEPARATOR] + path
    }
}

/// The normal form of the path that `path` stands for in the directory
/// `base`. This is the full name of a file that is named relative to the
/// working directory.
pub fn full_path(base: &[u8], path: &[u8]) -> (out: Vec<u8>)
    ensures
        out@ == spec_normalize_path(spec_resolve_in(base@, path@)),
{
    if (path.len() > 0 && path[0] == SEPARATOR) || base.len() == 0 {
        normalize_path(path)
    } else {
        let mut joined = vstd::slice::slice_to_vec(base);
        joined.push(SEPARATOR);
        joined.extend_from_slice(path);
        assert(joined@ =~= base@ + seq![SEPARATOR] + path@);
        normalize_path(joined.as_slice())
    }
}

/// A path has at least one segment, and no segment holds a separator.
pub proof fn lemma_split_nonempty(path: Seq<u8>)
    ensures
        split(path).len() >= 1,
        forall|k: int, i: int|
            0 <= k < split(path).len() && 0 <= i < split(path)[k].len() ==> split(path)[k][i]
                != SEPARATOR,
    decreases path.len(),
{
    if path.len() > 0 {
        lemma_split_nonempty(path.drop_last());
    }
}

/// Where a path ends with a separator, or is empty, the segments of what
/// follows simply follow on its segments.
pub proof fn lemma_split_concat(a: Seq<u8>, b: Seq<u8>)
    requires
        a.len() == 0 || a.last() == SEPARATOR,
    ensures
        split(a + b) == split(a).drop_last() + split(b),
    decreases b.len(),
{
    let x = split(a).drop_last();
    lemma_split_nonempty(a);
    if b.len() == 0 {
        assert(a + b =~= a);
        assert(split(a).last() =~= Seq::<u8>::empty());
        assert(split(a) =~= x + split(b));
    } else {
        let shorter = b.drop_last();
        lemma_split_concat(a, shorter);
        lemma_split_nonempty(shorter);
        assert((a + b).drop_last() =~= a + shorter);
        assert((a + b).last() == b.last());
        if b.last() == SEPARATOR {
            assert(split(a + b) =~= x + split(b));
        } else {
            let s = split(a + shorter);
            assert(s.last() == split(shorter).last());
            assert(s.drop_last() =~= x + split(shorter).drop_last());
            assert(split(a + b) =~= x + split(b));
        }
    }
}

/// Segments can be resolved in two parts.
pub proof fn lemma_resolve_concat(stack: Seq<Seq<u8>>, x: Seq<Seq<u8>>, y: Seq<Seq<u8>>)
    ensures
        resolve_onto(stack, x + y) == resolve_onto(resolve_onto(stack, x), y),
    decreases y.len(),
{
    if y.len() == 0 {
        assert(x + y =~= x);
    } else {
        lemma_resolve_concat(stack, x, y.drop_last());
        assert((x + y).drop_last() =~= x + y.drop_last());
        assert((x + y).last() == y.last());
    }
}

/// Names follow on a stack as they are.
proof fn lemma_resolve_normal(stack: Seq<Seq<u8>>, names: Seq<Seq<u8>>)
    requires
        forall|k: int| 0 <= k < names.len() ==> is_normal(#[trigger] names[k]),
    ensures
        resolve_onto(stack, names) == stack + names,
    decreases names.len(),
{
    if names.len() == 0 {
        assert(stack + names =~= stack);
    } else {
        lemma_resolve_normal(stack, names.drop_last());
        assert(is_normal(names[names.len() - 1]));
        assert(stack + names =~= (stack + names.drop_last()).push(names.last()));
    }
}

/// What is left of segments without a separator are names, if the stack
/// they follow on holds names.
proof fn lemma_resolve_yields_names(stack: Seq<Seq<u8>>, segments: Seq<Seq<u8>>)
    requires
        forall|k: int| 0 <= k < stack.len() ==> is_normal(#[trigger] stack[k]),
        forall|k: int, i: int|
            0 <= k < segments.len() && 0 <= i < segments[k].len() ==> segments[k][i] != SEPARATOR,
    ensures
        forall|k: int|
            0 <= k < resolve_onto(stack, segments).len() ==> is_normal(
                #[trigger] resolve_onto(stack, segments)[k],
            ),
    decreases segments.len(),
{
    if segments.len() > 0 {
        let init = segments.drop_last();
        let last = segments.last();
        assert forall|k: int, i: int|
            0 <= k < init.len() && 0 <= i < init[k].len() implies init[k][i] != SEPARATOR by {
            assert(init[k] == segments[k]);
        }
        lemma_resolve_yields_names(stack, init);
        assert forall|i: int| 0 <= i < last.len() implies last[i] != SEPARATOR by {
            assert(last == segments[segments.len() - 1]);
        }
        let before = resolve_onto(stack, init);
        let result = resolve_onto(stack, segments);
        assert(result == apply(before, last));
        assert forall|k: int| 0 <= k < result.len() implies is_normal(#[trigger] result[k]) by {
            if k < before.len() {
                assert(is_normal(before[k]));
            }
        }
    }
}

/// A segment without a separator is the only segment of itself.
proof fn lemma_split_name(name: Seq<u8>)
    requires
        forall|i: int| 0 <= i < name.len() ==> name[i] != SEPARATOR,
    ensures
        split(name) == seq![name],
    decreases name.len(),
{
    if name.len() == 0 {
        assert(name =~= Seq::<u8>::empty());
    } else {
        lemma_split_name(name.drop_last());
        assert(name.drop_last().push(name.last()) =~= name);
        assert(split(name) =~= seq![name]);
    }
}

/// The segments of joined names are these names.
proof fn lemma_split_join(names: Seq<Seq<u8>>)
    requires
        names.len() > 0,
        forall|k: int| 0 <= k < names.len() ==> is_normal(#[trigger] names[k]),
    ensures
        split(join(names)) == names,
    decreases names.len(),
{
    if names.len() == 1 {
        assert(is_normal(names[0]));
        lemma_split_name(names[0]);
        assert(seq![names[0]] =~= names);
    } else {
        let init = names.drop_last();
        let last = names.last();
        assert(is_normal(names[names.len() - 1]));
        assert forall|k: int| 0 <= k < init.len() implies is_normal(#[trigger] init[k]) by {
            assert(init[k] == names[k]);
        }
        lemma_split_join(init);
        lemma_split_name(last);
        let a = join(init) + seq![SEPARATOR];
        assert(a.drop_last() =~= join(init));
        assert(split(a) == split(join(init)).push(Seq::<u8>::empty()));
        assert(split(a).drop_last() =~= init);
        lemma_split_concat(a, last);
        assert(init + seq![last] =~= names);
    }
}

/// The first byte of joined names is no separator.
proof fn lemma_join_not_rooted(names: Seq<Seq<u8>>)
    requires
        forall|k: int| 0 <= k < names.len() ==> is_normal(#[trigger] names[k]),
    ensures
        !is_rooted(join(names)),
    decreases names.len(),
{
    if names.len() == 1 {
        assert(is_normal(names[0]));
    } else if names.len() > 1 {
        let init = names.drop_last();
        assert forall|k: int| 0 <= k < init.len() implies is_normal(#[trigger] init[k]) by {
            assert(init[k] == names[k]);
        }
        lemma_join_not_rooted(init);
        assert(init.len() >= 1);
        lemma_join_nonempty(init);
        assert(join(names)[0] == join(init)[0]);
    }
}

/// Joined names are not empty.
proof fn lemma_join_nonempty(names: Seq<Seq<u8>>)
    requires
        names.len() > 0,
        forall|k: int| 0 <= k < names.len() ==> is_normal(#[trigger] names[k]),
    ensures
        join(names).len() > 0,
    decreases names.len(),
{
    assert(is_normal(names[0]));
    assert(is_normal(names[names.len() - 1]));
}

/// The normal form of a path is a root, or none, followed by names.
pub proof fn lemma_normal_form(path: Seq<u8>)
    ensures
        forall|k: int|
            0 <= k < resolve(split(path)).len() ==> is_normal(#[trigger] resolve(split(path))[k]),
{
    lemma_split_nonempty(path);
    lemma_resolve_yields_names(Seq::empty(), split(path));
}

/// The normal form of a path starts at the root exactly if the path does.
pub proof fn lemma_normalize_keeps_root(path: Seq<u8>)
    ensures
        is_rooted(spec_normalize_path(path)) == is_rooted(path),
{
    lemma_normal_form(path);
    lemma_join_not_rooted(resolve(split(path)));
}

/// Normalization is idempotent: the normal form of a path is its own normal
/// form.
pub proof fn lemma_normalize_idempotent(path: Seq<u8>)
    ensures
        spec_normalize_path(spec_normalize_path(path)) == spec_normalize_path(path),
{
    let rooted = is_rooted(path);
    let names = resolve(split(path));
    let normal = spec_normalize_path(path);
    lemma_normal_form(path);
    lemma_join_not_rooted(names);
    let empty = Seq::<Seq<u8>>::empty();
    let blank = Seq::<u8>::empty();
    assert(resolve_onto(empty, seq![blank]) == empty) by {
        assert(seq![blank].drop_last() =~= empty);
        assert(resolve_onto(empty, empty) == empty);
        assert(seq![blank].last() == blank);
    }
    if names.len() > 0 {
        lemma_split_join(names);
        lemma_resolve_normal(empty, names);
        assert(empty + names =~= names);
    } else {
        assert(join(names) =~= blank);
    }
    if rooted {
        let root = seq![SEPARATOR];
        assert(root.drop_last() =~= blank);
        assert(split(root) == split(blank).push(blank));
        assert(split(root).drop_last() =~= seq![blank]);
        lemma_split_concat(root, join(names));
        assert(is_rooted(normal));
        lemma_resolve_concat(empty, seq![blank], split(join(names)));
    } else {
        assert(normal == join(names));
    }
}

/// Normalization does not see a `./` that is put in front of a segment: in
/// front of a path that does not start at the root, or behind any separator.
pub proof fn lemma_normalize_ignores_cur_dir(a: Seq<u8>, b: Seq<u8>)
    requires
        a.len() == 0 ==> !is_rooted(b),
        a.len() > 0 ==> a.last() == SEPARATOR,
    ensures
        spec_normalize_path(a + seq![DOT, SEPARATOR] + b) == spec_normalize_path(a + b),
{
    let dot = seq![DOT, SEPARATOR];
    let x = split(a).drop_last();
    let empty = Seq::<Seq<u8>>::empty();
    assert(a + dot + b =~= a + (dot + b));
    lemma_split_concat(a, dot + b);
    lemma_split_concat(dot, b);
    lemma_split_concat(a, b);
    assert(split(dot).drop_last() =~= seq![seq![DOT]]) by {
        let d = seq![DOT];
        assert(dot.drop_last() =~= d);
        lemma_split_name(d);
    }
    let cur = seq![seq![DOT]];
    assert(x + (cur + split(b)) =~= (x + cur) + split(b));
    lemma_resolve_concat(empty, x + cur, split(b));
    lemma_resolve_concat(empty, x, split(b));
    assert(resolve_onto(empty, x + cur) == resolve_onto(empty, x)) by {
        assert((x + cur).drop_last() =~= x);
        assert((x + cur).last() == seq![DOT]);
    }
    assert(is_rooted(a + dot + b) == is_rooted(a + b)) by {
        if a.len() > 0 {
            assert((a + dot + b)[0] == a[0]);
            assert((a + b)[0] == a[0]);
        } else {
            assert((a + dot + b)[0] == DOT);
            assert(a + b =~= b);
        }
    }
}

} // verus!
