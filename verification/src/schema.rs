//! The schema resolver: locates a field inside the nested session schema
//! document and renders its dotted path.

use vstd::prelude::*;

verus! {

/// One node of a schema document: a tree of nested maps and ordered
/// sequences describing the shape of the session data structure.
pub enum SchemaNode {
    Object(Vec<(String, SchemaNode)>),
    Array(Vec<SchemaNode>),
    Scalar,
}

/// The mathematical shape of a schema document.
pub ghost enum SchemaShape {
    Object(Seq<(Seq<char>, SchemaShape)>),
    Array(Seq<SchemaShape>),
    Scalar,
}

/// The shape of an exec schema node.
pub open spec fn node_shape(n: SchemaNode) -> SchemaShape
    decreases n,
{
    match n {
        SchemaNode::Object(entries) => SchemaShape::Object(entries_shape(entries@)),
        SchemaNode::Array(items) => SchemaShape::Array(items_shape(items@)),
        SchemaNode::Scalar => SchemaShape::Scalar,
    }
}

pub open spec fn entries_shape(s: Seq<(String, SchemaNode)>) -> Seq<(Seq<char>, SchemaShape)>
    decreases s,
{
    if s.len() == 0 {
        Seq::empty()
    } else {
        seq![(s[0].0@, node_shape(s[0].1))] + entries_shape(s.drop_first())
    }
}

pub open spec fn items_shape(s: Seq<SchemaNode>) -> Seq<SchemaShape>
    decreases s,
{
    if s.len() == 0 {
        Seq::empty()
    } else {
        seq![node_shape(s[0])] + items_shape(s.drop_first())
    }
}

impl View for SchemaNode {
    type V = SchemaShape;

    open spec fn view(&self) -> SchemaShape {
        node_shape(*self)
    }
}

/// Depth-first search for the first node whose key equals `target`, following
/// the disambiguation index `idx` through every sequence. The result is the
/// list of path segments from the root down to and including the matching
/// key, or `None` when nothing below this node matches.
pub open spec fn find_in_shape(n: SchemaShape, target: Seq<char>, idx: int) -> Option<
    Seq<Seq<char>>,
>
    decreases n,
{
    match n {
        SchemaShape::Object(entries) => find_in_entries(entries, target, idx),
        SchemaShape::Array(items) => if 0 <= idx < items.len() {
            match find_in_shape(items[idx], target, idx) {
                Some(p) => Some(seq![crate::text::dec_of(idx as nat)] + p),
                None => None,
            }
        } else {
            None
        },
        SchemaShape::Scalar => None,
    }
}

/// Depth-first search over an object's entries in order: a key equal to
/// `target` wins immediately; otherwise the key's own subtree is searched
/// before the following entries.
pub open spec fn find_in_entries(
    entries: Seq<(Seq<char>, SchemaShape)>,
    target: Seq<char>,
    idx: int,
) -> Option<Seq<Seq<char>>>
    decreases entries,
{
    if entries.len() == 0 {
        None
    } else if entries[0].0 == target {
        Some(seq![entries[0].0])
    } else {
        match find_in_shape(entries[0].1, target, idx) {
            Some(p) => Some(seq![entries[0].0] + p),
            None => find_in_entries(entries.drop_first(), target, idx),
        }
    }
}

/// The segments of a path joined with periods.
pub open spec fn join_path(segs: Seq<Seq<char>>) -> Seq<char>
    decreases segs.len(),
{
    if segs.len() == 0 {
        Seq::empty()
    } else if segs.len() == 1 {
        segs[0]
    } else {
        segs[0] + seq!['.'] + join_path(segs.drop_first())
    }
}

/// The views of a vector of path segments.
pub open spec fn segs_view(v: Seq<String>) -> Seq<Seq<char>> {
    v.map_values(|s: String| s@)
}

/// The shape of an object's entries, entry by entry.
proof fn lemma_entries_shape_index(s: Seq<(String, SchemaNode)>)
    ensures
        entries_shape(s).len() == s.len(),
        forall|i: int|
            0 <= i < s.len() ==> entries_shape(s)[i] == (s[i].0@, node_shape(s[i].1)),
    decreases s.len(),
{
    if s.len() > 0 {
        lemma_entries_shape_index(s.drop_first());
    }
}

/// The shape of a sequence's items, item by item.
proof fn lemma_items_shape_index(s: Seq<SchemaNode>)
    ensures
        items_shape(s).len() == s.len(),
        forall|i: int| 0 <= i < s.len() ==> items_shape(s)[i] == node_shape(s[i]),
    decreases s.len(),
{
    if s.len() > 0 {
        lemma_items_shape_index(s.drop_first());
    }
}

/// Searching an object's entries from entry `i` on looks at entry `i` first
/// and only then at the entries after it.
proof fn lemma_entries_shape_skip(e: Seq<(String, SchemaNode)>, i: int)
    requires
        0 <= i < e.len(),
    ensures
        entries_shape(e.skip(i)) == seq![(e[i].0@, node_shape(e[i].1))] + entries_shape(
            e.skip(i + 1),
        ),
{
    assert(e.skip(i).len() == e.len() - i);
    assert(e.skip(i)[0] == e[i]);
    assert(e.skip(i).drop_first() =~= e.skip(i + 1));
}

/// A key match at entry `i` ends the search with the path of that one key.
proof fn lemma_find_entries_key(e: Seq<(String, SchemaNode)>, t: Seq<char>, idx: int, i: int)
    requires
        0 <= i < e.len(),
        e[i].0@ == t,
    ensures
        find_in_entries(entries_shape(e.skip(i)), t, idx) == Some(seq![e[i].0@]),
{
    lemma_entries_shape_skip(e, i);
    let s = entries_shape(e.skip(i));
    assert(s[0] == (e[i].0@, node_shape(e[i].1)));
}

/// A match inside entry `i`'s subtree ends the search with the entry's key
/// in front of the subtree's path.
proof fn lemma_find_entries_sub(
    e: Seq<(String, SchemaNode)>,
    t: Seq<char>,
    idx: int,
    i: int,
    p: Seq<Seq<char>>,
)
    requires
        0 <= i < e.len(),
        e[i].0@ != t,
        find_in_shape(node_shape(e[i].1), t, idx) == Some(p),
    ensures
        find_in_entries(entries_shape(e.skip(i)), t, idx) == Some(seq![e[i].0@] + p),
{
    lemma_entries_shape_skip(e, i);
    let s = entries_shape(e.skip(i));
    assert(s[0] == (e[i].0@, node_shape(e[i].1)));
}

/// When entry `i` neither matches by key nor holds a match in its subtree,
/// the search continues with the entries after it.
proof fn lemma_find_entries_step(e: Seq<(String, SchemaNode)>, t: Seq<char>, idx: int, i: int)
    requires
        0 <= i < e.len(),
        e[i].0@ != t,
        find_in_shape(node_shape(e[i].1), t, idx) is None,
    ensures
        find_in_entries(entries_shape(e.skip(i)), t, idx) == find_in_entries(
            entries_shape(e.skip(i + 1)),
            t,
            idx,
        ),
{
    lemma_entries_shape_skip(e, i);
    let s = entries_shape(e.skip(i));
    assert(s[0] == (e[i].0@, node_shape(e[i].1)));
    assert(s.drop_first() =~= entries_shape(e.skip(i + 1)));
}

/// Depth-first search of a schema document for the first node whose key
/// equals `target`, recursing into the element at `car_idx` wherever the
/// path crosses a sequence. Returns the path segments down to the match.
#[verifier::loop_isolation(false)]
fn recurse_find(node: &SchemaNode, target: &String, car_idx: usize) -> (r: Option<Vec<String>>)
    ensures
        match r {
            Some(v) => find_in_shape(node@, target@, car_idx as int) == Some(segs_view(v@)),
            None => find_in_shape(node@, target@, car_idx as int) is None,
        },
    decreases *node,
{
    match node {
        SchemaNode::Object(entries) => {
            let n = entries.len();
            proof {
                assert(entries@.skip(0) =~= entries@);
            }
            let mut i: usize = 0;
            while i < n
                invariant
                    i <= n,
                    n == entries@.len(),
                    find_in_entries(entries_shape(entries@), target@, car_idx as int)
                        == find_in_entries(
                        entries_shape(entries@.skip(i as int)),
                        target@,
                        car_idx as int,
                    ),
                decreases n - i,
            {
                let (key, child) = &entries[i];
                if key.eq(target) {
                    let mut path: Vec<String> = Vec::new();
                    path.push(key.clone());
                    proof {
                        lemma_find_entries_key(entries@, target@, car_idx as int, i as int);
                        assert(segs_view(path@) =~= seq![entries@[i as int].0@]);
                    }
                    return Some(path);
                }
                let sub = recurse_find(child, target, car_idx);
                match sub {
                    Some(mut path) => {
                        proof {
                            let p = find_in_shape(child@, target@, car_idx as int)->Some_0;
                            lemma_find_entries_sub(
                                entries@,
                                target@,
                                car_idx as int,
                                i as int,
                                p,
                            );
                        }
                        path.insert(0, key.clone());
                        proof {
                            let p = find_in_shape(child@, target@, car_idx as int)->Some_0;
                            assert(segs_view(path@) =~= seq![entries@[i as int].0@] + p);
                        }
                        return Some(path);
                    },
                    None => {},
                }
                proof {
                    lemma_find_entries_step(entries@, target@, car_idx as int, i as int);
                }
                i = i + 1;
            }
            proof {
                assert(entries@.skip(n as int) =~= Seq::empty());
            }
            None
        },
        SchemaNode::Array(items) => {
            proof {
                lemma_items_shape_index(items@);
            }
            if car_idx < items.len() {
                let sub = recurse_find(&items[car_idx], target, car_idx);
                match sub {
                    Some(mut path) => {
                        path.insert(0, crate::text::decimal_string(car_idx));
                        proof {
                            let p = find_in_shape(
                                items@[car_idx as int]@,
                                target@,
                                car_idx as int,
                            )->Some_0;
                            assert(segs_view(path@) =~= seq![
                                crate::text::dec_of(car_idx as nat),
                            ] + p);
                        }
                        Some(path)
                    },
                    None => None,
                }
            } else {
                None
            }
        },
        SchemaNode::Scalar => None,
    }
}

/// What resolution of a field name against a schema document returns: the
/// joined dotted path of the first match for the name's snake_case
/// rendering, if the document holds one.
pub open spec fn spec_resolve(doc: SchemaShape, field_name: Seq<char>, idx: int) -> Option<
    Seq<char>,
> {
    match find_in_shape(doc, crate::text::snake_of(field_name), idx) {
        Some(p) => Some(join_path(p)),
        None => None,
    }
}

/// Appending one more segment extends the joined path with a period and the
/// segment.
proof fn lemma_join_push(s: Seq<Seq<char>>, x: Seq<char>)
    requires
        s.len() > 0,
    ensures
        join_path(s.push(x)) == join_path(s) + seq!['.'] + x,
    decreases s.len(),
{
    let sx = s.push(x);
    assert(sx.len() == s.len() + 1);
    assert(sx[0] == s[0]);
    if s.len() == 1 {
        assert(sx.drop_first() =~= seq![x]);
        assert(join_path(seq![x]) == x);
        assert(join_path(sx) == s[0] + seq!['.'] + x);
        assert(join_path(s) == s[0]);
    } else {
        lemma_join_push(s.drop_first(), x);
        assert(sx.drop_first() =~= s.drop_first().push(x));
        assert(join_path(sx) == s[0] + seq!['.'] + (join_path(s.drop_first()) + seq!['.'] + x));
        assert(join_path(sx) =~= (s[0] + seq!['.'] + join_path(s.drop_first())) + seq!['.'] + x);
    }
}

/// Joins path segments with periods.
#[verifier::loop_isolation(false)]
fn join_segments(segs: &Vec<String>) -> (r: String)
    ensures
        r@ == join_path(segs_view(segs@)),
{
    let mut out = String::new();
    let mut i: usize = 0;
    while i < segs.len()
        invariant
            i <= segs@.len(),
            out@ == join_path(segs_view(segs@).take(i as int)),
        decreases segs@.len() - i,
    {
        if i > 0 {
            out.append(".");
            proof {
                reveal_strlit(".");
            }
        }
        out.append(segs[i].as_str());
        proof {
            let pre = segs_view(segs@).take(i as int);
            assert(segs_view(segs@).take(i + 1 as int) =~= pre.push(segs@[i as int]@));
            if i > 0 {
                lemma_join_push(pre, segs@[i as int]@);
            }
        }
        i = i + 1;
    }
    proof {
        assert(segs_view(segs@).take(segs@.len() as int) =~= segs_view(segs@));
    }
    out
}

/// Resolves a field name to the dotted path of its first occurrence in the
/// given schema document, following `car_idx` through sequences. The field
/// name arrives in the feed's capitalized convention; the document's keys
/// use the snake_case convention, so the name's snake_case rendering is
/// what the search compares against.
pub fn resolve(doc: &SchemaNode, field_name: &str, car_idx: usize) -> (r: Option<String>)
    ensures
        match r {
            Some(s) => spec_resolve(doc@, field_name@, car_idx as int) == Some(s@),
            None => spec_resolve(doc@, field_name@, car_idx as int) is None,
        },
{
    let snake = crate::text::snake_case(field_name);
    match recurse_find(doc, &snake, car_idx) {
        Some(path) => Some(join_segments(&path)),
        None => None,
    }
}

/// Every key that occurs anywhere in a schema document.
pub open spec fn shape_keys(n: SchemaShape) -> Set<Seq<char>>
    decreases n,
{
    match n {
        SchemaShape::Object(entries) => entries_keys(entries),
        SchemaShape::Array(items) => items_keys(items),
        SchemaShape::Scalar => Set::empty(),
    }
}

pub open spec fn entries_keys(s: Seq<(Seq<char>, SchemaShape)>) -> Set<Seq<char>>
    decreases s,
{
    if s.len() == 0 {
        Set::empty()
    } else {
        Set::empty().insert(s[0].0).union(shape_keys(s[0].1)).union(
            entries_keys(s.drop_first()),
        )
    }
}

pub open spec fn items_keys(s: Seq<SchemaShape>) -> Set<Seq<char>>
    decreases s,
{
    if s.len() == 0 {
        Set::empty()
    } else {
        shape_keys(s[0]).union(items_keys(s.drop_first()))
    }
}

/// The keys below any one item are among the keys below the sequence.
proof fn lemma_items_keys_contain(s: Seq<SchemaShape>, i: int)
    requires
        0 <= i < s.len(),
    ensures
        shape_keys(s[i]).subset_of(items_keys(s)),
    decreases s.len(),
{
    if i > 0 {
        lemma_items_keys_contain(s.drop_first(), i - 1);
    }
}

/// When the search finds a field, the path's final segment is the field's
/// own key, and every earlier segment is either an object key of the
/// document or the decimal rendering of the queried index.
pub proof fn lemma_find_found(n: SchemaShape, target: Seq<char>, idx: int)
    ensures
        find_in_shape(n, target, idx) matches Some(p) ==> {
            &&& p.len() > 0
            &&& p.last() == target
            &&& forall|j: int|
                0 <= j < p.len() - 1 ==> p[j] == crate::text::dec_of(idx as nat)
                    || shape_keys(n).contains(p[j])
        },
    decreases n,
{
    match n {
        SchemaShape::Object(entries) => {
            lemma_find_entries_found(entries, target, idx);
        },
        SchemaShape::Array(items) => {
            if 0 <= idx < items.len() {
                lemma_find_found(items[idx], target, idx);
                lemma_items_keys_contain(items, idx);
                let r = find_in_shape(items[idx], target, idx);
                if r is Some {
                    let inner = r->Some_0;
                    let p = seq![crate::text::dec_of(idx as nat)] + inner;
                    assert(p.last() == inner.last());
                    assert forall|j: int|
                        0 <= j < p.len() - 1 implies p[j] == crate::text::dec_of(idx as nat)
                        || shape_keys(n).contains(p[j]) by {
                        if j > 0 {
                            assert(p[j] == inner[j - 1]);
                        }
                    }
                }
            }
        },
        SchemaShape::Scalar => {},
    }
}

proof fn lemma_find_entries_found(s: Seq<(Seq<char>, SchemaShape)>, target: Seq<char>, idx: int)
    ensures
        find_in_entries(s, target, idx) matches Some(p) ==> {
            &&& p.len() > 0
            &&& p.last() == target
            &&& forall|j: int|
                0 <= j < p.len() - 1 ==> p[j] == crate::text::dec_of(idx as nat)
                    || entries_keys(s).contains(p[j])
        },
    decreases s,
{
    if s.len() == 0 {
    } else if s[0].0 == target {
    } else {
        lemma_find_found(s[0].1, target, idx);
        match find_in_shape(s[0].1, target, idx) {
            Some(inner) => {
                let p = seq![s[0].0] + inner;
                assert(p.last() == inner.last());
                assert forall|j: int|
                    0 <= j < p.len() - 1 implies p[j] == crate::text::dec_of(idx as nat)
                    || entries_keys(s).contains(p[j]) by {
                    if j == 0 {
                        assert(entries_keys(s).contains(s[0].0));
                    } else {
                        assert(p[j] == inner[j - 1]);
                    }
                }
            },
            None => {
                lemma_find_entries_found(s.drop_first(), target, idx);
            },
        }
    }
}

/// A field name that appears nowhere among a document's keys resolves to
/// nothing, whatever the disambiguation index.
pub proof fn lemma_find_absent(n: SchemaShape, target: Seq<char>, idx: int)
    requires
        !shape_keys(n).contains(target),
    ensures
        find_in_shape(n, target, idx) is None,
    decreases n,
{
    match n {
        SchemaShape::Object(entries) => {
            lemma_find_entries_absent(entries, target, idx);
        },
        SchemaShape::Array(items) => {
            if 0 <= idx < items.len() {
                lemma_items_keys_contain(items, idx);
                lemma_find_absent(items[idx], target, idx);
            }
        },
        SchemaShape::Scalar => {},
    }
}

proof fn lemma_find_entries_absent(s: Seq<(Seq<char>, SchemaShape)>, target: Seq<char>, idx: int)
    requires
        !entries_keys(s).contains(target),
    ensures
        find_in_entries(s, target, idx) is None,
    decreases s,
{
    if s.len() > 0 {
        assert(entries_keys(s).contains(s[0].0));
        lemma_find_absent(s[0].1, target, idx);
        lemma_find_entries_absent(s.drop_first(), target, idx);
    }
}

/// A resolved dotted path always ends in the field name's own key: the
/// joined path either is the snake_case rendering of the queried name or
/// ends in a period followed by it.
pub proof fn lemma_resolve_found(doc: SchemaShape, field_name: Seq<char>, idx: int)
    ensures
        spec_resolve(doc, field_name, idx) matches Some(path) ==> {
            let key = crate::text::snake_of(field_name);
            path == key || path.len() >= key.len() + 1 && path.skip(
                path.len() - key.len() - 1,
            ) == seq!['.'] + key
        },
{
    let key = crate::text::snake_of(field_name);
    lemma_find_found(doc, key, idx);
    let r = find_in_shape(doc, key, idx);
    if r is Some {
        lemma_join_last(r->Some_0);
    }
}

/// The join of a non-empty path either is its only segment or ends in a
/// period followed by its last segment.
proof fn lemma_join_last(p: Seq<Seq<char>>)
    requires
        p.len() > 0,
    ensures
        join_path(p) == p.last() || join_path(p).len() >= p.last().len() + 1 && join_path(p).skip(
            join_path(p).len() - p.last().len() - 1,
        ) == seq!['.'] + p.last(),
    decreases p.len(),
{
    if p.len() == 1 {
    } else {
        lemma_join_last(p.drop_first());
        let rest = join_path(p.drop_first());
        let whole = p[0] + seq!['.'] + rest;
        assert(join_path(p) == whole);
        assert(p.drop_first().last() == p.last());
        assert(whole.len() == p[0].len() + 1 + rest.len());
        if rest == p.last() {
            assert(whole.skip(whole.len() - p.last().len() - 1) =~= seq!['.'] + p.last());
        } else {
            assert(rest.len() >= p.last().len() + 1);
            assert(whole.skip(whole.len() - p.last().len() - 1) =~= rest.skip(
                rest.len() - p.last().len() - 1,
            ));
        }
    }
}

/// A field name absent from the schema document resolves to nothing,
/// regardless of the disambiguation index.
pub proof fn lemma_resolve_absent(doc: SchemaShape, field_name: Seq<char>, idx: int)
    requires
        !shape_keys(doc).contains(crate::text::snake_of(field_name)),
    ensures
        spec_resolve(doc, field_name, idx) is None,
{
    lemma_find_absent(doc, crate::text::snake_of(field_name), idx);
}

/// The keys the search can reach at a given disambiguation index: object
/// keys anywhere above it, with every sequence crossed only through its
/// element at that index. A missing element dead-ends the branch.
pub open spec fn reachable_keys(n: SchemaShape, idx: int) -> Set<Seq<char>>
    decreases n,
{
    match n {
        SchemaShape::Object(entries) => entries_reachable(entries, idx),
        SchemaShape::Array(items) => if 0 <= idx < items.len() {
            reachable_keys(items[idx], idx)
        } else {
            Set::empty()
        },
        SchemaShape::Scalar => Set::empty(),
    }
}

pub open spec fn entries_reachable(s: Seq<(Seq<char>, SchemaShape)>, idx: int) -> Set<Seq<char>>
    decreases s,
{
    if s.len() == 0 {
        Set::empty()
    } else {
        Set::empty().insert(s[0].0).union(reachable_keys(s[0].1, idx)).union(
            entries_reachable(s.drop_first(), idx),
        )
    }
}

/// The search succeeds exactly on the field names it can reach: for every
/// schema document, a key reachable at the queried index is found, and
/// nothing else is.
pub proof fn lemma_find_some_iff_reachable(n: SchemaShape, target: Seq<char>, idx: int)
    ensures
        find_in_shape(n, target, idx) is Some <==> reachable_keys(n, idx).contains(target),
    decreases n,
{
    match n {
        SchemaShape::Object(entries) => {
            lemma_find_entries_some_iff(entries, target, idx);
        },
        SchemaShape::Array(items) => {
            if 0 <= idx < items.len() {
                lemma_find_some_iff_reachable(items[idx], target, idx);
            }
        },
        SchemaShape::Scalar => {},
    }
}

proof fn lemma_find_entries_some_iff(
    s: Seq<(Seq<char>, SchemaShape)>,
    target: Seq<char>,
    idx: int,
)
    ensures
        find_in_entries(s, target, idx) is Some <==> entries_reachable(s, idx).contains(target),
    decreases s,
{
    if s.len() > 0 {
        if s[0].0 == target {
            assert(entries_reachable(s, idx).contains(target));
        } else {
            lemma_find_some_iff_reachable(s[0].1, target, idx);
            lemma_find_entries_some_iff(s.drop_first(), target, idx);
        }
    }
}

/// Resolution returns a path exactly for the field names whose snake_case
/// rendering the search can reach at the queried index.
pub proof fn lemma_resolve_some_iff_reachable(doc: SchemaShape, field_name: Seq<char>, idx: int)
    ensures
        spec_resolve(doc, field_name, idx) is Some <==> reachable_keys(doc, idx).contains(
            crate::text::snake_of(field_name),
        ),
{
    lemma_find_some_iff_reachable(doc, crate::text::snake_of(field_name), idx);
}

/// The shape of one camera group entry.
pub open spec fn group_shape() -> SchemaShape {
    SchemaShape::Object(
        seq![
            ("group_name"@, SchemaShape::Scalar),
            ("group_num"@, SchemaShape::Scalar),
        ],
    )
}

/// The shape of one participant entry in the driver table.
pub open spec fn driver_shape() -> SchemaShape {
    SchemaShape::Object(
        seq![
            ("car_idx"@, SchemaShape::Scalar),
            ("car_number"@, SchemaShape::Scalar),
            ("team_name"@, SchemaShape::Scalar),
            ("user_name"@, SchemaShape::Scalar),
        ],
    )
}

/// The shape of one session entry in the session table.
pub open spec fn session_entry_shape() -> SchemaShape {
    SchemaShape::Object(
        seq![
            ("session_laps"@, SchemaShape::Scalar),
            ("session_num"@, SchemaShape::Scalar),
            ("session_type"@, SchemaShape::Scalar),
        ],
    )
}

/// The shape of the weekend options block.
pub open spec fn weekend_options_shape() -> SchemaShape {
    SchemaShape::Object(
        seq![
            ("num_starters"@, SchemaShape::Scalar),
            ("wind_direction"@, SchemaShape::Scalar),
        ],
    )
}

/// The default shape of a session document: the keys a session-level
/// document carries, with empty placeholder values. Participant tables are
/// sequences with one slot for each of the well-known participant indices.
pub open spec fn default_session_shape() -> SchemaShape {
    SchemaShape::Object(
        seq![
            (
                "camera_info"@,
                SchemaShape::Object(
                    seq![("groups"@, SchemaShape::Array(seq![group_shape(), group_shape()]))],
                ),
            ),
            (
                "driver_info"@,
                SchemaShape::Object(
                    seq![
                        ("car_driver_idx"@, SchemaShape::Scalar),
                        ("driver_car_idx"@, SchemaShape::Scalar),
                        ("driver_setup_name"@, SchemaShape::Scalar),
                        (
                            "drivers"@,
                            SchemaShape::Array(
                                seq![
                                    driver_shape(),
                                    driver_shape(),
                                    driver_shape(),
                                    driver_shape(),
                                ],
                            ),
                        ),
                    ],
                ),
            ),
            (
                "radio_info"@,
                SchemaShape::Object(seq![("selected_radio_num"@, SchemaShape::Scalar)]),
            ),
            (
                "session_info"@,
                SchemaShape::Object(
                    seq![
                        (
                            "sessions"@,
                            SchemaShape::Array(
                                seq![session_entry_shape(), session_entry_shape()],
                            ),
                        ),
                    ],
                ),
            ),
            (
                "weekend_info"@,
                SchemaShape::Object(
                    seq![
                        ("event_type"@, SchemaShape::Scalar),
                        ("track_display_name"@, SchemaShape::Scalar),
                        ("track_id"@, SchemaShape::Scalar),
                        ("track_name"@, SchemaShape::Scalar),
                        ("weekend_options"@, weekend_options_shape()),
                    ],
                ),
            ),
        ],
    )
}

/// One keyed entry of an object node.
fn kv(key: &str, n: SchemaNode) -> (e: (String, SchemaNode))
    ensures
        e.0@ == key@,
        e.1 == n,
{
    (String::from_str(key), n)
}

fn group_node() -> (n: SchemaNode)
    ensures
        node_shape(n) == group_shape(),
{
    let mut v: Vec<(String, SchemaNode)> = Vec::new();
    v.push(kv("group_name", SchemaNode::Scalar));
    v.push(kv("group_num", SchemaNode::Scalar));
    proof {
        lemma_entries_shape_index(v@);
        assert(entries_shape(v@) =~= group_shape()->Object_0);
    }
    SchemaNode::Object(v)
}

fn driver_node() -> (n: SchemaNode)
    ensures
        node_shape(n) == driver_shape(),
{
    let mut v: Vec<(String, SchemaNode)> = Vec::new();
    v.push(kv("car_idx", SchemaNode::Scalar));
    v.push(kv("car_number", SchemaNode::Scalar));
    v.push(kv("team_name", SchemaNode::Scalar));
    v.push(kv("user_name", SchemaNode::Scalar));
    proof {
        lemma_entries_shape_index(v@);
        assert(entries_shape(v@) =~= driver_shape()->Object_0);
    }
    SchemaNode::Object(v)
}

fn session_entry_node() -> (n: SchemaNode)
    ensures
        node_shape(n) == session_entry_shape(),
{
    let mut v: Vec<(String, SchemaNode)> = Vec::new();
    v.push(kv("session_laps", SchemaNode::Scalar));
    v.push(kv("session_num", SchemaNode::Scalar));
    v.push(kv("session_type", SchemaNode::Scalar));
    proof {
        lemma_entries_shape_index(v@);
        assert(entries_shape(v@) =~= session_entry_shape()->Object_0);
    }
    SchemaNode::Object(v)
}

fn camera_info_node() -> (n: SchemaNode)
    ensures
        node_shape(n) == default_session_shape()->Object_0[0].1,
{
    let mut groups: Vec<SchemaNode> = Vec::new();
    groups.push(group_node());
    groups.push(group_node());
    proof {
        lemma_items_shape_index(groups@);
        assert(items_shape(groups@) =~= seq![group_shape(), group_shape()]);
    }
    let mut v: Vec<(String, SchemaNode)> = Vec::new();
    v.push(kv("groups", SchemaNode::Array(groups)));
    proof {
        lemma_entries_shape_index(v@);
        assert(entries_shape(v@) =~= default_session_shape()->Object_0[0].1->Object_0);
    }
    SchemaNode::Object(v)
}

fn driver_info_node() -> (n: SchemaNode)
    ensures
        node_shape(n) == default_session_shape()->Object_0[1].1,
{
    let mut drivers: Vec<SchemaNode> = Vec::new();
    drivers.push(driver_node());
    drivers.push(driver_node());
    drivers.push(driver_node());
    drivers.push(driver_node());
    proof {
        lemma_items_shape_index(drivers@);
        assert(items_shape(drivers@) =~= seq![
            driver_shape(),
            driver_shape(),
            driver_shape(),
            driver_shape(),
        ]);
    }
    let mut v: Vec<(String, SchemaNode)> = Vec::new();
    v.push(kv("car_driver_idx", SchemaNode::Scalar));
    v.push(kv("driver_car_idx", SchemaNode::Scalar));
    v.push(kv("driver_setup_name", SchemaNode::Scalar));
    v.push(kv("drivers", SchemaNode::Array(drivers)));
    proof {
        lemma_entries_shape_index(v@);
        assert(entries_shape(v@) =~= default_session_shape()->Object_0[1].1->Object_0);
    }
    SchemaNode::Object(v)
}

fn radio_info_node() -> (n: SchemaNode)
    ensures
        node_shape(n) == default_session_shape()->Object_0[2].1,
{
    let mut v: Vec<(String, SchemaNode)> = Vec::new();
    v.push(kv("selected_radio_num", SchemaNode::Scalar));
    proof {
        lemma_entries_shape_index(v@);
        assert(entries_shape(v@) =~= default_session_shape()->Object_0[2].1->Object_0);
    }
    SchemaNode::Object(v)
}

fn session_info_node() -> (n: SchemaNode)
    ensures
        node_shape(n) == default_session_shape()->Object_0[3].1,
{
    let mut sessions: Vec<SchemaNode> = Vec::new();
    sessions.push(session_entry_node());
    sessions.push(session_entry_node());
    proof {
        lemma_items_shape_index(sessions@);
        assert(items_shape(sessions@) =~= seq![session_entry_shape(), session_entry_shape()]);
    }
    let mut v: Vec<(String, SchemaNode)> = Vec::new();
    v.push(kv("sessions", SchemaNode::Array(sessions)));
    proof {
        lemma_entries_shape_index(v@);
        assert(entries_shape(v@) =~= default_session_shape()->Object_0[3].1->Object_0);
    }
    SchemaNode::Object(v)
}

fn weekend_info_node() -> (n: SchemaNode)
    ensures
        node_shape(n) == default_session_shape()->Object_0[4].1,
{
    let mut opts: Vec<(String, SchemaNode)> = Vec::new();
    opts.push(kv("num_starters", SchemaNode::Scalar));
    opts.push(kv("wind_direction", SchemaNode::Scalar));
    proof {
        lemma_entries_shape_index(opts@);
        assert(entries_shape(opts@) =~= weekend_options_shape()->Object_0);
    }
    let mut v: Vec<(String, SchemaNode)> = Vec::new();
    v.push(kv("event_type", SchemaNode::Scalar));
    v.push(kv("track_display_name", SchemaNode::Scalar));
    v.push(kv("track_id", SchemaNode::Scalar));
    v.push(kv("track_name", SchemaNode::Scalar));
    v.push(kv("weekend_options", SchemaNode::Object(opts)));
    proof {
        lemma_entries_shape_index(v@);
        assert(entries_shape(v@) =~= default_session_shape()->Object_0[4].1->Object_0);
    }
    SchemaNode::Object(v)
}

/// Builds the default session schema document fresh. It reflects the type
/// shape of the session data structure, never live values.
pub fn default_session_schema() -> (n: SchemaNode)
    ensures
        node_shape(n) == default_session_shape(),
{
    let mut v: Vec<(String, SchemaNode)> = Vec::new();
    v.push(kv("camera_info", camera_info_node()));
    v.push(kv("driver_info", driver_info_node()));
    v.push(kv("radio_info", radio_info_node()));
    v.push(kv("session_info", session_info_node()));
    v.push(kv("weekend_info", weekend_info_node()));
    proof {
        lemma_entries_shape_index(v@);
        assert(entries_shape(v@) =~= default_session_shape()->Object_0);
    }
    SchemaNode::Object(v)
}

/// Determines the dotted path to a field inside the default session
/// document. Each field name is expected to occur once; the first occurrence
/// in depth-first order wins, which is a best-effort heuristic rather than a
/// uniqueness guarantee.
pub fn determine_dot_path(var_name: &str, car_idx: usize) -> (r: Option<String>)
    ensures
        match r {
            Some(s) => spec_resolve(default_session_shape(), var_name@, car_idx as int)
                == Some(s@),
            None => spec_resolve(default_session_shape(), var_name@, car_idx as int) is None,
        },
{
    let doc = default_session_schema();
    resolve(&doc, var_name, car_idx)
}

} // verus!
