//! The parts of a file path that the file tools read, and lowercasing: these
//! come from the standard library, which alone defines them.
use vstd::prelude::*;
use crate::text::{chars_of, rfind};

verus! {

/// The extension of a file name: the text after its last `.`; there is none
/// when the name holds no `.` or its only `.` comes first.
pub open spec fn name_extension(name: Seq<char>) -> Option<Seq<char>> {
    match rfind(name, seq!['.']) {
        Some(i) => if i == 0 {
            None
        } else {
            Some(name.subrange(i + 1, name.len() as int))
        },
        None => None,
    }
}

/// The extension of the file named by `path`: that of its final component.
pub open spec fn path_extension(path: Seq<char>) -> Option<Seq<char>> {
    match path_file_name(path) {
        Some(name) => name_extension(name),
        None => None,
    }
}

/// The final component `Path::file_name` finds in `path`, when it is text.
pub uninterp spec fn path_file_name(path: Seq<char>) -> Option<Seq<char>>;

/// `s` in lowercase, as `str::to_lowercase` maps it.
pub uninterp spec fn lowercase(s: Seq<char>) -> Seq<char>;

/// The extension of the file named by `path` (`Path::extension`, then
/// `OsStr::to_str`): as its documentation says, the text after the final `.`
/// of the path's final component, none when that component has no `.` or
/// begins with its only `.`.
#[verifier::external_body]
pub(crate) fn extension_of(path: &str) -> (r: Option<String>)
    ensures
        match path_extension(path@) {
            Some(e) => r matches Some(x) && x@ == e,
            None => r is None,
        },
{
    std::path::Path::new(path).extension().and_then(|e| e.to_str()).map(|e| e.to_string())
}

/// The final component of `path` (`Path::file_name`, then `OsStr::to_str`). It
/// depends on `path` alone.
#[verifier::external_body]
pub(crate) fn file_name_of(path: &str) -> (r: Option<String>)
    ensures
        match path_file_name(path@) {
            Some(n) => r matches Some(x) && x@ == n,
            None => r is None,
        },
{
    std::path::Path::new(path).file_name().and_then(|n| n.to_str()).map(|n| n.to_string())
}

/// The components `Path::components` finds in `path`, each as its kind and
/// its text, in the order `std::path::Component` ranks them: a prefix (`0`,
/// its text), the root (`1`), `.` (`2`), `..` (`3`), or a name (`4`, the name).
pub uninterp spec fn path_components(path: Seq<char>) -> Seq<(u8, Seq<char>)>;

/// The components of `path` (`Path::components`), each as its kind and text
/// (see `path_components`). It depends on `path` alone.
#[verifier::external_body]
fn components_of(path: &str) -> (r: Vec<(u8, String)>)
    ensures
        r@.map_values(|c: (u8, String)| (c.0, c.1@)) == path_components(path@),
{
    std::path::Path::new(path).components().map(|c| match c {
        std::path::Component::Prefix(p) => (0u8, p.as_os_str().to_string_lossy().into_owned()),
        std::path::Component::RootDir => (1u8, String::new()),
        std::path::Component::CurDir => (2u8, String::new()),
        std::path::Component::ParentDir => (3u8, String::new()),
        std::path::Component::Normal(n) => (4u8, n.to_string_lossy().into_owned()),
    }).collect()
}

/// How two texts are ordered, character by character, a text before any
/// longer one it begins: `-1` before, `0` the same, `1` after.
pub open spec fn compare_texts(a: Seq<char>, b: Seq<char>) -> int
    decreases a.len(),
{
    if a.len() == 0 {
        if b.len() == 0 {
            0
        } else {
            -1
        }
    } else if b.len() == 0 {
        1
    } else if (a[0] as int) < (b[0] as int) {
        -1
    } else if (a[0] as int) > (b[0] as int) {
        1
    } else {
        compare_texts(a.drop_first(), b.drop_first())
    }
}

/// How two path components are ordered: by kind, then by text.
pub open spec fn compare_component(a: (u8, Seq<char>), b: (u8, Seq<char>)) -> int {
    if a.0 < b.0 {
        -1
    } else if a.0 > b.0 {
        1
    } else {
        compare_texts(a.1, b.1)
    }
}

/// How two component sequences are ordered, component by component, a
/// sequence before any longer one it begins.
pub open spec fn compare_components(a: Seq<(u8, Seq<char>)>, b: Seq<(u8, Seq<char>)>) -> int
    decreases a.len(),
{
    if a.len() == 0 {
        if b.len() == 0 {
            0
        } else {
            -1
        }
    } else if b.len() == 0 {
        1
    } else if compare_component(a[0], b[0]) != 0 {
        compare_component(a[0], b[0])
    } else {
        compare_components(a.drop_first(), b.drop_first())
    }
}

/// How two paths are ordered, as `Ord for Path` orders them: by their
/// components. (A Windows prefix is ordered here by its text.)
pub open spec fn compare_paths(a: Seq<char>, b: Seq<char>) -> int {
    compare_components(path_components(a), path_components(b))
}

/// Texts are ordered totally: the order is one of three answers, reversed by
/// swapping, and transitive.
pub proof fn lemma_compare_texts(a: Seq<char>, b: Seq<char>, c: Seq<char>)
    ensures
        -1 <= compare_texts(a, b) <= 1,
        compare_texts(a, b) == -compare_texts(b, a),
        compare_texts(a, b) == 0 ==> a == b,
        compare_texts(a, b) <= 0 && compare_texts(b, c) <= 0 ==> compare_texts(a, c) <= 0,
    decreases a.len(),
{
    if a.len() > 0 && b.len() > 0 && c.len() > 0 {
        lemma_compare_texts(a.drop_first(), b.drop_first(), c.drop_first());
        if compare_texts(a, b) == 0 {
            assert(a =~= seq![a[0]] + a.drop_first());
            assert(b =~= seq![b[0]] + b.drop_first());
        }
    } else if a.len() > 0 && b.len() > 0 {
        lemma_compare_texts(a.drop_first(), b.drop_first(), c);
        if compare_texts(a, b) == 0 {
            assert(a =~= seq![a[0]] + a.drop_first());
            assert(b =~= seq![b[0]] + b.drop_first());
        }
    } else if a.len() == 0 && b.len() == 0 {
        assert(a =~= b);
    }
}

/// Components are ordered totally.
pub proof fn lemma_compare_component(a: (u8, Seq<char>), b: (u8, Seq<char>), c: (u8, Seq<char>))
    ensures
        -1 <= compare_component(a, b) <= 1,
        compare_component(a, b) == -compare_component(b, a),
        compare_component(a, b) == 0 ==> a == b,
        compare_component(a, b) <= 0 && compare_component(b, c) <= 0 ==> compare_component(a, c)
            <= 0,
{
    lemma_compare_texts(a.1, b.1, c.1);
}

/// Component sequences, and so paths, are ordered totally.
pub proof fn lemma_compare_components(
    a: Seq<(u8, Seq<char>)>,
    b: Seq<(u8, Seq<char>)>,
    c: Seq<(u8, Seq<char>)>,
)
    ensures
        -1 <= compare_components(a, b) <= 1,
        compare_components(a, b) == -compare_components(b, a),
        compare_components(a, b) <= 0 && compare_components(b, c) <= 0 ==> compare_components(a, c)
            <= 0,
    decreases a.len(),
{
    if a.len() > 0 && b.len() > 0 {
        lemma_compare_component(a[0], b[0], if c.len() > 0 { c[0] } else { a[0] });
        if c.len() > 0 {
            lemma_compare_components(a.drop_first(), b.drop_first(), c.drop_first());
            lemma_compare_component(b[0], c[0], a[0]);
            lemma_compare_component(a[0], c[0], b[0]);
        } else {
            lemma_compare_components(a.drop_first(), b.drop_first(), a.drop_first());
        }
    }
}

/// A path's components as the sort holds them.
pub open spec fn key_view(k: Seq<(u8, Vec<char>)>) -> Seq<(u8, Seq<char>)> {
    k.map_values(|c: (u8, Vec<char>)| (c.0, c.1@))
}

/// The components of `path`, each text as its characters.
fn path_key(path: &str) -> (k: Vec<(u8, Vec<char>)>)
    ensures
        key_view(k@) == path_components(path@),
{
    let parts = components_of(path);
    let mut k: Vec<(u8, Vec<char>)> = Vec::new();
    let mut i: usize = 0;
    while i < parts.len()
        invariant
            i <= parts@.len(),
            key_view(k@) == parts@.take(i as int).map_values(|c: (u8, String)| (c.0, c.1@)),
        decreases parts@.len() - i,
    {
        let kind = parts[i].0;
        let text = chars_of(parts[i].1.as_str());
        let ghost before = k@;
        k.push((kind, text));
        assert(key_view(k@) =~= key_view(before).push((kind, text@)));
        assert(parts@.take(i + 1) =~= parts@.take(i as int).push(parts@[i as int]));
        assert(key_view(k@) =~= parts@.take(i + 1).map_values(|c: (u8, String)| (c.0, c.1@)));
        i = i + 1;
    }
    assert(parts@.take(parts@.len() as int) =~= parts@);
    k
}

fn compare_texts_exec(a: &Vec<char>, b: &Vec<char>) -> (r: i8)
    ensures
        r == compare_texts(a@, b@),
{
    let mut i: usize = 0;
    assert(a@.skip(0) =~= a@);
    assert(b@.skip(0) =~= b@);
    while i < a.len() && i < b.len()
        invariant
            i <= a@.len(),
            i <= b@.len(),
            compare_texts(a@, b@) == compare_texts(a@.skip(i as int), b@.skip(i as int)),
        decreases a@.len() - i,
    {
        if a[i] < b[i] {
            return -1;
        }
        if a[i] > b[i] {
            return 1;
        }
        assert(a@.skip(i as int).drop_first() =~= a@.skip(i + 1));
        assert(b@.skip(i as int).drop_first() =~= b@.skip(i + 1));
        i = i + 1;
    }
    if i < b.len() {
        -1
    } else if i < a.len() {
        1
    } else {
        0
    }
}

fn compare_keys(a: &Vec<(u8, Vec<char>)>, b: &Vec<(u8, Vec<char>)>) -> (r: i8)
    ensures
        r == compare_components(key_view(a@), key_view(b@)),
{
    let mut i: usize = 0;
    assert(key_view(a@).skip(0) =~= key_view(a@));
    assert(key_view(b@).skip(0) =~= key_view(b@));
    while i < a.len() && i < b.len()
        invariant
            i <= a@.len(),
            i <= b@.len(),
            compare_components(key_view(a@), key_view(b@)) == compare_components(
                key_view(a@).skip(i as int),
                key_view(b@).skip(i as int),
            ),
        decreases a@.len() - i,
    {
        let c = if a[i].0 < b[i].0 {
            -1i8
        } else if a[i].0 > b[i].0 {
            1i8
        } else {
            compare_texts_exec(&a[i].1, &b[i].1)
        };
        assert(key_view(a@).skip(i as int)[0] == (a@[i as int].0, a@[i as int].1@));
        assert(key_view(b@).skip(i as int)[0] == (b@[i as int].0, b@[i as int].1@));
        if c != 0 {
            return c;
        }
        assert(key_view(a@).skip(i as int).drop_first() =~= key_view(a@).skip(i + 1));
        assert(key_view(b@).skip(i as int).drop_first() =~= key_view(b@).skip(i + 1));
        i = i + 1;
    }
    if i < b.len() {
        -1
    } else if i < a.len() {
        1
    } else {
        0
    }
}

/// The order in which `paths` come sorted as `Ord for Path` sorts them: every
/// index once, each path before or level with the ones after it. Paths that
/// are level keep the order they had.
pub fn sorted_path_order(paths: &Vec<String>) -> (order: Vec<usize>)
    ensures
        order@.len() == paths@.len(),
        forall|i: int| 0 <= i < order@.len() ==> #[trigger] order@[i] < paths@.len(),
        forall|i: int, j: int| 0 <= i < j < order@.len() ==> order@[i] != order@[j],
        forall|i: int, j: int|
            0 <= i < j < order@.len() ==> compare_paths(
                #[trigger] paths@[order@[i] as int]@,
                #[trigger] paths@[order@[j] as int]@,
            ) <= 0,
        forall|i: int, j: int|
            0 <= i < j < order@.len() && compare_paths(
                #[trigger] paths@[order@[i] as int]@,
                #[trigger] paths@[order@[j] as int]@,
            ) == 0 ==> order@[i] < order@[j],
{
    let n = paths.len();
    let mut keys: Vec<Vec<(u8, Vec<char>)>> = Vec::new();
    let mut k: usize = 0;
    while k < n
        invariant
            k <= n == paths@.len(),
            keys@.len() == k,
            forall|m: int| 0 <= m < k ==> key_view(#[trigger] keys@[m]@) == path_components(paths@[m]@),
        decreases n - k,
    {
        keys.push(path_key(paths[k].as_str()));
        k = k + 1;
    }
    let mut order: Vec<usize> = Vec::new();
    let mut i: usize = 0;
    while i < n
        invariant
            i <= n == paths@.len() == keys@.len(),
            forall|m: int| 0 <= m < n ==> key_view(#[trigger] keys@[m]@) == path_components(paths@[m]@),
            order@.len() == i,
            forall|p: int| 0 <= p < order@.len() ==> #[trigger] order@[p] < i,
            forall|p: int, q: int| 0 <= p < q < order@.len() ==> order@[p] != order@[q],
            forall|p: int, q: int|
                0 <= p < q < order@.len() ==> compare_paths(
                    #[trigger] paths@[order@[p] as int]@,
                    #[trigger] paths@[order@[q] as int]@,
                ) <= 0,
            forall|p: int, q: int|
                0 <= p < q < order@.len() && compare_paths(
                    #[trigger] paths@[order@[p] as int]@,
                    #[trigger] paths@[order@[q] as int]@,
                ) == 0 ==> order@[p] < order@[q],
        decreases n - i,
    {
        let mut pos: usize = 0;
        while pos < order.len() && compare_keys(&keys[order[pos]], &keys[i]) <= 0
            invariant
                i < n == paths@.len() == keys@.len(),
                forall|m: int| 0 <= m < n ==> key_view(#[trigger] keys@[m]@) == path_components(paths@[m]@),
                pos <= order@.len(),
                forall|p: int| 0 <= p < order@.len() ==> #[trigger] order@[p] < i,
                forall|p: int| 0 <= p < pos ==> compare_paths(
                    #[trigger] paths@[order@[p] as int]@,
                    paths@[i as int]@,
                ) <= 0,
            decreases order@.len() - pos,
        {
            pos = pos + 1;
        }
        let ghost old_order = order@;
        order.insert(pos, i);
        proof {
            assert forall|p: int, q: int|
                0 <= p < q < order@.len() && compare_paths(
                    #[trigger] paths@[order@[p] as int]@,
                    #[trigger] paths@[order@[q] as int]@,
                ) == 0 implies order@[p] < order@[q] by {
                let x = paths@[i as int]@;
                if q == pos {
                    assert(order@[p] == old_order[p]);
                } else if p == pos {
                    assert(order@[q] == old_order[q - 1]);
                    let y = paths@[old_order[pos as int] as int]@;
                    let z = paths@[old_order[q - 1] as int]@;
                    assert(pos < old_order.len());
                    assert(compare_paths(y, x) > 0);
                    lemma_compare_components(path_components(x), path_components(z), path_components(y));
                    lemma_compare_components(path_components(y), path_components(z), path_components(x));
                    if q - 1 > pos {
                        assert(compare_paths(y, z) <= 0);
                    } else {
                        lemma_compare_components(path_components(y), path_components(y), path_components(y));
                    }
                    assert(false);
                } else if p < pos && q > pos {
                    assert(order@[p] == old_order[p]);
                    assert(order@[q] == old_order[q - 1]);
                } else if q < pos {
                    assert(order@[p] == old_order[p]);
                    assert(order@[q] == old_order[q]);
                } else {
                    assert(order@[p] == old_order[p - 1]);
                    assert(order@[q] == old_order[q - 1]);
                }
            }
            assert forall|p: int, q: int| 0 <= p < q < order@.len() implies compare_paths(
                #[trigger] paths@[order@[p] as int]@,
                #[trigger] paths@[order@[q] as int]@,
            ) <= 0 by {
                let x = paths@[i as int]@;
                if q == pos {
                    assert(order@[p] == old_order[p]);
                } else if p == pos {
                    assert(order@[q] == old_order[q - 1]);
                    let y = paths@[old_order[pos as int] as int]@;
                    let z = paths@[old_order[q - 1] as int]@;
                    assert(pos < old_order.len());
                    assert(compare_paths(y, x) > 0);
                    lemma_compare_components(path_components(x), path_components(y), path_components(z));
                    if q - 1 > pos {
                        assert(compare_paths(y, z) <= 0);
                    }
                } else if p < pos && q > pos {
                    assert(order@[p] == old_order[p]);
                    assert(order@[q] == old_order[q - 1]);
                    assert(compare_paths(paths@[old_order[p] as int]@, paths@[old_order[q - 1] as int]@) <= 0);
                } else if q < pos {
                    assert(order@[p] == old_order[p]);
                    assert(order@[q] == old_order[q]);
                } else {
                    assert(order@[p] == old_order[p - 1]);
                    assert(order@[q] == old_order[q - 1]);
                }
            }
        }
        i = i + 1;
    }
    order
}

/// `s` in lowercase (`str::to_lowercase`). It depends on `s` alone.
#[verifier::external_body]
pub(crate) fn to_lowercase(s: &str) -> (r: String)
    ensures
        r@ == lowercase(s@),
{
    s.to_lowercase()
}

} // verus!
