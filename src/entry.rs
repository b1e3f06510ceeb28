//! Directory entries and the order in which a listing shows them.

use vstd::prelude::*;
use crate::path::{FsPath, PathView};
use crate::text::{lower_of, lowercase, chars_of, push_char};

verus! {

broadcast use vstd::seq_lib::group_to_multiset_ensures, vstd::multiset::group_multiset_axioms;

/// One filesystem entry of a listing.
pub struct FileItem {
    pub name: String,
    /// Where the entry lives.
    pub path: FsPath,
    pub is_dir: bool,
    /// Size in bytes; set for files only.
    pub size: Option<u64>,
    /// Last modification, in seconds relative to the Unix epoch.
    pub modified: Option<i64>,
}

/// The mathematical value of an entry.
pub ghost struct FileItemView {
    pub name: Seq<char>,
    pub path: PathView,
    pub is_dir: bool,
    pub size: Option<u64>,
    pub modified: Option<i64>,
}

impl View for FileItem {
    type V = FileItemView;

    open spec fn view(&self) -> FileItemView {
        FileItemView {
            name: self.name@,
            path: self.path@,
            is_dir: self.is_dir,
            size: self.size,
            modified: self.modified,
        }
    }
}

/// The views of a sequence of entries.
pub open spec fn items_view(s: Seq<FileItem>) -> Seq<FileItemView> {
    s.map_values(|f: FileItem| f@)
}

impl FileItem {
    /// The name as shown in the listing: directories end in `/`.
    pub fn display_name(&self) -> (r: String)
        ensures
            r@ == (if self.is_dir { self.name@.push('/') } else { self.name@ }),
    {
        let mut s = self.name.clone();
        if self.is_dir {
            push_char(&mut s, '/');
        }
        s
    }

    /// A copy of this entry.
    pub fn duplicate(&self) -> (r: FileItem)
        ensures
            r@ == self@,
    {
        FileItem {
            name: self.name.clone(),
            path: self.path.duplicate(),
            is_dir: self.is_dir,
            size: self.size,
            modified: self.modified,
        }
    }
}

/// Lexicographic order on character sequences, by code point.
pub open spec fn lex_le(a: Seq<char>, b: Seq<char>) -> bool
    decreases a.len(),
{
    if a.len() == 0 {
        true
    } else if b.len() == 0 {
        false
    } else if a[0] < b[0] {
        true
    } else if a[0] > b[0] {
        false
    } else {
        lex_le(a.drop_first(), b.drop_first())
    }
}

/// An entry together with the key it is sorted by.
pub type Keyed = (Seq<char>, FileItemView);

/// Order on keyed entries: directories first, then by key.
pub open spec fn keyed_le(a: Keyed, b: Keyed) -> bool {
    (a.1.is_dir && !b.1.is_dir) || (a.1.is_dir == b.1.is_dir && lex_le(a.0, b.0))
}

/// `a` goes strictly before `b`: `b` is not before or level with `a`.
pub open spec fn keyed_lt(a: Keyed, b: Keyed) -> bool {
    !keyed_le(b, a)
}

/// Listing order: directories first, then by lower-case name.
pub open spec fn listing_le(a: FileItemView, b: FileItemView) -> bool {
    keyed_le((lower_of(a.name), a), (lower_of(b.name), b))
}

/// Every entry stands before or level with every later one.
pub open spec fn sorted_listing(s: Seq<FileItemView>) -> bool {
    forall|i: int, j: int| 0 <= i < j < s.len() ==> listing_le(#[trigger] s[i], #[trigger] s[j])
}

/// Every keyed entry stands before or level with every later one.
pub open spec fn keyed_sorted(s: Seq<Keyed>) -> bool {
    forall|i: int, j: int| 0 <= i < j < s.len() ==> keyed_le(#[trigger] s[i], #[trigger] s[j])
}

pub proof fn lemma_lex_total(a: Seq<char>, b: Seq<char>)
    ensures
        lex_le(a, b) || lex_le(b, a),
    decreases a.len(),
{
    if a.len() > 0 && b.len() > 0 && a[0] == b[0] {
        lemma_lex_total(a.drop_first(), b.drop_first());
    }
}

pub proof fn lemma_lex_trans(a: Seq<char>, b: Seq<char>, c: Seq<char>)
    requires
        lex_le(a, b),
        lex_le(b, c),
    ensures
        lex_le(a, c),
    decreases a.len(),
{
    if a.len() > 0 && b.len() > 0 && c.len() > 0 {
        if a[0] == b[0] && b[0] == c[0] {
            lemma_lex_trans(a.drop_first(), b.drop_first(), c.drop_first());
        }
    }
}

proof fn lemma_keyed_trans(a: Keyed, b: Keyed, c: Keyed)
    requires
        keyed_le(a, b),
        keyed_le(b, c),
    ensures
        keyed_le(a, c),
{
    if a.1.is_dir == b.1.is_dir && b.1.is_dir == c.1.is_dir {
        lemma_lex_trans(a.0, b.0, c.0);
    }
}

/// Whether `a` comes strictly before `b` in lexicographic order.
fn lex_less(a: &Vec<char>, b: &Vec<char>) -> (r: bool)
    ensures
        r == !lex_le(b@, a@),
{
    let mut i: usize = 0;
    assert(a@.subrange(0, a@.len() as int) == a@);
    assert(b@.subrange(0, b@.len() as int) == b@);
    while i < a.len() && i < b.len()
        invariant
            i <= a@.len(),
            i <= b@.len(),
            lex_le(b@, a@) == lex_le(b@.subrange(i as int, b@.len() as int), a@.subrange(i as int, a@.len() as int)),
        decreases a@.len() - i,
    {
        let x = a[i];
        let y = b[i];
        proof {
            let sa = a@.subrange(i as int, a@.len() as int);
            let sb = b@.subrange(i as int, b@.len() as int);
            assert(sa.drop_first() == a@.subrange(i + 1, a@.len() as int));
            assert(sb.drop_first() == b@.subrange(i + 1, b@.len() as int));
            assert(sa[0] == x && sb[0] == y);
        }
        if x < y {
            return true;
        }
        if x > y {
            return false;
        }
        i = i + 1;
    }
    i < b.len()
}

/// `x` placed into `s` after every entry that it does not strictly precede.
pub open spec fn insert_keyed(s: Seq<Keyed>, x: Keyed) -> Seq<Keyed>
    decreases s.len(),
{
    if s.len() == 0 {
        seq![x]
    } else if keyed_lt(x, s.last()) {
        insert_keyed(s.drop_last(), x).push(s.last())
    } else {
        s.push(x)
    }
}

/// Where `insert_keyed` places `x`.
pub open spec fn insert_pos(s: Seq<Keyed>, x: Keyed) -> int
    decreases s.len(),
{
    if s.len() == 0 {
        0
    } else if keyed_lt(x, s.last()) {
        insert_pos(s.drop_last(), x)
    } else {
        s.len() as int
    }
}

/// A stable insertion sort of keyed entries.
pub open spec fn sort_keyed(e: Seq<Keyed>) -> Seq<Keyed>
    decreases e.len(),
{
    if e.len() == 0 {
        e
    } else {
        insert_keyed(sort_keyed(e.drop_last()), e.last())
    }
}

/// Each entry with its key.
pub open spec fn pair_up(e: Seq<FileItemView>, k: Seq<Seq<char>>) -> Seq<Keyed> {
    Seq::new(e.len(), |i: int| (k[i], e[i]))
}

/// The entries sorted by the given keys, directories first, keeping the
/// input order among entries level with each other.
pub open spec fn sorted_by_keys(e: Seq<FileItemView>, k: Seq<Seq<char>>) -> Seq<FileItemView> {
    sort_keyed(pair_up(e, k)).map_values(|p: Keyed| p.1)
}

/// The lower-case names of entries.
pub open spec fn lower_keys(e: Seq<FileItemView>) -> Seq<Seq<char>> {
    e.map_values(|f: FileItemView| lower_of(f.name))
}

/// The entries in listing order: a stable sort, directories first, then by
/// lower-case name.
pub open spec fn sorted_spec(e: Seq<FileItemView>) -> Seq<FileItemView> {
    sorted_by_keys(e, lower_keys(e))
}

proof fn lemma_insert_keyed_split(s: Seq<Keyed>, x: Keyed, j: int)
    requires
        0 <= j <= s.len(),
        forall|k: int| j <= k < s.len() ==> keyed_lt(x, #[trigger] s[k]),
    ensures
        insert_keyed(s, x) == insert_keyed(s.subrange(0, j), x) + s.subrange(j, s.len() as int),
    decreases s.len() - j,
{
    if j < s.len() {
        lemma_insert_keyed_split(s.drop_last(), x, j);
        assert(s.drop_last().subrange(0, j) == s.subrange(0, j));
        assert(s.subrange(j, s.len() as int) == s.drop_last().subrange(j, s.len() - 1).push(s.last()));
    } else {
        assert(s.subrange(0, j) == s);
    }
}

proof fn lemma_insert_keyed_is_insert(s: Seq<Keyed>, x: Keyed)
    ensures
        0 <= insert_pos(s, x) <= s.len(),
        insert_keyed(s, x) == s.insert(insert_pos(s, x), x),
    decreases s.len(),
{
    if s.len() == 0 {
        assert(s.insert(0, x) =~= seq![x]);
    } else if keyed_lt(x, s.last()) {
        lemma_insert_keyed_is_insert(s.drop_last(), x);
        let j = insert_pos(s.drop_last(), x);
        assert(s.drop_last().insert(j, x).push(s.last()) =~= s.insert(j, x));
    } else {
        assert(s.insert(s.len() as int, x) =~= s.push(x));
    }
}

proof fn lemma_insert_keyed_sorted(s: Seq<Keyed>, x: Keyed)
    requires
        keyed_sorted(s),
    ensures
        keyed_sorted(insert_keyed(s, x)),
{
    broadcast use vstd::seq_lib::group_to_multiset_ensures;

    lemma_insert_keyed_is_insert(s, x);
    let j = insert_pos(s, x);
    let u = insert_keyed(s, x);
    lemma_insert_keyed_pos(s, x);
    assert forall|a: int, b: int| 0 <= a < b < u.len() implies keyed_le(#[trigger] u[a], #[trigger] u[b]) by {
        if b < j {
            assert(u[a] == s[a] && u[b] == s[b]);
        } else if a < j && b == j {
        } else if a < j {
            assert(u[a] == s[a] && u[b] == s[b - 1]);
            lemma_keyed_trans(s[a], x, s[b - 1]);
        } else if a == j {
            assert(u[b] == s[b - 1]);
        } else {
            assert(u[a] == s[a - 1] && u[b] == s[b - 1]);
        }
    }
}

proof fn lemma_insert_keyed_pos(s: Seq<Keyed>, x: Keyed)
    requires
        keyed_sorted(s),
    ensures
        forall|k: int| 0 <= k < insert_pos(s, x) ==> keyed_le(#[trigger] s[k], x),
        forall|k: int| insert_pos(s, x) <= k < s.len() ==> keyed_le(x, #[trigger] s[k]),
    decreases s.len(),
{
    if s.len() > 0 {
        let t = s.drop_last();
        assert(keyed_sorted(t)) by {
            assert forall|a: int, b: int| 0 <= a < b < t.len() implies keyed_le(#[trigger] t[a], #[trigger] t[b]) by {
                assert(t[a] == s[a] && t[b] == s[b]);
            }
        }
        lemma_lex_total(x.0, s.last().0);
        lemma_insert_keyed_is_insert(t, x);
        if keyed_lt(x, s.last()) {
            lemma_insert_keyed_pos(t, x);
            assert forall|k: int| 0 <= k < insert_pos(s, x) implies keyed_le(#[trigger] s[k], x) by {
                assert(s[k] == t[k]);
            }
            assert forall|k: int| insert_pos(s, x) <= k < s.len() implies keyed_le(x, #[trigger] s[k]) by {
                if k < s.len() - 1 {
                    assert(s[k] == t[k]);
                }
            }
        } else {
            assert forall|k: int| 0 <= k < insert_pos(s, x) implies keyed_le(#[trigger] s[k], x) by {
                if k < s.len() - 1 {
                    assert(keyed_le(s[k], s[s.len() - 1]));
                    lemma_keyed_trans(s[k], s.last(), x);
                }
            }
        }
    }
}

proof fn lemma_sort_keyed(e: Seq<Keyed>)
    ensures
        keyed_sorted(sort_keyed(e)),
        sort_keyed(e).map_values(|p: Keyed| p.1).to_multiset() == e.map_values(|p: Keyed| p.1).to_multiset(),
        sort_keyed(e).to_multiset() == e.to_multiset(),
    decreases e.len(),
{
    broadcast use vstd::seq_lib::group_to_multiset_ensures;

    if e.len() == 0 {
        assert(e.map_values(|p: Keyed| p.1) =~= Seq::<FileItemView>::empty());
    } else {
        let d = e.drop_last();
        lemma_sort_keyed(d);
        let s = sort_keyed(d);
        lemma_insert_keyed_sorted(s, e.last());
        lemma_insert_keyed_is_insert(s, e.last());
        let j = insert_pos(s, e.last());
        assert(s.insert(j, e.last()).map_values(|p: Keyed| p.1) =~= s.map_values(|p: Keyed| p.1).insert(j, e.last().1));
        assert(e.map_values(|p: Keyed| p.1) =~= d.map_values(|p: Keyed| p.1).push(e.last().1));
        assert(e =~= d.push(e.last()));
    }
}

/// A listing in order holds the same entries as the input, and each entry
/// stands before or level with every later one: directories before files,
/// then by lower-case name.
pub proof fn lemma_sorted_spec(e: Seq<FileItemView>)
    ensures
        sorted_listing(sorted_spec(e)),
        sorted_spec(e).to_multiset() == e.to_multiset(),
{
    broadcast use vstd::seq_lib::group_to_multiset_ensures;

    let pe = pair_up(e, lower_keys(e));
    lemma_sort_keyed(pe);
    let s = sort_keyed(pe);
    assert(pe.map_values(|p: Keyed| p.1) =~= e);
    // every sorted pair carries the lower-case name of its entry
    assert forall|i: int| 0 <= i < s.len() implies (#[trigger] s[i]).0 == lower_of(s[i].1.name) by {
        assert(s.contains(s[i]));
        assert(s.to_multiset().count(s[i]) > 0);
        assert(pe.contains(s[i]));
    }
    let r = sorted_spec(e);
    assert forall|i: int, j: int| 0 <= i < j < r.len() implies listing_le(#[trigger] r[i], #[trigger] r[j]) by {
        assert(keyed_le(s[i], s[j]));
        assert(s[i].0 == lower_of(s[i].1.name));
        assert(s[j].0 == lower_of(s[j].1.name));
    }
}

/// The sort key of an entry: its lower-case name.
fn sort_key(e: &FileItem) -> (k: Vec<char>)
    ensures
        k@ == lower_of(e.name@),
{
    let lower = lowercase(e.name.as_str());
    chars_of(lower.as_str())
}

/// The views of a sequence of keys.
pub open spec fn keys_view(k: Seq<Vec<char>>) -> Seq<Seq<char>> {
    k.map_values(|v: Vec<char>| v@)
}

/// The entries sorted by the given keys (`sorted_by_keys`).
pub fn sort_by_keys(entries: Vec<FileItem>, keys: Vec<Vec<char>>) -> (r: Vec<FileItem>)
    requires
        keys@.len() == entries@.len(),
    ensures
        items_view(r@) == sorted_by_keys(items_view(entries@), keys_view(keys@)),
{
    let ghost pe = pair_up(items_view(entries@), keys_view(keys@));
    let mut rest = entries;
    let mut rest_keys = keys;
    let mut out: Vec<FileItem> = Vec::new();
    let mut out_keys: Vec<Vec<char>> = Vec::new();
    let ghost mut taken: nat = 0;
    assert(pair_up(items_view(out@), keys_view(out_keys@)) =~= sort_keyed(pe.subrange(0, 0)));
    assert(pair_up(items_view(rest@), keys_view(rest_keys@)) =~= pe.subrange(0, pe.len() as int));
    while rest.len() > 0
        invariant
            taken <= pe.len(),
            rest@.len() == rest_keys@.len(),
            out@.len() == out_keys@.len(),
            pair_up(items_view(rest@), keys_view(rest_keys@)) == pe.subrange(taken as int, pe.len() as int),
            pair_up(items_view(out@), keys_view(out_keys@)) == sort_keyed(pe.subrange(0, taken as int)),
        decreases rest@.len(),
    {
        let ghost r0 = pair_up(items_view(rest@), keys_view(rest_keys@));
        let ghost rest0 = rest@;
        let ghost rk0 = rest_keys@;
        assert(items_view(rest0).len() == rest0.len());
        assert(r0.len() == rest0.len());
        assert(pe.subrange(taken as int, pe.len() as int).len() == pe.len() - taken);
        assert(taken < pe.len());
        assert(r0[0] == pe.subrange(taken as int, pe.len() as int)[0]);
        assert(r0[0] == pe[taken as int]);
        let x = rest.remove(0);
        let kx = rest_keys.remove(0);
        let ghost xk: Keyed = (kx@, x@);
        assert(xk == r0[0]);
        let ghost s = pair_up(items_view(out@), keys_view(out_keys@));
        let mut j: usize = out.len();
        while j > 0 && (x.is_dir && !out[j - 1].is_dir || x.is_dir == out[j - 1].is_dir && lex_less(&kx, &out_keys[j - 1]))
            invariant
                j <= out@.len(),
                out@.len() == out_keys@.len(),
                s == pair_up(items_view(out@), keys_view(out_keys@)),
                xk == (kx@, x@),
                forall|k: int| j <= k < s.len() ==> keyed_lt(xk, #[trigger] s[k]),
            decreases j,
        {
            proof {
                assert(s[j - 1] == (out_keys@[j - 1]@, out@[j - 1]@));
                lemma_lex_total(kx@, out_keys@[j - 1]@);
            }
            j = j - 1;
        }
        proof {
            lemma_insert_keyed_split(s, xk, j as int);
            let pre = s.subrange(0, j as int);
            if j > 0 {
                assert(s[j - 1] == (out_keys@[j - 1]@, out@[j - 1]@));
                assert(pre.last() == s[j - 1]);
                assert(!keyed_lt(xk, pre.last()));
                assert(insert_keyed(pre, xk) == pre.push(xk));
            } else {
                assert(insert_keyed(pre, xk) == seq![xk]);
            }
            let e2 = pe.subrange(0, taken + 1int);
            assert(e2.drop_last() == pe.subrange(0, taken as int));
            assert(e2.last() == xk);
        }
        let ghost o0 = out@;
        let ghost ok0 = out_keys@;
        out.insert(j, x);
        out_keys.insert(j, kx);
        proof {
            assert(pair_up(items_view(out@), keys_view(out_keys@)) =~= s.subrange(0, j as int).push(xk) + s.subrange(j as int, s.len() as int)) by {
                assert forall|k: int| 0 <= k < out@.len() implies pair_up(items_view(out@), keys_view(out_keys@))[k] == (s.subrange(0, j as int).push(xk) + s.subrange(j as int, s.len() as int))[k] by {
                    if k < j {
                        assert(out@[k] == o0[k] && out_keys@[k] == ok0[k]);
                    } else if k > j {
                        assert(out@[k] == o0[k - 1] && out_keys@[k] == ok0[k - 1]);
                    }
                }
            }
            taken = taken + 1;
            assert(rest@ == rest0.remove(0));
            assert(rest_keys@ == rk0.remove(0));
            assert forall|k: int| 0 <= k < rest@.len() implies pair_up(items_view(rest@), keys_view(rest_keys@))[k] == pe.subrange(taken as int, pe.len() as int)[k] by {
                assert(rest@[k] == rest0[k + 1] && rest_keys@[k] == rk0[k + 1]);
                assert(r0[k + 1] == pe.subrange(taken - 1, pe.len() as int)[k + 1]);
            }
            assert(pair_up(items_view(rest@), keys_view(rest_keys@)) =~= pe.subrange(taken as int, pe.len() as int));
        }
    }
    assert(pe.subrange(0, pe.len() as int) == pe);
    assert(items_view(out@) =~= pair_up(items_view(out@), keys_view(out_keys@)).map_values(|p: Keyed| p.1));
    out
}

/// The entries in listing order (`sorted_spec`).
pub fn sort_listing(entries: Vec<FileItem>) -> (r: Vec<FileItem>)
    ensures
        items_view(r@) == sorted_spec(items_view(entries@)),
{
    let mut keys: Vec<Vec<char>> = Vec::new();
    let mut i: usize = 0;
    while i < entries.len()
        invariant
            i <= entries@.len(),
            keys@.len() == i,
            forall|k: int| 0 <= k < i ==> (#[trigger] keys@[k])@ == lower_of(entries@[k].name@),
        decreases entries@.len() - i,
    {
        keys.push(sort_key(&entries[i]));
        i = i + 1;
    }
    assert(keys_view(keys@) =~= lower_keys(items_view(entries@)));
    sort_by_keys(entries, keys)
}

} // verus!
