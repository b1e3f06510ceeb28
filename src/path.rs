//! Filesystem paths as the library sees them: an absolute flag and a
//! sequence of components, none of them empty or holding a separator.

use vstd::prelude::*;
use crate::text::{push_char, push_text, string_from_chars};

verus! {

/// The mathematical value of a path.
pub ghost struct PathView {
    pub absolute: bool,
    pub parts: Seq<Seq<char>>,
}

/// A path: whether it starts at the root, and its components in order.
pub struct FsPath {
    absolute: bool,
    parts: Vec<String>,
}

/// A component that a path can hold: not empty, no separator, not `.`.
pub open spec fn is_component(p: Seq<char>) -> bool {
    &&& p.len() > 0
    &&& !p.contains('/')
    &&& p != seq!['.']
}

pub open spec fn path_wf(v: PathView) -> bool {
    forall|i: int| 0 <= i < v.parts.len() ==> is_component(#[trigger] v.parts[i])
}

/// The pieces of a text between separators, empty ones included.
pub open spec fn split_slash(t: Seq<char>) -> Seq<Seq<char>>
    decreases t.len(),
{
    if t.len() == 0 {
        seq![Seq::empty()]
    } else {
        let init = split_slash(t.drop_last());
        if t.last() == '/' {
            init.push(Seq::empty())
        } else {
            init.update(init.len() - 1, init.last().push(t.last()))
        }
    }
}

/// The pieces that name components, in order.
pub open spec fn kept_parts(s: Seq<Seq<char>>) -> Seq<Seq<char>>
    decreases s.len(),
{
    if s.len() == 0 {
        s
    } else if is_component(s.last()) {
        kept_parts(s.drop_last()).push(s.last())
    } else {
        kept_parts(s.drop_last())
    }
}

/// The components of a text.
pub open spec fn components(t: Seq<char>) -> Seq<Seq<char>> {
    kept_parts(split_slash(t))
}

/// The path that a text names.
pub open spec fn parse_path(t: Seq<char>) -> PathView {
    PathView { absolute: t.len() > 0 && t[0] == '/', parts: components(t) }
}

/// `base` joined with a text: a text that starts at the root replaces it.
pub open spec fn join_spec(base: PathView, t: Seq<char>) -> PathView {
    if t.len() > 0 && t[0] == '/' {
        parse_path(t)
    } else {
        PathView { absolute: base.absolute, parts: base.parts + components(t) }
    }
}

/// The parent: the path without its last component, if it has one.
pub open spec fn parent_spec(v: PathView) -> Option<PathView> {
    if v.parts.len() == 0 {
        None
    } else {
        Some(PathView { absolute: v.absolute, parts: v.parts.drop_last() })
    }
}

/// The final component, unless the path ends in `..` or has none.
pub open spec fn file_name_spec(v: PathView) -> Option<Seq<char>> {
    if v.parts.len() == 0 || v.parts.last() == seq!['.', '.'] {
        None
    } else {
        Some(v.parts.last())
    }
}

/// The path with its final component replaced by a text.
pub open spec fn with_file_name_spec(v: PathView, name: Seq<char>) -> PathView {
    if file_name_spec(v) is Some {
        join_spec(PathView { absolute: v.absolute, parts: v.parts.drop_last() }, name)
    } else {
        join_spec(v, name)
    }
}

/// Components written with separators between them.
pub open spec fn joined_parts(s: Seq<Seq<char>>) -> Seq<char>
    decreases s.len(),
{
    if s.len() == 0 {
        Seq::empty()
    } else if s.len() == 1 {
        s[0]
    } else {
        joined_parts(s.drop_last()).push('/') + s.last()
    }
}

/// The text of a path.
pub open spec fn path_text(v: PathView) -> Seq<char> {
    if v.absolute {
        seq!['/'] + joined_parts(v.parts)
    } else {
        joined_parts(v.parts)
    }
}

impl View for FsPath {
    type V = PathView;

    closed spec fn view(&self) -> PathView {
        PathView { absolute: self.absolute, parts: self.parts@.map_values(|p: String| p@) }
    }
}

proof fn lemma_kept_parts_wf(s: Seq<Seq<char>>)
    ensures
        forall|i: int| 0 <= i < kept_parts(s).len() ==> is_component(#[trigger] kept_parts(s)[i]),
    decreases s.len(),
{
    if s.len() > 0 {
        lemma_kept_parts_wf(s.drop_last());
        let k = kept_parts(s.drop_last());
        assert forall|i: int| 0 <= i < kept_parts(s).len() implies is_component(
            #[trigger] kept_parts(s)[i],
        ) by {
            if is_component(s.last()) {
                assert(kept_parts(s) == k.push(s.last()));
                if i < k.len() {
                    assert(kept_parts(s)[i] == k[i]);
                }
            }
        }
    }
}

impl FsPath {
    #[verifier::type_invariant]
    spec fn inv(&self) -> bool {
        forall|i: int| 0 <= i < self.parts@.len() ==> is_component(#[trigger] self.parts@[i]@)
    }

    /// The root directory.
    pub fn root() -> (r: FsPath)
        ensures
            r@ == (PathView { absolute: true, parts: Seq::empty() }),
    {
        let r = FsPath { absolute: true, parts: Vec::new() };
        assert(r@.parts =~= Seq::<Seq<char>>::empty());
        r
    }

    /// The path that a text names: `/` at the start makes it absolute, and
    /// empty and `.` pieces between separators are dropped.
    pub fn from_text(t: &str) -> (r: FsPath)
        ensures
            r@ == parse_path(t@),
    {
        let cs = crate::text::chars_of(t);
        let parts = split_components(&cs);
        let absolute = cs.len() > 0 && cs[0] == '/';
        FsPath { absolute, parts }
    }

    pub fn is_absolute(&self) -> (r: bool)
        ensures
            r == self@.absolute,
    {
        self.absolute
    }

    pub fn component_count(&self) -> (r: usize)
        ensures
            r == self@.parts.len(),
    {
        self.parts.len()
    }

    /// A copy of this path.
    pub fn duplicate(&self) -> (r: FsPath)
        ensures
            r@ == self@,
    {
        proof {
            use_type_invariant(self);
        }
        let parts = self.parts.clone();
        assert(parts@ =~= self.parts@);
        FsPath { absolute: self.absolute, parts }
    }

    /// This path joined with a text (`Path::join`).
    pub fn join(&self, t: &str) -> (r: FsPath)
        ensures
            r@ == join_spec(self@, t@),
    {
        proof {
            use_type_invariant(self);
        }
        let cs = crate::text::chars_of(t);
        let more = split_components(&cs);
        if cs.len() > 0 && cs[0] == '/' {
            FsPath { absolute: true, parts: more }
        } else {
            let mut parts = self.parts.clone();
            assert(parts@ =~= self.parts@);
            let mut more = more;
            let ghost mid = parts@;
            let ghost tail = more@;
            parts.append(&mut more);
            let r = FsPath { absolute: self.absolute, parts };
            assert(r@.parts =~= self@.parts + components(t@)) by {
                assert(parts@ == mid + tail);
            }
            r
        }
    }

    /// The parent directory (`Path::parent`).
    pub fn parent(&self) -> (r: Option<FsPath>)
        ensures
            match r {
                Some(q) => parent_spec(self@) == Some(q@),
                None => parent_spec(self@) is None,
            },
    {
        proof {
            use_type_invariant(self);
        }
        if self.parts.len() == 0 {
            None
        } else {
            let mut parts = self.parts.clone();
            assert(parts@ =~= self.parts@);
            parts.pop();
            let r = FsPath { absolute: self.absolute, parts };
            assert(r@.parts =~= self@.parts.drop_last());
            Some(r)
        }
    }

    /// The final component (`Path::file_name`).
    pub fn file_name(&self) -> (r: Option<String>)
        ensures
            match r {
                Some(n) => file_name_spec(self@) == Some(n@),
                None => file_name_spec(self@) is None,
            },
    {
        let n = self.parts.len();
        if n == 0 {
            return None;
        }
        let last = &self.parts[n - 1];
        let up = "..";
        proof {
            reveal_strlit("..");
            assert(up@ =~= seq!['.', '.']);
            assert(self@.parts.last() == last@);
        }
        if crate::text::same_text(last.as_str(), up) {
            None
        } else {
            Some(last.clone())
        }
    }

    /// This path with its final component replaced (`Path::with_file_name`).
    pub fn with_file_name(&self, name: &str) -> (r: FsPath)
        ensures
            r@ == with_file_name_spec(self@, name@),
    {
        match self.parent() {
            Some(up) => {
                if self.file_name().is_some() {
                    up.join(name)
                } else {
                    self.join(name)
                }
            }
            None => self.join(name),
        }
    }

    /// The text of this path, with `/` between components.
    pub fn to_text(&self) -> (r: String)
        ensures
            r@ == path_text(self@),
    {
        let mut s = String::new();
        if self.absolute {
            push_char(&mut s, '/');
        }
        let n = self.parts.len();
        let mut i: usize = 0;
        while i < n
            invariant
                n == self.parts@.len(),
                i <= n,
                self@.parts.len() == n,
                s@ == (if self.absolute { seq!['/'] } else { Seq::empty() }) + joined_parts(
                    self@.parts.subrange(0, i as int),
                ),
            decreases n - i,
        {
            let ghost before = s@;
            if i > 0 {
                push_char(&mut s, '/');
            }
            push_text(&mut s, self.parts[i].as_str());
            proof {
                let sub = self@.parts.subrange(0, i + 1);
                assert(sub.drop_last() =~= self@.parts.subrange(0, i as int));
                assert(sub.last() == self.parts@[i as int]@);
                if i == 0 {
                    assert(sub.len() == 1);
                    assert(joined_parts(self@.parts.subrange(0, 0)) =~= Seq::<char>::empty());
                }
            }
            i = i + 1;
        }
        assert(self@.parts.subrange(0, n as int) =~= self@.parts);
        s
    }
}

/// The components of a text, as strings.
fn split_components(cs: &Vec<char>) -> (r: Vec<String>)
    ensures
        r@.map_values(|p: String| p@) == components(cs@),
        forall|i: int| 0 <= i < r@.len() ==> is_component(#[trigger] r@[i]@),
{
    let mut done: Vec<String> = Vec::new();
    let mut cur: Vec<char> = Vec::new();
    let ghost raw: Seq<Seq<char>> = Seq::empty();
    let mut i: usize = 0;
    while i < cs.len()
        invariant
            i <= cs@.len(),
            split_slash(cs@.subrange(0, i as int)) == raw.push(cur@),
            done@.map_values(|p: String| p@) == kept_parts(raw),
        decreases cs@.len() - i,
    {
        let c = cs[i];
        let ghost pre = cs@.subrange(0, i as int);
        assert(cs@.subrange(0, i + 1).drop_last() == pre);
        if c == '/' {
            proof {
                assert(kept_parts(raw.push(cur@)).len() >= 0);
                assert(raw.push(cur@).drop_last() == raw);
            }
            if keep_piece(&cur) {
                let s = string_from_chars(cur.as_slice());
                done.push(s);
            }
            proof {
                raw = raw.push(cur@);
            }
            assert(done@.map_values(|p: String| p@) =~= kept_parts(raw));
            cur = Vec::new();
            assert(split_slash(cs@.subrange(0, i + 1)) =~= raw.push(cur@));
        } else {
            cur.push(c);
            assert(split_slash(cs@.subrange(0, i + 1)) =~= raw.push(cur@));
        }
        i = i + 1;
    }
    assert(cs@.subrange(0, cs@.len() as int) == cs@);
    let ghost all = raw.push(cur@);
    assert(all.drop_last() == raw);
    if keep_piece(&cur) {
        let s = string_from_chars(cur.as_slice());
        done.push(s);
    }
    assert(done@.map_values(|p: String| p@) =~= kept_parts(all));
    proof {
        lemma_kept_parts_wf(all);
        assert forall|k: int| 0 <= k < done@.len() implies is_component(#[trigger] done@[k]@) by {
            assert(done@.map_values(|p: String| p@)[k] == done@[k]@);
        }
    }
    done
}

fn keep_piece(cur: &Vec<char>) -> (r: bool)
    ensures
        r == is_component(cur@),
{
    let mut i: usize = 0;
    while i < cur.len()
        invariant
            i <= cur@.len(),
            forall|j: int| 0 <= j < i ==> cur@[j] != '/',
        decreases cur@.len() - i,
    {
        if cur[i] == '/' {
            return false;
        }
        i = i + 1;
    }
    if cur.len() == 0 {
        return false;
    }
    if cur.len() == 1 && cur[0] == '.' {
        assert(cur@ =~= seq!['.']);
        return false;
    }
    assert(cur@ != seq!['.']) by {
        if cur@ == seq!['.'] {
            assert(cur@.len() == 1);
        }
    }
    true
}

} // verus!

verus! {

proof fn lemma_split_single(t: Seq<char>)
    requires
        !t.contains('/'),
    ensures
        split_slash(t) == seq![t],
    decreases t.len(),
{
    if t.len() > 0 {
        let d = t.drop_last();
        assert(!d.contains('/')) by {
            if d.contains('/') {
                let k = choose|k: int| 0 <= k < d.len() && d[k] == '/';
                assert(t[k] == '/');
            }
        }
        lemma_split_single(d);
        assert(t.last() != '/') by {
            assert(t[t.len() - 1] == t.last());
        }
        assert(d.push(t.last()) == t);
        assert(split_slash(t) =~= seq![t]);
    } else {
        assert(t =~= Seq::<char>::empty());
    }
}

/// Giving a path its own file name again yields the same path.
pub proof fn lemma_with_own_file_name(v: PathView)
    requires
        path_wf(v),
        file_name_spec(v) is Some,
    ensures
        with_file_name_spec(v, file_name_spec(v)->0) == v,
{
    let n = v.parts.last();
    assert(is_component(v.parts[v.parts.len() - 1]));
    lemma_split_single(n);
    assert(n.len() > 0 && n[0] != '/') by {
        assert(!n.contains('/'));
        if n[0] == '/' {
            assert(n.contains('/'));
        }
    }
    let s = seq![n];
    assert(s.drop_last() =~= Seq::<Seq<char>>::empty());
    assert(s.last() == n);
    assert(kept_parts(s.drop_last()) =~= Seq::<Seq<char>>::empty());
    assert(components(n) =~= seq![n]);
    assert(v.parts.drop_last() + seq![n] =~= v.parts);
}

} // verus!
