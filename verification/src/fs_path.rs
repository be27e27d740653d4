//! Filesystem paths as the library sees them: whether the path starts at the
//! root, and the names that lead from there to the entry, outermost first.

use vstd::prelude::*;
use vstd::std_specs::cmp::PartialEqSpecImpl;

verus! {

/// A path: `absolute` says whether it starts at the filesystem root, `names`
/// are its components in order. The empty relative path has no names.
#[derive(Debug)]
pub struct FsPath {
    pub absolute: bool,
    pub names: Vec<String>,
}

/// What a path is to the contracts: the flag and the characters of each name.
pub struct FsPathView {
    pub absolute: bool,
    pub names: Seq<Seq<char>>,
}

/// The characters of each of `names`.
pub open spec fn names_view(names: Seq<String>) -> Seq<Seq<char>> {
    Seq::new(names.len(), |i: int| names[i]@)
}

impl View for FsPath {
    type V = FsPathView;

    open spec fn view(&self) -> FsPathView {
        FsPathView { absolute: self.absolute, names: names_view(self.names@) }
    }
}

impl FsPathView {
    /// The path one level up, if there is a level to go up.
    pub open spec fn parent(self) -> Option<FsPathView> {
        if self.names.len() == 0 {
            None
        } else {
            Some(FsPathView { absolute: self.absolute, names: self.names.drop_last() })
        }
    }

    /// The last name of the path, if it has one.
    pub open spec fn file_name(self) -> Option<Seq<char>> {
        if self.names.len() == 0 {
            None
        } else {
            Some(self.names.last())
        }
    }

    /// The path with one more name at its end.
    pub open spec fn child(self, name: Seq<char>) -> FsPathView {
        FsPathView { absolute: self.absolute, names: self.names.push(name) }
    }

    /// `other` as seen from `self`: an absolute `other` stands alone, a relative
    /// one continues `self`.
    pub open spec fn join(self, other: FsPathView) -> FsPathView {
        if other.absolute {
            other
        } else {
            FsPathView { absolute: self.absolute, names: self.names + other.names }
        }
    }
}

/// `names` as one text, with a `/` between each two.
pub open spec fn joined(names: Seq<Seq<char>>) -> Seq<char>
    decreases names.len(),
{
    if names.len() == 0 {
        Seq::empty()
    } else if names.len() == 1 {
        names[0]
    } else {
        joined(names.drop_last()) + "/"@ + names.last()
    }
}

impl FsPathView {
    /// The path as it is written: a `/` in front if it starts at the root,
    /// then the names with a `/` between each two.
    pub open spec fn text(self) -> Seq<char> {
        if self.absolute {
            "/"@ + joined(self.names)
        } else {
            joined(self.names)
        }
    }
}

impl FsPath {
    /// The path as it is written.
    pub fn to_text(&self) -> (r: String)
        ensures
            r@ == self@.text(),
    {
        let mut out = if self.absolute {
            String::from_str("/")
        } else {
            String::new()
        };
        let ghost front = out@;
        let mut i: usize = 0;
        assert(self@.names.take(0) =~= Seq::empty());
        assert(front + Seq::<char>::empty() =~= front);
        while i < self.names.len()
            invariant
                i <= self.names.len(),
                out@ == front + joined(self@.names.take(i as int)),
            decreases self.names.len() - i,
        {
            let ghost done = self@.names.take(i as int);
            let ghost next = self@.names.take(i + 1);
            assert(next.drop_last() =~= done);
            assert(next.last() == self.names@[i as int]@);
            if i > 0 {
                out.append("/");
            }
            out.append(self.names[i].as_str());
            assert(out@ =~= front + joined(next)) by {
                if i == 0 {
                    assert(joined(done) =~= Seq::empty());
                }
            }
            i += 1;
        }
        assert(self@.names.take(self.names.len() as int) =~= self@.names);
        out
    }

    /// The path made of `names`, from the root if `absolute`.
    pub fn new(absolute: bool, names: Vec<String>) -> (r: FsPath)
        ensures
            r.absolute == absolute,
            r.names == names,
    {
        FsPath { absolute, names }
    }

    /// The filesystem root.
    pub fn root() -> (r: FsPath)
        ensures
            r@ == (FsPathView { absolute: true, names: Seq::empty() }),
    {
        let r = FsPath { absolute: true, names: Vec::new() };
        assert(r@.names =~= Seq::empty());
        r
    }

    /// How many names the path has.
    pub fn depth(&self) -> (n: usize)
        ensures
            n == self@.names.len(),
    {
        self.names.len()
    }

    /// A copy of the first `count` names.
    fn names_prefix(&self, count: usize) -> (out: Vec<String>)
        requires
            count <= self.names.len(),
        ensures
            names_view(out@) == self@.names.take(count as int),
    {
        let mut out: Vec<String> = Vec::new();
        let mut i: usize = 0;
        while i < count
            invariant
                i <= count,
                count <= self.names.len(),
                out.len() == i,
                forall|j: int| 0 <= j < i ==> out@[j]@ == self.names@[j]@,
            decreases count - i,
        {
            out.push(self.names[i].clone());
            i += 1;
        }
        assert(names_view(out@) =~= self@.names.take(count as int));
        out
    }

    /// The path one level up; `None` for a path without names.
    pub fn parent(&self) -> (r: Option<FsPath>)
        ensures
            r is Some == self@.parent() is Some,
            r is Some ==> r->0@ == self@.parent()->0,
    {
        let n: usize = self.names.len();
        if n == 0 {
            return None;
        }
        let names = self.names_prefix(n - 1);
        let p = FsPath { absolute: self.absolute, names };
        assert(p@.names =~= self@.names.drop_last());
        Some(p)
    }

    /// The last name of the path; `None` for a path without names.
    pub fn file_name(&self) -> (r: Option<&String>)
        ensures
            r is Some == self@.file_name() is Some,
            r is Some ==> r->0@ == self@.file_name()->0,
    {
        let n: usize = self.names.len();
        if n == 0 {
            None
        } else {
            Some(&self.names[n - 1])
        }
    }

    /// Whether the path's last name is `name`.
    pub fn is_named(&self, name: &str) -> (r: bool)
        ensures
            r == (self@.file_name() == Some(name@)),
    {
        match self.file_name() {
            Some(last) => *last == String::from_str(name),
            None => false,
        }
    }

    /// The path of the entry `name` inside this one.
    pub fn child(&self, name: &str) -> (r: FsPath)
        ensures
            r@ == self@.child(name@),
    {
        let mut names = self.names_prefix(self.names.len());
        assert(self@.names.take(self.names.len() as int) =~= self@.names);
        names.push(String::from_str(name));
        let r = FsPath { absolute: self.absolute, names };
        assert(r@.names =~= self@.names.push(name@));
        r
    }

    /// `other` as seen from this path: an absolute `other` replaces it, a
    /// relative one is appended.
    pub fn join(&self, other: &FsPath) -> (r: FsPath)
        ensures
            r@ == self@.join(other@),
    {
        if other.absolute {
            return other.clone();
        }
        let mut names = self.names_prefix(self.names.len());
        assert(self@.names.take(self.names.len() as int) =~= self@.names);
        assert(other@.names.take(0) =~= Seq::empty());
        let mut i: usize = 0;
        while i < other.names.len()
            invariant
                i <= other.names.len(),
                names_view(names@) == self@.names + other@.names.take(i as int),
            decreases other.names.len() - i,
        {
            let ghost before = names@;
            names.push(other.names[i].clone());
            assert(names_view(names@) =~= names_view(before).push(other.names@[i as int]@));
            assert(other@.names.take(i + 1) =~= other@.names.take(i as int).push(
                other.names@[i as int]@,
            ));
            i += 1;
        }
        assert(other@.names.take(other.names.len() as int) =~= other@.names);
        FsPath { absolute: self.absolute, names }
    }

    /// Whether both paths lie in the same directory, or neither lies in one.
    pub fn has_same_parent(&self, other: &FsPath) -> (r: bool)
        ensures
            r == (self@.parent() == other@.parent()),
    {
        match (self.parent(), other.parent()) {
            (Some(a), Some(b)) => a == b,
            (None, None) => true,
            _ => false,
        }
    }
}

impl Clone for FsPath {
    fn clone(&self) -> (r: FsPath)
        ensures
            r@ == self@,
    {
        let names = self.names_prefix(self.names.len());
        let r = FsPath { absolute: self.absolute, names };
        assert(r@.names =~= self@.names);
        r
    }
}

impl PartialEq for FsPath {
    fn eq(&self, other: &FsPath) -> (r: bool) {
        if self.absolute != other.absolute || self.names.len() != other.names.len() {
            assert(self@.names.len() != other@.names.len() || self.absolute != other.absolute);
            return false;
        }
        let mut i: usize = 0;
        while i < self.names.len()
            invariant
                i <= self.names.len(),
                self.names.len() == other.names.len(),
                forall|j: int| 0 <= j < i ==> self.names@[j]@ == other.names@[j]@,
            decreases self.names.len() - i,
        {
            if self.names[i] != other.names[i] {
                assert(self@.names[i as int] != other@.names[i as int]);
                return false;
            }
            i += 1;
        }
        assert(self@.names =~= other@.names);
        true
    }
}

impl PartialEqSpecImpl for FsPath {
    open spec fn obeys_eq_spec() -> bool {
        true
    }

    open spec fn eq_spec(&self, other: &FsPath) -> bool {
        self@ == other@
    }
}

impl Eq for FsPath {

}

} // verus!
