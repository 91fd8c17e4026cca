//! Locations inside a configuration document, used to label errors.

use vstd::prelude::*;
use vstd::string::*;

verus! {

/// The sequence of field names that leads from the root of a document to
/// one of its fields. A path is never used to look anything up.
#[derive(Debug)]
pub struct ConfigPath {
    pub segments: Vec<String>,
}

/// A path as it is written in reports: the segments, separated by dots.
pub open spec fn dotted(p: Seq<Seq<char>>) -> Seq<char>
    decreases p.len(),
{
    if p.len() == 0 {
        Seq::empty()
    } else if p.len() == 1 {
        p[0]
    } else {
        dotted(p.drop_last()) + seq!['.'] + p.last()
    }
}

impl View for ConfigPath {
    type V = Seq<Seq<char>>;

    open spec fn view(&self) -> Seq<Seq<char>> {
        self.segments@.map_values(|s: String| s@)
    }
}

impl Clone for ConfigPath {
    fn clone(&self) -> (p: Self)
        ensures
            p@ == self@,
    {
        let mut segments: Vec<String> = Vec::new();
        let mut i: usize = 0;
        while i < self.segments.len()
            invariant
                i <= self.segments.len(),
                segments@.len() == i,
                segments@.map_values(|s: String| s@) == self@.take(i as int),
            decreases self.segments.len() - i,
        {
            let ghost before = segments@.map_values(|s: String| s@);
            let segment = self.segments[i].clone();
            segments.push(segment);
            proof {
                let after = segments@.map_values(|s: String| s@);
                let target = self@.take(i as int + 1);
                assert(after.len() == target.len());
                assert forall|j: int| 0 <= j < after.len() implies after[j] == target[j] by {
                    if j < i {
                        assert(before[j] == self@.take(i as int)[j]);
                    }
                }
                assert(after =~= target);
            }
            i += 1;
        }
        assert(self@.take(i as int) =~= self@);
        ConfigPath { segments }
    }
}

impl ConfigPath {
    /// The empty path, which names the document itself.
    pub fn new() -> (p: Self)
        ensures
            p@ == Seq::<Seq<char>>::empty(),
    {
        let p = ConfigPath { segments: Vec::new() };
        assert(p@ =~= Seq::<Seq<char>>::empty());
        p
    }

    /// The path of the field `part` of the record at `self`.
    pub fn join(&self, part: &str) -> (p: Self)
        ensures
            p@ == self@.push(part@),
    {
        let mut p = self.clone();
        p.segments.push(String::from_str(part));
        assert(p@ =~= self@.push(part@));
        p
    }

    /// The number of segments.
    pub fn len(&self) -> (n: usize)
        ensures
            n == self@.len(),
    {
        self.segments.len()
    }

    /// The path in dotted form, as in `chains.foo.addresses.mailbox`.
    pub fn to_dotted(&self) -> (s: String)
        ensures
            s@ == dotted(self@),
    {
        let mut s = String::new();
        let mut i: usize = 0;
        while i < self.segments.len()
            invariant
                i <= self.segments.len(),
                s@ == dotted(self@.take(i as int)),
            decreases self.segments.len() - i,
        {
            proof {
                reveal_strlit(".");
                assert(self@.take(i as int + 1).drop_last() =~= self@.take(i as int));
                assert("."@ =~= seq!['.']);
                if i == 1 {
                    assert(self@.take(1).drop_last().len() == 0);
                }
            }
            if i > 0 {
                s.append(".");
            }
            s.append(self.segments[i].as_str());
            proof {
                let t = self@.take(i as int + 1);
                assert(t.last() == self.segments[i as int]@);
                if i == 0 {
                    assert(s@ =~= t[0]);
                } else if i == 1 {
                    assert(dotted(self@.take(1)) == self@[0]);
                }
            }
            i += 1;
        }
        assert(self@.take(i as int) =~= self@);
        s
    }
}

} // verus!
