//! The value objects fetched from the tag store.
//!
//! The store itself (a relational database) lives outside this crate; the
//! library only consumes the records it hands back: tracks, tags ("vibes")
//! and tag groups. Two tracks are the same track exactly when their ids
//! match, whatever tags each copy happens to carry — the ranking step leans
//! on this.

use vstd::prelude::*;

verus! {

/// A tag attached to tracks: a name within a named group (for example
/// name "rainy" in group "weather").
#[derive(Debug)]
pub struct Vibe {
    pub name: String,
    pub group_name: String,
}

/// The mathematical value of a [`Vibe`]: both strings as character
/// sequences.
pub ghost struct VibeView {
    pub name: Seq<char>,
    pub group_name: Seq<char>,
}

impl View for Vibe {
    type V = VibeView;

    open spec fn view(&self) -> VibeView {
        VibeView { name: self.name@, group_name: self.group_name@ }
    }
}

impl Clone for Vibe {
    fn clone(&self) -> (r: Self)
        ensures
            r == *self,
    {
        Vibe { name: self.name.clone(), group_name: self.group_name.clone() }
    }
}

/// A named group of tags, as the store reports it.
#[derive(Debug)]
pub struct VibeGroup {
    pub name: String,
    pub vibes: Vec<Vibe>,
}

/// The mathematical value of a [`VibeGroup`].
pub ghost struct VibeGroupView {
    pub name: Seq<char>,
    pub vibes: Seq<VibeView>,
}

impl View for VibeGroup {
    type V = VibeGroupView;

    open spec fn view(&self) -> VibeGroupView {
        VibeGroupView {
            name: self.name@,
            vibes: self.vibes@.map_values(|v: Vibe| v@),
        }
    }
}

/// A track as the store hands it out: a stable id, the file locator, and the
/// tags attached to it.
#[derive(Debug)]
pub struct TrackHeader {
    pub id: i64,
    pub path: String,
    pub vibes: Vec<Vibe>,
}

/// The mathematical value of a [`TrackHeader`].
pub ghost struct TrackHeaderView {
    pub id: int,
    pub path: Seq<char>,
    pub vibes: Seq<VibeView>,
}

impl View for TrackHeader {
    type V = TrackHeaderView;

    open spec fn view(&self) -> TrackHeaderView {
        TrackHeaderView {
            id: self.id as int,
            path: self.path@,
            vibes: self.vibes@.map_values(|v: Vibe| v@),
        }
    }
}

impl PartialEq for TrackHeader {
    /// Track identity is the id alone: two copies of a track compare equal
    /// even when their tag lists differ.
    fn eq(&self, other: &Self) -> (r: bool) {
        self.id == other.id
    }
}

impl vstd::std_specs::cmp::PartialEqSpecImpl for TrackHeader {
    open spec fn obeys_eq_spec() -> bool {
        true
    }

    open spec fn eq_spec(&self, other: &Self) -> bool {
        self.id == other.id
    }
}

impl Clone for TrackHeader {
    /// A clone carries the same id, locator and tag values as the original.
    fn clone(&self) -> (r: Self)
        ensures
            r@ == self@,
    {
        let mut vibes: Vec<Vibe> = Vec::new();
        let n = self.vibes.len();
        let mut i: usize = 0;
        while i < n
            invariant
                i <= n,
                n == self.vibes.len(),
                vibes@ =~= self.vibes@.subrange(0, i as int),
            decreases n - i,
        {
            vibes.push(self.vibes[i].clone());
            i += 1;
        }
        proof {
            assert(vibes@ =~= self.vibes@);
        }
        let r = TrackHeader { id: self.id, path: self.path.clone(), vibes };
        proof {
            assert(r@.vibes =~= self@.vibes);
        }
        r
    }
}

} // verus!
