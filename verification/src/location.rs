//! Places in the file system, described without looking at it.

use vstd::prelude::*;
use crate::text::texts;

verus! {

/// A place in the file system: a path taken as it was given, and the
/// components to append beneath it, outermost first.
///
/// Nothing here joins the pieces into one path: how components are joined
/// is the platform's business, and is left to whoever opens the place.
#[derive(Debug, PartialEq, Eq)]
pub struct Location {
    pub base: String,
    pub parts: Vec<String>,
}

/// What a [`Location`] says, as plain sequences.
pub ghost struct LocationModel {
    pub base: Seq<char>,
    pub parts: Seq<Seq<char>>,
}

impl LocationModel {
    /// The place that is `base` itself.
    pub open spec fn at(base: Seq<char>) -> LocationModel {
        LocationModel { base, parts: Seq::empty() }
    }

    /// The place named `part` directly beneath this one.
    pub open spec fn join(self, part: Seq<char>) -> LocationModel {
        LocationModel { base: self.base, parts: self.parts.push(part) }
    }
}

impl View for Location {
    type V = LocationModel;

    open spec fn view(&self) -> LocationModel {
        LocationModel { base: self.base@, parts: texts(self.parts@) }
    }
}

impl Location {
    /// The place that is `base` itself.
    pub fn new(base: String) -> (place: Location)
        ensures
            place@ == LocationModel::at(base@),
    {
        let place = Location { base, parts: Vec::new() };
        assert(texts(place.parts@) =~= Seq::empty());
        place
    }

    /// The place named `part` directly beneath this one.
    pub fn join(self, part: &str) -> (place: Location)
        ensures
            place@ == self@.join(part@),
    {
        let mut parts = self.parts;
        let ghost before = parts@;
        parts.push(part.to_owned());
        assert(texts(parts@) =~= texts(before).push(part@));
        Location { base: self.base, parts }
    }
}

impl Clone for Location {
    fn clone(&self) -> (copy: Location)
        ensures
            copy@ == self@,
    {
        let mut parts: Vec<String> = Vec::new();
        let mut i: usize = 0;
        while i < self.parts.len()
            invariant
                i <= self.parts.len(),
                parts.len() == i,
                texts(parts@) =~= texts(self.parts@).take(i as int),
            decreases self.parts.len() - i,
        {
            parts.push(self.parts[i].clone());
            i = i + 1;
        }
        assert(texts(self.parts@).take(i as int) =~= texts(self.parts@));
        Location { base: self.base.clone(), parts }
    }
}

} // verus!
