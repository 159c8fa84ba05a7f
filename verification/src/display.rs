//! The displays that the display service reported, and the search for the
//! one that a caller names by its identifier.

use vstd::prelude::*;

verus! {

/// One connected physical display, as one enumeration reported it.
#[derive(Clone, Copy, Debug, PartialEq, Eq)]
pub struct Display<H> {
    /// The identifier by which callers name the display.
    pub external_id: u64,
    /// The display service's own reference to the display. It means
    /// something only together with the enumeration that it came from.
    pub handle: H,
}

/// Why no display could be resolved.
#[derive(Clone, Copy, Debug, PartialEq, Eq, Structural)]
pub enum DisplayError {
    /// No enumerated display has the requested identifier.
    NotFound,
}

/// Some display in `displays` has the identifier `id`.
pub open spec fn has_display<H>(displays: Seq<Display<H>>, id: u64) -> bool {
    exists|i: int| 0 <= i < displays.len() && (#[trigger] displays[i]).external_id == id
}

/// Position `i` holds the first display, in enumeration order, with the
/// identifier `id`.
pub open spec fn is_first_match<H>(displays: Seq<Display<H>>, id: u64, i: int) -> bool {
    &&& 0 <= i < displays.len()
    &&& displays[i].external_id == id
    &&& forall|j: int| 0 <= j < i ==> (#[trigger] displays[j]).external_id != id
}

/// What resolving `id` against `displays` gives: the first display with that
/// identifier, or `NotFound` where there is none.
pub open spec fn resolved<H>(displays: Seq<Display<H>>, id: u64) -> Result<Display<H>, DisplayError> {
    if has_display(displays, id) {
        Ok(displays[choose|i: int| is_first_match(displays, id, i)])
    } else {
        Err(DisplayError::NotFound)
    }
}

/// A display that is the first match is the one that resolving gives.
pub proof fn lemma_first_match_resolves<H>(displays: Seq<Display<H>>, id: u64, i: int)
    requires
        is_first_match(displays, id, i),
    ensures
        resolved(displays, id) == Ok::<Display<H>, DisplayError>(displays[i]),
{
    let c = choose|c: int| is_first_match(displays, id, c);
    if c < i {
        assert(displays[c].external_id != id);
    } else if i < c {
        assert(displays[i].external_id != id);
    }
}

/// One enumeration of the connected displays, in the order in which the
/// display service reported them. A registry holds exactly what it was made
/// from: a new enumeration makes a new registry.
pub struct DisplayRegistry<H> {
    displays: Vec<Display<H>>,
}

impl<H> View for DisplayRegistry<H> {
    type V = Seq<Display<H>>;

    closed spec fn view(&self) -> Seq<Display<H>> {
        self.displays@
    }
}

impl<H> DisplayRegistry<H> {
    /// Takes an enumeration as the display service reported it.
    pub fn new(displays: Vec<Display<H>>) -> (registry: Self)
        ensures
            registry@ == displays@,
    {
        DisplayRegistry { displays }
    }

    /// The enumerated displays, in the order in which they were reported.
    pub fn enumerate(&self) -> (displays: &Vec<Display<H>>)
        ensures
            displays@ == self@,
    {
        &self.displays
    }

    /// Finds the display that `id` names: the first one, in enumeration
    /// order, whose identifier is exactly `id`. More than one match is
    /// tolerated; none is `NotFound`.
    pub fn resolve(&self, id: u64) -> (r: Result<&Display<H>, DisplayError>)
        ensures
            r is Ok <==> has_display(self@, id),
            match r {
                Ok(display) => resolved(self@, id) == Ok::<Display<H>, DisplayError>(*display)
                    && exists|i: int| is_first_match(self@, id, i) && self@[i] == *display,
                Err(e) => resolved(self@, id) == Err::<Display<H>, DisplayError>(e),
            },
    {
        let mut i: usize = 0;
        while i < self.displays.len()
            invariant
                i <= self.displays.len(),
                forall|j: int| 0 <= j < i ==> (#[trigger] self.displays@[j]).external_id != id,
            decreases self.displays.len() - i,
        {
            if self.displays[i].external_id == id {
                proof {
                    assert(is_first_match(self@, id, i as int));
                    lemma_first_match_resolves(self@, id, i as int);
                }
                return Ok(&self.displays[i]);
            }
            i += 1;
        }
        Err(DisplayError::NotFound)
    }
}

/// Resolving succeeds exactly when some enumerated display has the
/// identifier, and what it gives then has that identifier.
pub proof fn lemma_resolve_exact_match<H>(displays: Seq<Display<H>>, id: u64)
    ensures
        resolved(displays, id) is Ok <==> has_display(displays, id),
        resolved(displays, id) matches Ok(display) ==> display.external_id == id
            && displays.contains(display),
        resolved(displays, id) matches Err(e) ==> e == DisplayError::NotFound,
{
    if has_display(displays, id) {
        let w = choose|i: int| 0 <= i < displays.len() && (#[trigger] displays[i]).external_id == id;
        lemma_first_match_exists(displays, id, w);
        let c = choose|c: int| is_first_match(displays, id, c);
        assert(displays[c] == displays[c]);
    }
}

/// Where the identifiers of the enumerated displays are all different, the
/// display that has the identifier is the one that resolving gives.
pub proof fn lemma_resolve_unique<H>(displays: Seq<Display<H>>, id: u64, i: int)
    requires
        0 <= i < displays.len(),
        displays[i].external_id == id,
        forall|a: int, b: int|
            0 <= a < b < displays.len() ==> (#[trigger] displays[a]).external_id != (
            #[trigger] displays[b]).external_id,
    ensures
        resolved(displays, id) == Ok::<Display<H>, DisplayError>(displays[i]),
{
    assert forall|j: int| 0 <= j < i implies (#[trigger] displays[j]).external_id != id by {
        assert(displays[j].external_id != displays[i].external_id);
    }
    lemma_first_match_resolves(displays, id, i);
}

proof fn lemma_first_match_exists<H>(displays: Seq<Display<H>>, id: u64, w: int)
    requires
        0 <= w < displays.len(),
        displays[w].external_id == id,
    ensures
        exists|i: int| is_first_match(displays, id, i),
    decreases w,
{
    if forall|j: int| 0 <= j < w ==> (#[trigger] displays[j]).external_id != id {
        assert(is_first_match(displays, id, w));
    } else {
        let j = choose|j: int| 0 <= j < w && (#[trigger] displays[j]).external_id == id;
        lemma_first_match_exists(displays, id, j);
    }
}

} // verus!
