use vstd::prelude::*;

verus! {

pub type SegmentId = usize;

/// One segment as the contracts see it: its links in the forest and its
/// payload (a direction and a length).
pub struct SegmentRecord<D, L> {
    pub parent: Option<SegmentId>,
    pub first_child: Option<SegmentId>,
    pub next_sibling: Option<SegmentId>,
    pub direction: D,
    pub length: L,
}

/// The record a new root segment gets: no parent, no child, no sibling.
pub open spec fn root_record<D, L>(direction: D, length: L) -> SegmentRecord<D, L> {
    SegmentRecord { parent: None, first_child: None, next_sibling: None, direction, length }
}

/// The direction stored under `id`, or `None` when no segment has that id.
pub open spec fn direction_of<D, L>(segments: Seq<SegmentRecord<D, L>>, id: int) -> Option<D> {
    if 0 <= id < segments.len() {
        Some(segments[id].direction)
    } else {
        None
    }
}

/// The length stored under `id`, or `None` when no segment has that id.
pub open spec fn length_of<D, L>(segments: Seq<SegmentRecord<D, L>>, id: int) -> Option<L> {
    if 0 <= id < segments.len() {
        Some(segments[id].length)
    } else {
        None
    }
}

/// A link is either absent or names a segment that exists.
pub open spec fn link_in_range(link: Option<SegmentId>, count: nat) -> bool {
    match link {
        Some(j) => j < count,
        None => true,
    }
}

/// Every link of every segment names an existing segment.
pub open spec fn links_in_range<D, L>(segments: Seq<SegmentRecord<D, L>>) -> bool {
    forall|i: int|
        0 <= i < segments.len() ==> {
            &&& link_in_range(#[trigger] segments[i].parent, segments.len())
            &&& link_in_range(segments[i].first_child, segments.len())
            &&& link_in_range(segments[i].next_sibling, segments.len())
        }
}

/// Each segment is a piece of a growing plant: a roughly cylindrical cell
/// given by its direction and its length, linked to its parent, first child
/// and next sibling. The data is held as a structure of arrays, one vector
/// per field, all of the same length.
pub struct Segments<D, L> {
    parent: Vec<Option<SegmentId>>,
    first_child: Vec<Option<SegmentId>>,
    next_sibling: Vec<Option<SegmentId>>,
    direction: Vec<D>,
    length: Vec<L>,
}

impl<D, L> View for Segments<D, L> {
    type V = Seq<SegmentRecord<D, L>>;

    closed spec fn view(&self) -> Seq<SegmentRecord<D, L>> {
        Seq::new(
            self.direction@.len(),
            |i: int|
                SegmentRecord {
                    parent: self.parent@[i],
                    first_child: self.first_child@[i],
                    next_sibling: self.next_sibling@[i],
                    direction: self.direction@[i],
                    length: self.length@[i],
                },
        )
    }
}

impl<D, L> Segments<D, L> {
    /// The arrays have one entry per segment, and every link stays in range.
    pub closed spec fn wf(&self) -> bool {
        &&& self.parent@.len() == self.direction@.len()
        &&& self.first_child@.len() == self.direction@.len()
        &&& self.next_sibling@.len() == self.direction@.len()
        &&& self.length@.len() == self.direction@.len()
        &&& links_in_range(self@)
    }

    pub fn new() -> (segments: Self)
        ensures
            segments.wf(),
            segments@ == Seq::<SegmentRecord<D, L>>::empty(),
    {
        let segments = Self {
            parent: Vec::new(),
            first_child: Vec::new(),
            next_sibling: Vec::new(),
            direction: Vec::new(),
            length: Vec::new(),
        };
        assert(segments@ =~= Seq::<SegmentRecord<D, L>>::empty());
        segments
    }

    /// Adds a segment without parent, child or sibling and returns its id,
    /// which is the number of segments held before the call.
    pub fn push_root(&mut self, direction: D, length: L) -> (id: SegmentId)
        requires
            old(self).wf(),
        ensures
            final(self).wf(),
            id == old(self)@.len(),
            final(self)@ == old(self)@.push(root_record(direction, length)),
    {
        let id = self.direction.len();
        self.parent.push(None);
        self.first_child.push(None);
        self.next_sibling.push(None);
        self.direction.push(direction);
        self.length.push(length);
        assert(self@ =~= old(self)@.push(root_record(direction, length)));
        assert forall|i: int| 0 <= i < self@.len() implies {
            &&& link_in_range(#[trigger] self@[i].parent, self@.len())
            &&& link_in_range(self@[i].first_child, self@.len())
            &&& link_in_range(self@[i].next_sibling, self@.len())
        } by {
            if i < old(self)@.len() {
                assert(self@[i] == old(self)@[i]);
            }
        }
        id
    }
}

impl<D: Copy, L: Copy> Segments<D, L> {
    /// The direction of segment `id`, or `None` when there is no such segment.
    pub fn direction(&self, id: SegmentId) -> (d: Option<D>)
        requires
            self.wf(),
        ensures
            d == direction_of(self@, id as int),
    {
        if id < self.direction.len() {
            Some(self.direction[id])
        } else {
            None
        }
    }

    /// The length of segment `id`, or `None` when there is no such segment.
    pub fn length(&self, id: SegmentId) -> (l: Option<L>)
        requires
            self.wf(),
        ensures
            l == length_of(self@, id as int),
    {
        if id < self.length.len() {
            Some(self.length[id])
        } else {
            None
        }
    }
}

/// What a new root holds is read back under its id, and every other id
/// reads as before: adding a root to `segments` (whose next id is
/// `segments.len()`) makes that id answer with the new direction and
/// length, and leaves every other id's answer unchanged.
pub proof fn law_root_reads_back<D, L>(
    segments: Seq<SegmentRecord<D, L>>,
    direction: D,
    length: L,
    other: int,
)
    requires
        other != segments.len(),
    ensures
        direction_of(segments.push(root_record(direction, length)), segments.len() as int)
            == Some(direction),
        length_of(segments.push(root_record(direction, length)), segments.len() as int)
            == Some(length),
        direction_of(segments.push(root_record(direction, length)), other)
            == direction_of(segments, other),
        length_of(segments.push(root_record(direction, length)), other) == length_of(
            segments,
            other,
        ),
{
}

/// Adding a root keeps every link in range.
pub proof fn law_root_keeps_links<D, L>(segments: Seq<SegmentRecord<D, L>>, direction: D, length: L)
    requires
        links_in_range(segments),
    ensures
        links_in_range(segments.push(root_record(direction, length))),
{
    let pushed = segments.push(root_record(direction, length));
    assert forall|i: int| 0 <= i < pushed.len() implies {
        &&& link_in_range(#[trigger] pushed[i].parent, pushed.len())
        &&& link_in_range(pushed[i].first_child, pushed.len())
        &&& link_in_range(pushed[i].next_sibling, pushed.len())
    } by {
        if i < segments.len() {
            assert(pushed[i] == segments[i]);
        }
    }
}

} // verus!
