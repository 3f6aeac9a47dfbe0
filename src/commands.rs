use vstd::prelude::*;

verus! {

/// The fewest object instances drawn per frame.
pub const MIN_INSTANCES: usize = 1;
/// The most object instances drawn per frame.
pub const MAX_INSTANCES: usize = 4;
/// Byte offset of the per-instance model transform in the push-constant block.
pub const PUSH_MODEL_OFFSET: u32 = 0;
/// Byte size of the per-instance model transform (a 4x4 matrix of 32-bit floats).
pub const PUSH_MODEL_SIZE: u32 = 64;
/// Byte offset of the per-instance opacity in the push-constant block.
pub const PUSH_OPACITY_OFFSET: u32 = 64;
/// Byte size of the per-instance opacity (one 32-bit float).
pub const PUSH_OPACITY_SIZE: u32 = 4;

/// The number of object instances drawn each frame, always within
/// `MIN_INSTANCES..=MAX_INSTANCES`.
#[derive(Clone, Copy, Debug, PartialEq, Eq, Structural)]
pub struct InstanceCount {
    pub count: usize,
}

impl InstanceCount {
    pub open spec fn wf(self) -> bool {
        MIN_INSTANCES <= self.count <= MAX_INSTANCES
    }

    /// One instance, the count a run starts with.
    pub fn new() -> (r: InstanceCount)
        ensures
            r.wf(),
            r.count == MIN_INSTANCES,
    {
        InstanceCount { count: MIN_INSTANCES }
    }

    /// Adds one instance unless the maximum is reached; returns whether it did.
    pub fn increase(&mut self) -> (accepted: bool)
        requires
            old(self).wf(),
        ensures
            final(self).wf(),
            accepted == (old(self).count < MAX_INSTANCES),
            final(self).count == if accepted { old(self).count + 1 } else { old(self).count as int },
    {
        if self.count < MAX_INSTANCES {
            self.count = self.count + 1;
            true
        } else {
            false
        }
    }

    /// Removes one instance unless only one is left; returns whether it did.
    pub fn decrease(&mut self) -> (accepted: bool)
        requires
            old(self).wf(),
        ensures
            final(self).wf(),
            accepted == (old(self).count > MIN_INSTANCES),
            final(self).count == if accepted { old(self).count - 1 } else { old(self).count as int },
    {
        if self.count > MIN_INSTANCES {
            self.count = self.count - 1;
            true
        } else {
            false
        }
    }
}

/// Where instance `index` is drawn and how opaque it is.
#[derive(Clone, Copy, Debug, PartialEq, Eq, Structural)]
pub struct InstanceLayout {
    /// Column of the two-column grid the instances fill.
    pub column: usize,
    /// Row of that grid.
    pub row: usize,
    /// Opacity in quarters: instance `i` has opacity `(i + 1) / 4`.
    pub opacity_quarters: usize,
}

/// The grid cell and opacity of instance `index`: instances fill a grid two
/// columns wide, row by row, and each is a quarter more opaque than the last.
pub fn instance_layout(index: usize) -> (r: InstanceLayout)
    requires
        index < MAX_INSTANCES,
    ensures
        r.column == index % 2,
        r.row == index / 2,
        r.opacity_quarters == index + 1,
{
    InstanceLayout { column: index % 2, row: index / 2, opacity_quarters: index + 1 }
}

/// The secondary command buffers, by swapchain image and then by instance.
/// Rows and entries are only ever added during a run, so a buffer once
/// allocated for an (image, instance) pair keeps serving it.
pub struct SecondaryCommandTable {
    rows: Vec<Vec<usize>>,
}

impl View for SecondaryCommandTable {
    type V = Seq<Seq<usize>>;

    closed spec fn view(&self) -> Seq<Seq<usize>> {
        Seq::new(self.rows@.len(), |i: int| self.rows@[i]@)
    }
}

impl SecondaryCommandTable {
    /// A table with one empty row per swapchain image.
    pub fn new(image_count: usize) -> (r: SecondaryCommandTable)
        ensures
            r@ == Seq::new(image_count as nat, |i: int| Seq::<usize>::empty()),
    {
        let mut rows: Vec<Vec<usize>> = Vec::new();
        let mut i: usize = 0;
        while i < image_count
            invariant
                i <= image_count,
                rows@.len() == i,
                forall|k: int| 0 <= k < i ==> (#[trigger] rows@[k])@.len() == 0,
            decreases image_count - i,
        {
            rows.push(Vec::new());
            i = i + 1;
        }
        let r = SecondaryCommandTable { rows };
        assert forall|k: int| 0 <= k < image_count implies #[trigger] r@[k] =~= Seq::<usize>::empty() by {
            assert(r.rows@[k]@.len() == 0);
        }
        assert(r@ =~= Seq::new(image_count as nat, |i: int| Seq::<usize>::empty()));
        r
    }

    /// The number of buffers held for image `image_index`.
    pub fn row_len(&self, image_index: usize) -> (r: usize)
        ensures
            r == if image_index < self@.len() { self@[image_index as int].len() } else { 0 },
    {
        if image_index < self.rows.len() {
            self.rows[image_index].len()
        } else {
            0
        }
    }

    /// How many buffers must still be allocated for image `image_index` so
    /// that `instances` of them exist.
    pub fn shortfall(&self, image_index: usize, instances: usize) -> (r: usize)
        ensures
            r == if image_index < self@.len() && self@[image_index as int].len() >= instances {
                0
            } else if image_index < self@.len() {
                (instances - self@[image_index as int].len()) as usize
            } else {
                instances
            },
    {
        let have = self.row_len(image_index);
        if have >= instances {
            0
        } else {
            instances - have
        }
    }

    /// Appends newly allocated buffers to the row of image `image_index`,
    /// adding empty rows first where the table is shorter; nothing already held
    /// moves or changes.
    pub fn extend(&mut self, image_index: usize, buffers: &Vec<usize>)
        requires
            image_index < usize::MAX,
        ensures
            final(self)@.len() == if image_index < old(self)@.len() { old(self)@.len() as int } else { image_index + 1 },
            final(self)@[image_index as int] == (if image_index < old(self)@.len() {
                old(self)@[image_index as int]
            } else {
                Seq::<usize>::empty()
            }) + buffers@,
            forall|i: int| 0 <= i < final(self)@.len() && i != image_index ==> #[trigger] final(self)@[i] == if i < old(self)@.len() {
                old(self)@[i]
            } else {
                Seq::<usize>::empty()
            },
    {
        while self.rows.len() <= image_index
            invariant
                old(self)@.len() <= self@.len(),
                self@.len() > old(self)@.len() ==> self@.len() <= image_index + 1,
                forall|i: int| 0 <= i < self@.len() ==> #[trigger] self@[i] == if i < old(self)@.len() {
                    old(self)@[i]
                } else {
                    Seq::<usize>::empty()
                },
            decreases image_index + 1 - self.rows.len(),
        {
            let ghost prev = self@;
            self.rows.push(Vec::new());
            assert(self@ =~= prev.push(Seq::<usize>::empty()));
        }
        let ghost before = self@[image_index as int];
        let mut row: Vec<usize> = Vec::new();
        let old_row = &self.rows[image_index];
        let have = old_row.len();
        let mut i: usize = 0;
        while i < have
            invariant
                i <= have,
                have == before.len(),
                before == old_row@,
                row@ == before.subrange(0, i as int),
            decreases have - i,
        {
            row.push(old_row[i]);
            assert(before.subrange(0, i + 1) =~= before.subrange(0, i as int).push(before[i as int]));
            i = i + 1;
        }
        let mut j: usize = 0;
        while j < buffers.len()
            invariant
                j <= buffers@.len(),
                row@ == before + buffers@.subrange(0, j as int),
            decreases buffers.len() - j,
        {
            row.push(buffers[j]);
            assert(buffers@.subrange(0, j + 1) =~= buffers@.subrange(0, j as int).push(buffers@[j as int]));
            j = j + 1;
        }
        assert(before.subrange(0, have as int) =~= before);
        assert(buffers@.subrange(0, buffers@.len() as int) =~= buffers@);
        let ghost mid = self@;
        self.rows.set(image_index, row);
        assert(self@ =~= mid.update(image_index as int, before + buffers@));
    }

    /// The buffers of image `image_index` for its first `instances` instances.
    pub fn buffers_for(&self, image_index: usize, instances: usize) -> (r: Vec<usize>)
        requires
            image_index < self@.len(),
            instances <= self@[image_index as int].len(),
        ensures
            r@ == self@[image_index as int].subrange(0, instances as int),
    {
        let row = &self.rows[image_index];
        let mut r: Vec<usize> = Vec::new();
        let mut i: usize = 0;
        while i < instances
            invariant
                i <= instances,
                instances <= row@.len(),
                row@ == self@[image_index as int],
                r@ == row@.subrange(0, i as int),
            decreases instances - i,
        {
            r.push(row[i]);
            assert(row@.subrange(0, i + 1) =~= row@.subrange(0, i as int).push(row@[i as int]));
            i = i + 1;
        }
        r
    }
}

} // verus!
