use vstd::prelude::*;

use crate::naming::{shm_name, shm_name_of};
use crate::redraw::MOTIF_LEN;
use crate::window::Window;

verus! {

/// Dimensions that a pool can be made for: positive, with a byte size
/// (four bytes a pixel) that the compositor's signed 32-bit sizes can carry
/// and that leaves room for the redraw pattern.
pub open spec fn valid_layout(width: int, height: int) -> bool {
    &&& 0 < width
    &&& 0 < height
    &&& width * height * 4 <= i32::MAX
    &&& width * height * 4 >= MOTIF_LEN
}

/// Geometry of the pixel buffers of a pool: packed, four bytes a pixel.
#[derive(Clone, Copy, Debug, PartialEq, Eq, Structural)]
pub struct BufferLayout {
    pub width: i32,
    pub height: i32,
}

impl BufferLayout {
    pub open spec fn wf(&self) -> bool {
        valid_layout(self.width as int, self.height as int)
    }

    /// Size in bytes of one buffer.
    pub open spec fn region(&self) -> nat {
        (self.width * self.height * 4) as nat
    }

    /// The layout for `width` by `height` pixels, if those are valid.
    pub fn new(width: i32, height: i32) -> (r: Option<BufferLayout>)
        ensures
            r is Some <==> valid_layout(width as int, height as int),
            r matches Some(l) ==> l.width == width && l.height == height,
    {
        if width <= 0 || height <= 0 {
            return None;
        }
        assert((width as int) * (height as int) <= 0x7fff_ffff * 0x7fff_ffff) by (nonlinear_arith)
            requires
                0 < width <= 0x7fff_ffff,
                0 < height <= 0x7fff_ffff,
        ;
        let area: i64 = (width as i64) * (height as i64);
        if area > 0x7fff_ffff {
            return None;
        }
        let size: i64 = area * 4;
        if size > 0x7fff_ffff || size < MOTIF_LEN as i64 {
            return None;
        }
        Some(BufferLayout { width, height })
    }

    /// Bytes from one row of pixels to the next.
    pub fn stride(&self) -> (r: i32)
        requires
            self.wf(),
        ensures
            r == self.width * 4,
    {
        assert(self.width * 4 <= self.width * self.height * 4) by (nonlinear_arith)
            requires
                self.height >= 1,
                self.width >= 1,
        ;
        self.width * 4
    }

    /// Size in bytes of one buffer, as the compositor takes it.
    pub fn size(&self) -> (r: i32)
        requires
            self.wf(),
        ensures
            r == self.region(),
    {
        assert(self.width * self.height <= self.width * self.height * 4) by (nonlinear_arith)
            requires
                self.height >= 1,
                self.width >= 1,
        ;
        self.width * self.height * 4
    }

    /// Size in bytes of one buffer, as memory is indexed.
    pub fn byte_len(&self) -> (r: usize)
        requires
            self.wf(),
        ensures
            r == self.region(),
    {
        self.size() as usize
    }
}

/// What the creation of a pool's shared-memory segments has reached, in
/// numbers: segments `[0, created)` were opened; after a failure the pool
/// unwinds, and segments `[0, unlinked)` have been unlinked again.
pub struct PoolModel {
    pub count: nat,
    pub created: nat,
    pub failed: bool,
    pub unlinked: nat,
}

/// What the caller is to do next while a pool is made.
#[derive(Clone, Copy, Debug, PartialEq, Eq, Structural)]
pub enum PoolStep {
    /// Open, size and map the segment with this ordinal.
    Create(usize),
    /// Unlink the segment with this ordinal.
    Unlink(usize),
    /// Every segment exists: the pool is made.
    Complete,
    /// A segment failed and every segment opened before has been unlinked.
    Abandoned,
}

impl PoolModel {
    pub open spec fn start(count: nat) -> PoolModel {
        PoolModel { count, created: 0, failed: false, unlinked: 0 }
    }

    pub open spec fn wf(self) -> bool {
        &&& self.count >= 1
        &&& self.created <= self.count
        &&& self.unlinked <= self.created
        &&& !self.failed ==> self.unlinked == 0
    }

    /// Ordinals of the segments that exist system-wide.
    pub open spec fn live(self) -> Set<nat> {
        Set::new(|i: nat| self.unlinked <= i < self.created)
    }

    pub open spec fn step(self) -> PoolStep {
        if !self.failed {
            if self.created < self.count {
                PoolStep::Create(self.created as usize)
            } else {
                PoolStep::Complete
            }
        } else if self.unlinked < self.created {
            PoolStep::Unlink(self.unlinked as usize)
        } else {
            PoolStep::Abandoned
        }
    }

    /// The segment asked for was opened, sized and mapped.
    pub open spec fn after_created(self) -> PoolModel {
        PoolModel { created: self.created + 1, ..self }
    }

    /// The segment asked for failed; `opened` says whether its name was
    /// made before the failure, so that it has to be unlinked too.
    pub open spec fn after_failed(self, opened: bool) -> PoolModel {
        PoolModel {
            created: if opened {
                self.created + 1
            } else {
                self.created
            },
            failed: true,
            ..self
        }
    }

    /// The segment asked for was unlinked.
    pub open spec fn after_unlinked(self) -> PoolModel {
        PoolModel { unlinked: self.unlinked + 1, ..self }
    }

    /// `k` segments created in a row.
    pub open spec fn created_times(self, k: nat) -> PoolModel
        decreases k,
    {
        if k == 0 {
            self
        } else {
            self.created_times((k - 1) as nat).after_created()
        }
    }

    /// `j` segments unlinked in a row.
    pub open spec fn unlinked_times(self, j: nat) -> PoolModel
        decreases j,
    {
        if j == 0 {
            self
        } else {
            self.unlinked_times((j - 1) as nat).after_unlinked()
        }
    }
}

proof fn lemma_created_times(m: PoolModel, k: nat)
    ensures
        m.created_times(k) == (PoolModel { created: m.created + k, ..m }),
    decreases k,
{
    if k > 0 {
        lemma_created_times(m, (k - 1) as nat);
    }
}

proof fn lemma_unlinked_times(m: PoolModel, j: nat)
    ensures
        m.unlinked_times(j) == (PoolModel { unlinked: m.unlinked + j, ..m }),
    decreases j,
{
    if j > 0 {
        lemma_unlinked_times(m, (j - 1) as nat);
    }
}

/// A pool whose segment with ordinal `k` fails, after the `k` before it were
/// created, asks for exactly one unlink of each segment that was opened, each
/// step on the way being the one it asked for, and then no segment of it is
/// left.
pub proof fn lemma_failed_pool_leaves_nothing(count: nat, k: nat, opened: bool)
    requires
        k < count,
    ensures
        ({
            let before = PoolModel::start(count).created_times(k);
            let failed = before.after_failed(opened);
            let end = failed.unlinked_times(failed.created);
            &&& forall|i: nat| i < k ==> PoolModel::start(count).created_times(i).step()
                == PoolStep::Create(i as usize)
            &&& before.step() == PoolStep::Create(k as usize)
            &&& forall|j: nat| j < failed.created ==> #[trigger] failed.unlinked_times(j).step()
                == PoolStep::Unlink(j as usize)
            &&& end.step() == PoolStep::Abandoned
            &&& end.live() == Set::<nat>::empty()
        }),
{
    let start = PoolModel::start(count);
    lemma_created_times(start, k);
    let before = start.created_times(k);
    let failed = before.after_failed(opened);
    assert forall|i: nat| i < k implies start.created_times(i).step() == PoolStep::Create(
        i as usize,
    ) by {
        lemma_created_times(start, i);
    }
    assert forall|j: nat| j < failed.created implies #[trigger] failed.unlinked_times(j).step()
        == PoolStep::Unlink(j as usize) by {
        lemma_unlinked_times(failed, j);
    }
    lemma_unlinked_times(failed, failed.created);
    let end = failed.unlinked_times(failed.created);
    assert(end.live() =~= Set::<nat>::empty());
}

/// Makes the shared-memory segments of a pool, all or none: the caller asks
/// `next_step`, does it, and reports how it went.
pub struct PoolBuilder {
    layout: BufferLayout,
    names: Vec<Vec<u8>>,
    created: usize,
    failed: bool,
    unlinked: usize,
    title: Ghost<Seq<u8>>,
}

impl View for PoolBuilder {
    type V = PoolModel;

    closed spec fn view(&self) -> PoolModel {
        PoolModel {
            count: self.names@.len(),
            created: self.created as nat,
            failed: self.failed,
            unlinked: self.unlinked as nat,
        }
    }
}

impl PoolBuilder {
    /// The builder is consistent: its numbers are in range, and it holds the
    /// name of each of its segments.
    pub closed spec fn inv(&self) -> bool {
        &&& self@.wf()
        &&& self.names@.len() <= usize::MAX
        &&& self.layout.wf()
        &&& forall|i: int|
            0 <= i < self.names@.len() ==> #[trigger] self.names@[i]@ == shm_name_of(
                self.title@,
                i as nat,
            )
    }

    /// The title the segments are named after.
    pub closed spec fn title(&self) -> Seq<u8> {
        self.title@
    }

    pub closed spec fn spec_layout(&self) -> BufferLayout {
        self.layout
    }

    /// A builder for `count` segments named after `title`, none made yet.
    pub fn new(title: &[u8], layout: BufferLayout, count: usize) -> (r: PoolBuilder)
        requires
            count >= 1,
            layout.wf(),
        ensures
            r.inv(),
            r@ == PoolModel::start(count as nat),
            r.title() == title@,
            r.spec_layout() == layout,
    {
        let mut names: Vec<Vec<u8>> = Vec::new();
        let mut i: usize = 0;
        while i < count
            invariant
                i <= count,
                names@.len() == i,
                forall|j: int|
                    0 <= j < i ==> #[trigger] names@[j]@ == shm_name_of(title@, j as nat),
            decreases count - i,
        {
            names.push(shm_name(title, i));
            i = i + 1;
        }
        PoolBuilder { layout, names, created: 0, failed: false, unlinked: 0, title: Ghost(title@) }
    }

    /// The geometry of every buffer of the pool.
    pub fn layout(&self) -> (r: BufferLayout)
        ensures
            r == self.spec_layout(),
    {
        self.layout
    }

    /// Number of segments of the pool.
    pub fn count(&self) -> (r: usize)
        ensures
            r == self@.count,
    {
        self.names.len()
    }

    /// The shared-memory name of the segment with ordinal `index`.
    pub fn name(&self, index: usize) -> (r: &[u8])
        requires
            self.inv(),
            index < self@.count,
        ensures
            r@ == shm_name_of(self.title(), index as nat),
    {
        self.names[index].as_slice()
    }

    /// What to do next.
    pub fn next_step(&self) -> (r: PoolStep)
        requires
            self.inv(),
        ensures
            r == self@.step(),
    {
        if !self.failed {
            if self.created < self.names.len() {
                PoolStep::Create(self.created)
            } else {
                PoolStep::Complete
            }
        } else if self.unlinked < self.created {
            PoolStep::Unlink(self.unlinked)
        } else {
            PoolStep::Abandoned
        }
    }

    /// Reports that the segment asked for by `Create` exists.
    pub fn segment_created(&mut self)
        requires
            old(self).inv(),
            old(self)@.step() is Create,
        ensures
            final(self).inv(),
            final(self)@ == old(self)@.after_created(),
            final(self).title() == old(self).title(),
            final(self).spec_layout() == old(self).spec_layout(),
    {
        self.created = self.created + 1;
    }

    /// Reports that the segment asked for by `Create` failed; `opened` says
    /// whether its name was made before the failure.
    pub fn segment_failed(&mut self, opened: bool)
        requires
            old(self).inv(),
            old(self)@.step() is Create,
        ensures
            final(self).inv(),
            final(self)@ == old(self)@.after_failed(opened),
            final(self).title() == old(self).title(),
            final(self).spec_layout() == old(self).spec_layout(),
    {
        if opened {
            self.created = self.created + 1;
        }
        self.failed = true;
    }

    /// Reports that the segment asked for by `Unlink` was unlinked.
    pub fn segment_unlinked(&mut self)
        requires
            old(self).inv(),
            old(self)@.step() is Unlink,
        ensures
            final(self).inv(),
            final(self)@ == old(self)@.after_unlinked(),
            final(self).title() == old(self).title(),
            final(self).spec_layout() == old(self).spec_layout(),
    {
        self.unlinked = self.unlinked + 1;
    }

    /// The window that presents the pool's buffers, once every segment exists.
    pub fn finish(self) -> (w: Window)
        requires
            self.inv(),
            self@.step() == PoolStep::Complete,
        ensures
            w.inv(),
            w@ == Window::initial(self.title(), self@.count, self.spec_layout()),
    {
        Window::new(self.names, self.layout, Ghost(self.title@))
    }
}

} // verus!
