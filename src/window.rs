use vstd::arithmetic::div_mod::{lemma_fundamental_div_mod, lemma_fundamental_div_mod_converse};
use vstd::prelude::*;

use crate::naming::shm_name_of;
use crate::pool::BufferLayout;
use crate::redraw::{advance_cursor, next_cursor, write_offset, MOTIF_LEN};

verus! {

/// The buffer targeted after `current` in a rotation over `count` buffers.
pub open spec fn next_index(current: nat, count: nat) -> nat {
    if current + 1 >= count {
        0
    } else {
        current + 1
    }
}

/// One submission to the surface: attach buffer `buffer` after writing the
/// pattern at `offset` of its region, damage `width` by `height`, ask for a
/// frame callback, commit.
#[derive(Clone, Copy, Debug, PartialEq, Eq, Structural)]
pub struct Presentation {
    pub buffer: usize,
    pub offset: usize,
    pub width: i32,
    pub height: i32,
}

/// A window in numbers: the names of its buffers' segments, their geometry,
/// the buffer targeted, each buffer's animation cursor, and whether a frame
/// callback is pending.
pub struct WindowView {
    pub names: Seq<Seq<u8>>,
    pub layout: BufferLayout,
    pub current: nat,
    pub cursors: Seq<nat>,
    pub pending: bool,
}

impl WindowView {
    pub open spec fn count(self) -> nat {
        self.cursors.len()
    }

    pub open spec fn wf(self) -> bool {
        &&& 1 <= self.count() <= usize::MAX
        &&& self.names.len() == self.count()
        &&& self.current < self.count()
        &&& self.layout.wf()
        &&& forall|i: int| 0 <= i < self.count() ==> #[trigger] self.cursors[i] <= self.layout.region()
    }

    /// The window after one redraw: the next buffer in rotation is targeted,
    /// its cursor advances by the pattern's length, and a frame callback is
    /// pending.
    pub open spec fn redrawn(self) -> WindowView {
        let i = next_index(self.current, self.count());
        WindowView {
            current: i,
            cursors: self.cursors.update(
                i as int,
                next_cursor(self.cursors[i as int], self.layout.region(), MOTIF_LEN as nat),
            ),
            pending: true,
            ..self
        }
    }

    /// The window after `m` redraws.
    pub open spec fn redrawn_times(self, m: nat) -> WindowView
        decreases m,
    {
        if m == 0 {
            self
        } else {
            self.redrawn_times((m - 1) as nat).redrawn()
        }
    }

    /// The submission that presents the targeted buffer.
    pub open spec fn presentation(self) -> Presentation {
        Presentation {
            buffer: self.current as usize,
            offset: write_offset(self.cursors[self.current as int], self.layout.region()) as usize,
            width: self.layout.width,
            height: self.layout.height,
        }
    }
}

proof fn lemma_redrawn_wf(v: WindowView)
    requires
        v.wf(),
    ensures
        v.redrawn().wf(),
        v.redrawn().count() == v.count(),
{
    let i = next_index(v.current, v.count());
    let c = v.cursors[i as int];
    assert(next_cursor(c, v.layout.region(), MOTIF_LEN as nat) <= v.layout.region());
}

/// Redraws target the buffers in strict rotation: after `m` redraws the
/// targeted buffer is `(start + m) mod N`, and with two buffers or more no
/// redraw targets the buffer of the redraw just before.
pub proof fn lemma_round_robin(v: WindowView, m: nat)
    requires
        v.wf(),
    ensures
        v.redrawn_times(m).wf(),
        v.redrawn_times(m).count() == v.count(),
        v.redrawn_times(m).current == (v.current + m) % v.count(),
        v.count() >= 2 ==> v.redrawn_times(m + 1).current != v.redrawn_times(m).current,
    decreases m,
{
    let n = v.count() as int;
    if m == 0 {
        lemma_fundamental_div_mod_converse(v.current as int, n, 0, v.current as int);
    } else {
        lemma_round_robin(v, (m - 1) as nat);
        let before = v.redrawn_times((m - 1) as nat);
        lemma_redrawn_wf(before);
        let a = v.current + m - 1;
        lemma_fundamental_div_mod(a, n);
        let q = a / n;
        let r = a % n;
        assert(before.current == r);
        if r + 1 < n {
            assert(a + 1 == q * n + (r + 1)) by (nonlinear_arith)
                requires
                    a == n * q + r,
            ;
            lemma_fundamental_div_mod_converse(a + 1, n, q, r + 1);
        } else {
            assert(a + 1 == (q + 1) * n + 0) by (nonlinear_arith)
                requires
                    a == n * q + r,
                    r + 1 == n,
            ;
            lemma_fundamental_div_mod_converse(a + 1, n, q + 1, 0);
        }
    }
    let here = v.redrawn_times(m);
    lemma_redrawn_wf(here);
}

/// A window whose shared-memory buffers all exist, with the state of its
/// redraw cycle.
pub struct Window {
    names: Vec<Vec<u8>>,
    layout: BufferLayout,
    current: usize,
    cursors: Vec<usize>,
    pending: bool,
}

impl View for Window {
    type V = WindowView;

    closed spec fn view(&self) -> WindowView {
        WindowView {
            names: self.names@.map_values(|n: Vec<u8>| n@),
            layout: self.layout,
            current: self.current as nat,
            cursors: self.cursors@.map_values(|c: usize| c as nat),
            pending: self.pending,
        }
    }
}

impl Window {
    /// The window as a pool of `count` buffers named after `title` leaves it:
    /// the first buffer targeted, every cursor at the start, no callback.
    pub open spec fn initial(title: Seq<u8>, count: nat, layout: BufferLayout) -> WindowView {
        WindowView {
            names: Seq::new(count, |i: int| shm_name_of(title, i as nat)),
            layout,
            current: 0,
            cursors: Seq::new(count, |i: int| 0nat),
            pending: false,
        }
    }

    pub closed spec fn inv(&self) -> bool {
        &&& self@.wf()
        &&& self.cursors@.len() == self.names@.len()
    }

    pub(crate) fn new(names: Vec<Vec<u8>>, layout: BufferLayout, title: Ghost<Seq<u8>>) -> (w:
        Window)
        requires
            names@.len() >= 1,
            layout.wf(),
            forall|i: int|
                0 <= i < names@.len() ==> #[trigger] names@[i]@ == shm_name_of(title@, i as nat),
        ensures
            w.inv(),
            w@ == Window::initial(title@, names@.len(), layout),
    {
        let count = names.len();
        let mut cursors: Vec<usize> = Vec::new();
        let mut i: usize = 0;
        while i < count
            invariant
                count == names@.len(),
                i <= count,
                cursors@.len() == i,
                forall|j: int| 0 <= j < i ==> #[trigger] cursors@[j] == 0,
            decreases count - i,
        {
            cursors.push(0);
            i = i + 1;
        }
        let w = Window { names, layout, current: 0, cursors, pending: false };
        assert(w@.names =~= Window::initial(title@, count as nat, layout).names);
        assert(w@.cursors =~= Window::initial(title@, count as nat, layout).cursors);
        w
    }

    /// Number of buffers of the window.
    pub fn count(&self) -> (r: usize)
        requires
            self.inv(),
        ensures
            r == self@.count(),
    {
        self.cursors.len()
    }

    /// The buffer currently targeted.
    pub fn current(&self) -> (r: usize)
        ensures
            r == self@.current,
    {
        self.current
    }

    /// Whether a frame callback is pending.
    pub fn callback_pending(&self) -> (r: bool)
        ensures
            r == self@.pending,
    {
        self.pending
    }

    /// The animation cursor of buffer `index`.
    pub fn cursor(&self, index: usize) -> (r: usize)
        requires
            self.inv(),
            index < self@.count(),
        ensures
            r == self@.cursors[index as int],
    {
        self.cursors[index]
    }

    /// The geometry of the window's buffers.
    pub fn layout(&self) -> (r: BufferLayout)
        ensures
            r == self@.layout,
    {
        self.layout
    }

    /// The shared-memory name of buffer `index`.
    pub fn name(&self, index: usize) -> (r: &[u8])
        requires
            self.inv(),
            index < self@.count(),
        ensures
            r@ == self@.names[index as int],
    {
        self.names[index].as_slice()
    }

    /// One redraw: targets the next buffer in rotation, advances its cursor
    /// and returns the submission to make, with a frame callback pending.
    pub fn redraw(&mut self) -> (p: Presentation)
        requires
            old(self).inv(),
        ensures
            final(self).inv(),
            final(self)@ == old(self)@.redrawn(),
            p == final(self)@.presentation(),
    {
        proof {
            lemma_redrawn_wf(self@);
        }
        let count = self.cursors.len();
        let next: usize = if self.current + 1 >= count {
            0
        } else {
            self.current + 1
        };
        let region = self.layout.byte_len();
        assert(self@.cursors[next as int] == self.cursors@[next as int] as nat);
        let cursor = advance_cursor(self.cursors[next], region, MOTIF_LEN);
        self.cursors.set(next, cursor);
        self.current = next;
        self.pending = true;
        assert(self@.cursors =~= old(self)@.redrawn().cursors);
        let offset: usize = if cursor + MOTIF_LEN <= region {
            cursor
        } else {
            region - MOTIF_LEN
        };
        Presentation { buffer: next, offset, width: self.layout.width, height: self.layout.height }
    }

    /// A frame callback fired: the pending slot is cleared and the window is
    /// redrawn at once, which asks for the next callback.
    pub fn frame_done(&mut self) -> (p: Presentation)
        requires
            old(self).inv(),
        ensures
            final(self).inv(),
            final(self)@ == old(self)@.redrawn(),
            p == final(self)@.presentation(),
    {
        self.pending = false;
        assert(self@.redrawn() == old(self)@.redrawn());
        self.redraw()
    }

    /// Gives up the window, returning the shared-memory names of its buffers.
    pub fn into_names(self) -> (r: Vec<Vec<u8>>)
        requires
            self.inv(),
        ensures
            r@.len() == self@.names.len(),
            forall|i: int| 0 <= i < r@.len() ==> #[trigger] r@[i]@ == self@.names[i],
    {
        self.names
    }
}

} // verus!
