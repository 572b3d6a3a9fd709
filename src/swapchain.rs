use vstd::prelude::*;
use vstd::arithmetic::div_mod::{lemma_mod_equivalence, lemma_small_mod};

use crate::device::GraphicsDevice;
use crate::error::BackendError;

verus! {

/// The most back buffers a swap chain can have.
pub const MAX_FRAME_COUNT: u32 = 16;

/// Presentation is always tied to vertical sync.
pub const SYNC_INTERVAL: u32 = 1;

/// The current index after one present: the engine's report when the present
/// succeeded with an index inside the ring, otherwise the index as it was.
pub open spec fn present_step(frame_count: nat, current: nat, reported: Option<u32>) -> nat {
    match reported {
        Some(i) => if (i as nat) < frame_count {
            i as nat
        } else {
            current
        },
        None => current,
    }
}

/// The current index after a sequence of presents, one report per present.
pub open spec fn index_after(frame_count: nat, start: nat, reports: Seq<Option<u32>>) -> nat
    decreases reports.len(),
{
    if reports.len() == 0 {
        start
    } else {
        present_step(frame_count, index_after(frame_count, start, reports.drop_last()), reports.last())
    }
}

/// The fixed-size ring of back buffers and the one that is current.
pub struct SwapchainRing {
    frame_count: u32,
    current: u32,
    width: u32,
    height: u32,
}

impl SwapchainRing {

    pub closed spec fn frame_count_spec(&self) -> nat {
        self.frame_count as nat
    }

    pub closed spec fn current_spec(&self) -> nat {
        self.current as nat
    }

    pub closed spec fn width_spec(&self) -> u32 {
        self.width
    }

    pub closed spec fn height_spec(&self) -> u32 {
        self.height
    }

    /// At least one buffer, and the current one inside the ring.
    #[verifier::type_invariant]
    pub open spec fn in_ring(&self) -> bool {
        &&& 1 <= self.frame_count_spec() <= MAX_FRAME_COUNT
        &&& self.current_spec() < self.frame_count_spec()
    }

    /// Associates the surface with `frame_count` back buffers, taking as
    /// current the index the presentation engine reported after creation.
    /// A ring of no buffers, of more than the platform allows, or a reported
    /// index outside the ring is a failed creation.
    pub fn create(
        device: &GraphicsDevice,
        width: u32,
        height: u32,
        frame_count: u32,
        reported_index: u32,
    ) -> (r: Result<SwapchainRing, BackendError>)
        ensures
            r is Ok <==> 1 <= frame_count <= MAX_FRAME_COUNT && reported_index < frame_count,
            r matches Ok(s) ==> {
                &&& s.frame_count_spec() == frame_count
                &&& s.current_spec() == reported_index
                &&& s.width_spec() == width
                &&& s.height_spec() == height
            },
            r matches Err(e) ==> e == BackendError::SwapchainCreationFailed,
    {
        if frame_count == 0 || frame_count > MAX_FRAME_COUNT || reported_index >= frame_count {
            Err(BackendError::SwapchainCreationFailed)
        } else {
            Ok(SwapchainRing { frame_count, current: reported_index, width, height })
        }
    }

    pub fn frame_count(&self) -> (r: u32)
        ensures
            r == self.frame_count_spec(),
    {
        self.frame_count
    }

    /// The index of the back buffer to render into; valid until the next
    /// present.
    pub fn current_back_buffer(&self) -> (r: u32)
        ensures
            r == self.current_spec(),
            r < self.frame_count_spec(),
    {
        proof {
            use_type_invariant(self);
        }
        self.current
    }

    pub fn width(&self) -> (r: u32)
        ensures
            r == self.width_spec(),
    {
        self.width
    }

    pub fn height(&self) -> (r: u32)
        ensures
            r == self.height_spec(),
    {
        self.height
    }

    /// Takes the outcome of presenting the current buffer: `Some` with the
    /// engine's next index when the present succeeded, `None` when it failed.
    /// A success moves the ring to the reported index; a failure, or an index
    /// outside the ring, leaves it where it was and reports `PresentFailed`.
    pub fn present(&mut self, reported: Option<u32>) -> (r: Result<(), BackendError>)
        ensures
            final(self).frame_count_spec() == old(self).frame_count_spec(),
            final(self).width_spec() == old(self).width_spec(),
            final(self).height_spec() == old(self).height_spec(),
            final(self).current_spec() == present_step(
                old(self).frame_count_spec(),
                old(self).current_spec(),
                reported,
            ),
            r is Ok <==> (reported matches Some(i) && (i as nat) < old(self).frame_count_spec()),
            r matches Err(e) ==> e == BackendError::PresentFailed,
    {
        proof {
            use_type_invariant(&*self);
        }
        match reported {
            Some(i) => {
                if i < self.frame_count {
                    self.current = i;
                    Ok(())
                } else {
                    Err(BackendError::PresentFailed)
                }
            },
            None => Err(BackendError::PresentFailed),
        }
    }
}

/// Whatever the presentation engine reports, the current index stays inside
/// the ring after every present of any sequence.
pub proof fn lemma_index_stays_in_ring(frame_count: nat, start: nat, reports: Seq<Option<u32>>)
    requires
        start < frame_count,
    ensures
        index_after(frame_count, start, reports) < frame_count,
    decreases reports.len(),
{
    if reports.len() > 0 {
        lemma_index_stays_in_ring(frame_count, start, reports.drop_last());
    }
}

/// The reports of an engine that hands the buffers out in turn, starting
/// after `start`.
pub open spec fn rotating_reports(frame_count: nat, start: nat, n: nat) -> Seq<Option<u32>> {
    Seq::new(n, |k: int| Some(((start as int + k + 1) % (frame_count as int)) as u32))
}

/// With an engine that hands the buffers out in turn and a ring of two or
/// more buffers, every present moves the current index to a different
/// buffer, so it never stays put for `frame_count` presents.
pub proof fn lemma_rotating_engine_changes_index(frame_count: nat, start: nat, n: nat, k: nat)
    requires
        2 <= frame_count <= u32::MAX,
        start < frame_count,
        k < n,
    ensures
        index_after(frame_count, start, rotating_reports(frame_count, start, n).take(k as int))
            == (start + k) % frame_count,
        index_after(frame_count, start, rotating_reports(frame_count, start, n).take(k + 1 as int))
            != index_after(frame_count, start, rotating_reports(frame_count, start, n).take(k as int)),
{
    let m = frame_count as int;
    lemma_index_after_rotating(frame_count, start, n, k);
    lemma_index_after_rotating(frame_count, start, n, k + 1);
    let a = (start + k) as int;
    if a % m == (a + 1) % m {
        lemma_mod_equivalence(a + 1, a, m);
        lemma_small_mod(1, frame_count);
    }
}

proof fn lemma_index_after_rotating(frame_count: nat, start: nat, n: nat, k: nat)
    requires
        2 <= frame_count <= u32::MAX,
        start < frame_count,
        k <= n,
    ensures
        index_after(frame_count, start, rotating_reports(frame_count, start, n).take(k as int))
            == (start + k) % frame_count,
{
    let m = frame_count as int;
    let reports = rotating_reports(frame_count, start, n);
    if k == 0 {
        lemma_small_mod(start, frame_count);
    } else {
        let prefix = reports.take(k as int);
        assert(prefix.drop_last() =~= reports.take(k - 1));
        let v = (start as int + (k - 1) + 1) % m;
        assert(0 <= v < m);
        assert(prefix.last() == Some(v as u32));
    }
}

} // verus!
