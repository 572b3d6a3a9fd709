use vstd::prelude::*;

use crate::error::BackendError;

verus! {

/// The descriptor flag that marks an adapter as a software-only device.
pub const ADAPTER_FLAG_SOFTWARE: u32 = 2;

/// What adapter enumeration reports about one adapter.
#[derive(Debug)]
pub struct AdapterInfo {
    /// The adapter's name as NUL-terminated UTF-16 code units.
    pub description: Vec<u16>,
    /// The descriptor flags.
    pub flags: u32,
}

/// An adapter with these flags is a physical (not software-only) device.
pub open spec fn is_hardware(flags: u32) -> bool {
    flags & ADAPTER_FLAG_SOFTWARE == 0
}

/// `i` is the first hardware adapter in platform order.
pub open spec fn is_first_hardware(adapters: Seq<AdapterInfo>, i: int) -> bool {
    &&& 0 <= i < adapters.len()
    &&& is_hardware(adapters[i].flags)
    &&& forall|j: int| 0 <= j < i ==> !is_hardware(#[trigger] adapters[j].flags)
}

/// No enumerated adapter is a hardware device.
pub open spec fn no_hardware(adapters: Seq<AdapterInfo>) -> bool {
    forall|j: int| 0 <= j < adapters.len() ==> !is_hardware(#[trigger] adapters[j].flags)
}

/// Picks the first adapter, in platform-reported order, that is not a
/// software-only device. There is no fallback to a software device.
pub fn select_adapter(adapters: &Vec<AdapterInfo>) -> (r: Result<usize, BackendError>)
    ensures
        r matches Ok(i) ==> is_first_hardware(adapters@, i as int),
        r matches Err(e) ==> e == BackendError::AdapterNotFound && no_hardware(adapters@),
{
    let mut i: usize = 0;
    while i < adapters.len()
        invariant
            0 <= i <= adapters@.len(),
            forall|j: int| 0 <= j < i ==> !is_hardware(#[trigger] adapters@[j].flags),
        decreases adapters@.len() - i,
    {
        if adapters[i].flags & ADAPTER_FLAG_SOFTWARE == 0 {
            return Ok(i);
        }
        i = i + 1;
    }
    Err(BackendError::AdapterNotFound)
}

/// The code units before the first NUL (all of them when there is none).
pub open spec fn before_nul(units: Seq<u16>) -> Seq<u16>
    decreases units.len(),
{
    if units.len() == 0 || units[0] == 0 {
        Seq::empty()
    } else {
        seq![units[0]] + before_nul(units.drop_first())
    }
}

proof fn lemma_before_nul_prefix(units: Seq<u16>, k: int)
    requires
        0 <= k <= units.len(),
        forall|j: int| 0 <= j < k ==> units[j] != 0,
        k == units.len() || units[k] == 0,
    ensures
        before_nul(units) == units.subrange(0, k),
    decreases k,
{
    if k == 0 {
        assert(units.subrange(0, 0) =~= Seq::<u16>::empty());
    } else {
        let rest = units.drop_first();
        assert forall|j: int| 0 <= j < k - 1 implies rest[j] != 0 by {
            assert(rest[j] == units[j + 1]);
        }
        lemma_before_nul_prefix(rest, k - 1);
        assert(seq![units[0]] + rest.subrange(0, k - 1) =~= units.subrange(0, k));
    }
}

/// What decoding UTF-16 with replacement of invalid sequences yields.
pub uninterp spec fn utf16_lossy(units: Seq<u16>) -> Seq<char>;

/// Relies on `String::from_utf16_lossy`: decodes the code units, putting
/// U+FFFD in place of each unpaired surrogate. The result depends on the code
/// units alone, and no code units decode to the empty string.
#[verifier::external_body]
fn decode_utf16_lossy(units: &Vec<u16>) -> (r: String)
    ensures
        r@ == utf16_lossy(units@),
        units@.len() == 0 ==> r@.len() == 0,
{
    String::from_utf16_lossy(units)
}

/// The adapter name held in a NUL-terminated UTF-16 description field.
pub fn dxgi_desc_to_string(desc: &Vec<u16>) -> (r: String)
    ensures
        r@ == utf16_lossy(before_nul(desc@)),
{
    let mut text: Vec<u16> = Vec::new();
    let mut i: usize = 0;
    while i < desc.len() && desc[i] != 0
        invariant
            0 <= i <= desc@.len(),
            text@ == desc@.subrange(0, i as int),
            forall|j: int| 0 <= j < i ==> desc@[j] != 0,
        decreases desc@.len() - i,
    {
        text.push(desc[i]);
        i = i + 1;
        assert(text@ =~= desc@.subrange(0, i as int));
    }
    proof {
        lemma_before_nul_prefix(desc@, i as int);
    }
    decode_utf16_lossy(&text)
}

/// The success test of a status code: negative codes are failures, and the
/// failing code is handed back.
pub fn throw_if_failed(hr: i32) -> (r: Result<(), i32>)
    ensures
        hr < 0 ==> r == Err::<(), i32>(hr),
        hr >= 0 ==> r == Ok::<(), i32>(()),
{
    if hr < 0 {
        Err(hr)
    } else {
        Ok(())
    }
}

/// The logical device: bound to one hardware adapter and owning the single
/// direct submission queue. A value exists only when adapter selection
/// succeeded, so nothing downstream can be built without it.
pub struct GraphicsDevice {
    adapter: usize,
}

impl GraphicsDevice {
    /// The index of the adapter the device is bound to.
    pub closed spec fn adapter_spec(&self) -> int {
        self.adapter as int
    }

    /// Selects the adapter and creates the device on it; fails with
    /// `AdapterNotFound`, and creates nothing, when no adapter qualifies.
    pub fn create(adapters: &Vec<AdapterInfo>) -> (r: Result<GraphicsDevice, BackendError>)
        ensures
            r matches Ok(d) ==> is_first_hardware(adapters@, d.adapter_spec()),
            r matches Err(e) ==> e == BackendError::AdapterNotFound && no_hardware(adapters@),
    {
        match select_adapter(adapters) {
            Ok(adapter) => Ok(GraphicsDevice { adapter }),
            Err(e) => Err(e),
        }
    }

    pub fn adapter_index(&self) -> (r: usize)
        ensures
            r == self.adapter_spec(),
    {
        self.adapter
    }
}

} // verus!
