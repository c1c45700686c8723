//! The patch store kept in flash: sixteen patches, laid out one after the
//! other as the flash holds them.

use vstd::prelude::*;

use super::patch::{is_default_patch, Patch, PARAM_COUNT, PATCH_NAME_SIZE};

verus! {

broadcast use vstd::array::group_array_axioms;

/// The number of patches in the store.
pub const MAX_PATCHES: usize = 16;

/// The number of bytes a patch takes in flash: its name, then each parameter
/// in four bytes, least significant byte first.
pub const PATCH_BYTES: usize = 96;

/// The number of bytes the whole store takes in flash.
pub const STORE_BYTES: usize = 1536;

/// The four bytes of `v`, least significant first.
pub open spec fn le_bytes(v: u32) -> Seq<u8> {
    seq![(v & 0xff) as u8, ((v >> 8) & 0xff) as u8, ((v >> 16) & 0xff) as u8, ((v >> 24) & 0xff) as u8]
}

/// The 32-bit value whose bytes, least significant first, start at `at`.
pub open spec fn le_value(bytes: Seq<u8>, at: int) -> u32 {
    (bytes[at] as u32) | ((bytes[at + 1] as u32) << 8u32) | ((bytes[at + 2] as u32) << 16u32) | ((bytes[at + 3] as u32) << 24u32)
}

/// The bytes of the parameters, in order.
pub open spec fn params_bytes(params: Seq<u32>) -> Seq<u8>
    decreases params.len(),
{
    if params.len() == 0 {
        Seq::empty()
    } else {
        params_bytes(params.drop_last()) + le_bytes(params.last())
    }
}

/// The bytes of a patch in flash.
pub open spec fn patch_bytes(p: Patch) -> Seq<u8> {
    p.name@ + params_bytes(p.elements_params@)
}

/// The bytes of a list of patches in flash, one after the other.
pub open spec fn store_bytes(patches: Seq<Patch>) -> Seq<u8>
    decreases patches.len(),
{
    if patches.len() == 0 {
        Seq::empty()
    } else {
        store_bytes(patches.drop_last()) + patch_bytes(patches.last())
    }
}

/// `p` is the patch whose bytes in flash start `bytes`.
pub open spec fn is_patch_of(p: Patch, bytes: Seq<u8>) -> bool {
    &&& p.name@ == bytes.subrange(0, PATCH_NAME_SIZE as int)
    &&& forall|k: int| 0 <= k < PARAM_COUNT ==> #[trigger] p.elements_params@[k] == le_value(bytes, 8 + 4 * k)
}

/// `p` is the patch loaded from the flash bytes `bytes`: a patch whose name
/// starts with the byte of erased flash, 0xff, was never written, and the
/// initial patch takes its place.
pub open spec fn loaded_patch(p: Patch, bytes: Seq<u8>) -> bool {
    if bytes[0] == 0xff {
        is_default_patch(p)
    } else {
        is_patch_of(p, bytes)
    }
}

/// `patches` is the store loaded from the flash image `image`.
pub open spec fn loaded_store(patches: Seq<Patch>, image: Seq<u8>) -> bool {
    &&& patches.len() == MAX_PATCHES
    &&& forall|i: int| 0 <= i < MAX_PATCHES ==> loaded_patch(#[trigger] patches[i], image.subrange(96 * i, 96 * i + 96))
}

/// Reads the patch whose bytes start at `at`.
fn read_patch(image: &[u8], at: usize) -> (p: Patch)
    requires
        at + PATCH_BYTES <= image@.len(),
    ensures
        is_patch_of(p, image@.subrange(at as int, at + PATCH_BYTES)),
{
    let len = image.len();
    let mut name = [0u8; 8];
    let mut j: usize = 0;
    while j < PATCH_NAME_SIZE
        invariant
            j <= PATCH_NAME_SIZE,
            at + PATCH_BYTES <= image@.len(),
            len == image@.len(),
            forall|jj: int| 0 <= jj < j ==> #[trigger] name@[jj] == image@[at + jj],
        decreases PATCH_NAME_SIZE - j,
    {
        name[j] = image[at + j];
        j = j + 1;
    }
    let mut params = [0u32; 22];
    let mut k: usize = 0;
    while k < PARAM_COUNT
        invariant
            k <= PARAM_COUNT,
            at + PATCH_BYTES <= image@.len(),
            len == image@.len(),
            forall|kk: int| 0 <= kk < k ==> #[trigger] params@[kk] == le_value(image@, at + 8 + 4 * kk),
        decreases PARAM_COUNT - k,
    {
        let o = at + 8 + 4 * k;
        params[k] = (image[o] as u32) | ((image[o + 1] as u32) << 8u32) | ((image[o + 2] as u32) << 16u32) | ((image[o + 3] as u32) << 24u32);
        k = k + 1;
    }
    let p = Patch { name, elements_params: params };
    let ghost bytes = image@.subrange(at as int, at + PATCH_BYTES);
    assert(p.name@ =~= bytes.subrange(0, PATCH_NAME_SIZE as int));
    assert forall|kk: int| 0 <= kk < PARAM_COUNT implies #[trigger] p.elements_params@[kk] == le_value(bytes, 8 + 4 * kk) by {
        assert(bytes[8 + 4 * kk] == image@[at + 8 + 4 * kk]);
        assert(bytes[8 + 4 * kk + 1] == image@[at + 8 + 4 * kk + 1]);
        assert(bytes[8 + 4 * kk + 2] == image@[at + 8 + 4 * kk + 2]);
        assert(bytes[8 + 4 * kk + 3] == image@[at + 8 + 4 * kk + 3]);
    }
    p
}

/// Appends the bytes of `p` to `out`.
fn write_patch(out: &mut Vec<u8>, p: &Patch)
    ensures
        final(out)@ == old(out)@ + patch_bytes(*p),
{
    let mut j: usize = 0;
    while j < PATCH_NAME_SIZE
        invariant
            j <= PATCH_NAME_SIZE,
            out@ == old(out)@ + p.name@.take(j as int),
        decreases PATCH_NAME_SIZE - j,
    {
        out.push(p.name[j]);
        assert(p.name@.take(j as int + 1) == p.name@.take(j as int).push(p.name@[j as int]));
        j = j + 1;
    }
    assert(p.name@.take(8) == p.name@);
    let mut k: usize = 0;
    while k < PARAM_COUNT
        invariant
            k <= PARAM_COUNT,
            out@ == old(out)@ + p.name@ + params_bytes(p.elements_params@.take(k as int)),
        decreases PARAM_COUNT - k,
    {
        let v = p.elements_params[k];
        out.push((v & 0xff) as u8);
        out.push(((v >> 8u32) & 0xff) as u8);
        out.push(((v >> 16u32) & 0xff) as u8);
        out.push(((v >> 24u32) & 0xff) as u8);
        assert(p.elements_params@.take(k as int + 1).drop_last() == p.elements_params@.take(k as int));
        k = k + 1;
    }
    assert(p.elements_params@.take(22) == p.elements_params@);
}

/// The patch store.
pub struct Storage {
    patches: [Patch; 16],
}

impl Storage {
    /// The patches, by their place in the store.
    pub closed spec fn patches(&self) -> Seq<Patch> {
        self.patches@
    }

    /// The store always holds `MAX_PATCHES` patches.
    pub proof fn lemma_patch_count(&self)
        ensures
            self.patches().len() == MAX_PATCHES,
    {
    }

    /// The store loaded from the flash image `image`; patches that were never
    /// written are replaced by the initial patch.
    pub fn new(image: &[u8]) -> (s: Storage)
        requires
            image@.len() == STORE_BYTES,
        ensures
            loaded_store(s.patches(), image@),
    {
        let mut patches = [Patch::new(); 16];
        let mut i: usize = 0;
        while i < MAX_PATCHES
            invariant
                i <= MAX_PATCHES,
                image@.len() == STORE_BYTES,
                forall|ii: int| 0 <= ii < i ==> loaded_patch(#[trigger] patches@[ii], image@.subrange(96 * ii, 96 * ii + 96)),
            decreases MAX_PATCHES - i,
        {
            let at = PATCH_BYTES * i;
            let mut patch = read_patch(image, at);
            if patch.name[0] == 0xff {
                patch = Patch::new();
            }
            patches[i] = patch;
            i = i + 1;
        }
        Storage { patches }
    }

    /// The flash image of the store, to write after erasing the flash.
    pub fn flush(&self) -> (image: Vec<u8>)
        ensures
            image@ == store_bytes(self.patches()),
    {
        let mut image: Vec<u8> = Vec::new();
        let mut i: usize = 0;
        while i < MAX_PATCHES
            invariant
                i <= MAX_PATCHES,
                self.patches().len() == MAX_PATCHES,
                image@ == store_bytes(self.patches().take(i as int)),
            decreases MAX_PATCHES - i,
        {
            write_patch(&mut image, &self.patches[i]);
            assert(self.patches().take(i as int + 1).drop_last() == self.patches().take(i as int));
            i = i + 1;
        }
        assert(self.patches().take(16) == self.patches());
        image
    }

    /// Puts `patch` at place `idx`; returns the flash image to write.
    pub fn save_patch(&mut self, idx: u8, patch: &Patch) -> (image: Vec<u8>)
        requires
            idx < MAX_PATCHES,
        ensures
            final(self).patches() == old(self).patches().update(idx as int, *patch),
            image@ == store_bytes(final(self).patches()),
    {
        self.patches[idx as usize] = *patch;
        self.flush()
    }

    /// The patch at place `idx`.
    pub fn get_patch(&self, idx: u8) -> (p: &Patch)
        requires
            idx < MAX_PATCHES,
        ensures
            *p == self.patches()[idx as int],
    {
        &self.patches[idx as usize]
    }
}


/// Reading back the bytes of a value gives the value.
proof fn lemma_le_round_trip(v: u32)
    ensures
        le_value(le_bytes(v), 0) == v,
{
    let b = le_bytes(v);
    assert(((((v & 0xff) as u8) as u32) | (((((v >> 8u32) & 0xff) as u8) as u32) << 8u32)
        | (((((v >> 16u32) & 0xff) as u8) as u32) << 16u32) | (((((v >> 24u32) & 0xff) as u8) as u32) << 24u32)) == v)
        by (bit_vector);
}

/// The bytes of the parameters: four per parameter, in order.
proof fn lemma_params_bytes(params: Seq<u32>)
    ensures
        params_bytes(params).len() == 4 * params.len(),
        forall|k: int, j: int| 0 <= k < params.len() && 0 <= j < 4 ==>
            #[trigger] params_bytes(params)[4 * k + j] == le_bytes(#[trigger] params[k])[j],
    decreases params.len(),
{
    if params.len() > 0 {
        let rest = params.drop_last();
        lemma_params_bytes(rest);
        assert forall|k: int, j: int| 0 <= k < params.len() && 0 <= j < 4 implies
            #[trigger] params_bytes(params)[4 * k + j] == le_bytes(#[trigger] params[k])[j] by {
            if k < params.len() - 1 {
                assert(rest[k] == params[k]);
            }
        }
    }
}

/// The bytes of a patch read back as the patch.
proof fn lemma_patch_bytes_read_back(p: Patch)
    ensures
        patch_bytes(p).len() == PATCH_BYTES,
        is_patch_of(p, patch_bytes(p)),
{
    let b = patch_bytes(p);
    lemma_params_bytes(p.elements_params@);
    assert(b.subrange(0, 8) =~= p.name@);
    assert forall|k: int| 0 <= k < PARAM_COUNT implies #[trigger] p.elements_params@[k] == le_value(b, 8 + 4 * k) by {
        let v = p.elements_params@[k];
        lemma_le_round_trip(v);
        assert(b[8 + 4 * k] == params_bytes(p.elements_params@)[4 * k + 0]);
        assert(b[8 + 4 * k + 1] == params_bytes(p.elements_params@)[4 * k + 1]);
        assert(b[8 + 4 * k + 2] == params_bytes(p.elements_params@)[4 * k + 2]);
        assert(b[8 + 4 * k + 3] == params_bytes(p.elements_params@)[4 * k + 3]);
    }
}

/// The bytes of patch `i` of a store stand at `96 * i`.
proof fn lemma_store_bytes(patches: Seq<Patch>)
    ensures
        store_bytes(patches).len() == PATCH_BYTES * patches.len(),
        forall|i: int| 0 <= i < patches.len() ==>
            store_bytes(patches).subrange(96 * i, 96 * i + 96) == patch_bytes(#[trigger] patches[i]),
    decreases patches.len(),
{
    if patches.len() > 0 {
        let rest = patches.drop_last();
        lemma_store_bytes(rest);
        lemma_patch_bytes_read_back(patches.last());
        let b = store_bytes(patches);
        assert forall|i: int| 0 <= i < patches.len() implies
            b.subrange(96 * i, 96 * i + 96) == patch_bytes(#[trigger] patches[i]) by {
            if i < patches.len() - 1 {
                assert(rest[i] == patches[i]);
                assert(b.subrange(96 * i, 96 * i + 96) =~= store_bytes(rest).subrange(96 * i, 96 * i + 96));
            } else {
                assert(b.subrange(96 * i, 96 * i + 96) =~= patch_bytes(patches.last()));
            }
        }
    }
}

/// Only one patch has given bytes.
proof fn lemma_patch_of_unique(p: Patch, q: Patch, bytes: Seq<u8>)
    requires
        is_patch_of(p, bytes),
        is_patch_of(q, bytes),
    ensures
        p == q,
{
    assert(p.name =~= q.name);
    assert forall|k: int| 0 <= k < PARAM_COUNT implies p.elements_params[k] == q.elements_params[k] by {
        assert(p.elements_params@[k] == le_value(bytes, 8 + 4 * k));
        assert(q.elements_params@[k] == le_value(bytes, 8 + 4 * k));
    }
    assert(p.elements_params =~= q.elements_params);
}

/// Loading the flash image that `flush` writes gives back the patches that
/// were flushed, except that a patch whose name starts with the byte of
/// erased flash (0xff) comes back as the initial patch.
pub proof fn lemma_flushed_store_loads_back(patches: Seq<Patch>, loaded: Seq<Patch>)
    requires
        patches.len() == MAX_PATCHES,
        loaded_store(loaded, store_bytes(patches)),
    ensures
        loaded.len() == MAX_PATCHES,
        forall|i: int| 0 <= i < MAX_PATCHES ==> if (#[trigger] patches[i]).name@[0] == 0xff {
            is_default_patch(loaded[i])
        } else {
            loaded[i] == patches[i]
        },
        (forall|i: int| 0 <= i < MAX_PATCHES ==> (#[trigger] patches[i]).name@[0] != 0xff) ==> loaded == patches,
{
    lemma_store_bytes(patches);
    assert forall|i: int| 0 <= i < MAX_PATCHES implies if (#[trigger] patches[i]).name@[0] == 0xff {
        is_default_patch(loaded[i])
    } else {
        loaded[i] == patches[i]
    } by {
        let b = store_bytes(patches).subrange(96 * i, 96 * i + 96);
        assert(b == patch_bytes(patches[i]));
        lemma_patch_bytes_read_back(patches[i]);
        assert(b[0] == patches[i].name@[0]);
        assert(loaded_patch(loaded[i], b));
        if patches[i].name@[0] != 0xff {
            lemma_patch_of_unique(loaded[i], patches[i], b);
        }
    }
    if forall|i: int| 0 <= i < MAX_PATCHES ==> (#[trigger] patches[i]).name@[0] != 0xff {
        assert(loaded =~= patches);
    }
}

/// Saving a patch and then loading the store from the flash image that
/// `save_patch` returns gives back the saved patch at its place (the initial
/// patch if its name starts with 0xff), and every other place as `flush`
/// would give it back.
pub proof fn lemma_reload_after_save(before: Seq<Patch>, idx: int, p: Patch, loaded: Seq<Patch>)
    requires
        before.len() == MAX_PATCHES,
        0 <= idx < MAX_PATCHES,
        loaded_store(loaded, store_bytes(before.update(idx, p))),
    ensures
        p.name@[0] != 0xff ==> loaded[idx] == p,
        p.name@[0] == 0xff ==> is_default_patch(loaded[idx]),
        forall|i: int| 0 <= i < MAX_PATCHES && i != idx ==> if (#[trigger] before[i]).name@[0] == 0xff {
            is_default_patch(loaded[i])
        } else {
            loaded[i] == before[i]
        },
{
    let after = before.update(idx, p);
    lemma_flushed_store_loads_back(after, loaded);
    assert(after[idx] == p);
    assert forall|i: int| 0 <= i < MAX_PATCHES && i != idx implies if (#[trigger] before[i]).name@[0] == 0xff {
        is_default_patch(loaded[i])
    } else {
        loaded[i] == before[i]
    } by {
        assert(after[i] == before[i]);
    }
}

/// A patch saved at a place is the one read from that place, and the other
/// places keep their patches.
pub proof fn lemma_get_after_save(patches: Seq<Patch>, idx: int, p: Patch)
    requires
        0 <= idx < patches.len(),
    ensures
        patches.update(idx, p)[idx] == p,
        forall|i: int| 0 <= i < patches.len() && i != idx ==> #[trigger] patches.update(idx, p)[i] == patches[i],
{
}

} // verus!
