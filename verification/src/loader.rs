//! The execution region and the loader that fills it.

use vstd::prelude::*;
use crate::catalog::Catalog;

verus! {

/// What the execution region holds once `image` has been placed at its
/// base: the bytes of `image`, then zeros up to `limit`.
pub open spec fn placed(image: Seq<u8>, limit: nat) -> Seq<u8> {
    Seq::new(limit, |k: int| if k < image.len() { image[k] } else { 0u8 })
}

/// Why a program could not be loaded.
#[derive(Clone, Copy, Debug, PartialEq, Eq, Structural)]
pub enum LoadError {
    /// The program is longer than the execution region.
    ProgramTooLarge {
        /// Length of the program, in bytes.
        length: usize,
        /// Size limit of the execution region, in bytes.
        limit: usize,
    },
}

/// The memory that the running program owns. It is either empty (all zero,
/// never loaded) or holds exactly one program.
#[derive(Debug)]
pub struct ExecutionRegion {
    bytes: Vec<u8>,
    held: Option<usize>,
}

impl View for ExecutionRegion {
    type V = Seq<u8>;

    /// The bytes of the region, from its base up to its size limit.
    closed spec fn view(&self) -> Seq<u8> {
        self.bytes@
    }
}

impl ExecutionRegion {
    /// The length of the program that the region holds, or `None` while it
    /// is empty.
    pub closed spec fn spec_held(&self) -> Option<usize> {
        self.held
    }

    /// The size limit of the region, in bytes.
    pub open spec fn spec_limit(&self) -> nat {
        self@.len()
    }

    /// A program, if one is held, fits the region; an empty region is all
    /// zero.
    pub open spec fn wf(&self) -> bool {
        match self.spec_held() {
            Some(length) => length <= self.spec_limit(),
            None => self@ == placed(Seq::<u8>::empty(), self.spec_limit()),
        }
    }

    /// An empty region of `limit` bytes.
    pub fn new(limit: usize) -> (region: ExecutionRegion)
        ensures
            region.wf(),
            region.spec_limit() == limit,
            region.spec_held() is None,
            region@ == placed(Seq::<u8>::empty(), limit as nat),
    {
        let mut bytes: Vec<u8> = Vec::new();
        let mut k: usize = 0;
        while k < limit
            invariant
                k <= limit,
                bytes@.len() == k,
                forall|p: int| 0 <= p < k ==> bytes@[p] == 0u8,
            decreases limit - k,
        {
            bytes.push(0u8);
            k = k + 1;
        }
        assert(bytes@ =~= placed(Seq::<u8>::empty(), limit as nat));
        ExecutionRegion { bytes, held: None }
    }

    /// The size limit of the region, in bytes.
    pub fn limit(&self) -> (n: usize)
        ensures
            n == self.spec_limit(),
    {
        self.bytes.len()
    }

    /// The length of the program that the region holds, or `None` while it
    /// is empty.
    #[verifier::when_used_as_spec(spec_held)]
    pub fn held(&self) -> (r: Option<usize>)
        ensures
            r == self.spec_held(),
    {
        self.held
    }

    /// The bytes of the region.
    pub fn bytes(&self) -> (b: &[u8])
        ensures
            b@ == self@,
    {
        self.bytes.as_slice()
    }

    /// Takes the region for `image`: erases all of it, then copies `image`
    /// to its base. What the region held before is gone. An image longer
    /// than the region is refused, and the region is then left as it was.
    pub fn acquire(&mut self, image: &[u8]) -> (r: Result<(), LoadError>)
        ensures
            final(self).spec_limit() == old(self).spec_limit(),
            r is Ok <==> image@.len() <= old(self).spec_limit(),
            r is Ok ==> {
                &&& final(self)@ == placed(image@, old(self).spec_limit())
                &&& final(self).spec_held() == Some(image@.len() as usize)
                &&& final(self).wf()
            },
            r matches Err(e) ==> {
                &&& *final(self) == *old(self)
                &&& e == (LoadError::ProgramTooLarge {
                    length: image@.len() as usize,
                    limit: old(self).spec_limit() as usize,
                })
            },
    {
        let limit: usize = self.bytes.len();
        let length: usize = image.len();
        if length > limit {
            return Err(LoadError::ProgramTooLarge { length, limit });
        }
        crate::boot::clear_bss_by_addr(self.bytes.as_mut_slice(), 0, limit);
        let mut k: usize = 0;
        while k < length
            invariant
                k <= length <= limit,
                length == image@.len(),
                self.bytes@.len() == limit,
                forall|p: int| 0 <= p < k ==> self.bytes@[p] == image@[p],
                forall|p: int| k <= p < limit ==> self.bytes@[p] == 0u8,
            decreases length - k,
        {
            self.bytes[k] = image[k];
            k = k + 1;
        }
        self.held = Some(length);
        Ok(())
    }
}

/// Loads program `i` of `catalog` into `region`: the region is erased, and
/// the program's bytes are copied to its base. Fails when the program is
/// longer than the region, which is then left as it was.
pub fn load(region: &mut ExecutionRegion, catalog: &Catalog, i: usize) -> (r: Result<
    (),
    LoadError,
>)
    requires
        catalog.wf(),
        i < catalog.spec_count(),
    ensures
        final(region).spec_limit() == old(region).spec_limit(),
        r is Ok <==> catalog@[i as int].spec_length() <= old(region).spec_limit(),
        r is Ok ==> {
            &&& final(region)@ == placed(catalog.spec_program(i as int), old(region).spec_limit())
            &&& final(region).spec_held() == Some(catalog@[i as int].spec_length() as usize)
            &&& final(region).wf()
        },
        r matches Err(e) ==> {
            &&& *final(region) == *old(region)
            &&& e == (LoadError::ProgramTooLarge {
                length: catalog@[i as int].spec_length() as usize,
                limit: old(region).spec_limit() as usize,
            })
        },
{
    let image = catalog.program(i);
    region.acquire(image)
}

/// After a load the first bytes of the region are the program's, in order,
/// and every byte after them, up to the size limit, is zero.
pub proof fn lemma_placed_bytes(image: Seq<u8>, limit: nat, k: int)
    requires
        image.len() <= limit,
        0 <= k < limit,
    ensures
        placed(image, limit).len() == limit,
        k < image.len() ==> placed(image, limit)[k] == image[k],
        k >= image.len() ==> placed(image, limit)[k] == 0u8,
        placed(image, limit).subrange(0, image.len() as int) == image,
{
}

} // verus!
