use vstd::prelude::*;
use crate::error::Error;

verus! {

/// No byte of `s` is the nul terminator.
pub open spec fn nul_free(s: Seq<u8>) -> bool {
    forall|j: int| 0 <= j < s.len() ==> s[j] != 0
}

/// `p` is the index of the first nul byte of `s`.
pub open spec fn first_nul(s: Seq<u8>, p: int) -> bool {
    &&& 0 <= p < s.len()
    &&& s[p] == 0
    &&& forall|j: int| 0 <= j < p ==> s[j] != 0
}

/// The stored label after asking to store `s` over `label`: a nul-free `s`
/// is kept with its terminator appended; anything else leaves `label` as it was.
pub open spec fn label_after(label: Option<Seq<u8>>, s: Seq<u8>) -> Option<Seq<u8>> {
    if nul_free(s) {
        Some(s.push(0))
    } else {
        label
    }
}

/// Storing labels is last-write-wins: once a nul-free label `b` is stored,
/// the stored label is `b` with its terminator whatever came before, and
/// storing the same label again changes nothing.
pub proof fn lemma_label_last_write_wins(label: Option<Seq<u8>>, a: Seq<u8>, b: Seq<u8>)
    requires
        nul_free(b),
    ensures
        label_after(label_after(label, a), b) == Some(b.push(0)),
        label_after(label_after(label, a), a) == label_after(label, a),
{
}

/// The state owned by one engine instance: the address of its native handle
/// (never null), and the storage the native side keeps borrowing from for
/// as long as the handle lives: the diagnostic label, the allocator
/// configuration `A` and the module loader configuration `L`.
pub struct Inner<A, L> {
    rt: usize,
    info: Option<Vec<u8>>,
    allocator: Option<A>,
    loader: Option<L>,
}

/// What stays to be dropped once the native handle has been freed.
pub struct Retained<A, L> {
    pub info: Option<Vec<u8>>,
    pub allocator: Option<A>,
    pub loader: Option<L>,
}

impl<A, L> Inner<A, L> {
    #[verifier::type_invariant]
    spec fn handle_not_null(&self) -> bool {
        self.rt != 0
    }

    /// Address of the native handle.
    pub closed spec fn handle(&self) -> usize {
        self.rt
    }

    /// The stored diagnostic label, terminator included.
    pub closed spec fn label(&self) -> Option<Seq<u8>> {
        match self.info {
            Some(v) => Some(v@),
            None => None,
        }
    }

    /// The allocator configuration the handle was created with.
    pub closed spec fn allocator_of(&self) -> Option<A> {
        self.allocator
    }

    /// The installed module loader configuration.
    pub closed spec fn loader_of(&self) -> Option<L> {
        self.loader
    }

    /// Takes ownership of a freshly created native handle at address `rt`.
    /// A null handle means the native layer could not allocate; the
    /// allocator configuration is then dropped and nothing is held.
    pub fn new_raw(rt: usize, allocator: Option<A>) -> (r: Result<Self, Error>)
        ensures
            rt == 0 <==> r.is_err(),
            rt == 0 ==> r == Err::<Self, Error>(Error::Allocation),
            r matches Ok(inner) ==> {
                &&& inner.handle() == rt
                &&& inner.label().is_none()
                &&& inner.allocator_of() == allocator
                &&& inner.loader_of().is_none()
            },
    {
        if rt == 0 {
            return Err(Error::Allocation);
        }
        Ok(Inner { rt, info: None, allocator, loader: None })
    }

    /// Address of the native handle; never null.
    pub fn rt(&self) -> (r: usize)
        ensures
            r == self.handle(),
            r != 0,
    {
        proof {
            use_type_invariant(self);
        }
        self.rt
    }

    /// The stored diagnostic label, terminator included, for handing to the
    /// native side.
    pub fn info(&self) -> (r: Option<&Vec<u8>>)
        ensures
            match r {
                Some(v) => self.label() == Some(v@),
                None => self.label().is_none(),
            },
    {
        self.info.as_ref()
    }

    /// Stores a diagnostic label with a nul terminator appended. A label that
    /// already holds a nul byte is refused with the position of the first
    /// one, and the stored label stays as it was.
    pub fn set_info(&mut self, mut info: Vec<u8>) -> (r: Result<(), Error>)
        ensures
            r.is_ok() <==> nul_free(info@),
            r matches Err(e) ==> (e matches Error::Encoding { position } && first_nul(
                info@,
                position as int,
            )),
            final(self).label() == label_after(old(self).label(), info@),
            final(self).handle() == old(self).handle(),
            final(self).allocator_of() == old(self).allocator_of(),
            final(self).loader_of() == old(self).loader_of(),
    {
        proof {
            use_type_invariant(&*self);
        }
        let ghost given = info@;
        let mut i: usize = 0;
        while i < info.len()
            invariant
                info@ == given,
                0 <= i <= given.len(),
                forall|j: int| 0 <= j < i ==> given[j] != 0,
            decreases given.len() - i,
        {
            if info[i] == 0 {
                assert(given[i as int] == 0);
                assert(!nul_free(given));
                return Err(Error::Encoding { position: i });
            }
            i = i + 1;
        }
        info.push(0);
        self.info = Some(info);
        Ok(())
    }

    /// Installs a module loader configuration, replacing any earlier one.
    pub fn set_loader(&mut self, loader: L)
        ensures
            final(self).loader_of() == Some(loader),
            final(self).handle() == old(self).handle(),
            final(self).label() == old(self).label(),
            final(self).allocator_of() == old(self).allocator_of(),
    {
        proof {
            use_type_invariant(&*self);
        }
        self.loader = Some(loader);
    }

    /// Ends the instance: hands back the native handle's address, which the
    /// caller frees after releasing the bookkeeping record in its slot, and
    /// the storage, which the caller drops only after that free. Consuming
    /// the state makes this happen once.
    pub fn release(self) -> (r: (usize, Retained<A, L>))
        ensures
            r.0 == self.handle(),
            r.0 != 0,
            r.1.allocator == self.allocator_of(),
            r.1.loader == self.loader_of(),
            match r.1.info {
                Some(v) => self.label() == Some(v@),
                None => self.label().is_none(),
            },
    {
        proof {
            use_type_invariant(&self);
        }
        let Inner { rt, info, allocator, loader } = self;
        (rt, Retained { info, allocator, loader })
    }
}

} // verus!
