//! Bytes whose ownership was handed to the runtime, and the single release
//! that the runtime's deallocator owes them.
use vstd::prelude::*;

verus! {

/// Why a release request was turned down.
#[derive(Debug, Clone, Copy, PartialEq, Eq, Structural)]
pub enum ReleaseError {
    /// The bytes were released before.
    AlreadyReleased,
    /// The address or length reported does not match the transfer.
    Mismatch,
}

/// Abstract state of a moved buffer.
pub struct MovedView {
    /// The bytes while they are still held; `None` once released.
    pub held: Option<Seq<u8>>,
    pub address: usize,
    pub length: usize,
}

/// The state right after `bytes`, stored at `address`, were handed over.
pub open spec fn transferred(bytes: Seq<u8>, address: usize) -> MovedView {
    MovedView { held: Some(bytes), address, length: bytes.len() as usize }
}

/// A release request reporting `address` and `length`: the state after it,
/// and the bytes handed back for freeing or the reason it was refused.
pub open spec fn release_step(v: MovedView, address: usize, length: usize) -> (
    MovedView,
    Result<Seq<u8>, ReleaseError>,
) {
    match v.held {
        None => (v, Err(ReleaseError::AlreadyReleased)),
        Some(bytes) => if address == v.address && length == v.length {
            (MovedView { held: None, ..v }, Ok(bytes))
        } else {
            (v, Err(ReleaseError::Mismatch))
        },
    }
}

/// Bytes moved into the runtime's keeping.
///
/// The runtime reports back, once, the address and length it was given; the
/// bytes are then handed out to be freed.  Any further request, or one that
/// reports another address or length, gets nothing.
pub struct MovedBuffer {
    held: Option<Vec<u8>>,
    address: usize,
    length: usize,
}

impl View for MovedBuffer {
    type V = MovedView;

    closed spec fn view(&self) -> MovedView {
        MovedView {
            held: match self.held {
                Some(b) => Some(b@),
                None => None,
            },
            address: self.address,
            length: self.length,
        }
    }
}

impl MovedBuffer {
    pub closed spec fn wf(&self) -> bool {
        self.held is Some ==> self.held->0@.len() == self.length
    }

    /// Takes ownership of `bytes`, whose storage starts at `address`.
    pub fn transfer(bytes: Vec<u8>, address: usize) -> (r: MovedBuffer)
        ensures
            r.wf(),
            r@ == transferred(bytes@, address),
    {
        let length = bytes.len();
        MovedBuffer { held: Some(bytes), address, length }
    }

    /// Where the moved bytes start.
    pub fn address(&self) -> (r: usize)
        ensures
            r == self@.address,
    {
        self.address
    }

    /// How many bytes were moved.
    pub fn length(&self) -> (r: usize)
        ensures
            r == self@.length,
    {
        self.length
    }

    /// Whether the bytes still wait for their release.
    pub fn is_pending(&self) -> (r: bool)
        ensures
            r == self@.held is Some,
    {
        self.held.is_some()
    }

    /// Answers the runtime's report that it is done with `length` bytes at
    /// `address`: hands the bytes out to be freed the first time the report
    /// matches the transfer, and refuses every other request.
    pub fn release(&mut self, address: usize, length: usize) -> (r: Result<Vec<u8>, ReleaseError>)
        requires
            old(self).wf(),
        ensures
            final(self).wf(),
            final(self)@ == release_step(old(self)@, address, length).0,
            match r {
                Ok(bytes) => release_step(old(self)@, address, length).1 == Ok::<Seq<u8>, ReleaseError>(bytes@),
                Err(e) => release_step(old(self)@, address, length).1 == Err::<Seq<u8>, ReleaseError>(e),
            },
    {
        if self.held.is_none() {
            return Err(ReleaseError::AlreadyReleased);
        }
        if address != self.address || length != self.length {
            return Err(ReleaseError::Mismatch);
        }
        match self.held.take() {
            Some(bytes) => Ok(bytes),
            None => Err(ReleaseError::AlreadyReleased),
        }
    }
}

/// A moved buffer released with the address and length it was transferred
/// with gives back exactly the transferred bytes, and it does so once: every
/// later request, whatever it reports, is refused.
pub proof fn lemma_released_exactly_once(
    bytes: Seq<u8>,
    address: usize,
    later_address: usize,
    later_length: usize,
)
    requires
        bytes.len() <= usize::MAX,
    ensures
        ({
            let (after, first) = release_step(transferred(bytes, address), address, bytes.len() as usize);
            &&& first == Ok::<Seq<u8>, ReleaseError>(bytes)
            &&& after.held is None
            &&& after.address == address
            &&& after.length == bytes.len()
            &&& release_step(after, later_address, later_length).1 == Err::<Seq<u8>, ReleaseError>(
                ReleaseError::AlreadyReleased,
            )
        }),
{
}

} // verus!
