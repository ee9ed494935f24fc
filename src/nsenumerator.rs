use vstd::prelude::*;
use crate::types::{NSInteger, NSUInteger};

verus! {

/// Window size used by [`FastEnumerator::new`].
pub const DEFAULT_WINDOW_CAPACITY: usize = 16;

/// Protocol state that the enumerating side keeps between batch fetches.
///
/// The collection owns the meaning of `state` and `extra`; `mutations` is the
/// collection's mutation counter as of the latest fetch.
#[derive(Debug)]
pub struct NSFastEnumerationState {
    pub state: NSUInteger,
    pub mutations: NSInteger,
    pub extra: [NSUInteger; 5],
}

impl NSFastEnumerationState {
    /// All words zero: the state with which every enumeration session starts.
    pub open spec fn is_initial(self) -> bool {
        &&& self.state == 0
        &&& self.mutations == 0
        &&& self.extra@ == seq![0u64, 0u64, 0u64, 0u64, 0u64]
    }

    /// The state with which every enumeration session starts.
    pub fn new() -> (r: NSFastEnumerationState)
        ensures
            r.is_initial(),
    {
        let r = NSFastEnumerationState { state: 0, mutations: 0, extra: [0, 0, 0, 0, 0] };
        assert(r.extra@ =~= seq![0u64, 0u64, 0u64, 0u64, 0u64]);
        r
    }
}

/// A collection that hands out its elements in batches.
///
/// Each call places up to `count` elements into `objects` (replacing what it
/// held) and returns how many it placed.  It reports its mutation counter in
/// `state.mutations`; that value stays the same from fetch to fetch exactly
/// when the collection was not changed in between.
#[allow(non_snake_case)]
pub trait NSFastEnumeration {
    type Element: Copy;

    /// The answer to a fetch of up to `count` elements handed the protocol
    /// state `state`: the elements delivered and the state left behind.
    ///
    /// A collection states its answers by overriding this; the library's
    /// proofs hold for every definition of it, and one left undefined says
    /// nothing of the answer.
    open spec fn fetched(&self, state: NSFastEnumerationState, count: NSUInteger) -> (
        Seq<Self::Element>,
        NSFastEnumerationState,
    ) {
        vstd::pervasive::arbitrary()
    }

    fn countByEnumeratingWithStateObjectsCount(
        &mut self,
        state: &mut NSFastEnumerationState,
        objects: &mut Vec<Self::Element>,
        count: NSUInteger,
    ) -> (n: NSUInteger)
        ensures
            n <= count,
            final(objects)@.len() == n,
            old(self).fetched(*old(state), count) == (final(objects)@, *final(state)),
    ;
}

/// Raised when the collection was changed while it was being enumerated.
#[derive(Debug, Clone, Copy, PartialEq, Eq, Structural)]
pub struct FatalProtocolViolation;

/// What one request for the next element produces.
pub type Pulled<T> = Result<Option<T>, FatalProtocolViolation>;

/// Head and tail value marking a window that was never filled.
pub open spec fn unset() -> int {
    usize::MAX as int
}

/// Abstract state of an enumeration session.
pub struct EnumView<T> {
    /// The elements of the latest batch.
    pub window: Seq<T>,
    pub capacity: int,
    /// Index of the next element of `window` to hand out.
    pub head: int,
    /// Number of elements the latest fetch delivered.
    pub tail: int,
    /// Mutation counter recorded at the latest accepted fetch.
    pub seen: NSInteger,
    pub violated: bool,
    /// The protocol state handed to the collection at the next fetch.
    pub protocol: NSFastEnumerationState,
}

impl<T> EnumView<T> {
    pub open spec fn wf(self) -> bool {
        &&& 1 <= self.capacity < usize::MAX
        &&& (self.head == unset() && self.tail == unset()) || (0 <= self.head
            <= self.tail <= self.capacity && self.window.len() == self.tail)
    }

    /// No batch was fetched yet.
    pub open spec fn is_fresh(self) -> bool {
        self.head == unset()
    }

    /// The window is used up and it was full: the collection may hold more.
    pub open spec fn needs_fetch(self) -> bool {
        !self.violated && self.head >= self.tail && self.tail >= self.capacity
    }

    /// A state that asks the collection for a batch next, whatever its
    /// window holds.
    pub open spec fn awaiting_batch(self) -> bool {
        &&& 1 <= self.capacity < usize::MAX
        &&& !self.violated
        &&& (self.head == unset() && self.tail == unset()) || (self.head == self.tail
            == self.capacity)
    }
}

/// The state of a session that has not fetched anything and holds the
/// protocol state `protocol`.
pub open spec fn fresh_view<T>(capacity: int, protocol: NSFastEnumerationState) -> EnumView<T> {
    EnumView {
        window: Seq::empty(),
        capacity,
        head: unset(),
        tail: unset(),
        seen: 0,
        violated: false,
        protocol,
    }
}

/// The state of a session that was just opened with a window of `capacity`.
pub open spec fn starting_view<T>(v: EnumView<T>, capacity: int) -> bool {
    v == fresh_view::<T>(capacity, v.protocol) && v.protocol.is_initial()
}

/// The session state `v` once the collection left the protocol state
/// `protocol` behind.
pub open spec fn with_protocol<T>(v: EnumView<T>, protocol: NSFastEnumerationState) -> EnumView<T> {
    EnumView { protocol, ..v }
}

/// One request answered without asking the collection.
pub open spec fn fast_step<T>(v: EnumView<T>) -> (EnumView<T>, Pulled<T>) {
    if v.violated {
        (v, Err(FatalProtocolViolation))
    } else if v.head < v.tail {
        (EnumView { head: v.head + 1, ..v }, Ok(Some(v.window[v.head])))
    } else {
        (v, Ok(None))
    }
}

/// One request answered by a fetch that delivered `batch` and reported the
/// mutation counter `token`.
pub open spec fn fetch_step<T>(v: EnumView<T>, batch: Seq<T>, token: NSInteger) -> (
    EnumView<T>,
    Pulled<T>,
) {
    if !v.is_fresh() && token != v.seen {
        (
            EnumView {
                window: batch,
                head: batch.len() as int,
                tail: batch.len() as int,
                violated: true,
                ..v
            },
            Err(FatalProtocolViolation),
        )
    } else if batch.len() > 0 {
        (
            EnumView { window: batch, head: 1, tail: batch.len() as int, seen: token, ..v },
            Ok(Some(batch[0])),
        )
    } else {
        (EnumView { window: batch, head: 0, tail: 0, seen: token, ..v }, Ok(None))
    }
}

enum EnumerationResult<Item> {
    Item(Item),
    NeedsSlowPath,
    Done,
}

/// A pull iterator over a batched-enumeration collection.
///
/// Elements come out of a fixed-capacity window; the collection is asked
/// for the next batch only when the window is used up and was full.
pub struct FastEnumerator<Enumerated: NSFastEnumeration> {
    enumerated: Enumerated,
    state: NSFastEnumerationState,
    window: Vec<Enumerated::Element>,
    capacity: usize,
    head: usize,
    tail: usize,
    mutations_seen: NSInteger,
    violated: bool,
}

impl<Enumerated: NSFastEnumeration> View for FastEnumerator<Enumerated> {
    type V = EnumView<Enumerated::Element>;

    closed spec fn view(&self) -> EnumView<Enumerated::Element> {
        EnumView {
            window: self.window@,
            capacity: self.capacity as int,
            head: self.head as int,
            tail: self.tail as int,
            seen: self.mutations_seen,
            violated: self.violated,
            protocol: self.state,
        }
    }
}

impl<Enumerated: NSFastEnumeration> FastEnumerator<Enumerated> {
    /// The collection being enumerated.
    pub closed spec fn collection(&self) -> Enumerated {
        self.enumerated
    }

    /// A session over `enumerated` with a window of sixteen elements.  The
    /// collection is not asked for anything until the first request.
    pub fn new(enumerated: Enumerated) -> (r: Self)
        ensures
            starting_view(r@, DEFAULT_WINDOW_CAPACITY as int),
            r@.wf(),
            r.collection() == enumerated,
    {
        Self::with_capacity(enumerated, DEFAULT_WINDOW_CAPACITY)
    }

    /// A session over `enumerated` whose window holds `capacity` elements.
    pub fn with_capacity(enumerated: Enumerated, capacity: usize) -> (r: Self)
        requires
            1 <= capacity < usize::MAX,
        ensures
            starting_view(r@, capacity as int),
            r@.wf(),
            r.collection() == enumerated,
    {
        let r = FastEnumerator {
            enumerated,
            state: NSFastEnumerationState::new(),
            window: Vec::new(),
            capacity,
            head: usize::MAX,
            tail: usize::MAX,
            mutations_seen: 0,
            violated: false,
        };
        assert(r@.window =~= Seq::empty());
        r
    }

    fn fast_path(&mut self) -> (r: EnumerationResult<Enumerated::Element>)
        requires
            old(self)@.wf(),
            !old(self)@.violated,
        ensures
            final(self).enumerated == old(self).enumerated,
            final(self).state == old(self).state,
            final(self)@.wf(),
            old(self)@.needs_fetch() <==> r is NeedsSlowPath,
            old(self)@.needs_fetch() ==> final(self)@ == old(self)@,
            !old(self)@.needs_fetch() ==> final(self)@ == fast_step(old(self)@).0,
            r matches EnumerationResult::Item(i) ==> fast_step(old(self)@).1 == Pulled::Ok(
                Some(i),
            ),
            r is Done ==> fast_step(old(self)@).1 == Pulled::<Enumerated::Element>::Ok(None),
    {
        if self.head < self.tail {
            let item = self.window[self.head];
            self.head = self.head + 1;
            EnumerationResult::Item(item)
        } else if self.tail < self.capacity {
            EnumerationResult::Done
        } else {
            EnumerationResult::NeedsSlowPath
        }
    }

    /// Whether the next request will ask the collection for a batch.
    pub fn awaits_batch(&self) -> (r: bool)
        ensures
            r == self@.awaiting_batch(),
    {
        !self.violated && ((self.head == usize::MAX && self.tail == usize::MAX) || (self.head
            == self.tail && self.tail == self.capacity)) && 1 <= self.capacity && self.capacity
            < usize::MAX
    }

    /// Takes in the answer to a fetch: the elements the collection delivered
    /// and the mutation counter it reported.
    ///
    /// The batch becomes the window.  On the first fetch the counter is
    /// recorded; on a later one a counter that differs from the recorded one
    /// fails the session.  Otherwise the first element of the batch is handed
    /// out, or `Ok(None)` when the batch is empty.
    pub fn accept_batch(&mut self, batch: Vec<Enumerated::Element>, token: NSInteger) -> (r: Pulled<
        Enumerated::Element,
    >)
        requires
            old(self)@.awaiting_batch(),
            batch@.len() <= old(self)@.capacity,
        ensures
            final(self)@.wf(),
            (final(self)@, r) == fetch_step(old(self)@, batch@, token),
    {
        let n = batch.len();
        let fresh = self.head == usize::MAX;
        self.window = batch;
        if !fresh && self.mutations_seen != token {
            self.violated = true;
            self.head = n;
            self.tail = n;
            return Err(FatalProtocolViolation);
        }
        self.tail = n;
        self.head = 0;
        self.mutations_seen = token;
        match self.fast_path() {
            EnumerationResult::Item(i) => Ok(Some(i)),
            EnumerationResult::Done => Ok(None),
            EnumerationResult::NeedsSlowPath => {
                proof {
                    assert(false);
                }
                Ok(None)
            },
        }
    }

    /// Hands out the next element, fetching a new batch when the window is
    /// used up.
    ///
    /// `Ok(None)` means the collection is exhausted.  `Err` means the
    /// collection reported a different mutation counter than at the previous
    /// fetch; the session then hands out nothing more.
    pub fn next(&mut self) -> (r: Pulled<Enumerated::Element>)
        requires
            old(self)@.wf(),
        ensures
            final(self)@.wf(),
            final(self)@.capacity == old(self)@.capacity,
            !old(self)@.needs_fetch() ==> (final(self)@, r) == fast_step(old(self)@)
                && final(self).collection() == old(self).collection(),
            old(self)@.needs_fetch() ==> ({
                let (batch, after) = old(self).collection().fetched(
                    old(self)@.protocol,
                    old(self)@.capacity as NSUInteger,
                );
                &&& batch.len() <= old(self)@.capacity
                &&& (final(self)@, r) == fetch_step(
                    with_protocol(old(self)@, after),
                    batch,
                    after.mutations,
                )
            }),
    {
        if self.violated {
            return Err(FatalProtocolViolation);
        }
        match self.fast_path() {
            EnumerationResult::Item(i) => Ok(Some(i)),
            EnumerationResult::Done => Ok(None),
            EnumerationResult::NeedsSlowPath => {
                let ghost before = self@;
                let ghost collection = self.enumerated;
                // The window's storage is lent to the collection and comes
                // back as the new window.
                let mut window = Vec::new();
                std::mem::swap(&mut window, &mut self.window);
                self.enumerated.countByEnumeratingWithStateObjectsCount(
                    &mut self.state,
                    &mut window,
                    self.capacity as NSUInteger,
                );
                let token = self.state.mutations;
                assert(collection.fetched(before.protocol, before.capacity as NSUInteger) == (
                    window@,
                    self.state,
                ));
                let r = self.accept_batch(window, token);
                r
            },
        }
    }
}

} // verus!
