//! The registry of the handles to the remote services: constructed once,
//! by the first caller, and shared by all callers after it.
//!
//! The registry decides; the caller constructs. A caller asks whether the
//! handles have to be constructed, constructs them if so, publishes what
//! came of it and then reads what the registry holds. Callers that run at
//! the same time take turns at the registry as a whole.

use vstd::prelude::*;

verus! {

/// What is logged when the handles are constructed.
pub const CONSTRUCTION_NOTICE: &'static str = "Initializing AWS clients...";

/// What a registry holds.
#[derive(Debug)]
pub enum Slot<C> {
    /// Nothing has been published.
    Empty,
    /// The handles that the first construction made.
    Ready(C),
    /// The cause for which the first construction failed.
    Failed(String),
}

/// The view of a registry: what it holds, a failure by the text of its
/// cause.
pub enum SlotView<C> {
    Empty,
    Ready(C),
    Failed(Seq<char>),
}

/// The view of what a construction came to.
pub open spec fn built_view<C>(built: Result<C, String>) -> Result<C, Seq<char>> {
    match built {
        Ok(handles) => Ok(handles),
        Err(cause) => Err(cause@),
    }
}

/// The registry after `built` was published to it: the first result that
/// is published stays, and a later one changes nothing.
pub open spec fn published<C>(slot: SlotView<C>, built: Result<C, Seq<char>>) -> SlotView<C> {
    match slot {
        SlotView::Empty => match built {
            Ok(handles) => SlotView::Ready(handles),
            Err(cause) => SlotView::Failed(cause),
        },
        _ => slot,
    }
}

/// What a caller observes of a registry: nothing while it is empty, then
/// the handles or the cause of the failure.
pub open spec fn observed<C>(slot: SlotView<C>) -> Option<Result<C, Seq<char>>> {
    match slot {
        SlotView::Empty => None,
        SlotView::Ready(handles) => Some(Ok(handles)),
        SlotView::Failed(cause) => Some(Err(cause)),
    }
}

/// One acquisition: the caller constructs only where the registry is
/// empty, publishes the result, and observes what the registry then holds.
/// `would_build` is what a construction by this caller would come to.
pub open spec fn acquired<C>(slot: SlotView<C>, would_build: Result<C, Seq<char>>) -> (
    SlotView<C>,
    bool,
    Result<C, Seq<char>>,
) {
    let after = if slot is Empty {
        published(slot, would_build)
    } else {
        slot
    };
    (after, slot is Empty, observed(after)->Some_0)
}

/// The registry after a sequence of acquisitions.
pub open spec fn slot_after<C>(slot: SlotView<C>, would_build: Seq<Result<C, Seq<char>>>)
    -> SlotView<C>
    decreases would_build.len(),
{
    if would_build.len() == 0 {
        slot
    } else {
        acquired(slot_after(slot, would_build.drop_last()), would_build.last()).0
    }
}

/// How many of a sequence of acquisitions constructed the handles.
pub open spec fn constructions<C>(slot: SlotView<C>, would_build: Seq<Result<C, Seq<char>>>)
    -> nat
    decreases would_build.len(),
{
    if would_build.len() == 0 {
        0
    } else {
        let front = would_build.drop_last();
        let before = constructions(slot, front);
        if acquired(slot_after(slot, front), would_build.last()).1 {
            before + 1
        } else {
            before
        }
    }
}

/// What the `i`-th of a sequence of acquisitions observed.
pub open spec fn observation<C>(
    slot: SlotView<C>,
    would_build: Seq<Result<C, Seq<char>>>,
    i: int,
) -> Result<C, Seq<char>>
    recommends
        0 <= i < would_build.len(),
{
    acquired(slot_after(slot, would_build.take(i)), would_build[i]).2
}

/// However many callers acquire the handles, and whatever each of them
/// would have constructed: from an empty registry exactly one construction
/// is made, the first caller's, and every caller observes its result, be it
/// the handles or the failure.
pub proof fn law_constructed_once<C>(would_build: Seq<Result<C, Seq<char>>>)
    requires
        would_build.len() >= 1,
    ensures
        constructions(SlotView::Empty, would_build) == 1,
        slot_after(SlotView::Empty, would_build) == published(SlotView::Empty, would_build[0]),
        forall|i: int|
            0 <= i < would_build.len() ==> #[trigger] observation(
                SlotView::Empty,
                would_build,
                i,
            ) == would_build[0],
    decreases would_build.len(),
{
    let empty = SlotView::<C>::Empty;
    let front = would_build.drop_last();
    if would_build.len() == 1 {
        assert(front.len() == 0);
        assert(slot_after(empty, front) == empty);
        assert(constructions(empty, front) == 0);
    } else {
        law_constructed_once(front);
        assert(front[0] == would_build[0]);
    }
    assert forall|i: int| 0 <= i < would_build.len() implies #[trigger] observation(
        empty,
        would_build,
        i,
    ) == would_build[0] by {
        if i == 0 {
            assert(would_build.take(0).len() == 0);
        } else {
            let prefix = would_build.take(i);
            assert(prefix.len() >= 1);
            assert(prefix[0] == would_build[0]);
            law_constructed_once(prefix);
        }
    }
}

/// A registry that holds a result keeps it: publishing to it changes
/// nothing, and no caller constructs again.
pub proof fn law_settled_registry_is_fixed<C>(slot: SlotView<C>, built: Result<C, Seq<char>>)
    requires
        !(slot is Empty),
    ensures
        published(slot, built) == slot,
        acquired(slot, built).0 == slot,
        !acquired(slot, built).1,
        Some(acquired(slot, built).2) == observed(slot),
{
}

/// The registry of the handles of type `C`.
#[derive(Debug)]
pub struct ClientRegistry<C> {
    slot: Slot<C>,
}

impl<C> View for ClientRegistry<C> {
    type V = SlotView<C>;

    closed spec fn view(&self) -> SlotView<C> {
        match self.slot {
            Slot::Empty => SlotView::Empty,
            Slot::Ready(handles) => SlotView::Ready(handles),
            Slot::Failed(cause) => SlotView::Failed(cause@),
        }
    }
}

impl<C> ClientRegistry<C> {
    /// The empty registry.
    pub fn new() -> (registry: Self)
        ensures
            registry@ is Empty,
    {
        ClientRegistry { slot: Slot::Empty }
    }

    /// Whether the caller has to construct the handles: it has to where
    /// nothing has been published yet.
    pub fn must_construct(&self) -> (needed: bool)
        ensures
            needed == (self@ is Empty),
    {
        match &self.slot {
            Slot::Empty => true,
            _ => false,
        }
    }

    /// Publishes what a construction came to. The first result that is
    /// published stays; a later one is dropped.
    pub fn publish(&mut self, built: Result<C, String>)
        ensures
            final(self)@ == published(old(self)@, built_view(built)),
    {
        if self.must_construct() {
            self.slot = match built {
                Ok(handles) => Slot::Ready(handles),
                Err(cause) => Slot::Failed(cause),
            };
        }
    }

    /// What the registry holds: the shared handles, or the cause for which
    /// their construction failed, or `None` while nothing is published.
    pub fn current(&self) -> (held: Option<Result<&C, String>>)
        ensures
            match held {
                None => observed(self@) is None,
                Some(Ok(handles)) => observed(self@) == Some(Ok::<C, Seq<char>>(*handles)),
                Some(Err(cause)) => observed(self@) == Some(Err::<C, Seq<char>>(cause@)),
            },
    {
        match &self.slot {
            Slot::Empty => None,
            Slot::Ready(handles) => Some(Ok(handles)),
            Slot::Failed(cause) => Some(Err(cause.clone())),
        }
    }
}

} // verus!
