use vstd::prelude::*;

use crate::deep_link::{
    arg_views, find_startup_deep_link, first_deep_link_from, is_deep_link, opt_view,
    startup_deep_link,
};

verus! {

/// A single slot holding a deep link captured before the interface could receive it.
///
/// Exclusive access (`&mut`) serialises writers and readers; a process that shares the
/// store between threads keeps it behind a lock.
pub struct PendingDeepLink {
    slot: Option<String>,
}

impl View for PendingDeepLink {
    type V = Option<Seq<char>>;

    closed spec fn view(&self) -> Option<Seq<char>> {
        opt_view(self.slot)
    }
}

/// The slot after a link is stored: the link, whatever was there before.
pub open spec fn slot_after_set(prev: Option<Seq<char>>, link: Seq<char>) -> Option<Seq<char>> {
    Some(link)
}

/// What a take returns, and the slot it leaves behind.
pub open spec fn take_outcome(prev: Option<Seq<char>>) -> (Option<Seq<char>>, Option<Seq<char>>) {
    (prev, None)
}

/// The slot after the startup arguments are scanned: the link found, else the slot unchanged.
pub open spec fn slot_after_capture(prev: Option<Seq<char>>, args: Seq<Seq<char>>) -> Option<
    Seq<char>,
> {
    match startup_deep_link(args) {
        Some(link) => slot_after_set(prev, link),
        None => prev,
    }
}

impl PendingDeepLink {
    /// An empty store.
    pub fn new() -> (r: Self)
        ensures
            r@ == None::<Seq<char>>,
    {
        PendingDeepLink { slot: None }
    }

    /// Stores `link`, replacing any link held before.
    pub fn set(&mut self, link: String)
        ensures
            final(self)@ == slot_after_set(old(self)@, link@),
            final(self)@ == Some(link@),
    {
        self.slot = Some(link);
    }

    /// Returns the stored link, if any, and leaves the store empty.
    pub fn take(&mut self) -> (r: Option<String>)
        ensures
            (opt_view(r), final(self)@) == take_outcome(old(self)@),
            opt_view(r) == old(self)@,
            final(self)@ == None::<Seq<char>>,
    {
        self.slot.take()
    }
}

impl Default for PendingDeepLink {
    fn default() -> (r: Self)
        ensures
            r@ == None::<Seq<char>>,
    {
        PendingDeepLink::new()
    }
}

/// Scans a launch's arguments, skipping the executable path, and stores the first
/// argument whose lower-case form starts with the deep-link scheme. Stores nothing
/// when there is no such argument.
pub fn capture_startup_deep_link(store: &mut PendingDeepLink, args: &Vec<String>)
    ensures
        final(store)@ == slot_after_capture(old(store)@, arg_views(args@)),
{
    match find_startup_deep_link(args) {
        Some(link) => store.set(link),
        None => {},
    }
}

/// With no argument beyond the executable path, capturing leaves the store as it was,
/// so an empty store stays empty.
pub proof fn lemma_no_arguments_store_nothing(prev: Option<Seq<char>>, args: Seq<Seq<char>>)
    requires
        args.len() <= 1,
    ensures
        slot_after_capture(prev, args) == prev,
        slot_after_capture(None, args) == None::<Seq<char>>,
{
}

/// When some argument after the executable path is a deep link, capturing stores the
/// first such argument; the next take returns it, and every take after that returns
/// nothing until another link is stored.
pub proof fn lemma_captured_link_taken_once(
    prev: Option<Seq<char>>,
    args: Seq<Seq<char>>,
    i: int,
)
    requires
        1 <= i < args.len(),
        is_deep_link(args[i]),
        forall|j: int| 1 <= j < i ==> !is_deep_link(#[trigger] args[j]),
    ensures
        slot_after_capture(prev, args) == Some(args[i]),
        take_outcome(slot_after_capture(prev, args)) == (Some(args[i]), None::<Seq<char>>),
        take_outcome(take_outcome(slot_after_capture(prev, args)).1) == (
            None::<Seq<char>>,
            None::<Seq<char>>,
        ),
{
    lemma_first_deep_link_from(args, 1, i);
}

/// Scanning from `k` finds the deep link at `i` when none stands in `k..i`.
proof fn lemma_first_deep_link_from(args: Seq<Seq<char>>, k: int, i: int)
    requires
        1 <= k <= i < args.len(),
        is_deep_link(args[i]),
        forall|j: int| k <= j < i ==> !is_deep_link(#[trigger] args[j]),
    ensures
        first_deep_link_from(args, k) == Some(args[i]),
    decreases i - k,
{
    if k < i {
        assert(!is_deep_link(args[k]));
        lemma_first_deep_link_from(args, k + 1, i);
    }
}

/// Storing a link and then taking returns that link and leaves the store empty, so a
/// second take returns nothing.
pub proof fn lemma_set_then_take(prev: Option<Seq<char>>, link: Seq<char>)
    ensures
        take_outcome(slot_after_set(prev, link)) == (Some(link), None::<Seq<char>>),
        take_outcome(take_outcome(slot_after_set(prev, link)).1).0 == None::<Seq<char>>,
{
}

} // verus!
