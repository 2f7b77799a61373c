//! Translation of platform open-files / open-urls requests into outbound
//! events, and the destination queue they are appended to.
//!
//! A files request carries candidate paths, each already probed for
//! existence by the platform-binding layer; only the existing ones are kept,
//! in input order, and an empty result suppresses the event and makes the
//! request fail. A urls request is never filtered and always produces an
//! event, even for an empty batch — the two notifications are deliberately
//! not symmetric.

use vstd::prelude::*;

verus! {

/// One candidate from an open-files request: the path the platform handed
/// over, and whether a filesystem entry of that name existed when the
/// platform-binding layer probed for it.
pub struct FileCandidate {
    pub path: String,
    pub exists: bool,
}

/// The views of a sequence of owned strings.
pub open spec fn path_views(s: Seq<String>) -> Seq<Seq<char>> {
    s.map_values(|p: String| p@)
}

/// The paths of the candidates that exist, in input order.
pub open spec fn kept_paths(s: Seq<FileCandidate>) -> Seq<Seq<char>>
    decreases s.len(),
{
    if s.len() == 0 {
        Seq::empty()
    } else {
        let rest = kept_paths(s.drop_last());
        if s.last().exists {
            rest.push(s.last().path@)
        } else {
            rest
        }
    }
}

/// Some candidate exists exactly when the filtered sequence is non-empty.
pub proof fn lemma_kept_paths_nonempty(s: Seq<FileCandidate>)
    ensures
        (kept_paths(s).len() != 0) <==> (exists|i: int|
            0 <= i < s.len() && (#[trigger] s[i]).exists),
    decreases s.len(),
{
    if s.len() != 0 {
        lemma_kept_paths_nonempty(s.drop_last());
        if s.last().exists {
            assert(s[s.len() - 1].exists);
        } else {
            if exists|i: int| 0 <= i < s.len() && (#[trigger] s[i]).exists {
                let i = choose|i: int| 0 <= i < s.len() && (#[trigger] s[i]).exists;
                assert(s.drop_last()[i].exists);
            }
        }
    }
}

/// The single outbound event shared by the files and urls translation
/// paths: an ordered batch of path strings (urls travel in their string
/// form, not distinguished structurally at this boundary).
pub enum OutboundEvent {
    OpenPathsEvent(Vec<String>),
}

impl View for OutboundEvent {
    type V = Seq<Seq<char>>;

    closed spec fn view(&self) -> Seq<Seq<char>> {
        match self {
            OutboundEvent::OpenPathsEvent(items) => path_views(items@),
        }
    }
}

impl OutboundEvent {
    /// The items carried by the event, in order.
    pub fn items(&self) -> (r: &Vec<String>)
        ensures
            path_views(r@) == self@,
    {
        match self {
            OutboundEvent::OpenPathsEvent(items) => items,
        }
    }
}

/// The destination queue: an append-only, ordering-preserving sequence of
/// outbound events, drained by the run loop on the other side of the
/// bridge.
pub struct EventQueue {
    events: Vec<OutboundEvent>,
}

impl View for EventQueue {
    type V = Seq<Seq<Seq<char>>>;

    closed spec fn view(&self) -> Seq<Seq<Seq<char>>> {
        self.events@.map_values(|e: OutboundEvent| e@)
    }
}

impl EventQueue {
    /// An empty queue.
    pub fn new() -> (q: Self)
        ensures
            q@ == Seq::<Seq<Seq<char>>>::empty(),
    {
        let q = EventQueue { events: Vec::new() };
        proof {
            assert(q@ =~= Seq::<Seq<Seq<char>>>::empty());
        }
        q
    }

    /// How many events are queued.
    pub fn len(&self) -> (n: usize)
        ensures
            n == self@.len(),
    {
        self.events.len()
    }

    /// Non-blocking, ordering-preserving append.
    pub fn enqueue(&mut self, event: OutboundEvent)
        ensures
            final(self)@ == old(self)@.push(event@),
    {
        let ghost ev: Seq<Seq<char>> = event@;
        self.events.push(event);
        proof {
            assert(final(self)@ =~= old(self)@.push(ev));
        }
    }

    /// Hand the queued events out, in the order they were enqueued,
    /// consuming the queue.
    pub fn into_events(self) -> (events: Vec<OutboundEvent>)
        ensures
            events@.map_values(|e: OutboundEvent| e@) == self@,
    {
        let EventQueue { events } = self;
        events
    }
}

/// Keep, in input order, the paths of the candidates that exist.
pub fn filter_existing(items: &Vec<FileCandidate>) -> (kept: Vec<String>)
    ensures
        path_views(kept@) == kept_paths(items@),
{
    let mut kept: Vec<String> = Vec::new();
    let mut i: usize = 0;
    while i < items.len()
        invariant
            i <= items@.len(),
            path_views(kept@) == kept_paths(items@.take(i as int)),
        decreases items@.len() - i,
    {
        proof {
            assert(items@.take(i + 1).drop_last() =~= items@.take(i as int));
            assert(items@.take(i + 1).last() == items@[i as int]);
        }
        if items[i].exists {
            let ghost before: Seq<String> = kept@;
            kept.push(items[i].path.clone());
            proof {
                assert(path_views(kept@) =~= path_views(before).push(items@[i as int].path@));
            }
        }
        i = i + 1;
    }
    proof {
        assert(items@.take(items@.len() as int) =~= items@);
    }
    kept
}

/// Translate an open-files request: keep only the candidates that exist,
/// preserving order; accept the request exactly when something is kept, and
/// produce the event only then. The caller acknowledges the platform
/// synchronously from the accepted flag.
pub fn translate_open_files(items: &Vec<FileCandidate>) -> (r: (bool, Option<OutboundEvent>))
    ensures
        r.0 == (kept_paths(items@).len() != 0),
        r.0 == (exists|i: int| 0 <= i < items@.len() && (#[trigger] items@[i]).exists),
        (match r.1 {
            Some(event) => r.0 && event@ == kept_paths(items@),
            None => !r.0,
        }),
{
    proof {
        lemma_kept_paths_nonempty(items@);
    }
    let kept = filter_existing(items);
    if kept.len() == 0 {
        (false, None)
    } else {
        (true, Some(OutboundEvent::OpenPathsEvent(kept)))
    }
}

/// Translate an open-urls request: no filtering, and an event is produced
/// even for an empty batch — there is no failure acknowledgement for this
/// notification.
pub fn translate_open_urls(urls: Vec<String>) -> (event: OutboundEvent)
    ensures
        event@ == path_views(urls@),
{
    OutboundEvent::OpenPathsEvent(urls)
}

} // verus!
