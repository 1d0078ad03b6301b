//! The caches that one execution context keeps across capture calls: the
//! shareable-content handle, keyed by its exclusion flag, and the live
//! stream, keyed by display and size.  Neither expires; a mismatch replaces
//! the entry without tearing the old handle down.
use vstd::prelude::*;

verus! {

/// The key of a cached stream and whether it has been started.
pub struct StreamKey {
    pub display_id: u32,
    pub width: usize,
    pub height: usize,
    pub is_started: bool,
}

/// A stream handle with what it was made for.
pub struct StreamCache<S> {
    pub stream: S,
    pub display_id: u32,
    pub width: usize,
    pub height: usize,
    pub is_started: bool,
}

/// The one stream entry of an execution context.
pub struct StreamCacheSlot<S> {
    pub entry: Option<StreamCache<S>>,
}

/// The key of what a slot holds.
pub open spec fn slot_key<S>(entry: Option<StreamCache<S>>) -> Option<StreamKey> {
    match entry {
        Some(c) => Some(
            StreamKey {
                display_id: c.display_id,
                width: c.width,
                height: c.height,
                is_started: c.is_started,
            },
        ),
        None => None,
    }
}

/// A stream under `key` serves a request for (`display_id`, `width`,
/// `height`): it was made for exactly that and has been started.
pub open spec fn serves(key: Option<StreamKey>, display_id: u32, width: usize, height: usize) -> bool {
    match key {
        Some(k) => k.display_id == display_id && k.width == width && k.height == height
            && k.is_started,
        None => false,
    }
}

/// The key of a stream just made for a request, not yet started.
pub open spec fn registered_key(display_id: u32, width: usize, height: usize) -> StreamKey {
    StreamKey { display_id, width, height, is_started: false }
}

/// The key once the cached stream acknowledged its start.
pub open spec fn started(key: Option<StreamKey>) -> Option<StreamKey> {
    match key {
        Some(k) => Some(
            StreamKey { display_id: k.display_id, width: k.width, height: k.height, is_started: true },
        ),
        None => None,
    }
}

/// What a capture call does with the stream cache.
#[derive(Clone, Copy, Debug, PartialEq, Eq, Structural)]
pub enum StreamAction {
    /// Use the cached stream as it is.
    Reuse,
    /// Make a stream, `register` it, start it, and `mark_started` it.
    CreateAndStart,
}

/// The action for a request on a slot keyed `key`.
pub open spec fn stream_action(key: Option<StreamKey>, display_id: u32, width: usize, height: usize) -> StreamAction {
    if serves(key, display_id, width, height) {
        StreamAction::Reuse
    } else {
        StreamAction::CreateAndStart
    }
}

impl<S> StreamCacheSlot<S> {
    pub fn new() -> (r: StreamCacheSlot<S>)
        ensures
            r.entry is None,
    {
        StreamCacheSlot { entry: None }
    }

    /// What a capture call for the request does with this slot.
    pub fn next_stream_action(&self, display_id: u32, width: usize, height: usize) -> (r: StreamAction)
        ensures
            r == stream_action(slot_key(self.entry), display_id, width, height),
    {
        match &self.entry {
            Some(c) => {
                if c.display_id == display_id && c.width == width && c.height == height
                    && c.is_started {
                    StreamAction::Reuse
                } else {
                    StreamAction::CreateAndStart
                }
            },
            None => StreamAction::CreateAndStart,
        }
    }

    /// The cached stream when it serves the request; otherwise the caller
    /// makes a new one and registers it.
    pub fn reusable(&self, display_id: u32, width: usize, height: usize) -> (r: Option<&S>)
        ensures
            r is Some <==> serves(slot_key(self.entry), display_id, width, height),
            r matches Some(s) ==> *s == self.entry->Some_0.stream,
    {
        match &self.entry {
            Some(c) => {
                if c.display_id == display_id && c.width == width && c.height == height
                    && c.is_started {
                    Some(&c.stream)
                } else {
                    None
                }
            },
            None => None,
        }
    }

    /// Puts a newly made stream in place of whatever was cached, as not yet started.
    pub fn register(&mut self, stream: S, display_id: u32, width: usize, height: usize)
        ensures
            slot_key(final(self).entry) == Some(registered_key(display_id, width, height)),
            final(self).entry matches Some(c) && c.stream == stream,
    {
        self.entry = Some(StreamCache { stream, display_id, width, height, is_started: false });
    }

    /// Records that the cached stream acknowledged its start.
    pub fn mark_started(&mut self)
        ensures
            slot_key(final(self).entry) == started(slot_key(old(self).entry)),
            old(self).entry matches Some(c) ==> final(self).entry matches Some(d) && d.stream == c.stream,
    {
        let entry = self.entry.take();
        self.entry = match entry {
            Some(c) => Some(
                StreamCache {
                    stream: c.stream,
                    display_id: c.display_id,
                    width: c.width,
                    height: c.height,
                    is_started: true,
                },
            ),
            None => None,
        };
    }
}

/// One capture call's stream step on a slot keyed `key`, whose stream starts
/// when asked: the key that the calls of its action leave (`register` then
/// `mark_started` for a new stream), and how many streams it created and
/// started.
pub open spec fn stream_step(key: Option<StreamKey>, display_id: u32, width: usize, height: usize) -> (Option<StreamKey>, nat, nat) {
    match stream_action(key, display_id, width, height) {
        StreamAction::Reuse => (key, 0, 0),
        StreamAction::CreateAndStart => (started(Some(registered_key(display_id, width, height))), 1, 1),
    }
}

/// From an empty slot, two capture calls with the same display and size
/// create and start exactly one stream between them; a third call with
/// another size creates and starts one more.
pub proof fn lemma_stream_reuse(display_id: u32, width: usize, height: usize, other_width: usize, other_height: usize)
    requires
        (other_width, other_height) != (width, height),
    ensures
        ({
            let first = stream_step(None, display_id, width, height);
            let second = stream_step(first.0, display_id, width, height);
            let third = stream_step(second.0, display_id, other_width, other_height);
            &&& stream_action(None, display_id, width, height) == StreamAction::CreateAndStart
            &&& stream_action(first.0, display_id, width, height) == StreamAction::Reuse
            &&& stream_action(second.0, display_id, other_width, other_height)
                == StreamAction::CreateAndStart
            &&& first.1 + second.1 == 1
            &&& first.2 + second.2 == 1
            &&& third.1 == 1
            &&& third.2 == 1
        }),
{
}

/// The one shareable-content entry of an execution context, with the
/// exclusion flag it was fetched for.
pub struct ContentCache<C> {
    pub entry: Option<(C, bool)>,
}

impl<C> ContentCache<C> {
    pub fn new() -> (r: ContentCache<C>)
        ensures
            r.entry is None,
    {
        ContentCache { entry: None }
    }

    /// The cached content when it was fetched with the same exclusion flag.
    pub fn get(&self, excluding_desktop_windows: bool) -> (r: Option<&C>)
        ensures
            r is Some <==> (self.entry matches Some(e) && e.1 == excluding_desktop_windows),
            r matches Some(c) ==> *c == self.entry->Some_0.0,
    {
        match &self.entry {
            Some(e) => {
                if e.1 == excluding_desktop_windows {
                    Some(&e.0)
                } else {
                    None
                }
            },
            None => None,
        }
    }

    /// Keeps freshly fetched content in place of whatever was cached.
    pub fn store(&mut self, content: C, excluding_desktop_windows: bool)
        ensures
            final(self).entry == Some((content, excluding_desktop_windows)),
    {
        self.entry = Some((content, excluding_desktop_windows));
    }
}

} // verus!
