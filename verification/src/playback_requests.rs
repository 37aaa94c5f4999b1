use std::sync::mpsc::Receiver;

use vstd::prelude::*;

use crate::channel::{lemma_received, receive, received};

verus! {

/// A request written on an RFID tag or typed on the console.
#[derive(Debug, Clone, PartialEq, Eq)]
pub enum PlaybackRequest {
    SpotifyUri(String),
}

impl View for PlaybackRequest {
    type V = Seq<char>;

    open spec fn view(&self) -> Seq<char> {
        match self {
            PlaybackRequest::SpotifyUri(uri) => uri@,
        }
    }
}

/// The value of an optional request.
pub open spec fn request_view(req: Option<PlaybackRequest>) -> Option<Seq<char>> {
    match req {
        Some(r) => Some(r@),
        None => None,
    }
}

/// The value of an optional tag UID.
pub open spec fn uid_view(uid: Option<String>) -> Option<Seq<char>> {
    match uid {
        Some(u) => Some(u@),
        None => None,
    }
}

/// Whether two optional requests are equal.
pub fn same_request(a: &Option<PlaybackRequest>, b: &Option<PlaybackRequest>) -> (r: bool)
    ensures
        r == (request_view(*a) == request_view(*b)),
{
    match (a, b) {
        (Some(PlaybackRequest::SpotifyUri(x)), Some(PlaybackRequest::SpotifyUri(y))) => *x == *y,
        (None, None) => true,
        _ => false,
    }
}

/// Whether a request is transmitted after `last`, and the request
/// remembered afterwards.
pub open spec fn dedup_step(last: Option<PlaybackRequest>, req: Option<PlaybackRequest>) -> (
    bool,
    Option<PlaybackRequest>,
) {
    (request_view(last) != request_view(req), req)
}

/// A request equal to the one before it is not transmitted again.
pub proof fn repeated_request_is_not_sent(
    last: Option<PlaybackRequest>,
    req: Option<PlaybackRequest>,
    again: Option<PlaybackRequest>,
)
    requires
        request_view(again) == request_view(req),
    ensures
        !dedup_step(dedup_step(last, req).1, again).0,
{
}

/// Passes on a stream of optional requests only where it changes.
#[derive(Debug, Clone)]
pub struct RequestDedup {
    last: Option<PlaybackRequest>,
}

impl RequestDedup {
    /// The request seen last.
    pub closed spec fn last(&self) -> Option<PlaybackRequest> {
        self.last
    }

    pub fn new() -> (r: Self)
        ensures
            r.last() is None,
    {
        RequestDedup { last: None }
    }

    /// Records `req` and tells whether it differs from the request before
    /// it, i.e. whether it is to be transmitted.
    pub fn observe(&mut self, req: Option<PlaybackRequest>) -> (send: bool)
        ensures
            (send, final(self).last()) == dedup_step(old(self).last(), req),
    {
        let send = !same_request(&self.last, &req);
        self.last = req;
        send
    }
}

/// What reading the RFID reader gave.
#[derive(Debug, Clone)]
pub enum TagEvent {
    /// The reader failed.
    Unreadable,
    /// No tag is on the reader.
    Absent,
    /// A tag with this UID is on the reader.
    Present(String),
}

/// What to do after reading the RFID reader.
#[derive(Debug, Clone, PartialEq, Eq)]
pub enum TagAction {
    /// Nothing changed; try again.
    Retry,
    /// The tag that was there is gone: playback is to stop.
    TagRemoved,
    /// A new tag is there: read its request and report with `tag_handled`.
    ReadTag(String),
    /// The same tag is still there: wait until it is removed.
    AwaitRemoval,
}

/// The action for what the reader gave after the tag `last_uid` was seen,
/// and the tag seen afterwards.
pub open spec fn tag_step(last_uid: Option<String>, event: TagEvent) -> (TagAction, Option<String>) {
    match event {
        TagEvent::Unreadable => (TagAction::Retry, last_uid),
        TagEvent::Absent => (
            if last_uid is Some {
                TagAction::TagRemoved
            } else {
                TagAction::Retry
            },
            None,
        ),
        TagEvent::Present(uid) => (
            if uid_view(last_uid) == Some(uid@) {
                TagAction::AwaitRemoval
            } else {
                TagAction::ReadTag(uid)
            },
            last_uid,
        ),
    }
}

/// The tag seen after handling the tag `uid`.
pub open spec fn handled_step(last_uid: Option<String>, uid: String, transmitted: bool) -> Option<
    String,
> {
    if transmitted {
        Some(uid)
    } else {
        last_uid
    }
}

/// Once the request of a tag has been transmitted, the tag is not read again
/// while it stays on the reader.
pub proof fn handled_tag_is_not_read_again(last_uid: Option<String>, uid: String, again: String)
    requires
        again@ == uid@,
    ensures
        tag_step(handled_step(last_uid, uid, true), TagEvent::Present(again)).0
            == TagAction::AwaitRemoval,
{
}

/// A tag whose request could not be transmitted is read again.
pub proof fn unhandled_tag_is_read_again(last_uid: Option<String>, uid: String)
    requires
        uid_view(last_uid) != Some(uid@),
    ensures
        tag_step(handled_step(last_uid, uid, false), TagEvent::Present(uid)).0 == TagAction::ReadTag(
            uid,
        ),
{
}

/// The removal of a tag is reported once, and a tag put back afterwards is
/// read again.
pub proof fn removal_is_reported_once(last_uid: Option<String>, uid: String)
    requires
        last_uid is Some,
    ensures
        tag_step(last_uid, TagEvent::Absent).0 == TagAction::TagRemoved,
        tag_step(tag_step(last_uid, TagEvent::Absent).1, TagEvent::Absent).0 == TagAction::Retry,
        tag_step(tag_step(last_uid, TagEvent::Absent).1, TagEvent::Present(uid)).0
            == TagAction::ReadTag(uid),
{
}

/// A failing reader changes nothing.
pub proof fn unreadable_changes_nothing(last_uid: Option<String>)
    ensures
        tag_step(last_uid, TagEvent::Unreadable) == (TagAction::Retry, last_uid),
{
}

/// Follows which tag is on the RFID reader.
#[derive(Debug, Clone)]
pub struct TagTracker {
    last_uid: Option<String>,
}

impl TagTracker {
    /// The UID of the tag whose request was last handled, while it is there.
    pub closed spec fn last_uid(&self) -> Option<String> {
        self.last_uid
    }

    pub fn new() -> (r: Self)
        ensures
            r.last_uid() is None,
    {
        TagTracker { last_uid: None }
    }

    /// Whether the reader is to be probed for a newly placed card: while no
    /// tag is known.  While a tag is known, the reader reads it directly.
    pub fn probes_for_new_card(&self) -> (r: bool)
        ensures
            r == (self.last_uid() is None),
    {
        self.last_uid.is_none()
    }

    /// Decides what to do about what the reader gave.
    pub fn observe(&mut self, event: TagEvent) -> (action: TagAction)
        ensures
            (action, final(self).last_uid()) == tag_step(old(self).last_uid(), event),
    {
        match event {
            TagEvent::Unreadable => TagAction::Retry,
            TagEvent::Absent => {
                if self.last_uid.is_some() {
                    self.last_uid = None;
                    TagAction::TagRemoved
                } else {
                    TagAction::Retry
                }
            },
            TagEvent::Present(uid) => {
                let same = match &self.last_uid {
                    Some(last) => *last == uid,
                    None => false,
                };
                if same {
                    TagAction::AwaitRemoval
                } else {
                    TagAction::ReadTag(uid)
                }
            },
        }
    }

    /// Records the outcome of handling the tag with `uid`: once its request
    /// has been transmitted, the tag counts as seen.
    pub fn tag_handled(&mut self, uid: String, transmitted: bool)
        ensures
            final(self).last_uid() == handled_step(old(self).last_uid(), uid, transmitted),
    {
        if transmitted {
            self.last_uid = Some(uid);
        }
    }
}

/// The requests produced by a transmitter running in another thread.
#[verifier::reject_recursive_types(T)]
pub struct PlaybackRequests<T> {
    rx: Receiver<Option<T>>,
}

impl<T> PlaybackRequests<T> {
    pub closed spec fn receiver(&self) -> Receiver<Option<T>> {
        self.rx
    }

    /// The requests arriving on `rx`.
    pub fn new(rx: Receiver<Option<T>>) -> (r: Self)
        ensures
            r.receiver() == rx,
    {
        PlaybackRequests { rx }
    }

    /// The next request, or `None` once the transmitter is gone.
    pub fn next(&mut self) -> (r: Option<Option<T>>)
        ensures
            final(self).receiver() == old(self).receiver(),
            received(old(self).receiver(), r),
    {
        let r = receive(&self.rx);
        proof {
            lemma_received(&self.rx, r);
        }
        r
    }
}

} // verus!
