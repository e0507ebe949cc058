//! The records that travel from the poller to the presenter.

use vstd::prelude::*;

verus! {

/// A point in time as the local clock gave it: an instant and the local offset from UTC
/// that was in force at that instant.
#[derive(Clone, Copy, Debug, PartialEq, Eq, Structural)]
pub struct Timestamp {
    /// Whole non-leap seconds since 1970-01-01 00:00:00 UTC.
    pub secs: i64,
    /// Nanoseconds since the last second boundary; a leap second counts on past 999,999,999.
    pub nanos: u32,
    /// Seconds to add to UTC to get local time.
    pub offset: i32,
}

impl Timestamp {
    /// `self` is the same instant as `later`, or an earlier one. The offset plays no part.
    pub open spec fn not_after(self, later: Timestamp) -> bool {
        self.secs < later.secs || (self.secs == later.secs && self.nanos <= later.nanos)
    }

    /// Decides [`Timestamp::not_after`].
    pub fn is_not_after(&self, later: &Timestamp) -> (r: bool)
        ensures
            r == self.not_after(*later),
    {
        self.secs < later.secs || (self.secs == later.secs && self.nanos <= later.nanos)
    }
}

/// `not_after` orders timestamps as instants: every timestamp is not after itself, of two
/// timestamps one is not after the other, and the order carries over a timestamp in between.
pub proof fn law_not_after_orders_instants(a: Timestamp, b: Timestamp, c: Timestamp)
    ensures
        a.not_after(a),
        a.not_after(b) || b.not_after(a),
        a.not_after(b) && b.not_after(c) ==> a.not_after(c),
        a.not_after(b) && b.not_after(a) ==> a.secs == b.secs && a.nanos == b.nanos,
{
}

/// What is known of the media session that is currently active.
#[derive(Debug)]
pub struct MediaInfo {
    pub title: String,
    /// Up to three contributors, joined; `None` when the session lists none.
    pub author: Option<String>,
    pub application: String,
}

/// The contents of a [`MediaInfo`].
pub struct MediaInfoView {
    pub title: Seq<char>,
    pub author: Option<Seq<char>>,
    pub application: Seq<char>,
}

impl View for MediaInfo {
    type V = MediaInfoView;

    open spec fn view(&self) -> MediaInfoView {
        MediaInfoView {
            title: self.title@,
            author: self.author.deep_view(),
            application: self.application@,
        }
    }
}

impl Clone for MediaInfo {
    fn clone(&self) -> (copy: MediaInfo)
        ensures
            copy@ == self@,
    {
        let author = match &self.author {
            Some(names) => Some(names.clone()),
            None => None,
        };
        MediaInfo { title: self.title.clone(), author, application: self.application.clone() }
    }
}

/// The contents of an optional [`MediaInfo`].
pub open spec fn media_view(media: Option<MediaInfo>) -> Option<MediaInfoView> {
    match media {
        Some(info) => Some(info@),
        None => None,
    }
}

/// Copies an optional [`MediaInfo`].
pub fn clone_media(media: &Option<MediaInfo>) -> (copy: Option<MediaInfo>)
    ensures
        media_view(copy) == media_view(*media),
{
    match media {
        Some(info) => Some(info.clone()),
        None => None,
    }
}

/// One snapshot: the time it was taken and the media session as last queried.
#[derive(Debug)]
pub struct StatusUpdate {
    pub time: Timestamp,
    /// `None` when no session could be queried; never partly filled.
    pub media: Option<MediaInfo>,
}

/// The contents of a [`StatusUpdate`].
pub struct StatusUpdateView {
    pub time: Timestamp,
    pub media: Option<MediaInfoView>,
}

impl View for StatusUpdate {
    type V = StatusUpdateView;

    open spec fn view(&self) -> StatusUpdateView {
        StatusUpdateView { time: self.time, media: media_view(self.media) }
    }
}

} // verus!
