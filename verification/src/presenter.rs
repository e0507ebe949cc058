//! The texts a presenter shows for a snapshot.

use vstd::prelude::*;
use crate::clock::{chrono_format, format_timestamp};
use crate::types::{MediaInfo, MediaInfoView, StatusUpdate, StatusUpdateView, Timestamp};

verus! {

/// The strftime pattern of the clock text: hour and minute.
pub open spec fn clock_pattern() -> Seq<char> {
    "%H:%M"@
}

/// The strftime pattern of the date text: weekday, month and day of the month.
pub open spec fn date_pattern() -> Seq<char> {
    "%a %b %e"@
}

/// The one line that stands for a media session: a note sign and the title, followed by a dash
/// and the author where there is one.
pub open spec fn media_line(media: MediaInfoView) -> Seq<char> {
    match media.author {
        Some(author) => "♫ "@ + media.title + " - "@ + author,
        None => "♫ "@ + media.title,
    }
}

/// Everything on screen for one snapshot.
#[derive(Debug)]
pub struct Frame {
    pub clock: String,
    pub date: String,
    /// `None`: the media field is cleared and hidden.
    pub media: Option<String>,
}

/// The contents of a [`Frame`].
pub struct FrameView {
    pub clock: Seq<char>,
    pub date: Seq<char>,
    pub media: Option<Seq<char>>,
}

impl View for Frame {
    type V = FrameView;

    open spec fn view(&self) -> FrameView {
        FrameView { clock: self.clock@, date: self.date@, media: self.media.deep_view() }
    }
}

/// The contents of an optional [`Frame`].
pub open spec fn frame_view(frame: Option<Frame>) -> Option<FrameView> {
    match frame {
        Some(frame) => Some(frame@),
        None => None,
    }
}

/// The frame for a snapshot, given what the calendar wrote for its clock and date texts.
/// There is no frame where the calendar could not write one of them.
pub open spec fn frame_of(
    status: StatusUpdateView,
    clock: Option<Seq<char>>,
    date: Option<Seq<char>>,
) -> Option<FrameView> {
    match (clock, date) {
        (Some(clock), Some(date)) => Some(
            FrameView {
                clock,
                date,
                media: match status.media {
                    Some(media) => Some(media_line(media)),
                    None => None,
                },
            },
        ),
        _ => None,
    }
}

/// The media field for a session.
pub fn media_text(media: &MediaInfo) -> (text: String)
    ensures
        text@ == media_line(media@),
{
    let mut text = String::from_str("♫ ");
    text.append(media.title.as_str());
    match &media.author {
        Some(author) => {
            text.append(" - ");
            text.append(author.as_str());
        },
        None => {},
    }
    text
}

/// The clock field: hour and minute of `time` at its own offset.
pub fn clock_text(time: Timestamp) -> (text: Option<String>)
    ensures
        text.deep_view() == chrono_format(time.secs, time.nanos, time.offset, clock_pattern()),
{
    format_timestamp(time, "%H:%M")
}

/// The date field: weekday, month and day of `time` at its own offset.
pub fn date_text(time: Timestamp) -> (text: Option<String>)
    ensures
        text.deep_view() == chrono_format(time.secs, time.nanos, time.offset, date_pattern()),
{
    format_timestamp(time, "%a %b %e")
}

/// Puts a frame together from the two calendar texts and the snapshot's media.
pub fn compose(status: &StatusUpdate, clock: Option<String>, date: Option<String>) -> (frame: Option<
    Frame,
>)
    ensures
        frame_view(frame) == frame_of(status@, clock.deep_view(), date.deep_view()),
{
    match (clock, date) {
        (Some(clock), Some(date)) => {
            let media = match &status.media {
                Some(media) => Some(media_text(media)),
                None => None,
            };
            Some(Frame { clock, date, media })
        },
        _ => None,
    }
}

/// The frame for a snapshot: its clock and date texts and its media field.
pub fn render(status: &StatusUpdate) -> (frame: Option<Frame>)
    ensures
        frame_view(frame) == frame_of(
            status@,
            chrono_format(status.time.secs, status.time.nanos, status.time.offset, clock_pattern()),
            chrono_format(status.time.secs, status.time.nanos, status.time.offset, date_pattern()),
        ),
{
    let clock = clock_text(status.time);
    let date = date_text(status.time);
    compose(status, clock, date)
}

} // verus!
