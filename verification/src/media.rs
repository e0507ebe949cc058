//! From an answer of the media session service to a [`MediaInfo`].

use vstd::prelude::*;
use crate::types::{MediaInfo, MediaInfoView};

verus! {

/// At most this many contributors are named.
pub const MAX_CONTRIBUTORS: usize = 3;

/// What a session reports of the track it plays.
#[derive(Debug)]
pub struct SessionMetadata {
    pub title: Option<String>,
    /// The contributors in the order the session lists them; `None` when it has no such field.
    pub contributors: Option<Vec<String>>,
}

/// The contents of a [`SessionMetadata`].
pub struct SessionMetadataView {
    pub title: Option<Seq<char>>,
    pub contributors: Option<Seq<Seq<char>>>,
}

impl View for SessionMetadata {
    type V = SessionMetadataView;

    open spec fn view(&self) -> SessionMetadataView {
        SessionMetadataView {
            title: self.title.deep_view(),
            contributors: self.contributors.deep_view(),
        }
    }
}

/// The answer to one query of the session service.
#[derive(Debug)]
pub enum SessionProbe {
    /// The service could not be reached.
    NoSessionService,
    /// The service was reached and nothing is playing.
    NoActiveSession,
    /// A session is active and would not give its metadata.
    MetadataUnavailable,
    /// A session is active and reported this.
    Found(SessionMetadata),
}

/// The contents of a [`SessionProbe`].
pub enum SessionProbeView {
    NoSessionService,
    NoActiveSession,
    MetadataUnavailable,
    Found(SessionMetadataView),
}

impl View for SessionProbe {
    type V = SessionProbeView;

    open spec fn view(&self) -> SessionProbeView {
        match self {
            SessionProbe::NoSessionService => SessionProbeView::NoSessionService,
            SessionProbe::NoActiveSession => SessionProbeView::NoActiveSession,
            SessionProbe::MetadataUnavailable => SessionProbeView::MetadataUnavailable,
            SessionProbe::Found(metadata) => SessionProbeView::Found(metadata@),
        }
    }
}

/// Why a query gave no media.
#[derive(Clone, Copy, Debug, PartialEq, Eq, Structural)]
pub enum MediaError {
    NoSessionService,
    NoActiveSession,
    MetadataUnavailable,
}

impl MediaError {
    /// A short description for a diagnostic stream.
    pub fn message(&self) -> (text: &'static str)
        ensures
            text@ == match *self {
                MediaError::NoSessionService => "Failed to open D-Bus connection"@,
                MediaError::NoActiveSession => "No players found"@,
                MediaError::MetadataUnavailable => "Metadata not found"@,
            },
    {
        match self {
            MediaError::NoSessionService => "Failed to open D-Bus connection",
            MediaError::NoActiveSession => "No players found",
            MediaError::MetadataUnavailable => "Metadata not found",
        }
    }
}

/// The title shown for a session that reports none.
pub open spec fn unknown_title() -> Seq<char> {
    "Unknown"@
}

/// The label of the application behind the session.
pub open spec fn application_label() -> Seq<char> {
    "Idk"@
}

/// What stands between two contributors.
pub open spec fn separator() -> Seq<char> {
    ", "@
}

/// `parts` written one after the other with `sep` between neighbours.
pub open spec fn join(parts: Seq<Seq<char>>, sep: Seq<char>) -> Seq<char>
    decreases parts.len(),
{
    if parts.len() == 0 {
        Seq::empty()
    } else if parts.len() == 1 {
        parts[0]
    } else {
        join(parts.drop_last(), sep) + sep + parts.last()
    }
}

/// The first `MAX_CONTRIBUTORS` of `contributors`, or all of them where there are fewer.
pub open spec fn leading(contributors: Seq<Seq<char>>) -> Seq<Seq<char>> {
    if contributors.len() <= MAX_CONTRIBUTORS {
        contributors
    } else {
        contributors.take(MAX_CONTRIBUTORS as int)
    }
}

/// The author line for a list of contributors.
pub open spec fn author_line(contributors: Seq<Seq<char>>) -> Seq<char> {
    join(leading(contributors), separator())
}

/// The media record that a session's metadata gives.
pub open spec fn media_of(metadata: SessionMetadataView) -> MediaInfoView {
    MediaInfoView {
        title: match metadata.title {
            Some(title) => title,
            None => unknown_title(),
        },
        author: match metadata.contributors {
            Some(names) => Some(author_line(names)),
            None => None,
        },
        application: application_label(),
    }
}

/// What a probe amounts to: the media record, or the reason there is none.
pub open spec fn probe_outcome(probe: SessionProbeView) -> Result<MediaInfoView, MediaError> {
    match probe {
        SessionProbeView::NoSessionService => Err(MediaError::NoSessionService),
        SessionProbeView::NoActiveSession => Err(MediaError::NoActiveSession),
        SessionProbeView::MetadataUnavailable => Err(MediaError::MetadataUnavailable),
        SessionProbeView::Found(metadata) => Ok(media_of(metadata)),
    }
}

/// The media a probe leaves in the poller's cache: every failure is just "no media".
pub open spec fn probe_media(probe: SessionProbeView) -> Option<MediaInfoView> {
    match probe_outcome(probe) {
        Ok(info) => Some(info),
        Err(_) => None,
    }
}

/// The author line names the first three contributors and no others: one contributor stands
/// alone, two or three are joined by the separator, and whoever comes after the third is
/// left out.
pub proof fn law_author_line_names_the_first_three(names: Seq<Seq<char>>)
    ensures
        names.len() == 0 ==> author_line(names) == Seq::<char>::empty(),
        names.len() == 1 ==> author_line(names) == names[0],
        names.len() == 2 ==> author_line(names) == names[0] + separator() + names[1],
        names.len() >= 3 ==> author_line(names) == names[0] + separator() + names[1]
            + separator() + names[2],
{
    let sep = separator();
    let first = leading(names);
    if first.len() >= 2 {
        let pair = first.take(2);
        assert(pair.drop_last().len() == 1);
        assert(pair.drop_last()[0] == names[0]);
        assert(join(pair.drop_last(), sep) == names[0]);
        assert(pair.last() == names[1]);
        assert(join(pair, sep) == names[0] + sep + names[1]);
        if first.len() == 2 {
            assert(first == pair);
        } else {
            assert(first.drop_last() == pair);
            assert(first.last() == names[2]);
        }
    }
}

/// A probe leaves no media exactly when it is one of the three failures. A session that was
/// found always gives a whole record.
pub proof fn law_no_media_exactly_on_failure(probe: SessionProbeView)
    ensures
        probe_media(probe) is None <==> !(probe is Found),
        probe matches SessionProbeView::Found(metadata) ==> probe_media(probe) == Some(
            media_of(metadata),
        ),
{
}

/// Joins the first three contributors with `", "`.
pub fn join_contributors(contributors: &Vec<String>) -> (line: String)
    ensures
        line@ == author_line(contributors.deep_view()),
{
    let ghost names = contributors.deep_view();
    let count: usize = if contributors.len() <= MAX_CONTRIBUTORS {
        contributors.len()
    } else {
        MAX_CONTRIBUTORS
    };
    let mut line = String::new();
    let mut i: usize = 0;
    while i < count
        invariant
            i <= count,
            count <= contributors.len(),
            count == leading(names).len(),
            names == contributors.deep_view(),
            line@ == join(leading(names).take(i as int), separator()),
        decreases count - i,
    {
        let ghost done = leading(names).take(i as int);
        let ghost next = leading(names).take(i + 1);
        proof {
            assert(next.drop_last() == done);
            assert(next.last() == names[i as int]);
            assert(contributors[i as int]@ == names[i as int]);
        }
        if i > 0 {
            line.append(", ");
        }
        line.append(contributors[i].as_str());
        i = i + 1;
    }
    proof {
        assert(leading(names).take(count as int) == leading(names));
    }
    line
}

/// Folds the answer of the session service into a media record.
///
/// A reachable, active session that gives its metadata always yields a record: the title it
/// reports or `"Unknown"`, its first three contributors joined with `", "` (no author where
/// it lists none), and the application label. Every other answer is an error that names it.
pub fn get_media_info(probe: SessionProbe) -> (outcome: Result<MediaInfo, MediaError>)
    ensures
        match outcome {
            Ok(info) => probe_outcome(probe@) == Ok::<MediaInfoView, MediaError>(info@),
            Err(reason) => probe_outcome(probe@) == Err::<MediaInfoView, MediaError>(reason),
        },
{
    match probe {
        SessionProbe::NoSessionService => Err(MediaError::NoSessionService),
        SessionProbe::NoActiveSession => Err(MediaError::NoActiveSession),
        SessionProbe::MetadataUnavailable => Err(MediaError::MetadataUnavailable),
        SessionProbe::Found(metadata) => {
            let author = match &metadata.contributors {
                Some(names) => Some(join_contributors(names)),
                None => None,
            };
            let title = match metadata.title {
                Some(title) => title,
                None => String::from_str("Unknown"),
            };
            Ok(MediaInfo { title, author, application: String::from_str("Idk") })
        },
    }
}

} // verus!
