use vstd::prelude::*;

verus! {

/// The text of an optional string.
pub open spec fn text_of(value: Option<String>) -> Option<Seq<char>> {
    match value {
        Some(text) => Some(text@),
        None => None,
    }
}

/// Whether two optional strings are both absent or hold the same text.
pub fn same_text(a: &Option<String>, b: &Option<String>) -> (r: bool)
    ensures
        r == (text_of(*a) == text_of(*b)),
{
    match (a, b) {
        (Some(x), Some(y)) => *x == *y,
        (None, None) => true,
        _ => false,
    }
}

/// A copy of an optional string.
pub fn copy_text(value: &Option<String>) -> (r: Option<String>)
    ensures
        text_of(r) == text_of(*value),
{
    match value {
        Some(text) => Some(text.clone()),
        None => None,
    }
}

/// Provides information about media being played on the computer. What is
/// unknown, for want of a media session, is absent; that is not the same as
/// a session that is paused.
pub trait MediaProvider {
    /// The name of the current track, if available.
    spec fn title(&self) -> Option<Seq<char>>;

    /// The artist of the current track, if available.
    spec fn performer(&self) -> Option<Seq<char>>;

    /// Whether media is currently playing (`false`) or paused (`true`), if
    /// available.
    spec fn halted(&self) -> Option<bool>;

    /// The name of the current track, if available.
    fn track_name(&self) -> (r: Option<String>)
        ensures
            text_of(r) == self.title(),
    ;

    /// Checks whether the current track name matches `other`.
    ///
    /// This is useful to check whether the value has changed, and avoid
    /// unnecessarily allocating strings.
    fn track_name_is(&self, other: &Option<String>) -> (r: bool)
        ensures
            r == (self.title() == text_of(*other)),
    ;

    /// The artist of the current track, if available.
    fn artist(&self) -> (r: Option<String>)
        ensures
            text_of(r) == self.performer(),
    ;

    /// Checks whether the current artist matches `other`.
    ///
    /// This is useful to check whether the value has changed, and avoid
    /// unnecessarily allocating strings.
    fn artist_is(&self, other: &Option<String>) -> (r: bool)
        ensures
            r == (self.performer() == text_of(*other)),
    ;

    /// Whether media is currently playing (`false`) or paused (`true`).
    fn paused(&self) -> (r: Option<bool>)
        ensures
            r == self.halted(),
    ;
}

/// What a media session says of itself at one moment.
#[derive(Clone, Debug)]
pub struct MediaSession {
    /// The title of the track, if the session tells it.
    pub title: Option<String>,
    /// The artist of the track, if the session tells it.
    pub artist: Option<String>,
    /// Whether the session is not playing, if the session tells it.
    pub paused: Option<bool>,
}

/// A media provider that must be explicitly told to update its data.
pub struct PollingMediaProvider {
    track_name: Option<String>,
    artist: Option<String>,
    paused: Option<bool>,
}

impl PollingMediaProvider {
    /// A provider that knows nothing yet.
    pub fn new() -> (r: Self)
        ensures
            r.title() is None,
            r.performer() is None,
            r.halted() is None,
    {
        PollingMediaProvider { track_name: None, artist: None, paused: None }
    }

    /// Takes over what the current media session says, or forgets
    /// everything if there is no session.
    pub fn update_media_info(&mut self, session: Option<MediaSession>)
        ensures
            final(self).title() == match session {
                Some(s) => text_of(s.title),
                None => None,
            },
            final(self).performer() == match session {
                Some(s) => text_of(s.artist),
                None => None,
            },
            final(self).halted() == match session {
                Some(s) => s.paused,
                None => None,
            },
    {
        if let Some(session) = session {
            self.paused = session.paused;
            self.track_name = session.title;
            self.artist = session.artist;
        } else {
            self.track_name = None;
            self.artist = None;
            self.paused = None;
        }
    }
}

impl MediaProvider for PollingMediaProvider {
    closed spec fn title(&self) -> Option<Seq<char>> {
        text_of(self.track_name)
    }

    closed spec fn performer(&self) -> Option<Seq<char>> {
        text_of(self.artist)
    }

    closed spec fn halted(&self) -> Option<bool> {
        self.paused
    }

    fn track_name(&self) -> (r: Option<String>) {
        copy_text(&self.track_name)
    }

    fn track_name_is(&self, other: &Option<String>) -> (r: bool) {
        same_text(&self.track_name, other)
    }

    fn artist(&self) -> (r: Option<String>) {
        copy_text(&self.artist)
    }

    fn artist_is(&self, other: &Option<String>) -> (r: bool) {
        same_text(&self.artist, other)
    }

    fn paused(&self) -> (r: Option<bool>) {
        self.paused
    }
}

} // verus!
