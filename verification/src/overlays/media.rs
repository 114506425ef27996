use vstd::prelude::*;
use crate::components::layout::{
    can_center,
    can_center_ver,
    centerable,
    centerable_ver,
    centered,
    Bounds,
    EmptyBounds,
    Size,
    MAX_EXTENT,
};
use crate::components::text::simple_text::SimpleTextWidget;
use crate::components::text::text_widget::TextWidget;
use crate::components::widget::{BitmapWidget, Drawable, Widget};
use crate::media_provider::{text_of, MediaProvider};
use crate::rendering::bitmap::{Bitmap, Pixels};
use crate::rendering::text::{text_picture, Font};
use crate::time::TimeSpan;

verus! {

/// The time, in milliseconds, for which the play/pause glyph is shown.
pub const PLAY_PAUSE_MILLIS: u64 = 1000;

/// The time, in milliseconds, for which the track information is shown.
pub const TRACK_INFO_MILLIS: u64 = 3000;

/// The gap, in pixels, between the icon and the texts of the track
/// information.
pub const ICON_GAP: i32 = 8;

/// The gap, in pixels, between the title and the artist.
pub const LINE_GAP: i32 = 6;

/// What is left of `time` when `elapsed` has passed.
pub open spec fn left_of_time(time: TimeSpan, elapsed: TimeSpan) -> TimeSpan {
    if time.nanos >= elapsed.nanos {
        TimeSpan { nanos: (time.nanos - elapsed.nanos) as u64 }
    } else {
        TimeSpan { nanos: 0 }
    }
}

/// Shows a glyph for a while after playback was paused or resumed.
pub struct PlayPauseOverlay {
    duration: TimeSpan,
    time: TimeSpan,
    is_paused: bool,
    paused_widget: BitmapWidget,
    playing_widget: BitmapWidget,
}

impl PlayPauseOverlay {
    /// The time for which the glyph is shown.
    pub closed spec fn lasts(&self) -> TimeSpan {
        self.duration
    }

    /// The time for which the glyph is still shown.
    pub closed spec fn remaining(&self) -> TimeSpan {
        self.time
    }

    /// Whether the glyph shown is that for paused playback.
    pub closed spec fn paused(&self) -> bool {
        self.is_paused
    }

    /// The glyph for paused playback.
    pub closed spec fn paused_glyph(&self) -> BitmapWidget {
        self.paused_widget
    }

    /// The glyph for resumed playback.
    pub closed spec fn playing_glyph(&self) -> BitmapWidget {
        self.playing_widget
    }

    /// The glyph shown.
    pub open spec fn glyph(&self) -> Pixels {
        if self.paused() {
            self.paused_glyph().image()
        } else {
            self.playing_glyph().image()
        }
    }

    /// Whether `other` has the same glyphs and shows them for as long.
    pub open spec fn same_make(&self, other: &Self) -> bool {
        &&& other.lasts() == self.lasts()
        &&& other.paused_glyph() == self.paused_glyph()
        &&& other.playing_glyph() == self.playing_glyph()
    }

    /// The canvas after an overlay with `remaining` time left was drawn onto
    /// it: if there is time left, nothing but `glyph` in the center of
    /// `bounds`; if not, the canvas as it was.
    pub open spec fn painted_as(
        canvas: Pixels,
        bounds: Bounds,
        remaining: TimeSpan,
        glyph: Pixels,
    ) -> Pixels {
        if remaining.nanos == 0 {
            canvas
        } else {
            canvas.cleared().with_bitmap(
                centered(bounds.pos.x as int, bounds.size.width as int, glyph.width as int),
                centered(bounds.pos.y as int, bounds.size.height as int, glyph.height as int),
                glyph,
            )
        }
    }

    /// Whether `glyph` can be centered in `bounds`.
    pub open spec fn holds(bounds: Bounds, glyph: Pixels) -> bool {
        centerable(Size { width: glyph.width as u32, height: glyph.height as u32 }, bounds)
    }

    /// Whether the glyph for paused or for resumed playback can be centered
    /// in `bounds`.
    pub fn can_show(&self, is_paused: bool, bounds: Bounds) -> (r: bool)
        requires
            self.wf(),
        ensures
            r == Self::holds(
                bounds,
                if is_paused {
                    self.paused_glyph().image()
                } else {
                    self.playing_glyph().image()
                },
            ),
    {
        if is_paused {
            can_center(self.paused_widget.size(), &bounds)
        } else {
            can_center(self.playing_widget.size(), &bounds)
        }
    }

    /// An overlay that shows `paused_widget` or `playing_widget` for
    /// `duration` each time it is armed. It is not showing.
    pub fn new(duration: TimeSpan, paused_widget: BitmapWidget, playing_widget: BitmapWidget) -> (r:
        Self)
        requires
            paused_widget.wf(),
            playing_widget.wf(),
        ensures
            r.wf(),
            r.lasts() == duration,
            r.remaining().nanos == 0,
            !r.paused(),
            r.paused_glyph() == paused_widget,
            r.playing_glyph() == playing_widget,
    {
        PlayPauseOverlay {
            duration,
            time: TimeSpan::zero(),
            is_paused: false,
            paused_widget,
            playing_widget,
        }
    }

    /// Arms the overlay: it shows the glyph for paused or for resumed
    /// playback for its whole duration.
    pub fn show(&mut self, is_paused: bool)
        requires
            old(self).wf(),
        ensures
            final(self).wf(),
            old(self).same_make(final(self)),
            final(self).paused() == is_paused,
            final(self).remaining() == old(self).lasts(),
    {
        self.is_paused = is_paused;
        self.time = self.duration;
    }

    /// Whether the glyph shown is that for paused playback.
    pub fn is_paused(&self) -> (r: bool)
        ensures
            r == self.paused(),
    {
        self.is_paused
    }

    /// The time for which the glyph is still shown.
    pub fn time_left(&self) -> (r: TimeSpan)
        ensures
            r == self.remaining(),
    {
        self.time
    }
}

impl Drawable for PlayPauseOverlay {
    open spec fn wf(&self) -> bool {
        self.paused_glyph().wf() && self.playing_glyph().wf()
    }

    open spec fn fits(&self, canvas: Pixels, bounds: Bounds) -> bool {
        Self::holds(bounds, self.glyph())
    }

    open spec fn draws(
        &self,
        next: &Self,
        canvas: Pixels,
        result: Pixels,
        bounds: Bounds,
        elapsed: TimeSpan,
    ) -> bool {
        &&& self.same_make(next)
        &&& next.paused() == self.paused()
        &&& next.remaining() == left_of_time(self.remaining(), elapsed)
        &&& result == Self::painted_as(canvas, bounds, next.remaining(), self.glyph())
    }

    fn can_draw(&self, canvas: &Bitmap, bounds: Bounds) -> (r: bool) {
        self.can_show(self.is_paused, bounds)
    }

    /// Lets `elapsed` pass and, while time is left, clears the canvas and
    /// draws the glyph in the center of `bounds`.
    fn draw(&mut self, canvas: &mut Bitmap, bounds: Bounds, elapsed: &TimeSpan) {
        self.time = self.time.saturating_sub(*elapsed);
        if self.time.is_zero() {
            return ;
        }
        canvas.clear();
        if self.is_paused {
            let widget_bounds = EmptyBounds::new().with_size(self.paused_widget.size()).center_in(
                &bounds,
            );
            self.paused_widget.draw(canvas, widget_bounds, elapsed);
        } else {
            let widget_bounds = EmptyBounds::new().with_size(
                self.playing_widget.size(),
            ).center_in(&bounds);
            self.playing_widget.draw(canvas, widget_bounds, elapsed);
        }
    }
}

/// Shows an icon and, beside it, the title and the artist of a track for a
/// while after the track changed.
pub struct TrackInfoOverlay<'a> {
    title: SimpleTextWidget<'a>,
    artist: SimpleTextWidget<'a>,
    icon: BitmapWidget,
    duration: TimeSpan,
    time: TimeSpan,
}

impl<'a> TrackInfoOverlay<'a> {
    /// The time for which the information is shown.
    pub closed spec fn lasts(&self) -> TimeSpan {
        self.duration
    }

    /// The time for which the information is still shown.
    pub closed spec fn remaining(&self) -> TimeSpan {
        self.time
    }

    /// The widget that shows the title.
    pub closed spec fn title_line(&self) -> SimpleTextWidget<'a> {
        self.title
    }

    /// The widget that shows the artist.
    pub closed spec fn artist_line(&self) -> SimpleTextWidget<'a> {
        self.artist
    }

    /// The icon.
    pub closed spec fn symbol(&self) -> BitmapWidget {
        self.icon
    }

    /// Whether `other` has the same icon and fonts and shows them for as
    /// long.
    pub open spec fn same_make(&self, other: &Self) -> bool {
        &&& other.lasts() == self.lasts()
        &&& other.symbol() == self.symbol()
        &&& other.title_line().typeface() == self.title_line().typeface()
        &&& other.artist_line().typeface() == self.artist_line().typeface()
    }

    /// The canvas after an overlay with `remaining` time left was drawn onto
    /// it. If there is time left, it holds nothing but the icon at the left
    /// edge, vertically centered, and, a gap to the right of it, the title
    /// and below it the artist, the two lines vertically centered together.
    /// If not, the canvas is as it was.
    pub open spec fn painted_as(
        canvas: Pixels,
        bounds: Bounds,
        remaining: TimeSpan,
        icon: Pixels,
        title: Pixels,
        artist: Pixels,
    ) -> Pixels {
        if remaining.nanos == 0 {
            canvas
        } else {
            let left = icon.width + ICON_GAP;
            let top = centered(
                bounds.pos.y as int,
                bounds.size.height as int,
                2 * title.height + LINE_GAP,
            );
            canvas.cleared().with_bitmap(
                0,
                centered(bounds.pos.y as int, bounds.size.height as int, icon.height as int),
                icon,
            ).with_bitmap(left, top, title).with_bitmap(
                left,
                title.height + LINE_GAP + top,
                artist,
            )
        }
    }

    /// Whether the icon and two lines of any text can be laid out in
    /// `bounds`: the top and the bottom edge are no further from the origin
    /// than [`MAX_EXTENT`], and the icon can be centered vertically.
    pub open spec fn holds(bounds: Bounds, icon: Pixels) -> bool {
        &&& -(MAX_EXTENT as int) <= bounds.pos.y
        &&& bounds.pos.y + bounds.size.height <= MAX_EXTENT
        &&& centerable_ver(icon.height as u32, bounds)
    }

    /// Computes [`TrackInfoOverlay::holds`] for the icon of this overlay.
    pub fn can_show(&self, bounds: Bounds) -> (r: bool)
        requires
            self.wf(),
        ensures
            r == Self::holds(bounds, self.symbol().image()),
    {
        bounds.pos.y >= -(MAX_EXTENT as i32) && bounds.pos.y as i64 + bounds.size.height as i64
            <= MAX_EXTENT as i64 && can_center_ver(self.icon.size().height, &bounds)
    }

    /// An overlay that shows `icon` and two lines of text, the title in
    /// `title_font` and the artist in `artist_font`, for `duration` each
    /// time it is armed. It is not showing.
    pub fn new(
        duration: TimeSpan,
        title_font: &'a Font,
        artist_font: &'a Font,
        icon: BitmapWidget,
    ) -> (r: Self)
        requires
            title_font.wf(),
            artist_font.wf(),
            icon.wf(),
            icon.image().width <= MAX_EXTENT,
        ensures
            r.wf(),
            r.lasts() == duration,
            r.remaining().nanos == 0,
            r.symbol() == icon,
            r.title_line().content() == Seq::<char>::empty(),
            r.artist_line().content() == Seq::<char>::empty(),
            r.title_line().typeface() == *title_font,
            r.artist_line().typeface() == *artist_font,
    {
        TrackInfoOverlay {
            title: SimpleTextWidget::new(String::new(), title_font),
            artist: SimpleTextWidget::new(String::new(), artist_font),
            icon,
            duration,
            time: TimeSpan::zero(),
        }
    }

    /// Arms the overlay: it shows `title` and `artist` for its whole
    /// duration.
    pub fn show(&mut self, title: &str, artist: &str)
        requires
            old(self).wf(),
        ensures
            final(self).wf(),
            old(self).same_make(final(self)),
            final(self).title_line().content() == title@,
            final(self).artist_line().content() == artist@,
            final(self).remaining() == old(self).lasts(),
    {
        self.title.set_text(title);
        self.artist.set_text(artist);
        self.time = self.duration;
    }

    /// The widget that shows the title.
    pub fn title(&self) -> (r: &SimpleTextWidget<'a>)
        ensures
            *r == self.title_line(),
    {
        &self.title
    }

    /// The widget that shows the artist.
    pub fn artist(&self) -> (r: &SimpleTextWidget<'a>)
        ensures
            *r == self.artist_line(),
    {
        &self.artist
    }

    /// The time for which the information is still shown.
    pub fn time_left(&self) -> (r: TimeSpan)
        ensures
            r == self.remaining(),
    {
        self.time
    }
}

impl<'a> Drawable for TrackInfoOverlay<'a> {
    open spec fn wf(&self) -> bool {
        &&& self.title_line().wf()
        &&& self.artist_line().wf()
        &&& self.symbol().wf()
        &&& self.symbol().image().width <= MAX_EXTENT
    }

    open spec fn fits(&self, canvas: Pixels, bounds: Bounds) -> bool {
        Self::holds(bounds, self.symbol().image())
    }

    open spec fn draws(
        &self,
        next: &Self,
        canvas: Pixels,
        result: Pixels,
        bounds: Bounds,
        elapsed: TimeSpan,
    ) -> bool {
        &&& self.same_make(next)
        &&& next.title_line() == self.title_line()
        &&& next.artist_line() == self.artist_line()
        &&& next.remaining() == left_of_time(self.remaining(), elapsed)
        &&& result == Self::painted_as(
            canvas,
            bounds,
            next.remaining(),
            self.symbol().image(),
            self.title_line().image(),
            self.artist_line().image(),
        )
    }

    fn can_draw(&self, canvas: &Bitmap, bounds: Bounds) -> (r: bool) {
        self.can_show(bounds)
    }

    /// Lets `elapsed` pass and, while time is left, clears the canvas and
    /// draws the icon and the two lines of text.
    fn draw(&mut self, canvas: &mut Bitmap, bounds: Bounds, elapsed: &TimeSpan) {
        self.time = self.time.saturating_sub(*elapsed);
        if self.time.is_zero() {
            return ;
        }
        canvas.clear();
        proof {
            self.title.lemma_height();
        }

        let icon_bounds = EmptyBounds::new().with_size(self.icon.size()).center_ver_in(
            &bounds,
        ).with_x(0);
        self.icon.draw(canvas, icon_bounds, elapsed);

        let title_bounds = EmptyBounds::new().with_width(bounds.size.width).with_height(
            self.title.size().height,
        ).right_of(&icon_bounds).move_x(ICON_GAP).with_y(0);
        let artist_bounds = EmptyBounds::new().with_width(bounds.size.width).with_height(
            self.title.size().height,
        ).right_of(&icon_bounds).below(&title_bounds).move_x(ICON_GAP).move_y(LINE_GAP);

        let text_bounds = EmptyBounds::new().between_ver(
            title_bounds.pos.y,
            artist_bounds.bottom(),
        ).center_ver_in(&bounds);

        self.title.draw(canvas, title_bounds.move_y(text_bounds.pos.y), elapsed);
        self.artist.draw(canvas, artist_bounds.move_y(text_bounds.pos.y), elapsed);
    }
}

/// Temporarily shows media information when the song changes or it is
/// paused or resumed.
pub struct MediaOverlay<'a, M: MediaProvider> {
    media_provider: M,
    play_pause: PlayPauseOverlay,
    track_info: TrackInfoOverlay<'a>,
    last_track_name: Option<String>,
    last_artist: Option<String>,
    last_paused: Option<bool>,
}

impl<'a, M: MediaProvider> MediaOverlay<'a, M> {
    /// The provider of the media state.
    pub closed spec fn provider(&self) -> M {
        self.media_provider
    }

    /// The overlay for pausing and resuming.
    pub closed spec fn play_pause(&self) -> PlayPauseOverlay {
        self.play_pause
    }

    /// The overlay for the track.
    pub closed spec fn track_info(&self) -> TrackInfoOverlay<'a> {
        self.track_info
    }

    /// The title that was last observed.
    pub closed spec fn last_title(&self) -> Option<Seq<char>> {
        text_of(self.last_track_name)
    }

    /// The artist that was last observed.
    pub closed spec fn last_performer(&self) -> Option<Seq<char>> {
        text_of(self.last_artist)
    }

    /// Whether playback was paused when it was last observed.
    pub closed spec fn last_halted(&self) -> Option<bool> {
        self.last_paused
    }

    /// Whether the track information is to be shown: title and artist are
    /// both known and one of them is not what was last observed.
    pub open spec fn info_due(&self) -> bool {
        &&& self.provider().title() is Some
        &&& self.provider().performer() is Some
        &&& (self.provider().title() != self.last_title() || self.provider().performer()
            != self.last_performer())
    }

    /// Whether the play/pause glyph is to be shown: it is known whether
    /// playback is paused, and it is not what was last observed.
    pub open spec fn pause_due(&self) -> bool {
        &&& self.provider().halted() is Some
        &&& self.provider().halted() != self.last_halted()
    }

    /// The time for which the play/pause glyph is shown from this frame
    /// on.
    pub open spec fn pause_time(&self, elapsed: TimeSpan) -> TimeSpan {
        left_of_time(
            if self.pause_due() {
                self.play_pause().lasts()
            } else {
                self.play_pause().remaining()
            },
            elapsed,
        )
    }

    /// The time for which the track information is shown from this frame
    /// on.
    pub open spec fn info_time(&self, elapsed: TimeSpan) -> TimeSpan {
        left_of_time(
            if self.info_due() {
                self.track_info().lasts()
            } else {
                self.track_info().remaining()
            },
            elapsed,
        )
    }

    /// The glyph that the play/pause overlay shows from this frame on.
    pub open spec fn pause_glyph(&self) -> Pixels {
        if self.pause_due() {
            if self.provider().halted()->0 {
                self.play_pause().paused_glyph().image()
            } else {
                self.play_pause().playing_glyph().image()
            }
        } else {
            self.play_pause().glyph()
        }
    }

    /// The title that the track overlay shows from this frame on.
    pub open spec fn info_title(&self) -> Seq<char> {
        if self.info_due() {
            self.provider().title()->0
        } else {
            self.track_info().title_line().content()
        }
    }

    /// The artist that the track overlay shows from this frame on.
    pub open spec fn info_artist(&self) -> Seq<char> {
        if self.info_due() {
            self.provider().performer()->0
        } else {
            self.track_info().artist_line().content()
        }
    }

    /// The canvas after the overlays were drawn onto it into `bounds`,
    /// `elapsed` after the frame before: first the play/pause glyph, then
    /// the track information, each only while it has time left.
    pub open spec fn painted(&self, canvas: Pixels, bounds: Bounds, elapsed: TimeSpan) -> Pixels {
        TrackInfoOverlay::painted_as(
            PlayPauseOverlay::painted_as(
                canvas,
                bounds,
                self.pause_time(elapsed),
                self.pause_glyph(),
            ),
            bounds,
            self.info_time(elapsed),
            self.track_info().symbol().image(),
            text_picture(self.track_info().title_line().typeface(), self.info_title()),
            text_picture(self.track_info().artist_line().typeface(), self.info_artist()),
        )
    }

    /// An overlay over the media state that `provider` reports. What the
    /// provider reports now counts as observed: nothing is shown for it.
    pub fn new(provider: M, play_pause: PlayPauseOverlay, track_info: TrackInfoOverlay<'a>) -> (r:
        Self)
        requires
            play_pause.wf(),
            track_info.wf(),
        ensures
            r.wf(),
            r.provider() == provider,
            r.play_pause() == play_pause,
            r.track_info() == track_info,
            r.last_title() == provider.title(),
            r.last_performer() == provider.performer(),
            r.last_halted() == provider.halted(),
    {
        let last_track_name = provider.track_name();
        let last_artist = provider.artist();
        let last_paused = provider.paused();
        MediaOverlay {
            media_provider: provider,
            play_pause,
            track_info,
            last_track_name,
            last_artist,
            last_paused,
        }
    }

    /// The overlay for pausing and resuming.
    pub fn play_pause_overlay(&self) -> (r: &PlayPauseOverlay)
        ensures
            *r == self.play_pause(),
    {
        &self.play_pause
    }

    /// The overlay for the track.
    pub fn track_info_overlay(&self) -> (r: &TrackInfoOverlay<'a>)
        ensures
            *r == self.track_info(),
    {
        &self.track_info
    }

    /// Lets the provider of the media state be updated.
    pub fn provider_mut(&mut self) -> (r: &mut M)
        ensures
            *r == old(self).provider(),
            final(self).provider() == *final(r),
            final(self).play_pause() == old(self).play_pause(),
            final(self).track_info() == old(self).track_info(),
            final(self).last_title() == old(self).last_title(),
            final(self).last_performer() == old(self).last_performer(),
            final(self).last_halted() == old(self).last_halted(),
    {
        &mut self.media_provider
    }
}

impl<'a, M: MediaProvider> Drawable for MediaOverlay<'a, M> {
    open spec fn wf(&self) -> bool {
        self.play_pause().wf() && self.track_info().wf()
    }

    open spec fn fits(&self, canvas: Pixels, bounds: Bounds) -> bool {
        &&& PlayPauseOverlay::holds(bounds, self.pause_glyph())
        &&& TrackInfoOverlay::holds(bounds, self.track_info().symbol().image())
    }

    open spec fn draws(
        &self,
        next: &Self,
        canvas: Pixels,
        result: Pixels,
        bounds: Bounds,
        elapsed: TimeSpan,
    ) -> bool {
        &&& next.provider() == self.provider()
        &&& next.last_title() == self.provider().title()
        &&& next.last_performer() == self.provider().performer()
        &&& next.last_halted() == self.provider().halted()
        &&& self.play_pause().same_make(&next.play_pause())
        &&& next.play_pause().remaining() == self.pause_time(elapsed)
        &&& next.play_pause().glyph() == self.pause_glyph()
        &&& self.track_info().same_make(&next.track_info())
        &&& next.track_info().remaining() == self.info_time(elapsed)
        &&& next.track_info().title_line().content() == self.info_title()
        &&& next.track_info().artist_line().content() == self.info_artist()
        &&& result == self.painted(canvas, bounds, elapsed)
    }

    fn can_draw(&self, canvas: &Bitmap, bounds: Bounds) -> (r: bool) {
        let shown = match self.media_provider.paused() {
            Some(paused) => {
                let changed = match self.last_paused {
                    Some(last_paused) => paused != last_paused,
                    None => true,
                };
                if changed {
                    paused
                } else {
                    self.play_pause.is_paused()
                }
            },
            None => self.play_pause.is_paused(),
        };
        self.play_pause.can_show(shown, bounds) && self.track_info.can_show(bounds)
    }

    /// Compares the media state with what was last observed, arms the
    /// track overlay for a new title or artist and the play/pause overlay
    /// for paused or resumed playback, and draws both.
    fn draw(&mut self, canvas: &mut Bitmap, bounds: Bounds, elapsed: &TimeSpan) {
        if !self.media_provider.track_name_is(&None) && !self.media_provider.artist_is(&None) {
            if !self.media_provider.track_name_is(&self.last_track_name)
                || !self.media_provider.artist_is(&self.last_artist) {
                let title = self.media_provider.track_name();
                let artist = self.media_provider.artist();
                self.track_info.show(title.unwrap().as_str(), artist.unwrap().as_str());
            }
        }
        if !self.media_provider.track_name_is(&self.last_track_name) {
            self.last_track_name = self.media_provider.track_name();
        }
        if !self.media_provider.artist_is(&self.last_artist) {
            self.last_artist = self.media_provider.artist();
        }
        if let Some(paused) = self.media_provider.paused() {
            let changed = match self.last_paused {
                Some(last_paused) => paused != last_paused,
                None => true,
            };
            if changed {
                self.play_pause.show(paused);
            }
        }
        self.last_paused = self.media_provider.paused();

        self.play_pause.draw(canvas, bounds, elapsed);
        self.track_info.draw(canvas, bounds, elapsed);
    }
}

} // verus!
