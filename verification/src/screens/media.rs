use vstd::prelude::*;
use super::collection::Screen;
use crate::components::layout::{
    can_center_hor,
    centerable_hor,
    centered,
    Bounds,
    EmptyBounds,
    Point,
    Rect,
    Size,
};
use crate::components::text::scrolling_text::{
    cycle_after,
    lemma_scrolling_fits,
    with_text,
    Alignment,
    ScrollingState,
    ScrollingTextWidget,
};
use crate::components::text::text_widget::TextWidget;
use crate::components::widget::{BitmapWidget, Drawable, Widget};
use crate::media_provider::{text_of, MediaProvider};
use crate::rendering::bitmap::{Bitmap, Pixels};
use crate::rendering::text::{text_picture, Font};
use crate::time::TimeSpan;

verus! {

/// The time, in milliseconds, to wait between scrolling.
pub const SCROLL_WAIT_MILLIS: u64 = 5000;

/// The time, in milliseconds, to wait at the end of scrolling.
pub const SCROLL_WAIT_END_MILLIS: u64 = 2000;

/// The row of the top of the icon.
pub const ICON_TOP: i32 = 8;

/// How far below the center the title stands, in pixels.
pub const TITLE_DROP: i32 = 5;

/// The gap between the title and the artist, in pixels.
pub const ARTIST_GAP: i32 = 3;

/// Shows the title and the artist of the track that is playing, below an
/// icon that tells whether playback is paused.
pub struct MediaScreen<'a, M: MediaProvider> {
    provider: M,
    icon: BitmapWidget,
    pause_icon: BitmapWidget,
    track_name: ScrollingTextWidget<'a>,
    last_track_name: Option<String>,
    artist: ScrollingTextWidget<'a>,
    last_artist: Option<String>,
}

/// The bounds of a line of text of the given height over the whole width of
/// `bounds`, from the left edge of the canvas, its top at `top`.
pub open spec fn line_bounds(bounds: Bounds, height: u32, top: int) -> Bounds {
    Rect { pos: Point { x: 0, y: top as i32 }, size: Size { width: bounds.size.width, height } }
}

impl<'a, M: MediaProvider> MediaScreen<'a, M> {
    /// The provider of the media state.
    pub closed spec fn provider(&self) -> M {
        self.provider
    }

    /// The icon shown while media is playing.
    pub closed spec fn playing_icon(&self) -> BitmapWidget {
        self.icon
    }

    /// The icon shown while media is paused.
    pub closed spec fn paused_icon(&self) -> BitmapWidget {
        self.pause_icon
    }

    /// The widget that shows the title.
    pub closed spec fn title_line(&self) -> ScrollingTextWidget<'a> {
        self.track_name
    }

    /// The widget that shows the artist.
    pub closed spec fn artist_line(&self) -> ScrollingTextWidget<'a> {
        self.artist
    }

    /// The title that was last shown.
    pub closed spec fn last_title(&self) -> Option<Seq<char>> {
        text_of(self.last_track_name)
    }

    /// The artist that was last shown.
    pub closed spec fn last_performer(&self) -> Option<Seq<char>> {
        text_of(self.last_artist)
    }

    /// Whether there is media to show: title, artist and whether playback
    /// is paused are all known.
    pub open spec fn playing(&self) -> bool {
        &&& self.provider().title() is Some
        &&& self.provider().performer() is Some
        &&& self.provider().halted() is Some
    }

    /// The icon shown while there is media to show: that for paused or that
    /// for playing media.
    pub open spec fn shown_icon(&self) -> Pixels {
        if self.provider().halted()->0 {
            self.paused_icon().image()
        } else {
            self.playing_icon().image()
        }
    }

    /// The title shown from this frame on.
    pub open spec fn title_after(&self) -> Seq<char> {
        if !self.playing() {
            "No media playing"@
        } else if self.provider().title() != self.last_title() {
            self.provider().title()->0
        } else {
            self.title_line().text()
        }
    }

    /// The artist shown from this frame on.
    pub open spec fn artist_after(&self) -> Seq<char> {
        if self.playing() && self.provider().performer() != self.last_performer() {
            self.provider().performer()->0
        } else {
            self.artist_line().text()
        }
    }

    /// The image of the title shown from this frame on.
    pub open spec fn title_image(&self) -> Pixels {
        text_picture(self.title_line().inner().typeface(), self.title_after())
    }

    /// The image of the artist shown from this frame on.
    pub open spec fn artist_image(&self) -> Pixels {
        text_picture(self.artist_line().inner().typeface(), self.artist_after())
    }

    /// The phase of the scrolling cycle in which `line` is after this
    /// frame, when it shows `text` with the image `image` from this frame
    /// on: a text that is new starts its cycle anew, and `elapsed` passes.
    pub open spec fn phase_after(
        line: ScrollingTextWidget<'a>,
        text: Seq<char>,
        image: Pixels,
        bounds: Bounds,
        elapsed: TimeSpan,
    ) -> ScrollingState {
        cycle_after(
            if text != line.text() {
                ScrollingState::WaitingStart(line.start_wait())
            } else {
                line.phase()
            },
            elapsed,
            image.width as u32,
            bounds.size.width,
            line.start_wait(),
            line.end_wait(),
        )
    }

    /// The row of the top of the title.
    pub open spec fn title_top(&self, bounds: Bounds) -> int {
        centered(
            bounds.pos.y as int,
            bounds.size.height as int,
            self.title_image().height as int,
        ) + if self.playing() {
            TITLE_DROP as int
        } else {
            0
        }
    }

    /// The canvas after the screen was drawn onto it into `bounds`,
    /// `elapsed` after the frame before. While there is media to show: the
    /// icon for playing or for paused media at the top, horizontally
    /// centered; the title a little below the center; the artist below
    /// the title. While there is none: a text that says so, vertically
    /// centered.
    pub open spec fn painted(&self, canvas: Pixels, bounds: Bounds, elapsed: TimeSpan) -> Pixels {
        let title = with_text(
            if self.playing() {
                let icon = self.shown_icon();
                canvas.with_bitmap(
                    centered(bounds.pos.x as int, bounds.size.width as int, icon.width as int),
                    ICON_TOP as int,
                    icon,
                )
            } else {
                canvas
            },
            line_bounds(bounds, self.title_image().height as u32, self.title_top(bounds)),
            Self::phase_after(
                self.title_line(),
                self.title_after(),
                self.title_image(),
                bounds,
                elapsed,
            ),
            self.title_line().alignment(),
            self.title_image(),
        );
        if self.playing() {
            with_text(
                title,
                line_bounds(
                    bounds,
                    self.title_image().height as u32,
                    self.title_top(bounds) + self.title_image().height + ARTIST_GAP,
                ),
                Self::phase_after(
                    self.artist_line(),
                    self.artist_after(),
                    self.artist_image(),
                    bounds,
                    elapsed,
                ),
                self.artist_line().alignment(),
                self.artist_image(),
            )
        } else {
            title
        }
    }

    /// Whether `next` is `line` after this frame, when it shows `text` from
    /// this frame on and, if `drawn`, is drawn.
    pub open spec fn line_after(
        line: ScrollingTextWidget<'a>,
        next: ScrollingTextWidget<'a>,
        text: Seq<char>,
        drawn: bool,
        bounds: Bounds,
        elapsed: TimeSpan,
    ) -> bool {
        &&& next.text() == text
        &&& next.inner().typeface() == line.inner().typeface()
        &&& next.alignment() == line.alignment()
        &&& next.start_wait() == line.start_wait()
        &&& next.end_wait() == line.end_wait()
        &&& next.phase() == if drawn {
            Self::phase_after(
                line,
                text,
                text_picture(line.inner().typeface(), text),
                bounds,
                elapsed,
            )
        } else {
            line.phase()
        }
    }

    /// A screen for the media state that `provider` reports, with the two
    /// icons given, the title shown in `title_font` and the artist in
    /// `artist_font`. Both lines are centered, wait five seconds before
    /// they scroll and two seconds at the end.
    pub fn new(
        provider: M,
        icon: BitmapWidget,
        pause_icon: BitmapWidget,
        title_font: &'a Font,
        artist_font: &'a Font,
    ) -> (r: Self)
        requires
            icon.wf(),
            pause_icon.wf(),
            title_font.wf(),
            artist_font.wf(),
        ensures
            r.wf(),
            r.provider() == provider,
            r.playing_icon() == icon,
            r.paused_icon() == pause_icon,
            r.last_title() is None,
            r.last_performer() is None,
            r.title_line().text() == Seq::<char>::empty(),
            r.artist_line().text() == Seq::<char>::empty(),
            r.title_line().inner().typeface() == *title_font,
            r.artist_line().inner().typeface() == *artist_font,
            r.title_line().alignment() == Alignment::Center,
            r.artist_line().alignment() == Alignment::Center,
            r.title_line().phase() == ScrollingState::WaitingStart(r.title_line().start_wait()),
            r.artist_line().phase() == ScrollingState::WaitingStart(r.artist_line().start_wait()),
            r.title_line().start_wait().nanos == SCROLL_WAIT_MILLIS * 1_000_000,
            r.artist_line().start_wait().nanos == SCROLL_WAIT_MILLIS * 1_000_000,
            r.title_line().end_wait().nanos == SCROLL_WAIT_END_MILLIS * 1_000_000,
            r.artist_line().end_wait().nanos == SCROLL_WAIT_END_MILLIS * 1_000_000,
    {
        let wait = TimeSpan::from_millis(SCROLL_WAIT_MILLIS);
        let wait_end = TimeSpan::from_millis(SCROLL_WAIT_END_MILLIS);
        MediaScreen {
            provider,
            icon,
            pause_icon,
            track_name: ScrollingTextWidget::new(
                String::new(),
                title_font,
                Alignment::Center,
                wait,
                wait_end,
            ),
            last_track_name: None,
            artist: ScrollingTextWidget::new(
                String::new(),
                artist_font,
                Alignment::Center,
                wait,
                wait_end,
            ),
            last_artist: None,
        }
    }

    /// The widget that shows the title.
    pub fn title_widget(&self) -> (r: &ScrollingTextWidget<'a>)
        ensures
            *r == self.title_line(),
    {
        &self.track_name
    }

    /// The widget that shows the artist.
    pub fn artist_widget(&self) -> (r: &ScrollingTextWidget<'a>)
        ensures
            *r == self.artist_line(),
    {
        &self.artist
    }

    /// Lets the provider of the media state be updated.
    pub fn provider_mut(&mut self) -> (r: &mut M)
        ensures
            *r == old(self).provider(),
            final(self).provider() == *final(r),
            final(self).playing_icon() == old(self).playing_icon(),
            final(self).paused_icon() == old(self).paused_icon(),
            final(self).title_line() == old(self).title_line(),
            final(self).artist_line() == old(self).artist_line(),
            final(self).last_title() == old(self).last_title(),
            final(self).last_performer() == old(self).last_performer(),
    {
        &mut self.provider
    }
}

impl<'a, M: MediaProvider> Drawable for MediaScreen<'a, M> {
    open spec fn wf(&self) -> bool {
        &&& self.playing_icon().wf()
        &&& self.paused_icon().wf()
        &&& self.title_line().wf()
        &&& self.artist_line().wf()
    }

    open spec fn fits(&self, canvas: Pixels, bounds: Bounds) -> bool {
        &&& bounds.modest()
        &&& self.playing() ==> centerable_hor(self.shown_icon().width as u32, bounds)
    }

    open spec fn draws(
        &self,
        next: &Self,
        canvas: Pixels,
        result: Pixels,
        bounds: Bounds,
        elapsed: TimeSpan,
    ) -> bool {
        &&& next.provider() == self.provider()
        &&& next.playing_icon() == self.playing_icon()
        &&& next.paused_icon() == self.paused_icon()
        &&& next.last_title() == if self.playing() {
            self.provider().title()
        } else {
            self.last_title()
        }
        &&& next.last_performer() == if self.playing() {
            self.provider().performer()
        } else {
            self.last_performer()
        }
        &&& Self::line_after(
            self.title_line(),
            next.title_line(),
            self.title_after(),
            true,
            bounds,
            elapsed,
        )
        &&& Self::line_after(
            self.artist_line(),
            next.artist_line(),
            self.artist_after(),
            self.playing(),
            bounds,
            elapsed,
        )
        &&& result == self.painted(canvas, bounds, elapsed)
    }

    fn can_draw(&self, canvas: &Bitmap, bounds: Bounds) -> (r: bool) {
        if !bounds.is_modest() {
            return false;
        }
        let paused = self.provider.paused();
        if !self.provider.track_name_is(&None) && !self.provider.artist_is(&None)
            && paused.is_some() {
            if !paused.unwrap() {
                can_center_hor(self.icon.size().width, &bounds)
            } else {
                can_center_hor(self.pause_icon.size().width, &bounds)
            }
        } else {
            true
        }
    }

    /// Takes over a new title and a new artist and draws the screen.
    fn draw(&mut self, canvas: &mut Bitmap, bounds: Bounds, elapsed: &TimeSpan) {
        let paused = self.provider.paused();
        if !self.provider.track_name_is(&None) && !self.provider.artist_is(&None)
            && paused.is_some() {
            if !self.provider.track_name_is(&self.last_track_name) {
                self.last_track_name = self.provider.track_name();
                match &self.last_track_name {
                    Some(name) => {
                        self.track_name.set_text(name.as_str());
                    },
                    None => {},
                }
            }
            if !self.provider.artist_is(&self.last_artist) {
                self.last_artist = self.provider.artist();
                match &self.last_artist {
                    Some(name) => {
                        self.artist.set_text(name.as_str());
                    },
                    None => {},
                }
            }
            proof {
                self.track_name.inner().lemma_height();
                self.artist.inner().lemma_height();
            }
            if !paused.unwrap() {
                let icon_bounds = EmptyBounds::new().with_size(self.icon.size()).with_y(
                    ICON_TOP,
                ).center_hor_in(&bounds);
                self.icon.draw(canvas, icon_bounds, elapsed);
            } else {
                let icon_bounds = EmptyBounds::new().with_size(self.pause_icon.size()).with_y(
                    ICON_TOP,
                ).center_hor_in(&bounds);
                self.pause_icon.draw(canvas, icon_bounds, elapsed);
            }

            let title_bounds = EmptyBounds::new().with_width(bounds.size.width).with_height(
                self.track_name.size().height,
            ).with_x(0).center_ver_in(&bounds).move_y(TITLE_DROP);
            proof {
                lemma_scrolling_fits(&self.track_name, canvas@, title_bounds);
            }
            self.track_name.draw(canvas, title_bounds, elapsed);

            let artist_bounds = EmptyBounds::new().with_width(bounds.size.width).with_height(
                self.track_name.size().height,
            ).with_x(0).below(&title_bounds).move_y(ARTIST_GAP);
            proof {
                lemma_scrolling_fits(&self.artist, canvas@, artist_bounds);
            }
            self.artist.draw(canvas, artist_bounds, elapsed);
        } else {
            self.track_name.set_text("No media playing");
            proof {
                self.track_name.inner().lemma_height();
            }
            let bounds = EmptyBounds::new().with_width(bounds.size.width).with_height(
                self.track_name.size().height,
            ).with_x(0).center_ver_in(&bounds);
            proof {
                lemma_scrolling_fits(&self.track_name, canvas@, bounds);
            }
            self.track_name.draw(canvas, bounds, elapsed);
        };
    }
}

impl<'a, M: MediaProvider> Screen for MediaScreen<'a, M> {
    open spec fn mounts(&self, next: &Self) -> bool {
        *next == *self
    }

    /// Nothing is to be done.
    fn on_mount(&mut self) {
    }
}

} // verus!
