use oculed::components::{BitmapWidget, Bounds, Drawable, Point, Rect, Size, VideoWidget};
use oculed::media_provider::{
    copy_text, same_text, MediaProvider, MediaSession, PollingMediaProvider,
};
use oculed::overlays::{MediaOverlay, PlayPauseOverlay, ScreensaverOverlay, TrackInfoOverlay};
use oculed::rendering::{Bitmap, Font, Glyph, Video};
use oculed::TimeSpan;

fn bounds(x: i32, y: i32, width: u32, height: u32) -> Bounds {
    Rect { pos: Point { x, y }, size: Size { width, height } }
}

fn millis(n: u64) -> TimeSpan {
    TimeSpan::from_millis(n)
}

fn row(canvas: &Bitmap, y: usize) -> Vec<u8> {
    canvas.buffer[y * canvas.width..(y + 1) * canvas.width].to_vec()
}

fn icon(width: usize, height: usize, value: u8) -> BitmapWidget {
    BitmapWidget::new(Bitmap { width, height, buffer: vec![value; width * height] })
}

/// A font in which every character is a block of 3 by 2 pixels.
fn blocks(value: u8) -> Font {
    Font::new(Glyph {
        image: Bitmap { width: 3, height: 2, buffer: vec![value; 6] },
        ymin: 0,
        advance: 3 * 64,
    })
}

fn session(title: &str, artist: &str, paused: bool) -> Option<MediaSession> {
    Some(MediaSession {
        title: Some(title.to_string()),
        artist: Some(artist.to_string()),
        paused: Some(paused),
    })
}

#[test]
fn optional_texts_are_compared_and_copied() {
    let a = Some("a".to_string());
    let b = Some("b".to_string());
    assert!(same_text(&a, &Some("a".to_string())));
    assert!(!same_text(&a, &b));
    assert!(!same_text(&a, &None));
    assert!(!same_text(&None, &b));
    assert!(same_text(&None, &None));
    assert_eq!(copy_text(&a), a);
    assert_eq!(copy_text(&None), None);
}

#[test]
fn a_polling_provider_knows_what_it_was_told() {
    let mut provider = PollingMediaProvider::new();
    assert_eq!(provider.track_name(), None);
    assert_eq!(provider.artist(), None);
    assert_eq!(provider.paused(), None);
    assert!(provider.track_name_is(&None));
    assert!(provider.artist_is(&None));
    provider.update_media_info(session("Song", "Band", true));
    assert_eq!(provider.track_name(), Some("Song".to_string()));
    assert_eq!(provider.artist(), Some("Band".to_string()));
    assert_eq!(provider.paused(), Some(true));
    assert!(provider.track_name_is(&Some("Song".to_string())));
    assert!(!provider.track_name_is(&Some("Band".to_string())));
    assert!(!provider.track_name_is(&None));
    assert!(provider.artist_is(&Some("Band".to_string())));
    assert!(!provider.artist_is(&None));
    provider.update_media_info(Some(MediaSession { title: None, artist: None, paused: Some(false) }));
    assert_eq!(provider.track_name(), None);
    assert_eq!(provider.paused(), Some(false));
    provider.update_media_info(None);
    assert_eq!(provider.track_name(), None);
    assert_eq!(provider.artist(), None);
    assert_eq!(provider.paused(), None);
}

#[test]
fn the_play_pause_overlay_shows_its_glyph_for_its_duration() {
    let mut overlay = PlayPauseOverlay::new(millis(1000), icon(2, 2, 50), icon(2, 2, 60));
    let area = bounds(0, 0, 6, 4);
    let mut canvas = Bitmap::from_raw_bytes(&[7; 24], 6);
    overlay.draw(&mut canvas, area, &millis(16));
    assert_eq!(canvas.buffer, vec![7; 24]);
    overlay.show(true);
    assert!(overlay.is_paused());
    assert_eq!(overlay.time_left(), millis(1000));
    overlay.draw(&mut canvas, area, &millis(400));
    assert_eq!(overlay.time_left(), millis(600));
    assert_eq!(row(&canvas, 0), vec![0; 6]);
    assert_eq!(row(&canvas, 1), vec![0, 0, 50, 50, 0, 0]);
    assert_eq!(row(&canvas, 2), vec![0, 0, 50, 50, 0, 0]);
    assert_eq!(row(&canvas, 3), vec![0; 6]);
    let mut canvas = Bitmap::from_raw_bytes(&[7; 24], 6);
    overlay.draw(&mut canvas, area, &millis(600));
    assert_eq!(overlay.time_left(), TimeSpan::zero());
    assert_eq!(canvas.buffer, vec![7; 24]);
    overlay.show(false);
    overlay.draw(&mut canvas, area, &millis(999));
    assert_eq!(row(&canvas, 1), vec![0, 0, 60, 60, 0, 0]);
    overlay.draw(&mut canvas, area, &millis(5000));
    assert_eq!(overlay.time_left(), TimeSpan::zero());
}

#[test]
fn the_track_overlay_shows_icon_title_and_artist() {
    let title_font = blocks(200);
    let artist_font = blocks(100);
    let mut overlay = TrackInfoOverlay::new(millis(3000), &title_font, &artist_font, icon(2, 4, 30));
    let area = bounds(0, 0, 20, 12);
    let mut canvas = Bitmap::from_raw_bytes(&[7; 240], 20);
    overlay.draw(&mut canvas, area, &millis(16));
    assert_eq!(canvas.buffer, vec![7; 240]);
    overlay.show("ab", "xyz");
    assert_eq!(overlay.title().text(), "ab");
    assert_eq!(overlay.artist().text(), "xyz");
    assert_eq!(overlay.time_left(), millis(3000));
    overlay.draw(&mut canvas, area, &millis(1000));
    assert_eq!(overlay.time_left(), millis(2000));
    // The icon stands at the left edge, vertically centered: rows 4 to 7.
    // The texts begin 8 right of the icon, at column 10.  The two lines
    // with their gap are 2 + 6 + 2 high and centered: the title in the
    // rows 1 and 2, the artist in the rows 9 and 10.
    assert_eq!(row(&canvas, 0), vec![0; 20]);
    let mut title = vec![0; 20];
    title[10..16].copy_from_slice(&[200; 6]);
    assert_eq!(row(&canvas, 1), title);
    assert_eq!(row(&canvas, 2), title);
    assert_eq!(row(&canvas, 3), vec![0; 20]);
    let mut symbol = vec![0; 20];
    symbol[0..2].copy_from_slice(&[30; 2]);
    assert_eq!(row(&canvas, 4), symbol);
    assert_eq!(row(&canvas, 7), symbol);
    assert_eq!(row(&canvas, 8), vec![0; 20]);
    let mut artist = vec![0; 20];
    artist[10..19].copy_from_slice(&[100; 9]);
    assert_eq!(row(&canvas, 9), artist);
    assert_eq!(row(&canvas, 10), artist);
    assert_eq!(row(&canvas, 11), vec![0; 20]);
    let mut canvas = Bitmap::from_raw_bytes(&[7; 240], 20);
    overlay.draw(&mut canvas, area, &millis(2000));
    assert_eq!(canvas.buffer, vec![7; 240]);
}

fn media_overlay<'a>(title_font: &'a Font, artist_font: &'a Font) -> MediaOverlay<'a, PollingMediaProvider> {
    MediaOverlay::new(
        PollingMediaProvider::new(),
        PlayPauseOverlay::new(millis(1000), icon(2, 2, 50), icon(2, 2, 60)),
        TrackInfoOverlay::new(millis(3000), title_font, artist_font, icon(2, 4, 30)),
    )
}

#[test]
fn the_media_overlay_shows_nothing_while_nothing_changes() {
    let title_font = blocks(200);
    let artist_font = blocks(100);
    let mut overlay = media_overlay(&title_font, &artist_font);
    let area = bounds(0, 0, 20, 12);
    let mut canvas = Bitmap::from_raw_bytes(&[7; 240], 20);
    overlay.draw(&mut canvas, area, &millis(16));
    assert_eq!(canvas.buffer, vec![7; 240]);
    assert_eq!(overlay.play_pause_overlay().time_left(), TimeSpan::zero());
    assert_eq!(overlay.track_info_overlay().time_left(), TimeSpan::zero());
}

#[test]
fn what_plays_when_the_overlay_is_made_counts_as_observed() {
    let title_font = blocks(200);
    let artist_font = blocks(100);
    let mut provider = PollingMediaProvider::new();
    provider.update_media_info(session("Song", "Band", false));
    let mut overlay = MediaOverlay::new(
        provider,
        PlayPauseOverlay::new(millis(1000), icon(2, 2, 50), icon(2, 2, 60)),
        TrackInfoOverlay::new(millis(3000), &title_font, &artist_font, icon(2, 4, 30)),
    );
    let mut canvas = Bitmap::from_raw_bytes(&[7; 240], 20);
    overlay.draw(&mut canvas, bounds(0, 0, 20, 12), &millis(16));
    assert_eq!(canvas.buffer, vec![7; 240]);
}

#[test]
fn a_new_track_arms_the_track_overlay() {
    let title_font = blocks(200);
    let artist_font = blocks(100);
    let mut overlay = media_overlay(&title_font, &artist_font);
    let area = bounds(0, 0, 20, 12);
    let mut canvas = Bitmap::new(20, 12);
    overlay.provider_mut().update_media_info(session("ab", "xyz", false));
    overlay.draw(&mut canvas, area, &millis(100));
    assert_eq!(overlay.track_info_overlay().time_left(), millis(2900));
    assert_eq!(overlay.track_info_overlay().title().text(), "ab");
    assert_eq!(overlay.track_info_overlay().artist().text(), "xyz");
    // Playback was not known to be paused before: the glyph is armed too.
    assert_eq!(overlay.play_pause_overlay().time_left(), millis(900));
    assert!(!overlay.play_pause_overlay().is_paused());
    // The track information is drawn last and instead of the glyph.
    assert_eq!(canvas.buffer[10 + 20], 200);
    assert_eq!(canvas.buffer[5 * 20 + 9], 0);
    // Nothing changes: the overlays run out.
    overlay.draw(&mut canvas, area, &millis(900));
    assert_eq!(overlay.play_pause_overlay().time_left(), TimeSpan::zero());
    assert_eq!(overlay.track_info_overlay().time_left(), millis(2000));
    overlay.draw(&mut canvas, area, &millis(2000));
    assert_eq!(overlay.track_info_overlay().time_left(), TimeSpan::zero());
    // Another artist arms the track overlay again, for its whole time.
    overlay.provider_mut().update_media_info(session("ab", "uvw", false));
    overlay.draw(&mut canvas, area, &millis(0));
    assert_eq!(overlay.track_info_overlay().time_left(), millis(3000));
    assert_eq!(overlay.track_info_overlay().artist().text(), "uvw");
    assert_eq!(overlay.play_pause_overlay().time_left(), TimeSpan::zero());
}

#[test]
fn a_track_without_an_artist_arms_nothing() {
    let title_font = blocks(200);
    let artist_font = blocks(100);
    let mut overlay = media_overlay(&title_font, &artist_font);
    let mut canvas = Bitmap::new(20, 12);
    overlay.provider_mut().update_media_info(Some(MediaSession {
        title: Some("ab".to_string()),
        artist: None,
        paused: None,
    }));
    overlay.draw(&mut canvas, bounds(0, 0, 20, 12), &millis(100));
    assert_eq!(overlay.track_info_overlay().time_left(), TimeSpan::zero());
    assert_eq!(overlay.play_pause_overlay().time_left(), TimeSpan::zero());
    assert_eq!(canvas.buffer, vec![0; 240]);
    // The title counts as observed: when the artist comes, it is the
    // artist that is new.
    overlay.provider_mut().update_media_info(session("ab", "xyz", true));
    overlay.draw(&mut canvas, bounds(0, 0, 20, 12), &millis(100));
    assert_eq!(overlay.track_info_overlay().time_left(), millis(2900));
    assert!(overlay.play_pause_overlay().is_paused());
}

#[test]
fn pausing_and_resuming_arm_the_play_pause_overlay() {
    let title_font = blocks(200);
    let artist_font = blocks(100);
    let mut overlay = media_overlay(&title_font, &artist_font);
    let area = bounds(0, 0, 20, 12);
    let mut canvas = Bitmap::new(20, 12);
    overlay.provider_mut().update_media_info(session("ab", "xyz", false));
    overlay.draw(&mut canvas, area, &millis(4000));
    overlay.provider_mut().update_media_info(session("ab", "xyz", true));
    let mut canvas = Bitmap::from_raw_bytes(&[7; 240], 20);
    overlay.draw(&mut canvas, area, &millis(300));
    assert!(overlay.play_pause_overlay().is_paused());
    assert_eq!(overlay.play_pause_overlay().time_left(), millis(700));
    // The glyph for paused playback in the center of an empty canvas.
    assert_eq!(canvas.buffer[5 * 20 + 9], 50);
    assert_eq!(canvas.buffer[6 * 20 + 10], 50);
    assert_eq!(canvas.buffer.iter().filter(|p| **p != 0).count(), 4);
    overlay.provider_mut().update_media_info(session("ab", "xyz", false));
    overlay.draw(&mut canvas, area, &millis(300));
    assert!(!overlay.play_pause_overlay().is_paused());
    assert_eq!(overlay.play_pause_overlay().time_left(), millis(700));
    assert_eq!(canvas.buffer[5 * 20 + 9], 60);
    // Without a session nothing is armed.
    overlay.provider_mut().update_media_info(None);
    overlay.draw(&mut canvas, area, &millis(1000));
    assert_eq!(overlay.play_pause_overlay().time_left(), TimeSpan::zero());
    // When the session is back, what it says is new again.
    overlay.provider_mut().update_media_info(session("ab", "xyz", false));
    overlay.draw(&mut canvas, area, &millis(0));
    assert_eq!(overlay.play_pause_overlay().time_left(), millis(1000));
    assert_eq!(overlay.track_info_overlay().time_left(), millis(3000));
}

#[test]
fn overlays_draw_into_bounds_left_of_and_above_the_origin() {
    let mut overlay = PlayPauseOverlay::new(millis(1000), icon(2, 2, 50), icon(2, 2, 60));
    let area = bounds(-3, -2, 6, 4);
    let mut canvas = Bitmap::from_raw_bytes(&[7; 24], 6);
    assert!(overlay.can_draw(&canvas, area));
    overlay.show(true);
    overlay.draw(&mut canvas, area, &millis(400));
    assert_eq!(overlay.time_left(), millis(600));
    // The glyph is centered on the origin: one of its pixels is visible.
    assert_eq!(row(&canvas, 0), vec![50, 0, 0, 0, 0, 0]);
    assert_eq!(row(&canvas, 1), vec![0; 6]);
    assert!(overlay.can_draw(&canvas, bounds(i32::MAX, 0, 2, 0)));
    assert!(!overlay.can_draw(&canvas, bounds(i32::MAX, 0, 4, 0)));
    assert!(overlay.can_draw(&canvas, bounds(i32::MIN, i32::MIN, 2, 2)));

    let title_font = blocks(200);
    let artist_font = blocks(100);
    let mut overlay = media_overlay(&title_font, &artist_font);
    let area = bounds(-5, -6, 20, 12);
    let mut canvas = Bitmap::new(20, 12);
    assert!(overlay.can_draw(&canvas, area));
    overlay.provider_mut().update_media_info(session("ab", "xyz", true));
    assert!(overlay.can_draw(&canvas, area));
    overlay.draw(&mut canvas, area, &millis(100));
    assert_eq!(overlay.track_info_overlay().time_left(), millis(2900));
    assert_eq!(overlay.play_pause_overlay().time_left(), millis(900));
    assert!(overlay.play_pause_overlay().is_paused());
    // The two lines, ten rows high together, are centered on the origin:
    // the title stands in the rows -5 and -4, the artist in the rows 3
    // and 4, behind the gap of eight beside the icon.
    assert_eq!(row(&canvas, 2), vec![0; 20]);
    let mut artist = vec![0; 20];
    artist[10..19].copy_from_slice(&[100; 9]);
    assert_eq!(row(&canvas, 3), artist);
    assert_eq!(row(&canvas, 4), artist);
    // The icon, four rows high, is centered on the origin as well.
    assert_eq!(canvas.buffer[0], 30);
    assert_eq!(canvas.buffer[20 + 1], 30);
    assert_eq!(canvas.buffer[2 * 20], 0);
    assert!(!overlay.can_draw(&canvas, bounds(0, -0x2000_0000, 20, 12)));
}

fn videos(count: u8) -> Vec<VideoWidget> {
    (0..count)
        .map(|i| {
            let frame = Bitmap { width: 1, height: 1, buffer: vec![i + 1] };
            VideoWidget::new(Video::from_frames(vec![frame]), millis(50))
        })
        .collect()
}

#[test]
fn the_screensaver_draws_only_while_it_is_shown() {
    let mut screensaver = ScreensaverOverlay::new(videos(3));
    assert!(!screensaver.is_shown());
    let area = bounds(1, 0, 2, 1);
    let mut canvas = Bitmap::from_raw_bytes(&[7, 7, 7], 3);
    screensaver.draw(&mut canvas, area, &millis(16));
    assert_eq!(canvas.buffer, vec![7, 7, 7]);
    screensaver.show_video(2);
    assert_eq!(screensaver.current_video(), Some(2));
    screensaver.draw(&mut canvas, area, &millis(16));
    assert_eq!(canvas.buffer, vec![0, 3, 0]);
    screensaver.dismiss();
    assert_eq!(screensaver.current_video(), None);
    let mut canvas = Bitmap::from_raw_bytes(&[7, 7, 7], 3);
    screensaver.draw(&mut canvas, area, &millis(16));
    assert_eq!(canvas.buffer, vec![7, 7, 7]);
}

#[test]
fn the_screensaver_picks_one_of_its_videos() {
    let mut screensaver = ScreensaverOverlay::new(videos(5));
    let mut seen = [false; 5];
    for _ in 0..400 {
        screensaver.show();
        let index = screensaver.current_video().unwrap();
        assert!(index < 5);
        seen[index] = true;
    }
    assert!(seen.iter().filter(|s| **s).count() >= 2);
    let mut single = ScreensaverOverlay::new(videos(1));
    single.show();
    assert_eq!(single.current_video(), Some(0));
}
