use oculed::components::{BitmapWidget, Bounds, Drawable, Point, Rect, Size, VideoWidget};
use oculed::media_provider::{MediaSession, PollingMediaProvider};
use oculed::performance_monitor::PerformanceStatistics;
use oculed::rendering::{Bitmap, Font, Glyph, Pixels, Video};
use oculed::screens::indicator::EASE_OUT;
use oculed::screens::performance::{PerformanceWithMemoryScreen, PerformanceWithTemperatureScreen};
use oculed::screens::{
    AnyScreen, ClockScreen, MediaScreen, Screen, ScreenCollection, ScreenIndicator,
    StickFightScreen,
};
use oculed::components::ScrollingState;
use oculed::TimeSpan;

fn bounds(x: i32, y: i32, width: u32, height: u32) -> Bounds {
    Rect { pos: Point { x, y }, size: Size { width, height } }
}

fn millis(n: u64) -> TimeSpan {
    TimeSpan::from_millis(n)
}

fn row(canvas: &Bitmap, y: usize) -> Vec<u8> {
    canvas.buffer[y * canvas.width..(y + 1) * canvas.width].to_vec()
}

fn lit_columns(canvas: &Bitmap, y: usize) -> Vec<usize> {
    (0..canvas.width).filter(|x| canvas.buffer[y * canvas.width + x] != 0).collect()
}

/// A font in which every character is a block of 4 by 6 pixels.
fn blocks() -> Font {
    Font::new(Glyph {
        image: Bitmap { width: 4, height: 6, buffer: vec![255; 24] },
        ymin: 0,
        advance: 4 * 64,
    })
}

/// A screen that counts how often it was mounted and drawn.
struct Probe {
    mounted: u32,
    drawn: u32,
}

impl Drawable for Probe {
    fn wf(&self) -> bool {
        true
    }

    fn fits(&self, _canvas: Pixels, _bounds: Bounds) -> bool {
        true
    }

    fn draws(
        &self,
        _next: &Self,
        _canvas: Pixels,
        _result: Pixels,
        _bounds: Bounds,
        _elapsed: TimeSpan,
    ) -> bool {
        true
    }

    fn can_draw(&self, _canvas: &Bitmap, _bounds: Bounds) -> bool {
        true
    }

    fn draw(&mut self, canvas: &mut Bitmap, _bounds: Bounds, _elapsed: &TimeSpan) {
        self.drawn += 1;
        canvas.buffer[0] = 77;
    }
}

impl Screen for Probe {
    fn mounts(&self, _next: &Self) -> bool {
        true
    }

    fn on_mount(&mut self) {
        self.mounted += 1;
    }
}

fn probes(count: usize) -> ScreenCollection<Probe> {
    ScreenCollection::new((0..count).map(|_| Probe { mounted: 0, drawn: 0 }).collect())
}

fn mounted(screens: &mut ScreenCollection<Probe>) -> Vec<u32> {
    (0..screens.len()).map(|i| screens.screen_mut(i).mounted).collect()
}

#[test]
fn a_new_collection_mounts_its_first_screen() {
    let mut screens = probes(3);
    assert_eq!(screens.len(), 3);
    assert_eq!(screens.active_index(), 0);
    assert_eq!(mounted(&mut screens), vec![1, 0, 0]);
    assert!(!screens.transition().should_draw());
}

#[test]
fn next_wraps_from_the_last_screen_to_the_first() {
    let mut screens = probes(3);
    screens.next();
    assert_eq!(screens.active_index(), 1);
    assert_eq!(mounted(&mut screens), vec![1, 1, 0]);
    assert_eq!(screens.transition().from(), 0);
    assert!(!screens.transition().to_left());
    assert!(screens.transition().should_draw());
    screens.next();
    assert_eq!(screens.active_index(), 2);
    screens.next();
    assert_eq!(screens.active_index(), 0);
    assert_eq!(mounted(&mut screens), vec![2, 1, 1]);
    assert_eq!(screens.transition().from(), 2);
    assert!(!screens.transition().to_left());
    assert_eq!(screens.transition().elapsed(), TimeSpan::zero());
}

#[test]
fn previous_wraps_from_the_first_screen_to_the_last() {
    let mut screens = probes(3);
    screens.previous();
    assert_eq!(screens.active_index(), 2);
    assert_eq!(mounted(&mut screens), vec![1, 0, 1]);
    assert_eq!(screens.transition().from(), 0);
    assert!(screens.transition().to_left());
    screens.previous_screen();
    assert_eq!(screens.active_index(), 1);
    assert_eq!(mounted(&mut screens), vec![1, 1, 1]);
    assert_eq!(screens.transition().from(), 2);
    screens.next_screen();
    assert_eq!(screens.active_index(), 2);
    assert_eq!(mounted(&mut screens), vec![1, 1, 2]);
}

#[test]
fn a_single_screen_is_mounted_again_on_every_switch() {
    let mut screens = probes(1);
    screens.next();
    assert_eq!(screens.active_index(), 0);
    screens.previous();
    assert_eq!(screens.active_index(), 0);
    assert_eq!(mounted(&mut screens), vec![3]);
}

#[test]
fn a_collection_draws_its_active_screen_and_the_indicator() {
    let mut screens = probes(4);
    let mut canvas = Bitmap::new(128, 64);
    let area = bounds(0, 0, 128, 64);
    screens.draw(&mut canvas, area, &millis(16));
    assert_eq!(canvas.buffer[0], 77);
    assert_eq!(lit_columns(&canvas, 63), Vec::<usize>::new());
    assert_eq!(screens.active_screen().drawn, 1);
    screens.next();
    let mut canvas = Bitmap::new(128, 64);
    screens.draw(&mut canvas, area, &millis(600));
    assert_eq!(screens.active_screen().drawn, 1);
    assert_eq!(screens.transition().elapsed(), millis(600));
    // The marker stands in the second slot, two pixels in from its edges.
    assert_eq!(lit_columns(&canvas, 63), (34..62).collect::<Vec<usize>>());
    screens.draw(&mut canvas, area, &millis(600));
    assert!(!screens.transition().should_draw());
    let mut canvas = Bitmap::new(128, 64);
    screens.draw(&mut canvas, area, &millis(16));
    assert_eq!(lit_columns(&canvas, 63), Vec::<usize>::new());
    assert_eq!(screens.transition().elapsed(), millis(1200));
}

fn indicator(from: usize, to_left: bool, elapsed: u64) -> Bitmap {
    let mut indicator = ScreenIndicator::new(4);
    indicator.show(from, to_left);
    let mut canvas = Bitmap::new(128, 8);
    indicator.draw(&mut canvas, bounds(0, 0, 128, 8), &millis(elapsed));
    for y in 0..7 {
        assert_eq!(row(&canvas, y), vec![0; 128]);
    }
    canvas
}

#[test]
fn the_indicator_is_shown_for_1200_milliseconds() {
    let mut indicator = ScreenIndicator::new(3);
    assert!(!indicator.should_draw());
    assert!(!indicator.tick(&millis(10)));
    assert_eq!(indicator.elapsed(), TimeSpan::max());
    indicator.show(2, false);
    assert!(indicator.should_draw());
    assert_eq!(indicator.from(), 2);
    assert!(!indicator.to_left());
    assert!(indicator.tick(&millis(1199)));
    assert!(indicator.should_draw());
    assert!(indicator.tick(&millis(1)));
    assert!(!indicator.should_draw());
    assert!(!indicator.tick(&millis(1)));
    assert_eq!(indicator.elapsed(), millis(1200));
    indicator.show(0, true);
    assert!(indicator.tick(&TimeSpan::max()));
    assert_eq!(indicator.elapsed(), TimeSpan::max());
}

#[test]
fn the_marker_eases_from_the_old_slot_to_the_new() {
    // From slot 1 to the right: from column 32 to column 64.
    assert_eq!(lit_columns(&indicator(1, false, 0), 7), (34..62).collect::<Vec<usize>>());
    // After 300 ms the sine of an eighth turn, 0.707107, lies behind: the
    // marker has moved 22.6 pixels, of which the fraction is dropped.
    assert_eq!(lit_columns(&indicator(1, false, 300), 7), (56..84).collect::<Vec<usize>>());
    assert_eq!(lit_columns(&indicator(1, false, 600), 7), (66..94).collect::<Vec<usize>>());
    assert_eq!(lit_columns(&indicator(1, false, 800), 7), (66..94).collect::<Vec<usize>>());
    // To the left the marker stands at 41.4, of which the fraction is
    // dropped as well.
    assert_eq!(lit_columns(&indicator(2, true, 300), 7), (43..71).collect::<Vec<usize>>());
    assert_eq!(lit_columns(&indicator(2, true, 600), 7), (34..62).collect::<Vec<usize>>());
}

#[test]
fn the_marker_collapses_after_it_has_rested() {
    assert_eq!(lit_columns(&indicator(1, false, 900), 7), (69..90).collect::<Vec<usize>>());
    assert_eq!(lit_columns(&indicator(1, false, 1000), 7), (73..87).collect::<Vec<usize>>());
    assert_eq!(lit_columns(&indicator(1, false, 1100), 7), (76..83).collect::<Vec<usize>>());
    assert_eq!(lit_columns(&indicator(1, false, 1200), 7), Vec::<usize>::new());
    assert_eq!(lit_columns(&indicator(1, false, 5000), 7), Vec::<usize>::new());
}

#[test]
fn the_marker_wraps_around_the_left_edge() {
    // From the first slot to the left: half way the slot begins at -22.
    let canvas = indicator(0, true, 300);
    let mut expected: Vec<usize> = (0..8).collect();
    expected.extend(108..128);
    assert_eq!(lit_columns(&canvas, 7), expected);
    assert_eq!(lit_columns(&canvas, 7).len(), 28);
    // At the end it has left on the left and stands in the last slot.
    assert_eq!(lit_columns(&indicator(0, true, 600), 7), (98..126).collect::<Vec<usize>>());
}

#[test]
fn the_marker_wraps_around_the_right_edge() {
    // From the last slot to the right: half way the slot begins at 118.
    let canvas = indicator(3, false, 300);
    let mut expected: Vec<usize> = (0..20).collect();
    expected.extend(120..128);
    assert_eq!(lit_columns(&canvas, 7), expected);
    assert_eq!(lit_columns(&indicator(3, false, 600), 7), (2..30).collect::<Vec<usize>>());
}

#[test]
fn the_indicator_can_be_drawn_as_it_stands() {
    let mut indicator = ScreenIndicator::new(4);
    indicator.show(1, false);
    assert!(indicator.tick(&millis(600)));
    let mut canvas = Bitmap::new(128, 8);
    indicator.draw_to(&mut canvas, bounds(0, 0, 128, 8));
    assert_eq!(lit_columns(&canvas, 7), (66..94).collect::<Vec<usize>>());
    assert_eq!(indicator.elapsed(), millis(600));
}

#[test]
fn narrow_slots_have_no_marker() {
    let mut indicator = ScreenIndicator::new(32);
    indicator.show(3, false);
    let mut canvas = Bitmap::new(128, 2);
    indicator.draw(&mut canvas, bounds(0, 0, 128, 2), &millis(100));
    assert_eq!(canvas.buffer, vec![0; 256]);
}

fn frame(value: u8) -> Bitmap {
    Bitmap { width: 2, height: 2, buffer: vec![value; 4] }
}

#[test]
fn the_stick_fight_plays_in_the_center_and_restarts_when_mounted() {
    let video = Video::from_frames(vec![frame(1), frame(2), frame(3)]);
    let mut screen = StickFightScreen::new(VideoWidget::new(video, millis(50)));
    let mut canvas = Bitmap::new(6, 4);
    screen.draw(&mut canvas, bounds(0, 0, 6, 4), &millis(120));
    assert_eq!(screen.widget().frame_index(), 2);
    assert_eq!(row(&canvas, 0), vec![0; 6]);
    assert_eq!(row(&canvas, 1), vec![0, 0, 3, 3, 0, 0]);
    assert_eq!(row(&canvas, 2), vec![0, 0, 3, 3, 0, 0]);
    assert_eq!(row(&canvas, 3), vec![0; 6]);
    screen.on_mount();
    assert_eq!(screen.widget().frame_index(), 0);
    assert_eq!(screen.widget().accumulated_time(), TimeSpan::zero());
}

#[test]
fn the_clock_shows_the_time_in_the_center() {
    let font = blocks();
    let mut screen = ClockScreen::new(&font, &font);
    let mut canvas = Bitmap::new(30, 10);
    screen.draw_time(&mut canvas, bounds(0, 0, 30, 10), &millis(16), "12:34");
    assert_eq!(screen.clock_widget().text(), "12:34");
    assert_eq!(lit_columns(&canvas, 1), Vec::<usize>::new());
    assert_eq!(lit_columns(&canvas, 2), (5..25).collect::<Vec<usize>>());
    assert_eq!(lit_columns(&canvas, 7), (5..25).collect::<Vec<usize>>());
    assert_eq!(lit_columns(&canvas, 8), Vec::<usize>::new());
}

#[test]
fn the_clock_reads_the_time_of_day() {
    let font = blocks();
    let mut screen = ClockScreen::new(&font, &font);
    let mut canvas = Bitmap::new(30, 10);
    screen.draw(&mut canvas, bounds(0, 0, 30, 10), &millis(16));
    let text = screen.clock_widget().text().to_string();
    let digits: Vec<char> = text.chars().collect();
    assert_eq!(digits.len(), 5);
    assert_eq!(digits[2], ':');
    assert!(text[0..2].parse::<u32>().unwrap() < 24);
    assert!(text[3..5].parse::<u32>().unwrap() < 60);
    screen.on_mount();
    assert_eq!(screen.clock_widget().text(), text);
}

fn icon(value: u8) -> BitmapWidget {
    BitmapWidget::new(Bitmap { width: 2, height: 2, buffer: vec![value; 4] })
}

fn session(title: &str, artist: &str, paused: bool) -> Option<MediaSession> {
    Some(MediaSession {
        title: Some(title.to_string()),
        artist: Some(artist.to_string()),
        paused: Some(paused),
    })
}

#[test]
fn the_media_screen_says_when_nothing_plays() {
    let font = blocks();
    let mut screen =
        MediaScreen::new(PollingMediaProvider::new(), icon(10), icon(20), &font, &font);
    let mut canvas = Bitmap::new(80, 20);
    screen.draw(&mut canvas, bounds(0, 0, 80, 20), &millis(16));
    assert_eq!(screen.title_widget().text_widget().text(), "No media playing");
    assert_eq!(screen.artist_widget().text_widget().text(), "");
    // Sixteen characters of four pixels, centered in eighty.
    assert_eq!(lit_columns(&canvas, 7), (8..72).collect::<Vec<usize>>());
    assert_eq!(lit_columns(&canvas, 6), Vec::<usize>::new());
    assert_eq!(lit_columns(&canvas, 12), (8..72).collect::<Vec<usize>>());
    assert_eq!(lit_columns(&canvas, 13), Vec::<usize>::new());
}

#[test]
fn the_media_screen_shows_icon_title_and_artist() {
    let font = blocks();
    let mut screen =
        MediaScreen::new(PollingMediaProvider::new(), icon(10), icon(20), &font, &font);
    screen.provider_mut().update_media_info(session("Song", "Band!", false));
    let mut canvas = Bitmap::new(80, 40);
    screen.draw(&mut canvas, bounds(0, 0, 80, 40), &millis(16));
    assert_eq!(screen.title_widget().text_widget().text(), "Song");
    assert_eq!(screen.artist_widget().text_widget().text(), "Band!");
    // The icon for playing media, centered at row 8.
    assert_eq!(canvas.buffer[8 * 80 + 39], 10);
    assert_eq!(canvas.buffer[9 * 80 + 40], 10);
    assert_eq!(lit_columns(&canvas, 10), Vec::<usize>::new());
    // The title stands 5 below the center: rows 22 to 27.
    assert_eq!(lit_columns(&canvas, 21), Vec::<usize>::new());
    assert_eq!(lit_columns(&canvas, 22), (32..48).collect::<Vec<usize>>());
    assert_eq!(lit_columns(&canvas, 27), (32..48).collect::<Vec<usize>>());
    // The artist stands 3 below the title: rows 31 to 36.
    assert_eq!(lit_columns(&canvas, 30), Vec::<usize>::new());
    assert_eq!(lit_columns(&canvas, 31), (30..50).collect::<Vec<usize>>());
    assert_eq!(lit_columns(&canvas, 36), (30..50).collect::<Vec<usize>>());
    assert_eq!(lit_columns(&canvas, 37), Vec::<usize>::new());
    // Paused, the other icon is shown.
    screen.provider_mut().update_media_info(session("Song", "Band!", true));
    let mut canvas = Bitmap::new(80, 40);
    screen.draw(&mut canvas, bounds(0, 0, 80, 40), &millis(16));
    assert_eq!(canvas.buffer[8 * 80 + 39], 20);
}

#[test]
fn the_media_screen_restarts_the_scrolling_of_a_new_title_only() {
    let font = blocks();
    let mut screen =
        MediaScreen::new(PollingMediaProvider::new(), icon(10), icon(20), &font, &font);
    let mut canvas = Bitmap::new(20, 40);
    let area = bounds(0, 0, 20, 40);
    screen.provider_mut().update_media_info(session("A long title", "Band", false));
    screen.draw(&mut canvas, area, &millis(1000));
    assert_eq!(screen.title_widget().state(), ScrollingState::WaitingStart(millis(4000)));
    screen.draw(&mut canvas, area, &millis(1000));
    assert_eq!(screen.title_widget().state(), ScrollingState::WaitingStart(millis(3000)));
    screen.provider_mut().update_media_info(session("A long title", "Other", false));
    screen.draw(&mut canvas, area, &millis(1000));
    assert_eq!(screen.title_widget().state(), ScrollingState::WaitingStart(millis(2000)));
    assert_eq!(screen.artist_widget().text_widget().text(), "Other");
    screen.provider_mut().update_media_info(session("Another title", "Other", false));
    screen.draw(&mut canvas, area, &millis(1000));
    assert_eq!(screen.title_widget().state(), ScrollingState::WaitingStart(millis(4000)));
    screen.on_mount();
    assert_eq!(screen.title_widget().state(), ScrollingState::WaitingStart(millis(4000)));
}

fn stats(cpu: (u32, u32), mem: u32, gpu: (u32, u32), temps: (&str, &str)) -> PerformanceStatistics {
    PerformanceStatistics {
        memory_usage: mem,
        cpu_usage_group_1: cpu.0,
        cpu_usage_group_2: cpu.1,
        cpu_temperature: temps.0.to_string(),
        gpu_usage: gpu.0,
        vram_usage: gpu.1,
        gpu_temperature: temps.1.to_string(),
    }
}

#[test]
fn the_memory_screen_lets_its_bars_rise() {
    let font = blocks();
    let mut screen = PerformanceWithMemoryScreen::new(&font);
    screen.set_statistics(stats((1_000_000, 500_000), 250_000, (0, 2_000_000), ("", "")));
    let mut canvas = Bitmap::new(128, 64);
    let area = bounds(0, 0, 128, 64);
    screen.draw(&mut canvas, area, &millis(100));
    {
        let (cpu, mem, gpu) = screen.bars();
        assert_eq!(cpu.values(), (500_000, 250_000));
        assert_eq!(mem.value(), 125_000);
        assert_eq!(gpu.values(), (0, 500_000));
    }
    screen.draw(&mut canvas, area, &millis(200));
    {
        let (cpu, mem, gpu) = screen.bars();
        assert_eq!(cpu.values(), (1_000_000, 500_000));
        assert_eq!(mem.value(), 250_000);
        assert_eq!(gpu.values(), (0, 1_000_000));
    }
    screen.on_mount();
    let (cpu, mem, gpu) = screen.bars();
    assert_eq!(cpu.values(), (0, 0));
    assert_eq!(mem.value(), 0);
    assert_eq!(gpu.values(), (0, 0));
}

#[test]
fn the_memory_screen_lays_out_three_bars_with_labels() {
    let font = blocks();
    let mut screen = PerformanceWithMemoryScreen::new(&font);
    let mut canvas = Bitmap::new(128, 64);
    screen.draw(&mut canvas, bounds(0, 0, 128, 64), &millis(16));
    // The labels are 12 wide, the bars begin 7 further right at column 19
    // and end at the right edge.  The first bar has its top in row 8.
    assert_eq!(lit_columns(&canvas, 7), Vec::<usize>::new());
    assert_eq!(lit_columns(&canvas, 8), vec![19, 20, 21, 22, 123, 124, 125, 126, 127]);
    // The label is vertically centered on its bar: rows 10 to 15.
    assert_eq!(lit_columns(&canvas, 9), vec![19, 127]);
    assert_eq!(
        lit_columns(&canvas, 10),
        vec![0, 1, 2, 3, 4, 5, 6, 7, 8, 9, 10, 11, 19, 127]
    );
    assert_eq!(lit_columns(&canvas, 17), vec![19, 20, 21, 22, 123, 124, 125, 126, 127]);
    // The second bar is centered between the margins, rows 27 to 36.
    assert_eq!(lit_columns(&canvas, 26), Vec::<usize>::new());
    assert_eq!(lit_columns(&canvas, 27), vec![19, 20, 21, 22, 123, 124, 125, 126, 127]);
    assert_eq!(lit_columns(&canvas, 36), vec![19, 20, 21, 22, 123, 124, 125, 126, 127]);
    // The third bar stands on the lower margin, rows 46 to 55.
    assert_eq!(lit_columns(&canvas, 45), Vec::<usize>::new());
    assert_eq!(lit_columns(&canvas, 46), vec![19, 20, 21, 22, 123, 124, 125, 126, 127]);
    assert_eq!(lit_columns(&canvas, 55), vec![19, 20, 21, 22, 123, 124, 125, 126, 127]);
    assert_eq!(lit_columns(&canvas, 56), Vec::<usize>::new());
}

#[test]
fn the_temperature_screen_shows_temperatures_and_bars() {
    let font = blocks();
    let mut screen = PerformanceWithTemperatureScreen::new(&font, icon(10), icon(20));
    screen.set_statistics(stats((1_000_000, 0), 0, (500_000, 500_000), ("45.5", "60")));
    let mut canvas = Bitmap::new(128, 64);
    screen.draw(&mut canvas, bounds(0, 0, 128, 64), &millis(200));
    {
        let (cpu, gpu) = screen.texts();
        assert_eq!(cpu.text(), "45.5 C");
        assert_eq!(gpu.text(), "60 C");
    }
    {
        let (cpu, gpu) = screen.bars();
        assert_eq!(cpu.values(), (1_000_000, 0));
        assert_eq!(gpu.values(), (500_000, 500_000));
    }
    // The processor's icon: centered in the right half, 3 to the right.
    assert_eq!(canvas.buffer[31 * 128 + 98], 10);
    assert_eq!(canvas.buffer[32 * 128 + 99], 10);
    assert_eq!(canvas.buffer[31 * 128 + 97], 0);
    // The graphics processor's icon: centered in the left half.
    assert_eq!(canvas.buffer[31 * 128 + 31], 20);
    assert_eq!(canvas.buffer[32 * 128 + 32], 20);
    // The processor's bar runs from the left edge to column 83, where the
    // column of the temperature begins; it is full in its upper half.
    assert_eq!(canvas.buffer[0], 255);
    assert_eq!(canvas.buffer[82], 255);
    assert_eq!(canvas.buffer[83], 0);
    assert_eq!(canvas.buffer[3 * 128 + 81], 255);
    assert_eq!(canvas.buffer[7 * 128 + 40], 0);
    // The temperature, 24 wide, is centered in its column of 45.
    assert_eq!(canvas.buffer[2 * 128 + 92], 0);
    assert_eq!(canvas.buffer[2 * 128 + 93], 255);
    assert_eq!(canvas.buffer[2 * 128 + 116], 255);
    assert_eq!(canvas.buffer[2 * 128 + 117], 0);
    // The graphics processor's bar stands at the bottom, from column 45.
    assert_eq!(canvas.buffer[54 * 128 + 44], 0);
    assert_eq!(canvas.buffer[54 * 128 + 45], 255);
    assert_eq!(canvas.buffer[63 * 128 + 127], 255);
    // The separators are dashed.
    assert_eq!(row(&canvas, 18)[..6].to_vec(), vec![0, 255, 0, 255, 0, 255]);
    assert_eq!(row(&canvas, 18)[62..66].to_vec(), vec![0, 255, 0, 0]);
    assert_eq!(row(&canvas, 46)[64..68].to_vec(), vec![0, 255, 0, 255]);
    assert_eq!(canvas.buffer[19 * 128 + 64], 255);
    assert_eq!(canvas.buffer[20 * 128 + 64], 0);
    screen.on_mount();
    let (cpu, gpu) = screen.bars();
    assert_eq!(cpu.values(), (0, 0));
    assert_eq!(gpu.values(), (0, 0));
}

#[test]
fn screens_of_different_kinds_share_a_collection() {
    let font = blocks();
    let video = Video::from_frames(vec![frame(1), frame(2)]);
    let screens: Vec<AnyScreen<PollingMediaProvider>> = vec![
        AnyScreen::Clock(ClockScreen::new(&font, &font)),
        AnyScreen::Media(MediaScreen::new(
            PollingMediaProvider::new(),
            icon(1),
            icon(2),
            &font,
            &font,
        )),
        AnyScreen::PerformanceWithMemory(PerformanceWithMemoryScreen::new(&font)),
        AnyScreen::PerformanceWithTemperature(PerformanceWithTemperatureScreen::new(
            &font,
            icon(3),
            icon(4),
        )),
        AnyScreen::StickFight(StickFightScreen::new(VideoWidget::new(video, millis(50)))),
    ];
    let mut collection = ScreenCollection::new(screens);
    let area = bounds(0, 0, 128, 64);
    for expected in [1, 2, 3, 4, 0] {
        let mut canvas = Bitmap::new(128, 64);
        collection.draw(&mut canvas, area, &millis(60));
        assert!(canvas.buffer.iter().any(|p| *p != 0));
        collection.next_screen();
        assert_eq!(collection.active_index(), expected);
    }
    if let AnyScreen::StickFight(screen) = collection.screen_mut(4) {
        assert_eq!(screen.widget().frame_index(), 1);
    } else {
        panic!("the last screen is the stick fight");
    }
    collection.previous_screen();
    if let AnyScreen::StickFight(screen) = collection.active_screen() {
        assert_eq!(screen.widget().frame_index(), 0);
    } else {
        panic!("the last screen is the stick fight");
    }
}

#[test]
fn the_ease_is_the_sine_of_a_quarter_turn() {
    assert_eq!(EASE_OUT.len(), 601);
    for (step, value) in EASE_OUT.iter().enumerate() {
        let angle = std::f64::consts::FRAC_PI_2 * step as f64 / 600.0;
        assert_eq!(*value, (angle.sin() * 1_000_000.0).round() as u32);
    }
}

#[test]
fn screens_tell_whether_they_fit() {
    let font = blocks();
    let canvas = Bitmap::new(128, 64);
    let memory = PerformanceWithMemoryScreen::new(&font);
    // The labels are 12 wide; with their gap of 7 and a bar of 2 at least
    // the screen takes 21 pixels.
    assert!(memory.can_draw(&canvas, bounds(0, 0, 21, 16)));
    assert!(!memory.can_draw(&canvas, bounds(0, 0, 20, 16)));
    assert!(!memory.can_draw(&canvas, bounds(0, 0, 21, 15)));
    assert!(memory.can_draw(&canvas, bounds(-1, -1, 128, 64)));
    assert!(!memory.can_draw(&canvas, bounds(-0x2000_0000, 0, 128, 64)));
    let temperature = PerformanceWithTemperatureScreen::new(&font, icon(1), icon(2));
    assert!(temperature.can_draw(&canvas, bounds(0, 0, 47, 36)));
    assert!(!temperature.can_draw(&canvas, bounds(0, 0, 46, 36)));
    assert!(!temperature.can_draw(&canvas, bounds(0, 0, 47, 35)));
    // Left of the origin the processor's bar needs what is left of the
    // width.
    assert!(temperature.can_draw(&canvas, bounds(-10, -5, 57, 36)));
    assert!(!temperature.can_draw(&canvas, bounds(-10, -5, 56, 36)));
    let clock = ClockScreen::new(&font, &font);
    assert!(clock.can_draw(&canvas, bounds(0, 0, 128, 64)));
    assert!(clock.can_draw(&canvas, bounds(-64, -32, 128, 64)));
    assert!(!clock.can_draw(&canvas, bounds(0, 0, 0x2000_0000, 64)));
    let indicator = ScreenIndicator::new(2);
    assert!(indicator.can_draw(&canvas, bounds(-5, -5, 0x1fff_ffff, 0x7fff_ffff)));
    assert!(!indicator.can_draw(&canvas, bounds(0, 0, 0x2000_0000, 1)));
    assert!(!indicator.can_draw(&canvas, bounds(0, 0, 1, 0x8000_0000)));
}

#[test]
fn screens_draw_into_bounds_left_of_and_above_the_origin() {
    let font = blocks();
    let mut clock = ClockScreen::new(&font, &font);
    let mut canvas = Bitmap::new(30, 10);
    // The bounds are centered on the origin: so is the time, 20 by 6.
    clock.draw_time(&mut canvas, bounds(-30, -10, 60, 20), &millis(16), "12:34");
    assert_eq!(lit_columns(&canvas, 0), (0..10).collect::<Vec<usize>>());
    assert_eq!(lit_columns(&canvas, 2), (0..10).collect::<Vec<usize>>());
    assert_eq!(lit_columns(&canvas, 3), Vec::<usize>::new());
    let video = Video::from_frames(vec![frame(7)]);
    let mut stickfight = StickFightScreen::new(VideoWidget::new(video, millis(50)));
    let mut canvas = Bitmap::new(4, 4);
    assert!(stickfight.can_draw(&canvas, bounds(-2, -2, 4, 4)));
    stickfight.draw(&mut canvas, bounds(-2, -2, 4, 4), &millis(16));
    assert_eq!(row(&canvas, 0), vec![7, 0, 0, 0]);
    assert_eq!(row(&canvas, 1), vec![0; 4]);
    assert!(stickfight.can_draw(&canvas, bounds(i32::MAX, 0, 2, 0)));
    assert!(!stickfight.can_draw(&canvas, bounds(i32::MAX, 0, 4, 0)));
}
