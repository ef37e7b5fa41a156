use linux_clipboard::focus_watch::FocusWatch;
use linux_clipboard::placement::{position_window, window_origin_checked, placement_is_defined, MonitorArea};
use linux_clipboard::schedule::{DueWork, WatchSchedule};
use linux_clipboard::theme::{
    first_theme_step, interpret_reply, kde_line_answer, next_theme_step, source_answer,
    theme_preference, ThemeSource, ThemeStep,
};

fn v(s: &str) -> Vec<char> {
    s.chars().collect()
}

#[test]
fn portal_replies() {
    let dark = "method return time=1.2 sender=:1.5 -> destination=:1.90 serial=3 reply_serial=2\n   variant       variant          uint32 1\n";
    assert_eq!(source_answer(ThemeSource::PortalDbusSend, dark), Some(true));
    assert_eq!(source_answer(ThemeSource::PortalDbusSend, "   variant  variant   UINT32 2"), Some(false));
    assert_eq!(source_answer(ThemeSource::PortalDbusSend, "uint32 0"), Some(false));
    assert_eq!(source_answer(ThemeSource::PortalDbusSend, "nothing"), None);
    assert_eq!(source_answer(ThemeSource::PortalBusctl, "v v u 1\n"), Some(true));
    assert_eq!(source_answer(ThemeSource::PortalBusctl, "v v u 2"), Some(false));
    assert_eq!(source_answer(ThemeSource::PortalBusctl, " 1"), None);
}

#[test]
fn gsettings_replies() {
    assert_eq!(source_answer(ThemeSource::GnomeColorScheme, "'prefer-dark'\n"), Some(true));
    assert_eq!(source_answer(ThemeSource::GnomeColorScheme, "'prefer-light'"), Some(false));
    assert_eq!(source_answer(ThemeSource::GnomeColorScheme, "'default'"), None);
    assert_eq!(source_answer(ThemeSource::GnomeGtkTheme, "'Adwaita-DARK'"), Some(true));
    assert_eq!(source_answer(ThemeSource::GnomeGtkTheme, "'Adwaita'"), None);
}

#[test]
fn kde_globals_file() {
    assert_eq!(source_answer(ThemeSource::KdeGlobals, "[General]\nColorScheme=BreezeDark\n"), Some(true));
    assert_eq!(source_answer(ThemeSource::KdeGlobals, "[General]\r\nColorScheme=BreezeLight\r\n"), Some(false));
    assert_eq!(source_answer(ThemeSource::KdeGlobals, "[General]\nName=Dark\n"), None);
    assert_eq!(
        source_answer(ThemeSource::KdeGlobals, "colorscheme=Custom\nWidgetStyle=x\nColorScheme=Dark"),
        Some(true)
    );
    assert_eq!(kde_line_answer(&v("colorscheme=breezedark")), Some(true));
    assert_eq!(kde_line_answer(&v("theme=dark")), None);
}

#[test]
fn reply_reading_is_exact() {
    assert_eq!(interpret_reply(ThemeSource::PortalDbusSend, &v("uint32 10")), Some(true));
    assert_eq!(interpret_reply(ThemeSource::GnomeColorScheme, &v("dark and light")), Some(true));
    assert_eq!(interpret_reply(ThemeSource::GnomeColorScheme, &v("Dark")), None);
    assert_eq!(interpret_reply(ThemeSource::KdeGlobals, &v("dark")), None);
}

fn run_search(answers: [Option<bool>; 5]) -> (bool, usize) {
    let mut step = first_theme_step();
    let mut asked = 0;
    loop {
        match step {
            ThemeStep::Decided(b) => return (b, asked),
            ThemeStep::Consult(source) => {
                let answer = answers[asked];
                asked += 1;
                step = next_theme_step(source, answer);
            }
        }
    }
}

#[test]
fn first_answering_source_decides() {
    assert_eq!(first_theme_step(), ThemeStep::Consult(ThemeSource::PortalDbusSend));
    assert_eq!(run_search([None, None, None, None, None]), (false, 5));
    assert_eq!(run_search([Some(true), Some(false), None, None, None]), (true, 1));
    assert_eq!(run_search([None, None, Some(false), Some(true), None]), (false, 3));
    assert_eq!(run_search([None, None, None, None, Some(true)]), (true, 5));
    assert_eq!(next_theme_step(ThemeSource::GnomeGtkTheme, None), ThemeStep::Consult(ThemeSource::KdeGlobals));
}

#[test]
fn saved_theme_preference() {
    assert_eq!(theme_preference("dark"), Some(true));
    assert_eq!(theme_preference("light"), Some(false));
    assert_eq!(theme_preference("system"), None);
    assert_eq!(theme_preference("Dark"), None);
}

const FULL_HD: MonitorArea = MonitorArea { x: 0, y: 0, width: 1920, height: 1080 };

#[test]
fn window_opens_near_cursor_inside_monitor() {
    assert_eq!(position_window(Some(FULL_HD), Some((100, 100))), (80, 80));
    assert_eq!(position_window(Some(FULL_HD), Some((5, 5))), (10, 10));
    assert_eq!(position_window(Some(FULL_HD), Some((1900, 1000))), (1550, 590));
    let right = MonitorArea { x: 1920, y: 0, width: 1280, height: 1024 };
    assert_eq!(position_window(Some(right), Some((100, 100))), (1930, 80));
}

#[test]
fn window_is_centred_without_cursor() {
    assert_eq!(position_window(Some(FULL_HD), None), (780, 300));
    assert_eq!(position_window(None, None), (780, 300));
    assert_eq!(position_window(None, Some((500, 500))), (480, 480));
    let narrow = MonitorArea { x: 0, y: 0, width: 301, height: 479 };
    assert_eq!(position_window(Some(narrow), None), (-29, 0));
}

#[test]
fn small_monitor_keeps_the_corner_in_the_margin() {
    let tiny = MonitorArea { x: 0, y: 0, width: 300, height: 300 };
    assert!(placement_is_defined(Some(tiny), Some((10, 10))));
    assert_eq!(window_origin_checked(Some(tiny), Some((10, 10))), Some((10, 10)));
    assert_eq!(position_window(Some(tiny), Some((500, 500))), (10, 10));
    let offset = MonitorArea { x: 100, y: 50, width: 200, height: 400 };
    assert_eq!(position_window(Some(offset), Some((0, 0))), (110, 60));
    assert_eq!(window_origin_checked(Some(tiny), None), Some((-30, -90)));
    let edge = MonitorArea { x: i32::MAX - 100, y: 0, width: 1000, height: 1000 };
    assert_eq!(window_origin_checked(Some(edge), Some((0, 0))), None);
    assert_eq!(window_origin_checked(None, Some((i32::MIN, 0))), None);
    assert_eq!(window_origin_checked(Some(FULL_HD), Some((100, 100))), Some((80, 80)));
}

#[test]
fn focus_loss_hides_after_settling() {
    let mut watch = FocusWatch::new();
    for _ in 0..5 {
        assert!(!watch.on_tick(true, false));
    }
    assert_eq!(watch.visible_ticks(), 5);
    assert!(watch.on_tick(true, false));
    assert_eq!(watch.visible_ticks(), 0);
}

#[test]
fn focused_window_stays_until_focus_is_lost() {
    let mut watch = FocusWatch::new();
    for _ in 0..20 {
        assert!(!watch.on_tick(true, true));
    }
    assert!(watch.on_tick(true, false));
    assert!(!watch.on_tick(false, false));
    assert_eq!(watch.visible_ticks(), 0);
}

#[test]
fn hidden_window_resets_the_watch() {
    let mut watch = FocusWatch::new();
    for _ in 0..4 {
        watch.on_tick(true, true);
    }
    assert!(!watch.on_tick(false, true));
    assert_eq!(watch.visible_ticks(), 0);
    for _ in 0..5 {
        assert!(!watch.on_tick(true, false));
    }
}

#[test]
fn watcher_timetable() {
    let mut schedule = WatchSchedule::new();
    let mut themes = vec![];
    let mut cleanups = vec![];
    for n in 1..=120u32 {
        let DueWork { check_theme, clean_history } = schedule.tick();
        if check_theme {
            themes.push(n);
        }
        if clean_history {
            cleanups.push(n);
        }
    }
    assert_eq!(themes, (1..=30).map(|k| 4 * k).collect::<Vec<u32>>());
    assert_eq!(cleanups, vec![60, 120]);
}

#[test]
fn after_a_hide_the_watch_settles_again() {
    let mut watch = FocusWatch::new();
    let mut hides = Vec::new();
    for _ in 0..12 {
        hides.push(watch.on_tick(true, false));
    }
    let expected: Vec<bool> = (0..12).map(|i| i == 5 || i == 11).collect();
    assert_eq!(hides, expected);
    for _ in 0..30 {
        assert!(!watch.on_tick(true, true));
    }
    assert_eq!(watch.visible_ticks(), 30);
}
