use urll::domain::page::{Page, PageDetails};
use urll::tui::app::{debug_enabled, step, Action, Arrival};
use urll::tui::command::Command;
use urll::tui::common::{Pane, TerminalDimensions, MIN_TERMINAL_HEIGHT, MIN_TERMINAL_WIDTH};
use urll::tui::event::{get_event_handling_msg, Event, KeyCode, KeyEvent, KeyEventKind, KeyModifiers};
use urll::tui::handle::{report, Outcome};
use urll::tui::message::Message;
use urll::tui::model::{Model, RunningState};
use urll::tui::update::update;

const NONE: KeyModifiers =
    KeyModifiers { shift: false, control: false, alt: false, super_key: false, hyper: false, meta: false };
const CONTROL: KeyModifiers = KeyModifiers { control: true, ..NONE };

fn press(code: KeyCode) -> Event {
    Event::Key(KeyEvent { code, modifiers: NONE, kind: KeyEventKind::Press })
}

fn press_with(code: KeyCode, modifiers: KeyModifiers) -> Event {
    Event::Key(KeyEvent { code, modifiers, kind: KeyEventKind::Press })
}

fn model() -> Model {
    Model::new(
        Page {
            details: PageDetails { url: "https://a.test".to_string(), title: None, description: None },
            page_urls: vec!["https://a.test/x".to_string(), "https://b.test".to_string()],
        },
        TerminalDimensions { width: 100, height: 40 },
        false,
    )
}

fn all_codes() -> Vec<KeyCode> {
    let mut codes = vec![
        KeyCode::Backspace,
        KeyCode::Enter,
        KeyCode::Up,
        KeyCode::Down,
        KeyCode::Esc,
        KeyCode::Other,
    ];
    for c in "jkgGyYo?qcQx \n".chars() {
        codes.push(KeyCode::Char(c));
    }
    codes
}

#[test]
fn results_list_keys_stand_for_their_intents() {
    let model = model();
    let intent = |code| get_event_handling_msg(&model, press(code));
    assert!(matches!(intent(KeyCode::Enter), Some(Message::UrlChosen)));
    assert!(matches!(intent(KeyCode::Backspace), Some(Message::GoBack)));
    assert!(matches!(intent(KeyCode::Char('j')), Some(Message::GoToNextListItem)));
    assert!(matches!(intent(KeyCode::Down), Some(Message::GoToNextListItem)));
    assert!(matches!(intent(KeyCode::Char('k')), Some(Message::GoToPreviousListItem)));
    assert!(matches!(intent(KeyCode::Up), Some(Message::GoToPreviousListItem)));
    assert!(matches!(intent(KeyCode::Char('g')), Some(Message::GoToFirstListItem)));
    assert!(matches!(intent(KeyCode::Char('G')), Some(Message::GoToLastListItem)));
    assert!(matches!(intent(KeyCode::Char('y')), Some(Message::YankUrlToClipboard)));
    assert!(matches!(intent(KeyCode::Char('Y')), Some(Message::YankUrlsToClipboard)));
    assert!(matches!(intent(KeyCode::Char('o')), Some(Message::OpenUrlInBrowser)));
    assert!(matches!(intent(KeyCode::Char('?')), Some(Message::GoToPane(Pane::Help))));
    assert!(matches!(intent(KeyCode::Esc), Some(Message::GoBackOrQuit)));
    assert!(matches!(intent(KeyCode::Char('q')), Some(Message::GoBackOrQuit)));
    assert!(intent(KeyCode::Char('c')).is_none());
    assert!(intent(KeyCode::Char('x')).is_none());
    assert!(intent(KeyCode::Other).is_none());
}

#[test]
fn control_c_quits_at_once_only_with_control_alone() {
    let mut model = model();
    for pane in [Pane::ResultsList, Pane::Help] {
        model.active_pane = pane;
        assert!(matches!(
            get_event_handling_msg(&model, press_with(KeyCode::Char('c'), CONTROL)),
            Some(Message::QuitImmediately)
        ));
        let shifted = KeyModifiers { shift: true, ..CONTROL };
        assert!(get_event_handling_msg(&model, press_with(KeyCode::Char('c'), shifted)).is_none());
        let alt = KeyModifiers { alt: true, ..NONE };
        assert!(get_event_handling_msg(&model, press_with(KeyCode::Char('c'), alt)).is_none());
        assert!(get_event_handling_msg(&model, press(KeyCode::Char('c'))).is_none());
    }
    assert!(CONTROL.is_control_only());
    assert!(!NONE.is_control_only());
    for widened in [
        KeyModifiers { shift: true, ..CONTROL },
        KeyModifiers { alt: true, ..CONTROL },
        KeyModifiers { super_key: true, ..CONTROL },
        KeyModifiers { hyper: true, ..CONTROL },
        KeyModifiers { meta: true, ..CONTROL },
    ] {
        assert!(!widened.is_control_only());
    }
}

#[test]
fn enter_means_nothing_when_the_fetch_failed() {
    let mut model = model();
    model.results = Err("boom".to_string());
    assert!(get_event_handling_msg(&model, press(KeyCode::Enter)).is_none());
    assert!(matches!(get_event_handling_msg(&model, press(KeyCode::Backspace)), Some(Message::GoBack)));
}

#[test]
fn help_pane_hears_only_return_and_quit() {
    let mut model = model();
    model.active_pane = Pane::Help;
    for code in all_codes() {
        let intent = get_event_handling_msg(&model, press(code));
        match code {
            KeyCode::Esc | KeyCode::Char('q') | KeyCode::Char('?') => {
                assert!(matches!(intent, Some(Message::GoBackOrQuit)), "{:?}", code)
            }
            _ => assert!(intent.is_none(), "{:?}", code),
        }
    }
}

#[test]
fn only_presses_count() {
    let mut model = model();
    for pane in [Pane::ResultsList, Pane::Help] {
        model.active_pane = pane;
        for too_small in [false, true] {
            model.terminal_too_small = too_small;
            for kind in [KeyEventKind::Repeat, KeyEventKind::Release] {
                for code in all_codes() {
                    let event = Event::Key(KeyEvent { code, modifiers: NONE, kind });
                    assert!(get_event_handling_msg(&model, event).is_none());
                    let event = Event::Key(KeyEvent { code, modifiers: CONTROL, kind });
                    assert!(get_event_handling_msg(&model, event).is_none());
                }
            }
        }
    }
}

#[test]
fn resize_below_minimum_mutes_all_but_the_quit_keys() {
    let mut model = model();
    let resize = get_event_handling_msg(&model, Event::Resize(MIN_TERMINAL_WIDTH - 1, 40));
    let resize = resize.expect("a resize is always passed on");
    assert!(matches!(resize, Message::TerminalResize(63, 40)));
    update(&mut model, resize);
    assert!(model.terminal_too_small);
    assert_eq!(model.terminal_dimensions, TerminalDimensions { width: 63, height: 40 });
    assert_eq!(model.active_pane, Pane::ResultsList);

    for pane in [Pane::ResultsList, Pane::Help] {
        model.active_pane = pane;
        for code in all_codes() {
            for modifiers in [NONE, CONTROL] {
                let intent = get_event_handling_msg(&model, press_with(code, modifiers));
                match code {
                    KeyCode::Esc | KeyCode::Char('q') => {
                        assert!(matches!(intent, Some(Message::GoBackOrQuit)), "{:?}", code)
                    }
                    _ => assert!(intent.is_none(), "{:?}", code),
                }
            }
        }
        assert!(matches!(
            get_event_handling_msg(&model, Event::Resize(200, 50)),
            Some(Message::TerminalResize(200, 50))
        ));
        assert!(get_event_handling_msg(&model, Event::Other).is_none());
    }
}

#[test]
fn too_small_is_decided_by_either_dimension() {
    let mut model = model();
    let cases = [
        (MIN_TERMINAL_WIDTH, MIN_TERMINAL_HEIGHT, false),
        (MIN_TERMINAL_WIDTH - 1, MIN_TERMINAL_HEIGHT, true),
        (MIN_TERMINAL_WIDTH, MIN_TERMINAL_HEIGHT - 1, true),
        (0, 0, true),
        (u16::MAX, u16::MAX, false),
    ];
    for (width, height, small) in cases {
        update(&mut model, Message::TerminalResize(width, height));
        assert_eq!(model.terminal_too_small, small, "{}x{}", width, height);
        assert_eq!(TerminalDimensions { width, height }.is_too_small(), small);
        assert_eq!(model.get_selected_url(), Some(("https://a.test/x".to_string(), 0)));
    }
    assert_eq!((MIN_TERMINAL_WIDTH, MIN_TERMINAL_HEIGHT), (64, 30));
    let started_small = Model::new(
        Page {
            details: PageDetails { url: "u".to_string(), title: None, description: None },
            page_urls: vec![],
        },
        TerminalDimensions { width: 10, height: 10 },
        true,
    );
    assert!(started_small.terminal_too_small);
    assert!(started_small.debug);
}

#[test]
fn step_processes_intents_and_counts_drawings() {
    let mut model = model();
    let action = step(&mut model, Arrival::Intent(Message::GoToNextListItem));
    assert!(matches!(action, Action::Render(ref commands) if commands.is_empty()));
    assert_eq!(model.render_counter, 1);
    assert_eq!(model.event_counter, 0);
    let action = step(&mut model, Arrival::Intent(Message::UrlChosen));
    match action {
        Action::Render(commands) => {
            assert!(matches!(
                commands.as_slice(),
                [Command::GetResults { current, chosen }]
                    if current == "https://a.test" && chosen == "https://b.test"
            ));
        }
        other => panic!("unexpected action {:?}", other),
    }
    assert_eq!(model.render_counter, 2);
    let action = step(&mut model, Arrival::Intent(Message::GoBackOrQuit));
    assert!(matches!(action, Action::Exit));
    assert_eq!(model.running_state, RunningState::Done);
    assert_eq!(model.render_counter, 2);
}

#[test]
fn step_counts_terminal_events_and_passes_intents_on() {
    let mut model = model();
    let action = step(&mut model, Arrival::Terminal(press(KeyCode::Char('j'))));
    assert!(matches!(action, Action::Send(Message::GoToNextListItem)));
    assert_eq!(model.event_counter, 1);
    assert_eq!(model.render_counter, 0);
    assert_eq!(model.get_selected_url(), Some(("https://a.test/x".to_string(), 0)));
    let action = step(&mut model, Arrival::Terminal(Event::Other));
    assert!(matches!(action, Action::Wait));
    assert_eq!(model.event_counter, 2);
    let action = step(&mut model, Arrival::Terminal(Event::Resize(10, 10)));
    assert!(matches!(action, Action::Send(Message::TerminalResize(10, 10))));
    assert!(!model.terminal_too_small);
}

#[test]
fn counters_stop_at_their_largest_value() {
    let mut model = model();
    model.render_counter = u64::MAX - 1;
    model.count_render();
    assert_eq!(model.render_counter, u64::MAX);
    model.count_render();
    assert_eq!(model.render_counter, u64::MAX);
    model.event_counter = u64::MAX;
    model.count_event();
    assert_eq!(model.event_counter, u64::MAX);
}

#[test]
fn debug_setting_is_read_with_white_space_aside() {
    assert!(debug_enabled("1"));
    assert!(debug_enabled(" 1\n"));
    assert!(!debug_enabled(""));
    assert!(!debug_enabled("0"));
    assert!(!debug_enabled("true"));
    assert!(!debug_enabled("1 1"));
    assert!(!debug_enabled("11"));
}

#[test]
fn report_brings_the_outcome_back_as_an_intent() {
    let fetch = Command::GetResults { current: "cur".to_string(), chosen: "new".to_string() };
    match report(fetch.clone(), Outcome::Fetched(Err("boom".to_string()))) {
        Some(Message::ResultsFetched { previous, chosen, page_result }) => {
            assert_eq!(previous, "cur");
            assert_eq!(chosen, "new");
            assert_eq!(page_result.expect_err("a failure"), "boom");
        }
        other => panic!("unexpected report {:?}", other),
    }
    let page = Page {
        details: PageDetails { url: "new".to_string(), title: None, description: None },
        page_urls: vec!["x".to_string()],
    };
    match report(fetch.clone(), Outcome::Fetched(Ok(page))) {
        Some(Message::ResultsFetched { previous, page_result: Ok(page), .. }) => {
            assert_eq!(previous, "cur");
            assert_eq!(page.page_urls, vec!["x".to_string()]);
        }
        other => panic!("unexpected report {:?}", other),
    }
    assert!(report(fetch, Outcome::Finished(Ok(()))).is_none());

    let yank = Command::YankContentToClipboard("text".to_string());
    assert!(matches!(report(yank.clone(), Outcome::Finished(Ok(()))), Some(Message::ContentYanked(Ok(())))));
    assert!(matches!(
        report(yank.clone(), Outcome::Finished(Err("e".to_string()))),
        Some(Message::ContentYanked(Err(ref e))) if e == "e"
    ));
    assert!(report(yank, Outcome::Fetched(Err("e".to_string()))).is_none());

    let open = Command::OpenInBrowser("url".to_string());
    assert!(matches!(report(open.clone(), Outcome::Finished(Ok(()))), Some(Message::UrlOpened(Ok(())))));
    assert!(matches!(
        report(open, Outcome::Finished(Err("e".to_string()))),
        Some(Message::UrlOpened(Err(ref e))) if e == "e"
    ));
}

#[test]
fn labels_name_commands_and_panes() {
    assert_eq!(Command::GetResults { current: String::new(), chosen: String::new() }.label(), "get services");
    assert_eq!(Command::YankContentToClipboard(String::new()).label(), "yank url");
    assert_eq!(Command::OpenInBrowser(String::new()).label(), "open url");
    assert_eq!(Pane::ResultsList.label(), "rl");
    assert_eq!(Pane::Help.label(), "h");
}
