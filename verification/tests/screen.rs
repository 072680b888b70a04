use urll::args::{Args, Launch};
use urll::domain::page::{Page, PageDetails};
use urll::text::decimal_text;
use urll::tui::common::{Pane, TerminalDimensions};
use urll::tui::message::Message;
use urll::tui::model::Model;
use urll::tui::update::update;
use urll::tui::view::{Screen, Segment, Tone};

fn page(links: &[&str]) -> Page {
    Page {
        details: PageDetails { url: "https://a.test".to_string(), title: None, description: None },
        page_urls: links.iter().map(|l| l.to_string()).collect(),
    }
}

fn model(debug: bool) -> Model {
    Model::new(page(&["https://b.test"]), TerminalDimensions { width: 100, height: 40 }, debug)
}

fn plain(segments: &[Segment]) -> Vec<(String, Tone)> {
    segments.iter().map(|s| (s.text.clone(), s.tone)).collect()
}

#[test]
fn screen_follows_size_and_pane() {
    let mut model = model(false);
    assert_eq!(model.screen(), Screen::Results);
    update(&mut model, Message::GoToPane(Pane::Help));
    assert_eq!(model.screen(), Screen::Help);
    update(&mut model, Message::TerminalResize(10, 10));
    assert_eq!(model.screen(), Screen::TooSmall);
    update(&mut model, Message::GoBackOrQuit);
    assert_eq!(model.screen(), Screen::TooSmall);
    update(&mut model, Message::TerminalResize(64, 30));
    assert_eq!(model.screen(), Screen::Results);
}

#[test]
fn details_text_has_four_shapes() {
    let mut details = PageDetails { url: "u".to_string(), title: None, description: None };
    assert_eq!(details.text(), "No details found");
    details.description = Some("about".to_string());
    assert_eq!(details.text(), "about");
    details.title = Some("name".to_string());
    assert_eq!(details.text(), "Title: about\n\nname");
    details.description = None;
    assert_eq!(details.text(), "Title: name");
}

#[test]
fn too_small_notice_names_both_sizes() {
    let notice = TerminalDimensions { width: 63, height: 7 }.too_small_notice();
    assert_eq!(
        notice,
        "\nTerminal size too small:\n  Width = 63 Height = 7\n\nMinimum dimensions needed:\n  Width = 64 Height = 30\n\nPress (q/<ctrl+c>/<esc> to exit)\n"
    );
}

#[test]
fn status_bar_shows_title_url_and_message() {
    let mut model = model(false);
    assert_eq!(
        plain(&model.status_bar()),
        vec![(" urll ".to_string(), Tone::Title), (" [https://a.test]".to_string(), Tone::Url)]
    );
    update(&mut model, Message::GoBack);
    assert_eq!(
        plain(&model.status_bar()),
        vec![
            (" urll ".to_string(), Tone::Title),
            (" [https://a.test]".to_string(), Tone::Url),
            (" at the start of navigation history".to_string(), Tone::Error),
        ]
    );
    update(&mut model, Message::ContentYanked(Ok(())));
    assert_eq!(plain(&model.status_bar())[2], (" yanked!".to_string(), Tone::Info));
}

#[test]
fn status_bar_shows_the_internal_state_in_debug_mode() {
    let mut model = model(true);
    model.render_counter = 12;
    model.event_counter = 3405;
    assert_eq!(
        plain(&model.status_bar()),
        vec![
            (" urll ".to_string(), Tone::Title),
            (" [https://a.test]".to_string(), Tone::Url),
            (" -".to_string(), Tone::Plain),
            (" -> [rl]".to_string(), Tone::Plain),
            (" [render counter: 12]".to_string(), Tone::Plain),
            (" [event counter: 3405]".to_string(), Tone::Plain),
            (" [dimensions: 100x40] ".to_string(), Tone::Plain),
        ]
    );
    update(&mut model, Message::GoToPane(Pane::Help));
    update(&mut model, Message::UrlOpened(Err("no".to_string())));
    let bar = plain(&model.status_bar());
    assert_eq!(bar[2], (" [rl]".to_string(), Tone::Plain));
    assert_eq!(bar[3], (" -> [h]".to_string(), Tone::Plain));
    assert_eq!(bar[7], (" couldn't open url: no".to_string(), Tone::Error));
    assert_eq!(bar.len(), 8);
}

#[test]
fn decimal_text_agrees_with_the_standard_library() {
    for n in [0u64, 1, 9, 10, 11, 99, 100, 101, 12345, 1_000_000, u64::from(u16::MAX), u64::MAX - 1, u64::MAX] {
        assert_eq!(decimal_text(n), n.to_string());
    }
}

#[test]
fn launch_depends_on_links_and_mode() {
    let browse = Args { url: "https://a.test".to_string(), tui: true };
    let print = Args { url: "https://a.test".to_string(), tui: false };
    assert!(matches!(browse.launch(page(&[])), Launch::Nothing));
    assert!(matches!(print.launch(page(&[])), Launch::Nothing));
    match browse.launch(page(&["https://b.test", "https://c.test"])) {
        Launch::Browse(page) => assert_eq!(page.page_urls.len(), 2),
        other => panic!("unexpected launch {:?}", other),
    }
    match print.launch(page(&["https://b.test", "https://c.test"])) {
        Launch::Print(text) => assert_eq!(text, "https://b.test\nhttps://c.test"),
        other => panic!("unexpected launch {:?}", other),
    }
}
