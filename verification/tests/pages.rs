use qlcpp::context::Context;
use qlcpp::dmx::DMX;
use qlcpp::input::InputSnapshot;
use qlcpp::ui::page::{Page, Pageable};

struct CountingPage {
    draws: u32,
    updates: u32,
}

impl CountingPage {
    fn new() -> CountingPage {
        CountingPage { draws: 0, updates: 0 }
    }
}

impl Pageable for CountingPage {
    fn draw(&mut self, _ctx: &mut Context, _dmx: &mut DMX) {
        self.draws += 1;
    }

    fn update(&mut self, _ctx: &mut Context, _dmx: &mut DMX) {
        self.updates += 1;
    }
}

fn frame_context() -> Context {
    Context::new(640, 480, InputSnapshot::idle())
}

#[test]
fn draw_reaches_selected_page_only() {
    let mut host = Page::new((CountingPage::new(), CountingPage::new()));
    let mut ctx = frame_context();
    let mut dmx = DMX::new();
    host.select(1);
    host.draw(&mut ctx, &mut dmx);
    let pages = host.pages_mut();
    assert_eq!(pages.0.draws, 0);
    assert_eq!(pages.1.draws, 1);
}

#[test]
fn update_reaches_selected_page_only() {
    let mut host = Page::new((CountingPage::new(), CountingPage::new()));
    let mut ctx = frame_context();
    let mut dmx = DMX::new();
    host.update(&mut ctx, &mut dmx);
    let pages = host.pages_mut();
    assert_eq!(pages.0.updates, 1);
    assert_eq!(pages.1.updates, 0);
}

#[test]
fn select_switches_routing() {
    let mut host = Page::new((CountingPage::new(), CountingPage::new()));
    let mut ctx = frame_context();
    let mut dmx = DMX::new();
    host.draw(&mut ctx, &mut dmx);
    host.select(1);
    host.draw(&mut ctx, &mut dmx);
    host.select(0);
    host.draw(&mut ctx, &mut dmx);
    let pages = host.pages_mut();
    assert_eq!(pages.0.draws, 2);
    assert_eq!(pages.1.draws, 1);
}

#[test]
fn pages_mut_gives_cross_page_access() {
    let mut host = Page::new((CountingPage::new(), CountingPage::new()));
    host.pages_mut().0.draws = 42;
    assert_eq!(host.pages_mut().0.draws, 42);
    assert_eq!(host.pages_mut().1.draws, 0);
}

#[test]
fn three_page_host_routes_by_index() {
    let mut host = Page::new((CountingPage::new(), CountingPage::new(), CountingPage::new()));
    let mut ctx = frame_context();
    let mut dmx = DMX::new();
    host.select(2);
    host.draw(&mut ctx, &mut dmx);
    let pages = host.pages_mut();
    assert_eq!(pages.0.draws, 0);
    assert_eq!(pages.1.draws, 0);
    assert_eq!(pages.2.draws, 1);
}
