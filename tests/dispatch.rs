use pet_cli::{Action, Dispatcher, Event, Key, MenuItem};

#[test]
fn starts_on_home_screen() {
    let d = Dispatcher::new();
    assert_eq!(d.selected, MenuItem::Home);
    assert!(d.running);
}

#[test]
fn navigate_ignore_then_quit() {
    let mut d = Dispatcher::new();
    assert_eq!(d.handle(Event::Input(Key::Char('p'))), Action::Redraw);
    assert_eq!(d.selected, MenuItem::Pets);
    assert_eq!(d.handle(Event::Input(Key::Char('x'))), Action::Redraw);
    assert_eq!(d.selected, MenuItem::Pets);
    assert_eq!(d.handle(Event::Input(Key::Char('q'))), Action::Quit);
    assert!(!d.running);
    assert_eq!(d.selected, MenuItem::Pets);
}

#[test]
fn home_key_goes_back() {
    let mut d = Dispatcher::new();
    d.handle(Event::Input(Key::Char('p')));
    assert_eq!(d.handle(Event::Input(Key::Char('h'))), Action::Redraw);
    assert_eq!(d.selected, MenuItem::Home);
}

#[test]
fn tick_and_unmapped_keys_change_nothing() {
    let mut d = Dispatcher::new();
    d.handle(Event::Input(Key::Char('p')));
    let before = d;
    for e in [Event::Tick, Event::Input(Key::Other), Event::Input(Key::Char('P')), Event::Input(Key::Char('Q'))] {
        assert_eq!(d.handle(e), Action::Redraw);
        assert_eq!(d, before);
    }
}

#[test]
fn quit_asks_for_cleanup_once() {
    for start in ['h', 'p'] {
        let mut d = Dispatcher::new();
        d.handle(Event::Input(Key::Char(start)));
        let events = [
            Event::Input(Key::Char('q')),
            Event::Input(Key::Char('q')),
            Event::Tick,
            Event::Input(Key::Char('p')),
            Event::Input(Key::Char('h')),
        ];
        let actions: Vec<Action> = events.iter().map(|e| d.handle(*e)).collect();
        let quits = actions.iter().filter(|a| **a == Action::Quit).count();
        assert_eq!(quits, 1);
        assert_eq!(actions[0], Action::Quit);
        assert!(actions[1..].iter().all(|a| *a == Action::Halted));
        assert!(!d.running);
    }
}

#[test]
fn events_are_handled_in_arrival_order() {
    let mut a = Dispatcher::new();
    let mut b = Dispatcher::new();
    let keys = ['p', 'h', 'x'];
    let got: Vec<Action> = keys.iter().map(|c| a.handle(Event::Input(Key::Char(*c)))).collect();
    assert_eq!(got, vec![Action::Redraw; 3]);
    assert_eq!(a.selected, MenuItem::Home);
    let rev: Vec<Action> = keys.iter().rev().map(|c| b.handle(Event::Input(Key::Char(*c)))).collect();
    assert_eq!(rev, vec![Action::Redraw; 3]);
    assert_eq!(b.selected, MenuItem::Pets);
}
