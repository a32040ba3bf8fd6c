use crate::event::{Event, Key};
use crate::menu::{nav_target, MenuItem};
use vstd::prelude::*;

verus! {

/// What the surrounding loop does after the dispatcher handled a notification.
#[derive(Clone, Copy, Debug, PartialEq, Eq, Structural)]
pub enum Action {
    /// Draw the next frame and wait for the next notification.
    Redraw,
    /// Restore the terminal (leave raw mode, show the cursor) and leave the loop.
    Quit,
    /// The dispatcher has already quit; nothing is to be done.
    Halted,
}

/// The render state owned by the dispatcher.
#[derive(Clone, Copy, Debug, PartialEq, Eq, Structural)]
pub struct Dispatcher {
    /// The screen that the next frame shows.
    pub selected: MenuItem,
    /// False once the quit key has been handled.
    pub running: bool,
}

/// The key that ends the session.
pub open spec fn is_quit_key(k: Key) -> bool {
    k == Key::Char('q')
}

/// One transition of the dispatcher: the state after `e` and the action it asks for.
pub open spec fn step(s: Dispatcher, e: Event<Key>) -> (Dispatcher, Action) {
    if !s.running {
        (s, Action::Halted)
    } else {
        match e {
            Event::Tick => (s, Action::Redraw),
            Event::Input(k) => if is_quit_key(k) {
                (Dispatcher { selected: s.selected, running: false }, Action::Quit)
            } else {
                match nav_target(k) {
                    Some(m) => (Dispatcher { selected: m, running: true }, Action::Redraw),
                    None => (s, Action::Redraw),
                }
            },
        }
    }
}

/// The state after handling `evs` one by one in arrival order, and the
/// actions asked for, one per notification.
pub open spec fn run(s: Dispatcher, evs: Seq<Event<Key>>) -> (Dispatcher, Seq<Action>)
    decreases evs.len(),
{
    if evs.len() == 0 {
        (s, Seq::empty())
    } else {
        let prev = run(s, evs.drop_last());
        let next = step(prev.0, evs.last());
        (next.0, prev.1.push(next.1))
    }
}

/// How many times an action sequence asks for the terminal to be restored.
pub open spec fn quit_count(acts: Seq<Action>) -> nat
    decreases acts.len(),
{
    if acts.len() == 0 {
        0
    } else {
        quit_count(acts.drop_last()) + if acts.last() == Action::Quit { 1nat } else { 0nat }
    }
}

/// Whether `evs` holds a press of the quit key.
pub open spec fn has_quit_key(evs: Seq<Event<Key>>) -> bool {
    exists|i: int| 0 <= i < evs.len() && evs[i] == Event::Input(Key::Char('q'))
}

impl Dispatcher {
    /// A dispatcher showing the home screen, ready for notifications.
    pub fn new() -> (r: Dispatcher)
        ensures
            r.selected == MenuItem::Home,
            r.running,
    {
        Dispatcher { selected: MenuItem::Home, running: true }
    }

    /// Handles one notification: the quit key stops the dispatcher and asks
    /// for cleanup, a navigation key selects its screen, anything else keeps
    /// the state. Once stopped, nothing changes any more.
    pub fn handle(&mut self, e: Event<Key>) -> (a: Action)
        ensures
            (*final(self), a) == step(*old(self), e),
    {
        if !self.running {
            return Action::Halted;
        }
        match e {
            Event::Tick => Action::Redraw,
            Event::Input(k) => {
                if k == Key::Char('q') {
                    self.running = false;
                    Action::Quit
                } else {
                    match MenuItem::for_key(k) {
                        Some(m) => {
                            self.selected = m;
                            Action::Redraw
                        },
                        None => Action::Redraw,
                    }
                }
            },
        }
    }
}

/// Handling a sequence of notifications is handling each of them in arrival
/// order: the action for the `i`-th notification is the one that the state
/// reached after the first `i` notifications gives for it.
pub proof fn lemma_in_arrival_order(s: Dispatcher, evs: Seq<Event<Key>>, i: int)
    requires
        0 <= i < evs.len(),
    ensures
        run(s, evs).1.len() == evs.len(),
        run(s, evs).1[i] == step(run(s, evs.take(i)).0, evs[i]).1,
        run(s, evs.take(i + 1)).0 == step(run(s, evs.take(i)).0, evs[i]).0,
    decreases evs.len(),
{
    lemma_run_len(s, evs);
    if i == evs.len() - 1 {
        assert(evs.take(i) == evs.drop_last());
        assert(evs.take(i + 1) == evs);
    } else {
        lemma_in_arrival_order(s, evs.drop_last(), i);
        assert(evs.drop_last().take(i) == evs.take(i));
        assert(evs.drop_last().take(i + 1) == evs.take(i + 1));
    }
}

/// One action for each notification handled.
pub proof fn lemma_run_len(s: Dispatcher, evs: Seq<Event<Key>>)
    ensures
        run(s, evs).1.len() == evs.len(),
    decreases evs.len(),
{
    if evs.len() > 0 {
        lemma_run_len(s, evs.drop_last());
    }
}

/// Handling `a` and then `b` is handling `a + b`.
pub proof fn lemma_run_append(s: Dispatcher, a: Seq<Event<Key>>, b: Seq<Event<Key>>)
    ensures
        run(s, a + b).0 == run(run(s, a).0, b).0,
        run(s, a + b).1 == run(s, a).1 + run(run(s, a).0, b).1,
    decreases b.len(),
{
    if b.len() == 0 {
        assert(a + b == a);
        assert(run(s, a).1 + Seq::<Action>::empty() == run(s, a).1);
    } else {
        assert((a + b).drop_last() == a + b.drop_last());
        lemma_run_append(s, a, b.drop_last());
        let r = run(run(s, a).0, b.drop_last()).1;
        assert(run(s, a).1 + r.push(step(run(run(s, a).0, b.drop_last()).0, b.last()).1)
            == (run(s, a).1 + r).push(step(run(run(s, a).0, b.drop_last()).0, b.last()).1));
    }
}

/// The selected screen changes only on a navigation key, and then to that
/// key's screen; every other notification leaves it as it was.
pub proof fn lemma_selection_changes_only_on_navigation(s: Dispatcher, e: Event<Key>)
    ensures
        step(s, e).0.selected != s.selected ==> exists|k: Key|
            e == Event::Input(k) && nav_target(k) == Some(step(s, e).0.selected),
        (forall|k: Key| e == Event::Input(k) ==> nav_target(k).is_none()) ==> step(s, e).0.selected
            == s.selected,
{
    if step(s, e).0.selected != s.selected {
        let k = e->Input_0;
        assert(e == Event::Input(k));
    }
}

/// From any screen, a sequence of notifications asks for cleanup at most once;
/// exactly once when the dispatcher was running and the quit key came; and
/// after that cleanup nothing more happens.
pub proof fn lemma_quit_at_most_once(s: Dispatcher, evs: Seq<Event<Key>>)
    ensures
        quit_count(run(s, evs).1) <= 1,
        quit_count(run(s, evs).1) == 1 <==> s.running && has_quit_key(evs),
        !run(s, evs).0.running <==> !s.running || has_quit_key(evs),
        forall|i: int, j: int|
            0 <= i < j < run(s, evs).1.len() && run(s, evs).1[i] == Action::Quit
                ==> run(s, evs).1[j] == Action::Halted,
    decreases evs.len(),
{
    lemma_run_len(s, evs);
    if evs.len() > 0 {
        let pre = evs.drop_last();
        lemma_quit_at_most_once(s, pre);
        lemma_quit_free(s, pre);
        lemma_run_len(s, pre);
        let acts = run(s, evs).1;
        let pacts = run(s, pre).1;
        assert(acts.drop_last() == pacts);
        if has_quit_key(evs) && !has_quit_key(pre) {
            let i = choose|i: int| 0 <= i < evs.len() && evs[i] == Event::Input(Key::Char('q'));
            if i < pre.len() {
                assert(pre[i] == evs[i]);
            }
            assert(evs.last() == Event::Input(Key::Char('q')));
        }
        if has_quit_key(pre) {
            let i = choose|i: int| 0 <= i < pre.len() && pre[i] == Event::Input(Key::Char('q'));
            assert(evs[i] == pre[i]);
        }
        assert forall|i: int, j: int|
            0 <= i < j < acts.len() && acts[i] == Action::Quit implies acts[j] == Action::Halted by {
            if j < acts.len() - 1 {
                assert(acts[i] == pacts[i]);
                assert(acts[j] == pacts[j]);
            } else if i < pacts.len() {
                assert(acts[i] == pacts[i]);
            }
        }
    }
}

/// While the dispatcher keeps running, it never asks for cleanup.
proof fn lemma_quit_free(s: Dispatcher, evs: Seq<Event<Key>>)
    ensures
        run(s, evs).0.running ==> forall|i: int|
            0 <= i < run(s, evs).1.len() ==> run(s, evs).1[i] != Action::Quit,
        !s.running ==> run(s, evs).0 == s,
    decreases evs.len(),
{
    if evs.len() > 0 {
        lemma_quit_free(s, evs.drop_last());
    }
}

} // verus!
