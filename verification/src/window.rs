//! The window snapshots the decision engine reads, the events that change
//! them, and the tracker that folds events into a map from window id to the
//! last observed snapshot.

use vstd::prelude::*;
use std::collections::HashMap;

verus! {

broadcast use vstd::std_specs::hash::group_hash_axioms;

/// The mathematical content of a window snapshot.
pub ghost struct WindowSpec {
    pub id: u64,
    pub title: Option<Seq<char>>,
    pub app_id: Option<Seq<char>>,
}

/// What the decision engine reads of a window: its id and the two fields the
/// rules match on. Replaced wholesale whenever the window is observed again.
pub struct WindowSnapshot {
    /// Unique id of the window; constant while the window is open.
    pub id: u64,
    /// Title, if set.
    pub title: Option<String>,
    /// Application id, if set.
    pub app_id: Option<String>,
}

impl View for WindowSnapshot {
    type V = WindowSpec;

    open spec fn view(&self) -> WindowSpec {
        WindowSpec {
            id: self.id,
            title: self.title.deep_view(),
            app_id: self.app_id.deep_view(),
        }
    }
}

impl WindowSnapshot {
    /// A snapshot from its fields.
    pub fn new(id: u64, title: Option<String>, app_id: Option<String>) -> (r: WindowSnapshot)
        ensures
            r@ == (WindowSpec { id, title: title.deep_view(), app_id: app_id.deep_view() }),
    {
        WindowSnapshot { id, title, app_id }
    }
}

/// The events the tracker folds in, reduced to what the snapshots need: a
/// full replacement of the window set, a single new-or-changed window, a
/// closed window, or anything else (which leaves the snapshots unchanged).
pub enum WmEvent {
    /// The window configuration was replaced wholesale; missing windows were
    /// closed.
    WindowsChanged { windows: Vec<WindowSnapshot> },
    /// A window was opened, or an existing one changed.
    WindowOpenedOrChanged { window: WindowSnapshot },
    /// A window was closed.
    WindowClosed { id: u64 },
    /// Any event that does not touch the window snapshots.
    Other,
}

/// The mathematical content of an event.
pub ghost enum WmEventSpec {
    WindowsChanged(Seq<WindowSpec>),
    WindowOpenedOrChanged(WindowSpec),
    WindowClosed(u64),
    Other,
}

impl View for WmEvent {
    type V = WmEventSpec;

    open spec fn view(&self) -> WmEventSpec {
        match self {
            WmEvent::WindowsChanged { windows } => WmEventSpec::WindowsChanged(
                windows@.map_values(|w: WindowSnapshot| w@),
            ),
            WmEvent::WindowOpenedOrChanged { window } => WmEventSpec::WindowOpenedOrChanged(
                window@,
            ),
            WmEvent::WindowClosed { id } => WmEventSpec::WindowClosed(*id),
            WmEvent::Other => WmEventSpec::Other,
        }
    }
}

/// The map that a full window list denotes: each window keyed by its id, a
/// later entry winning over an earlier one with the same id.
pub open spec fn windows_as_map(windows: Seq<WindowSpec>) -> Map<u64, WindowSpec>
    decreases windows.len(),
{
    if windows.len() == 0 {
        Map::empty()
    } else {
        windows_as_map(windows.drop_last()).insert(windows.last().id, windows.last())
    }
}

/// How one event transforms the tracked snapshots.
pub open spec fn apply_event_spec(
    state: Map<u64, WindowSpec>,
    event: WmEventSpec,
) -> Map<u64, WindowSpec> {
    match event {
        WmEventSpec::WindowsChanged(windows) => windows_as_map(windows),
        WmEventSpec::WindowOpenedOrChanged(window) => state.insert(window.id, window),
        WmEventSpec::WindowClosed(id) => state.remove(id),
        WmEventSpec::Other => state,
    }
}

/// The previously observed windows, keyed by window id.
pub struct StateTracker {
    windows: HashMap<u64, WindowSnapshot>,
}

impl View for StateTracker {
    type V = Map<u64, WindowSpec>;

    closed spec fn view(&self) -> Map<u64, WindowSpec> {
        self.windows@.map_values(|w: WindowSnapshot| w@)
    }
}

impl StateTracker {
    /// An empty tracker: no window has been observed.
    pub fn new() -> (r: StateTracker)
        ensures
            r@ == Map::<u64, WindowSpec>::empty(),
    {
        let tracker = StateTracker { windows: HashMap::new() };
        proof {
            assert(tracker@ =~= Map::<u64, WindowSpec>::empty());
        }
        tracker
    }

    /// The prior snapshot of a window, if one was observed.
    pub fn lookup(&self, id: u64) -> (r: Option<&WindowSnapshot>)
        ensures
            match r {
                Some(window) => self@.contains_key(id) && window@ == self@[id],
                None => !self@.contains_key(id),
            },
    {
        self.windows.get(&id)
    }

    /// Folds one event into the tracked snapshots; never fails, and events
    /// that do not concern windows leave the tracker unchanged.
    pub fn apply(&mut self, event: WmEvent)
        ensures
            final(self)@ == apply_event_spec(old(self)@, event@),
    {
        match event {
            WmEvent::WindowsChanged { windows } => {
                let ghost all = windows@.map_values(|w: WindowSnapshot| w@);
                self.windows = HashMap::new();
                proof {
                    assert(self@ =~= windows_as_map(all.take(0)));
                }
                let mut remaining = windows;
                while remaining.len() > 0
                    invariant
                        remaining@.len() <= all.len(),
                        remaining@.map_values(|w: WindowSnapshot| w@) =~= all.skip(
                            all.len() - remaining@.len(),
                        ),
                        self@ == windows_as_map(all.take(all.len() - remaining@.len())),
                    decreases remaining@.len(),
                {
                    let ghost done = all.len() - remaining@.len();
                    let ghost prev = remaining@;
                    let window = remaining.remove(0);
                    proof {
                        let to_spec = |w: WindowSnapshot| w@;
                        assert(prev.map_values(to_spec)[0] == all.skip(done)[0]);
                        assert(window@ == all[done]);
                        assert(all.take(done + 1).drop_last() =~= all.take(done));
                        assert(all.take(done + 1).last() == all[done]);
                        assert forall|j: int| 0 <= j < remaining@.len() implies #[trigger] remaining@.map_values(
                            to_spec,
                        )[j] == all.skip(done + 1)[j] by {
                            assert(remaining@[j] == prev[j + 1]);
                            assert(prev.map_values(to_spec)[j + 1] == all.skip(done)[j + 1]);
                        }
                        assert(remaining@.map_values(to_spec) =~= all.skip(done + 1));
                    }
                    self.windows.insert(window.id, window);
                    proof {
                        assert(self@ =~= windows_as_map(all.take(done)).insert(
                            all[done].id,
                            all[done],
                        ));
                    }
                }
                proof {
                    assert(all.take(all.len() as int) =~= all);
                }
            },
            WmEvent::WindowOpenedOrChanged { window } => {
                let ghost w = window@;
                let id = window.id;
                self.windows.insert(id, window);
                proof {
                    assert(self@ =~= old(self)@.insert(w.id, w));
                }
            },
            WmEvent::WindowClosed { id } => {
                self.windows.remove(&id);
                proof {
                    assert(self@ =~= old(self)@.remove(id));
                }
            },
            WmEvent::Other => {},
        }
    }
}

} // verus!
