//! The toolbar's tool-selection state machine.
//!
//! The toolbar holds an ordered registry of tool descriptors and the index of
//! the one active tool. It consumes three kinds of input — a key chord, a
//! click on a toolbar slot, and an incoming command — and emits a
//! `SetActiveTool` command exactly when the selection changes as a local
//! effect of a chord or a click. A selection forced by an incoming command is
//! mirrored but never re-emitted, which breaks the command echo loop between
//! the toolbar and any other component reacting to the same command.

use crate::messages::Command;
use crate::tools::ToolId;
use vstd::prelude::*;

verus! {

/// A keyboard chord: a key with an optional shift modifier.
#[derive(Clone, Copy, PartialEq, Eq, Structural, Debug)]
pub struct KeyChord {
    pub shift: bool,
    pub key: char,
}

/// One tool descriptor: an enumerated identifier and its activation hotkey.
/// The registry order is significant — it is both toolbar layout order and
/// the tie-break order for duplicate hotkeys. Icon geometry is pure drawing
/// data and lives with the renderer, outside this core.
#[derive(Clone, Copy, PartialEq, Eq, Structural, Debug)]
pub struct ToolbarItem {
    pub name: ToolId,
    pub hotkey: KeyChord,
}

/// An input event the toolbar consumes.
#[derive(Clone, Copy, PartialEq, Eq, Structural, Debug)]
pub enum Event {
    /// A key chord typed while the canvas has focus.
    Key(KeyChord),
    /// A pointer click on the toolbar slot at this index.
    Click(usize),
    /// A command arriving from outside on the command bus.
    Command(Command),
}

/// The least index of `items` satisfying `pred`, if any.
pub open spec fn first_where(items: Seq<ToolbarItem>, pred: spec_fn(ToolbarItem) -> bool) -> Option<
    int,
>
    decreases items.len(),
{
    if items.len() == 0 {
        Option::None
    } else if pred(items[0]) {
        Option::Some(0int)
    } else {
        match first_where(items.drop_first(), pred) {
            Option::Some(i) => Option::Some(i + 1),
            Option::None => Option::None,
        }
    }
}

/// The tool a chord activates over `items`: the name at the first matching
/// index, if any.
pub open spec fn spec_tool_for_key(items: Seq<ToolbarItem>, k: KeyChord) -> Option<ToolId> {
    match first_where(items, hotkey_pred(k)) {
        Option::Some(i) => Option::Some(items[i].name),
        Option::None => Option::None,
    }
}

/// Matching a descriptor against a typed chord: the hotkey equals the chord.
pub open spec fn hotkey_pred(k: KeyChord) -> spec_fn(ToolbarItem) -> bool {
    |it: ToolbarItem| it.hotkey == k
}

/// Matching a descriptor against a commanded tool id.
pub open spec fn name_pred(id: ToolId) -> spec_fn(ToolbarItem) -> bool {
    |it: ToolbarItem| it.name == id
}

/// `first_where` returns exactly the least matching index: a match below any
/// returned index is impossible, and `None` means nothing matches at all.
pub proof fn lemma_first_where(items: Seq<ToolbarItem>, pred: spec_fn(ToolbarItem) -> bool)
    ensures
        (match first_where(items, pred) {
            Option::Some(i) => 0 <= i < items.len() && pred(items[i]) && forall|j: int|
                0 <= j < i ==> !pred(#[trigger] items[j]),
            Option::None => forall|j: int| 0 <= j < items.len() ==> !pred(#[trigger] items[j]),
        }),
    decreases items.len(),
{
    if items.len() > 0 && !pred(items[0]) {
        let rest = items.drop_first();
        lemma_first_where(rest, pred);
        match first_where(rest, pred) {
            Option::Some(i) => {
                assert(items[i + 1] == rest[i]);
                assert forall|j: int| 0 <= j < i + 1 implies !pred(#[trigger] items[j]) by {
                    if j > 0 {
                        assert(items[j] == rest[j - 1]);
                        assert(!pred(rest[j - 1]));
                    }
                }
            },
            Option::None => {
                assert forall|j: int| 0 <= j < items.len() implies !pred(#[trigger] items[j]) by {
                    if j > 0 {
                        assert(items[j] == rest[j - 1]);
                        assert(!pred(rest[j - 1]));
                    }
                }
            },
        }
    }
}

/// Conversely, the least matching index is what `first_where` returns.
pub proof fn lemma_first_where_at(
    items: Seq<ToolbarItem>,
    pred: spec_fn(ToolbarItem) -> bool,
    i: int,
)
    requires
        0 <= i < items.len(),
        pred(items[i]),
        forall|j: int| 0 <= j < i ==> !pred(#[trigger] items[j]),
    ensures
        first_where(items, pred) == Option::Some(i),
{
    lemma_first_where(items, pred);
    match first_where(items, pred) {
        Option::Some(m) => {
            if m < i {
                assert(!pred(items[m]));
            } else if m > i {
                assert(!pred(items[i]));
            }
        },
        Option::None => {
            assert(!pred(items[i]));
        },
    }
}

/// If nothing matches, `first_where` returns `None`.
pub proof fn lemma_first_where_none(items: Seq<ToolbarItem>, pred: spec_fn(ToolbarItem) -> bool)
    requires
        forall|j: int| 0 <= j < items.len() ==> !pred(#[trigger] items[j]),
    ensures
        first_where(items, pred) is None,
{
    lemma_first_where(items, pred);
    match first_where(items, pred) {
        Option::Some(m) => {
            assert(!pred(items[m]));
        },
        Option::None => {},
    }
}

/// The toolbar: a fixed, ordered registry of descriptors and the index of
/// the one active tool.
pub struct Toolbar {
    pub items: Vec<ToolbarItem>,
    pub selected: usize,
}

/// One transition of the state machine: the toolbar after consuming `ev`,
/// and the command it emits, if any. The registry itself never changes.
pub open spec fn spec_step(t: Toolbar, ev: Event) -> (Toolbar, Option<Command>) {
    match ev {
        Event::Key(k) => (match first_where(t.items@, hotkey_pred(k)) {
            Option::Some(i) => (
                Toolbar { items: t.items, selected: i as usize },
                if i == t.selected as int {
                    Option::None
                } else {
                    Option::Some(Command::SetActiveTool(t.items@[i].name))
                },
            ),
            Option::None => (t, Option::None),
        }),
        Event::Click(slot) => (if (slot as int) < t.items@.len() {
            (
                Toolbar { items: t.items, selected: slot },
                if slot == t.selected {
                    Option::None
                } else {
                    Option::Some(Command::SetActiveTool(t.items@[slot as int].name))
                },
            )
        } else {
            (t, Option::None)
        }),
        Event::Command(c) => (match c {
            Command::SetActiveTool(id) => (match first_where(t.items@, name_pred(id)) {
                Option::Some(i) => (Toolbar { items: t.items, selected: i as usize }, Option::None),
                Option::None => (t, Option::None),
            }),
            Command::SetPreviewVisibility(_) => (t, Option::None),
        }),
    }
}

impl Toolbar {
    /// Exactly one tool is selected: `selected` is a single index and it
    /// lies inside the registry.
    pub open spec fn wf(self) -> bool {
        0 < self.items@.len() && (self.selected as int) < self.items@.len()
    }

    /// A toolbar over `items` with the first-registered tool selected.
    pub fn new(items: Vec<ToolbarItem>) -> (r: Self)
        requires
            items@.len() > 0,
        ensures
            r.wf(),
            r.items@ == items@,
            r.selected == 0,
    {
        Toolbar { items, selected: 0 }
    }

    /// The least registry index whose hotkey matches `key`, if any.
    fn first_hotkey_index(&self, key: &KeyChord) -> (r: Option<usize>)
        ensures
            (match r {
                Option::Some(i) => i < self.items@.len() && first_where(
                    self.items@,
                    hotkey_pred(*key),
                ) == Option::Some(i as int),
                Option::None => first_where(self.items@, hotkey_pred(*key)) is None,
            }),
    {
        let mut i: usize = 0;
        while i < self.items.len()
            invariant
                i <= self.items@.len(),
                forall|j: int| 0 <= j < i ==> (#[trigger] self.items@[j]).hotkey != *key,
            decreases self.items@.len() - i,
        {
            if self.items[i].hotkey == *key {
                proof {
                    lemma_first_where_at(self.items@, hotkey_pred(*key), i as int);
                }
                return Some(i);
            }
            i = i + 1;
        }
        proof {
            lemma_first_where_none(self.items@, hotkey_pred(*key));
        }
        None
    }

    /// The least registry index bound to the tool id `id`, if any.
    fn first_name_index(&self, id: &ToolId) -> (r: Option<usize>)
        ensures
            (match r {
                Option::Some(i) => i < self.items@.len() && first_where(self.items@, name_pred(*id))
                    == Option::Some(i as int),
                Option::None => first_where(self.items@, name_pred(*id)) is None,
            }),
    {
        let mut i: usize = 0;
        while i < self.items.len()
            invariant
                i <= self.items@.len(),
                forall|j: int| 0 <= j < i ==> (#[trigger] self.items@[j]).name != *id,
            decreases self.items@.len() - i,
        {
            if self.items[i].name == *id {
                proof {
                    lemma_first_where_at(self.items@, name_pred(*id), i as int);
                }
                return Some(i);
            }
            i = i + 1;
        }
        proof {
            lemma_first_where_none(self.items@, name_pred(*id));
        }
        None
    }

    /// The tool the chord `key` activates: the first descriptor, in
    /// registration order, whose hotkey matches; `None` when the chord is
    /// not consumed by this machine.
    pub fn tool_for_keypress(&self, key: &KeyChord) -> (r: Option<ToolId>)
        ensures
            r == spec_tool_for_key(self.items@, *key),
    {
        match self.first_hotkey_index(key) {
            Some(i) => Some(self.items[i].name),
            None => None,
        }
    }

    /// Consumes one input event: performs the transition of [`spec_step`]
    /// and returns the command to emit, if any.
    ///
    /// Unmatched chords, clicks outside the registry and commands naming an
    /// unknown id are silent no-ops. A selection change caused locally (by
    /// chord or click) emits `SetActiveTool` with the new id; a selection
    /// forced by an incoming command is never re-emitted.
    pub fn handle_event(&mut self, ev: &Event) -> (emit: Option<Command>)
        requires
            old(self).wf(),
        ensures
            final(self).wf(),
            (*final(self), emit) == spec_step(*old(self), *ev),
    {
        match *ev {
            Event::Key(k) => {
                match self.first_hotkey_index(&k) {
                    Some(i) => {
                        let previous = self.selected;
                        self.selected = i;
                        if i != previous {
                            Some(Command::SetActiveTool(self.items[i].name))
                        } else {
                            None
                        }
                    },
                    None => None,
                }
            },
            Event::Click(slot) => {
                if slot < self.items.len() {
                    let previous = self.selected;
                    self.selected = slot;
                    if slot != previous {
                        Some(Command::SetActiveTool(self.items[slot].name))
                    } else {
                        None
                    }
                } else {
                    None
                }
            },
            Event::Command(c) => {
                match c {
                    Command::SetActiveTool(id) => {
                        match self.first_name_index(&id) {
                            Some(i) => {
                                self.selected = i;
                            },
                            None => {},
                        }
                        None
                    },
                    Command::SetPreviewVisibility(_) => None,
                }
            },
        }
    }
}

/// The default tool registry, in toolbar-layout and tie-break order:
/// Select `v`, Pen `p`, Knife `e`, Preview `h`, Measure `m`, Rectangle `u`,
/// Ellipse `shift+u`.
pub open spec fn default_items() -> Seq<ToolbarItem> {
    seq![
        ToolbarItem { name: ToolId::Select, hotkey: KeyChord { shift: false, key: 'v' } },
        ToolbarItem { name: ToolId::Pen, hotkey: KeyChord { shift: false, key: 'p' } },
        ToolbarItem { name: ToolId::Knife, hotkey: KeyChord { shift: false, key: 'e' } },
        ToolbarItem { name: ToolId::Preview, hotkey: KeyChord { shift: false, key: 'h' } },
        ToolbarItem { name: ToolId::Measure, hotkey: KeyChord { shift: false, key: 'm' } },
        ToolbarItem { name: ToolId::Rectangle, hotkey: KeyChord { shift: false, key: 'u' } },
        ToolbarItem { name: ToolId::Ellipse, hotkey: KeyChord { shift: true, key: 'u' } },
    ]
}

impl Default for Toolbar {
    /// The default registry with the first-registered tool selected.
    fn default() -> (r: Toolbar)
        ensures
            r.wf(),
            r.items@ == default_items(),
            r.selected == 0,
    {
        let select = ToolbarItem {
            name: ToolId::Select,
            hotkey: KeyChord { shift: false, key: 'v' },
        };
        let pen = ToolbarItem { name: ToolId::Pen, hotkey: KeyChord { shift: false, key: 'p' } };
        let knife = ToolbarItem {
            name: ToolId::Knife,
            hotkey: KeyChord { shift: false, key: 'e' },
        };
        let preview = ToolbarItem {
            name: ToolId::Preview,
            hotkey: KeyChord { shift: false, key: 'h' },
        };
        let measure = ToolbarItem {
            name: ToolId::Measure,
            hotkey: KeyChord { shift: false, key: 'm' },
        };
        let rectangle = ToolbarItem {
            name: ToolId::Rectangle,
            hotkey: KeyChord { shift: false, key: 'u' },
        };
        let ellipse = ToolbarItem {
            name: ToolId::Ellipse,
            hotkey: KeyChord { shift: true, key: 'u' },
        };
        let items = vec![select, pen, knife, preview, measure, rectangle, ellipse];
        proof {
            assert(items@ =~= default_items());
        }
        Toolbar { items, selected: 0 }
    }
}

/// The toolbar after consuming the events of `es` in order.
pub open spec fn spec_run(t: Toolbar, es: Seq<Event>) -> Toolbar
    decreases es.len(),
{
    if es.len() == 0 {
        t
    } else {
        spec_run(spec_step(t, es[0]).0, es.drop_first())
    }
}

/// One transition keeps the registry and the single-selection invariant.
pub proof fn lemma_step_wf(t: Toolbar, ev: Event)
    requires
        t.wf(),
    ensures
        spec_step(t, ev).0.wf(),
        spec_step(t, ev).0.items == t.items,
{
    match ev {
        Event::Key(k) => lemma_first_where(t.items@, hotkey_pred(k)),
        Event::Command(Command::SetActiveTool(id)) => lemma_first_where(t.items@, name_pred(id)),
        _ => (),
    }
}

/// Single-selection invariant: after any sequence of transitions from a
/// well-formed toolbar, exactly one index of `items` is selected, and it
/// still lies inside the registry.
pub proof fn lemma_single_selection(t: Toolbar, es: Seq<Event>)
    requires
        t.wf(),
    ensures
        spec_run(t, es).wf(),
    decreases es.len(),
{
    if es.len() > 0 {
        lemma_step_wf(t, es[0]);
        lemma_single_selection(spec_step(t, es[0]).0, es.drop_first());
    }
}

/// Tie-break determinism: when two descriptors `i < j` share the hotkey
/// `k`, a matching key event selects a descriptor no later than `i` — never
/// the later duplicate.
pub proof fn lemma_tie_break(items: Seq<ToolbarItem>, k: KeyChord, i: int, j: int)
    requires
        0 <= i < j < items.len(),
        items[i].hotkey == k,
        items[j].hotkey == k,
    ensures
        (match first_where(items, hotkey_pred(k)) {
            Option::Some(m) => m <= i,
            Option::None => false,
        }),
{
    lemma_first_where(items, hotkey_pred(k));
    match first_where(items, hotkey_pred(k)) {
        Option::Some(m) => {
            if m > i {
                assert(!hotkey_pred(k)(items[i]));
            }
        },
        Option::None => {
            assert(!hotkey_pred(k)(items[i]));
        },
    }
}

/// Feedback-loop guard: an incoming `SetActiveTool` command is mirrored but
/// never re-emitted, whatever tool it names — in particular when it names
/// the tool already selected.
pub proof fn lemma_no_reemission(t: Toolbar, id: ToolId)
    ensures
        spec_step(t, Event::Command(Command::SetActiveTool(id))).1 is None,
{
}

} // verus!
