//! The tool-selection state machine and the panel toggle.

use glyphtool::messages::Command;
use glyphtool::panel::FloatingPanel;
use glyphtool::toolbar::{Event, KeyChord, Toolbar, ToolbarItem};
use glyphtool::tools::ToolId;

fn chord(key: char) -> KeyChord {
    KeyChord { shift: false, key }
}

fn shifted(key: char) -> KeyChord {
    KeyChord { shift: true, key }
}

#[test]
fn default_registry_order() {
    let t = Toolbar::default();
    let names: Vec<ToolId> = t.items.iter().map(|it| it.name).collect();
    assert_eq!(
        names,
        vec![
            ToolId::Select,
            ToolId::Pen,
            ToolId::Knife,
            ToolId::Preview,
            ToolId::Measure,
            ToolId::Rectangle,
            ToolId::Ellipse,
        ]
    );
    assert_eq!(t.selected, 0);
}

#[test]
fn keypress_lookup() {
    let t = Toolbar::default();
    assert_eq!(t.tool_for_keypress(&chord('v')), Some(ToolId::Select));
    assert_eq!(t.tool_for_keypress(&chord('u')), Some(ToolId::Rectangle));
    assert_eq!(t.tool_for_keypress(&shifted('u')), Some(ToolId::Ellipse));
    assert_eq!(t.tool_for_keypress(&chord('z')), None);
}

#[test]
fn scenario_key_command_click() {
    let mut t = Toolbar::default();

    // Key `p`: Pen becomes selected and the change is announced.
    let emit = t.handle_event(&Event::Key(chord('p')));
    assert_eq!(t.selected, 1);
    assert_eq!(emit, Some(Command::SetActiveTool(ToolId::Pen)));

    // Incoming command naming Ellipse: mirrored, nothing re-emitted.
    let emit = t.handle_event(&Event::Command(Command::SetActiveTool(ToolId::Ellipse)));
    assert_eq!(t.selected, 6);
    assert_eq!(emit, None);

    // Click on slot 0: Select becomes selected and the change is announced.
    let emit = t.handle_event(&Event::Click(0));
    assert_eq!(t.selected, 0);
    assert_eq!(emit, Some(Command::SetActiveTool(ToolId::Select)));

    // Incoming command naming the tool already selected: no change, no echo.
    let emit = t.handle_event(&Event::Command(Command::SetActiveTool(ToolId::Select)));
    assert_eq!(t.selected, 0);
    assert_eq!(emit, None);
}

#[test]
fn key_reselecting_current_tool_emits_nothing() {
    let mut t = Toolbar::default();
    let emit = t.handle_event(&Event::Key(chord('v')));
    assert_eq!(t.selected, 0);
    assert_eq!(emit, None);
}

#[test]
fn click_on_selected_slot_emits_nothing() {
    let mut t = Toolbar::default();
    t.handle_event(&Event::Click(3));
    let emit = t.handle_event(&Event::Click(3));
    assert_eq!(t.selected, 3);
    assert_eq!(emit, None);
}

#[test]
fn unmatched_key_is_ignored() {
    let mut t = Toolbar::default();
    t.handle_event(&Event::Key(chord('p')));
    let emit = t.handle_event(&Event::Key(chord('q')));
    assert_eq!(t.selected, 1);
    assert_eq!(emit, None);
}

#[test]
fn unknown_tool_command_is_ignored() {
    let mut t = Toolbar::new(vec![
        ToolbarItem { name: ToolId::Select, hotkey: chord('v') },
        ToolbarItem { name: ToolId::Pen, hotkey: chord('p') },
    ]);
    t.handle_event(&Event::Key(chord('p')));
    let emit = t.handle_event(&Event::Command(Command::SetActiveTool(ToolId::Knife)));
    assert_eq!(t.selected, 1);
    assert_eq!(emit, None);
}

#[test]
fn click_outside_registry_is_ignored() {
    let mut t = Toolbar::default();
    let emit = t.handle_event(&Event::Click(7));
    assert_eq!(t.selected, 0);
    assert_eq!(emit, None);
}

#[test]
fn duplicate_hotkey_picks_earlier_registered() {
    let mut t = Toolbar::new(vec![
        ToolbarItem { name: ToolId::Select, hotkey: chord('v') },
        ToolbarItem { name: ToolId::Rectangle, hotkey: chord('x') },
        ToolbarItem { name: ToolId::Ellipse, hotkey: chord('x') },
    ]);
    assert_eq!(t.tool_for_keypress(&chord('x')), Some(ToolId::Rectangle));
    let emit = t.handle_event(&Event::Key(chord('x')));
    assert_eq!(t.selected, 1);
    assert_eq!(emit, Some(Command::SetActiveTool(ToolId::Rectangle)));
}

#[test]
fn selection_stays_in_range() {
    let mut t = Toolbar::default();
    let events = [
        Event::Key(chord('m')),
        Event::Click(6),
        Event::Command(Command::SetActiveTool(ToolId::Knife)),
        Event::Key(shifted('u')),
        Event::Click(99),
        Event::Key(chord('!')),
        Event::Command(Command::SetPreviewVisibility(true)),
    ];
    for ev in events.iter() {
        t.handle_event(ev);
        assert!(t.selected < t.items.len());
    }
}

#[test]
fn preview_command_does_not_touch_selection() {
    let mut t = Toolbar::default();
    t.handle_event(&Event::Key(chord('e')));
    let emit = t.handle_event(&Event::Command(Command::SetPreviewVisibility(true)));
    assert_eq!(t.selected, 2);
    assert_eq!(emit, None);
}

#[test]
fn panel_defaults_to_visible() {
    let panel = FloatingPanel::new(17u32);
    assert!(!panel.is_hidden());
    assert_eq!(*panel.inner(), 17u32);
}

#[test]
fn panel_follows_preview_visibility() {
    let mut panel = FloatingPanel::new("chrome");
    panel.handle_command(&Command::SetPreviewVisibility(true));
    assert!(panel.is_hidden());
    panel.handle_command(&Command::SetActiveTool(ToolId::Pen));
    assert!(panel.is_hidden());
    panel.handle_command(&Command::SetPreviewVisibility(false));
    assert!(!panel.is_hidden());
    assert_eq!(*panel.inner(), "chrome");
}
