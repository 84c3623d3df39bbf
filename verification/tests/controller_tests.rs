use gol::controller::{
    paint_target, Action, ButtonState, ComputePass, Controller, Event, Frame, MouseButton, Slot,
    ZoomDirection,
};

fn press(c: &mut Controller, button: MouseButton) {
    let a = c.handle(Event::MouseInput { button, state: ButtonState::Pressed });
    assert!(a.is_empty());
}

#[test]
fn fresh_controller_is_paused_and_shows_the_seed() {
    let c = Controller::new(800, 600);
    assert!(c.paused);
    assert_eq!(c.left, ButtonState::Released);
    assert_eq!(c.right, ButtonState::Released);
    assert_eq!(c.seed_slot(), Slot::Second);
    assert_eq!(c.back_slot(), Slot::Second);
    assert_eq!(c.front, Slot::First);
}

#[test]
fn space_toggles_pause() {
    let mut c = Controller::new(800, 600);
    assert!(c.handle(Event::Character(' ')).is_empty());
    assert!(!c.paused);
    c.handle(Event::Character(' '));
    assert!(c.paused);
    assert_eq!(c, Controller::new(800, 600));
}

#[test]
fn other_characters_are_ignored() {
    let mut c = Controller::new(800, 600);
    for ch in ['a', 'p', '\n', 'é'] {
        assert!(c.handle(Event::Character(ch)).is_empty());
    }
    assert_eq!(c, Controller::new(800, 600));
}

#[test]
fn paused_redraw_only_renders() {
    let mut c = Controller::new(800, 600);
    let a = c.handle(Event::RedrawRequested);
    assert_eq!(a, vec![Action::Draw(Frame { compute: None, shown: Slot::Second })]);
    assert_eq!(c, Controller::new(800, 600));
}

#[test]
fn running_redraw_steps_then_swaps() {
    let mut c = Controller::new(800, 600);
    c.handle(Event::Character(' '));
    let a = c.handle(Event::RedrawRequested);
    assert_eq!(
        a,
        vec![Action::Draw(Frame {
            compute: Some(ComputePass {
                target: Slot::First,
                source: Slot::Second,
                groups_x: 800,
                groups_y: 600,
                groups_z: 1,
            }),
            shown: Slot::Second,
        })]
    );
    assert_eq!(c.front, Slot::Second);
    assert_eq!(c.back_slot(), Slot::First);
    let a = c.handle(Event::RedrawRequested);
    assert_eq!(
        a,
        vec![Action::Draw(Frame {
            compute: Some(ComputePass {
                target: Slot::Second,
                source: Slot::First,
                groups_x: 800,
                groups_y: 600,
                groups_z: 1,
            }),
            shown: Slot::First,
        })]
    );
    assert_eq!(c.front, Slot::First);
}

#[test]
fn simulation_pass_covers_the_surface() {
    let c = Controller::new(1024, 768);
    let p = c.simulation_pass();
    assert_eq!((p.groups_x, p.groups_y, p.groups_z), (1024, 768, 1));
    assert_ne!(p.target, p.source);
}

#[test]
fn redraw_method_matches_handle() {
    let mut c = Controller::new(10, 10);
    c.paused = false;
    let f = c.redraw();
    assert_eq!(f.shown, Slot::Second);
    assert_eq!(f.compute.unwrap().target, Slot::First);
    assert_eq!(c.front, Slot::Second);
}

#[test]
fn close_exits() {
    let mut c = Controller::new(800, 600);
    assert_eq!(c.handle(Event::CloseRequested), vec![Action::Exit]);
    assert_eq!(c, Controller::new(800, 600));
}

#[test]
fn resize_reconfigures() {
    let mut c = Controller::new(800, 600);
    let a = c.handle(Event::Resized { width: 1280, height: 720 });
    assert_eq!(a, vec![Action::Configure { width: 1280, height: 720 }]);
    assert_eq!((c.width, c.height), (1280, 720));
    c.resize(3, 4);
    assert_eq!((c.width, c.height), (3, 4));
}

#[test]
fn scroll_zooms() {
    let mut c = Controller::new(800, 600);
    assert_eq!(c.handle(Event::LineScroll { downward: true }), vec![Action::Zoom(ZoomDirection::Out)]);
    assert_eq!(c.handle(Event::LineScroll { downward: false }), vec![Action::Zoom(ZoomDirection::In)]);
    assert!(c.handle(Event::PixelScroll).is_empty());
}

#[test]
fn main_events_cleared_requests_redraw() {
    let mut c = Controller::new(800, 600);
    assert_eq!(c.handle(Event::MainEventsCleared), vec![Action::RequestRedraw]);
    assert!(c.handle(Event::Ignored).is_empty());
}

#[test]
fn moving_without_buttons_does_nothing() {
    let mut c = Controller::new(800, 600);
    assert!(c.handle(Event::CursorMoved { x: 5, y: 5 }).is_empty());
}

#[test]
fn left_drag_paints_the_shown_texture() {
    let mut c = Controller::new(800, 600);
    press(&mut c, MouseButton::Left);
    assert_eq!(c.left, ButtonState::Pressed);
    let a = c.handle(Event::CursorMoved { x: 10, y: 20 });
    assert_eq!(a, vec![Action::Paint { slot: Slot::Second, x: 10, y: 20 }]);
    c.handle(Event::MouseInput { button: MouseButton::Left, state: ButtonState::Released });
    assert!(c.handle(Event::CursorMoved { x: 11, y: 20 }).is_empty());
}

#[test]
fn painting_is_held_inside_the_surface() {
    let mut c = Controller::new(800, 600);
    press(&mut c, MouseButton::Left);
    let a = c.handle(Event::CursorMoved { x: 5000, y: u32::MAX });
    assert_eq!(a, vec![Action::Paint { slot: Slot::Second, x: 799, y: 599 }]);
    assert_eq!(paint_target(0, 0, 1, 1), (0, 0));
    assert_eq!(paint_target(7, 2, 5, 5), (4, 2));
}

#[test]
fn painting_after_resize_uses_the_new_size() {
    let mut c = Controller::new(800, 600);
    press(&mut c, MouseButton::Left);
    c.handle(Event::Resized { width: 100, height: 50 });
    let a = c.handle(Event::CursorMoved { x: 500, y: 500 });
    assert_eq!(a, vec![Action::Paint { slot: Slot::Second, x: 99, y: 49 }]);
}

#[test]
fn right_drag_pans() {
    let mut c = Controller::new(800, 600);
    press(&mut c, MouseButton::Right);
    assert_eq!(c.handle(Event::CursorMoved { x: 1, y: 1 }), vec![Action::Pan]);
    press(&mut c, MouseButton::Left);
    assert_eq!(
        c.handle(Event::CursorMoved { x: 2, y: 3 }),
        vec![Action::Paint { slot: Slot::Second, x: 2, y: 3 }, Action::Pan]
    );
}

#[test]
fn other_buttons_are_ignored() {
    let mut c = Controller::new(800, 600);
    press(&mut c, MouseButton::Middle);
    press(&mut c, MouseButton::Other);
    assert_eq!(c, Controller::new(800, 600));
}

#[test]
fn painting_follows_the_swap() {
    let mut c = Controller::new(800, 600);
    c.handle(Event::Character(' '));
    c.handle(Event::RedrawRequested);
    press(&mut c, MouseButton::Left);
    let a = c.handle(Event::CursorMoved { x: 3, y: 4 });
    assert_eq!(a, vec![Action::Paint { slot: Slot::First, x: 3, y: 4 }]);
}

#[test]
fn accepts_needs_a_surface_for_painting() {
    let mut c = Controller::new(0, 0);
    assert!(c.accepts_event(&Event::CursorMoved { x: 0, y: 0 }));
    press(&mut c, MouseButton::Left);
    assert!(!c.accepts_event(&Event::CursorMoved { x: 0, y: 0 }));
    assert!(c.accepts_event(&Event::RedrawRequested));
    c.handle(Event::Resized { width: 1, height: 0 });
    assert!(!c.accepts_event(&Event::CursorMoved { x: 0, y: 0 }));
    c.handle(Event::Resized { width: 1, height: 1 });
    assert!(c.accepts_event(&Event::CursorMoved { x: 0, y: 0 }));
    assert_eq!(c.handle(Event::CursorMoved { x: 9, y: 9 }), vec![Action::Paint { slot: Slot::Second, x: 0, y: 0 }]);
}

#[test]
fn slot_other_is_an_involution() {
    assert_eq!(Slot::First.other(), Slot::Second);
    assert_eq!(Slot::Second.other(), Slot::First);
    assert_eq!(Slot::First.other().other(), Slot::First);
}
