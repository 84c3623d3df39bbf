use vstd::prelude::*;

use crate::controller::{Action, ButtonState, ComputePass, Controller, Event, Frame, MouseButton, Slot, ZoomDirection, spec_paint_target};
use crate::seed::{BYTES_PER_PIXEL, LIVE, is_seed_pixel, seed_byte};

verus! {

/// Exchanging the two textures twice gives back the first.
pub proof fn other_slot_is_an_involution(s: Slot)
    ensures
        s.spec_other().spec_other() == s,
        s.spec_other() != s,
{
}

/// The space bar toggles the pause and changes nothing else; pressing it twice gives
/// back the state before.
pub proof fn space_toggles_pause(c: Controller)
    ensures
        c.after(Event::Character(' ')) == (Controller { paused: !c.paused, ..c }),
        c.after(Event::Character(' ')).after(Event::Character(' ')) == c,
        c.reaction(Event::Character(' ')) == Seq::<Action>::empty(),
{
}

/// Every other character is ignored.
pub proof fn other_characters_are_ignored(c: Controller, ch: char)
    requires
        ch != ' ',
    ensures
        c.after(Event::Character(ch)) == c,
        c.reaction(Event::Character(ch)) == Seq::<Action>::empty(),
{
}

/// While paused, a redraw only shows the board: nothing is computed and the textures
/// keep their roles.
pub proof fn paused_redraw_shows_without_stepping(c: Controller)
    requires
        c.paused,
    ensures
        c.after(Event::RedrawRequested) == c,
        c.reaction(Event::RedrawRequested) == seq![
            Action::Draw(Frame { compute: None, shown: c.back() }),
        ],
{
}

/// While running, a redraw computes one generation from the shown texture into the
/// other one, shows the texture it read, and then exchanges the roles, so that the
/// next redraw shows the generation just computed. Two redraws give the textures back
/// their roles.
pub proof fn running_redraw_steps_and_swaps(c: Controller)
    requires
        !c.paused,
    ensures
        c.reaction(Event::RedrawRequested) == seq![
            Action::Draw(
                Frame {
                    compute: Some(
                        ComputePass {
                            target: c.front,
                            source: c.back(),
                            groups_x: c.width,
                            groups_y: c.height,
                            groups_z: 1,
                        },
                    ),
                    shown: c.back(),
                },
            ),
        ],
        c.after(Event::RedrawRequested).back() == c.front,
        c.after(Event::RedrawRequested).front == c.back(),
        c.after(Event::RedrawRequested).after(Event::RedrawRequested) == c,
{
}

/// A simulation step never writes the texture it reads, and a frame always shows the
/// texture that its step reads.
pub proof fn step_never_reads_its_target(c: Controller)
    ensures
        c.spec_simulation_pass().target != c.spec_simulation_pass().source,
        c.spec_frame().compute matches Some(p) ==> p.source == c.spec_frame().shown,
{
}

/// Only a resize, a mouse button, the space bar and a redraw while running change the
/// controller; a paused controller keeps its textures whatever happens.
pub proof fn what_changes_the_state(c: Controller, e: Event)
    ensures
        c.after(e) != c ==> (e is Resized || e is MouseInput || e == Event::Character(' ')
            || (e == Event::RedrawRequested && !c.paused)),
        c.paused ==> c.after(e).front == c.front,
        c.after(e).front != c.front ==> e == Event::RedrawRequested,
{
}

/// Painting only happens with the left button held, always on the shown texture and
/// always inside the surface.
pub proof fn painting_stays_on_the_surface(c: Controller, e: Event, k: int)
    requires
        c.accepts(e),
        0 <= k < c.reaction(e).len(),
        c.reaction(e)[k] is Paint,
    ensures
        c.left == ButtonState::Pressed,
        c.reaction(e)[k]->slot == c.back(),
        c.reaction(e)[k]->x < c.width,
        c.reaction(e)[k]->y < c.height,
{
    if let Event::CursorMoved { x, y } = e {
        let t = spec_paint_target(x, y, c.width, c.height);
        if c.left == ButtonState::Pressed {
            if c.right == ButtonState::Pressed {
                assert(c.reaction(e) =~= seq![
                    Action::Paint { slot: c.back(), x: t.0, y: t.1 },
                    Action::Pan,
                ]);
            } else {
                assert(c.reaction(e) =~= seq![Action::Paint { slot: c.back(), x: t.0, y: t.1 }]);
            }
        } else {
            if c.right == ButtonState::Pressed {
                assert(c.reaction(e) =~= seq![Action::Pan]);
            } else {
                assert(c.reaction(e) =~= Seq::<Action>::empty());
            }
        }
    }
}

/// A cursor that moves inside the surface with the left button held paints exactly the
/// pixel under it.
pub proof fn painting_inside_hits_the_cursor(c: Controller, x: u32, y: u32)
    requires
        c.left == ButtonState::Pressed,
        x < c.width,
        y < c.height,
    ensures
        c.reaction(Event::CursorMoved { x, y })[0] == (Action::Paint { slot: c.back(), x, y }),
{
}

/// After a resize, the next stroke paints inside the new surface.
pub proof fn resize_bounds_painting(c: Controller, width: u32, height: u32, x: u32, y: u32)
    requires
        width >= 1,
        height >= 1,
        c.left == ButtonState::Pressed,
    ensures
        ({
            let r = c.after(Event::Resized { width, height });
            &&& r.width == width && r.height == height
            &&& r.reaction(Event::CursorMoved { x, y })[0] is Paint
            &&& r.reaction(Event::CursorMoved { x, y })[0]->x < width
            &&& r.reaction(Event::CursorMoved { x, y })[0]->y < height
        }),
{
}

/// Pressing and releasing a button leaves the controller as it was, when the button was
/// released before.
pub proof fn press_then_release(c: Controller, b: MouseButton)
    requires
        c.left == ButtonState::Released,
        c.right == ButtonState::Released,
    ensures
        c.after(Event::MouseInput { button: b, state: ButtonState::Pressed }).after(
            Event::MouseInput { button: b, state: ButtonState::Released },
        ) == c,
{
}

/// A fresh controller starts paused, with no button held, and shows the texture that
/// receives the seed.
pub proof fn fresh_controller_is_paused(width: u32, height: u32)
    ensures
        Controller::initial(width, height).paused,
        Controller::initial(width, height).left == ButtonState::Released,
        Controller::initial(width, height).right == ButtonState::Released,
        Controller::initial(width, height).back() == Slot::Second,
        Controller::initial(width, height).after(Event::RedrawRequested) == Controller::initial(
            width,
            height,
        ),
{
}

/// The four channels of a pixel of the initial board are equal: the pixel is white when
/// it is a seed cell and black otherwise.
pub proof fn seed_pixels_are_white_or_black(width: int, p: int, ch: int)
    requires
        0 <= p,
        0 <= ch < BYTES_PER_PIXEL,
    ensures
        seed_byte(width, BYTES_PER_PIXEL * p + ch) == seed_byte(width, BYTES_PER_PIXEL * p),
        seed_byte(width, BYTES_PER_PIXEL * p) == (if is_seed_pixel(width, p) {
            LIVE
        } else {
            0u8
        }),
{
}


/// Closing the window always ends the event loop, paused or running, and changes
/// nothing else.
pub proof fn close_always_exits(c: Controller)
    ensures
        c.reaction(Event::CloseRequested) == seq![Action::Exit],
        c.after(Event::CloseRequested) == c,
{
}

/// Each turn of the event loop asks for a redraw, paused or running, and changes
/// nothing else.
pub proof fn every_turn_requests_a_redraw(c: Controller)
    ensures
        c.reaction(Event::MainEventsCleared) == seq![Action::RequestRedraw],
        c.after(Event::MainEventsCleared) == c,
{
}

/// A line scroll zooms out when it goes down and in when it goes up, whatever the state,
/// and changes nothing else; the two directions zoom opposite ways.
pub proof fn scrolling_zooms(c: Controller, downward: bool)
    ensures
        c.reaction(Event::LineScroll { downward }) == seq![
            Action::Zoom(
                if downward {
                    ZoomDirection::Out
                } else {
                    ZoomDirection::In
                },
            ),
        ],
        c.after(Event::LineScroll { downward }) == c,
        c.reaction(Event::LineScroll { downward: true }) != c.reaction(
            Event::LineScroll { downward: false },
        ),
        c.reaction(Event::LineScroll { downward: true }) == seq![Action::Zoom(ZoomDirection::Out)],
        c.reaction(Event::PixelScroll) == Seq::<Action>::empty(),
        c.after(Event::PixelScroll) == c,
{
    assert(c.reaction(Event::LineScroll { downward: true })[0] != c.reaction(
        Event::LineScroll { downward: false },
    )[0]);
}

/// A mouse button event records the new state of the left or the right button, whatever
/// the other button and the rest of the state, and asks for no action; other buttons are
/// ignored.
pub proof fn buttons_record_their_state(c: Controller, s: ButtonState)
    ensures
        c.after(Event::MouseInput { button: MouseButton::Left, state: s }) == (Controller {
            left: s,
            ..c
        }),
        c.after(Event::MouseInput { button: MouseButton::Right, state: s }) == (Controller {
            right: s,
            ..c
        }),
        c.after(Event::MouseInput { button: MouseButton::Middle, state: s }) == c,
        c.after(Event::MouseInput { button: MouseButton::Other, state: s }) == c,
        c.reaction(Event::MouseInput { button: MouseButton::Left, state: s }) == Seq::<
            Action,
        >::empty(),
        c.reaction(Event::MouseInput { button: MouseButton::Right, state: s }) == Seq::<
            Action,
        >::empty(),
{
}

/// After the left button is released, moving the cursor paints nothing: it only pans,
/// when the right button is held.
pub proof fn released_left_button_stops_painting(c: Controller, x: u32, y: u32)
    ensures
        ({
            let r = c.after(Event::MouseInput { button: MouseButton::Left, state: ButtonState::Released });
            r.reaction(Event::CursorMoved { x, y }) == if c.right == ButtonState::Pressed {
                seq![Action::Pan]
            } else {
                Seq::<Action>::empty()
            }
        }),
{
    let r = c.after(Event::MouseInput { button: MouseButton::Left, state: ButtonState::Released });
    assert(r.left == ButtonState::Released);
    assert(r.right == c.right);
    if c.right == ButtonState::Pressed {
        assert(r.reaction(Event::CursorMoved { x, y }) =~= seq![Action::Pan]);
    } else {
        assert(r.reaction(Event::CursorMoved { x, y }) =~= Seq::<Action>::empty());
    }
}

/// A resize configures the surface with exactly the new width and height, and the
/// controller takes that size, keeping everything else.
pub proof fn resize_configures_the_new_size(c: Controller, width: u32, height: u32)
    ensures
        c.reaction(Event::Resized { width, height }) == seq![Action::Configure { width, height }],
        c.after(Event::Resized { width, height }) == (Controller { width, height, ..c }),
        c.after(Event::Resized { width, height }).spec_simulation_pass().groups_x == width,
        c.after(Event::Resized { width, height }).spec_simulation_pass().groups_y == height,
{
}

/// The pause matters only to a redraw and to the space bar: for every other event, a
/// paused and a running controller answer the same and change the same.
pub proof fn pause_only_affects_redraw(c: Controller, e: Event, p: bool)
    requires
        e != Event::RedrawRequested,
    ensures
        (Controller { paused: p, ..c }).reaction(e) == c.reaction(e),
        e != Event::Character(' ') ==> (Controller { paused: p, ..c }).after(e) == (Controller {
            paused: p,
            ..c.after(e)
        }),
{
}

}
