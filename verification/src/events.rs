use vstd::prelude::*;

verus! {

/// A button of the mouse.
#[derive(PartialEq, Eq, Structural, Clone, Copy, Debug)]
pub enum MouseButton {
    Left,
    Right,
    Middle,
    Back,
    Forward,
    Other(u16),
}

/// Whether a button went down or came up.
#[derive(PartialEq, Eq, Structural, Clone, Copy, Debug)]
pub enum ElementState {
    Pressed,
    Released,
}

/// The window events the GUI reacts to; every other event is `Other`.
/// A cursor move carries no position here: the position is kept by the
/// window loop, which owns the floating-point state.
#[derive(PartialEq, Eq, Structural, Clone, Copy, Debug)]
pub enum GuiEvent {
    CloseRequested,
    RedrawRequested,
    MouseInput { state: ElementState, button: MouseButton },
    CursorMoved,
    Resized { width: u32, height: u32 },
    Other,
}

/// What the window loop has to do in answer to an event.
#[derive(PartialEq, Eq, Structural, Clone, Copy, Debug)]
pub enum GuiAction {
    /// End the process.
    Exit,
    /// Run every widget's update, then draw a frame.
    UpdateAndRender,
    /// Hand the mouse button and its state to the widgets.
    Interact { button: MouseButton, state: ElementState },
    /// Remember the new cursor position.
    TrackCursor,
    /// Configure the drawing surface for the new size.
    ReconfigureSurface { width: u32, height: u32 },
    /// Nothing to do.
    Ignore,
}

/// The answer to each window event.
pub open spec fn action_for(event: GuiEvent) -> GuiAction {
    match event {
        GuiEvent::CloseRequested => GuiAction::Exit,
        GuiEvent::RedrawRequested => GuiAction::UpdateAndRender,
        GuiEvent::MouseInput { state, button } => GuiAction::Interact { button, state },
        GuiEvent::CursorMoved => GuiAction::TrackCursor,
        GuiEvent::Resized { width, height } => GuiAction::ReconfigureSurface { width, height },
        GuiEvent::Other => GuiAction::Ignore,
    }
}

/// Widgets are activated by the release of the left button, by nothing else.
pub open spec fn activates(button: MouseButton, state: ElementState) -> bool {
    button is Left && state is Released
}

/// The positions at which `hits` holds `true`, in increasing order.
pub open spec fn hit_indices(hits: Seq<bool>) -> Seq<usize>
    decreases hits.len(),
{
    if hits.len() == 0 {
        Seq::empty()
    } else {
        let before = hit_indices(hits.drop_last());
        if hits.last() {
            before.push((hits.len() - 1) as usize)
        } else {
            before
        }
    }
}

/// The widgets (by position) that a mouse event activates, given for each
/// widget whether the cursor lies in its interactive zone.
pub open spec fn targets_for(button: MouseButton, state: ElementState, hits: Seq<bool>) -> Seq<
    usize,
> {
    if activates(button, state) {
        hit_indices(hits)
    } else {
        Seq::empty()
    }
}

/// Decides what the window loop does with `event`.
pub fn window_event_action(event: GuiEvent) -> (a: GuiAction)
    ensures
        a == action_for(event),
        event is CloseRequested ==> a is Exit,
        event is RedrawRequested ==> a is UpdateAndRender,
        event matches GuiEvent::MouseInput { state, button } ==> a == (GuiAction::Interact {
            button,
            state,
        }),
        event is CursorMoved ==> a is TrackCursor,
        event matches GuiEvent::Resized { width, height } ==> a == (GuiAction::ReconfigureSurface {
            width,
            height,
        }),
        event is Other ==> a is Ignore,
{
    match event {
        GuiEvent::CloseRequested => GuiAction::Exit,
        GuiEvent::RedrawRequested => GuiAction::UpdateAndRender,
        GuiEvent::MouseInput { state, button } => GuiAction::Interact { button, state },
        GuiEvent::CursorMoved => GuiAction::TrackCursor,
        GuiEvent::Resized { width, height } => GuiAction::ReconfigureSurface { width, height },
        GuiEvent::Other => GuiAction::Ignore,
    }
}

/// Whether a mouse event activates the widgets under the cursor.
pub fn activates_widgets(button: MouseButton, state: ElementState) -> (r: bool)
    ensures
        r == activates(button, state),
{
    match button {
        MouseButton::Left => match state {
            ElementState::Pressed => false,
            ElementState::Released => true,
        },
        MouseButton::Right => false,
        MouseButton::Middle => false,
        MouseButton::Back => false,
        MouseButton::Forward => false,
        MouseButton::Other(_) => false,
    }
}

/// The positions of the widgets whose function a mouse event runs, in the
/// order the widgets were inserted. `hits[i]` tells whether widget `i` is
/// interactable and the cursor lies in its zone.
pub fn interact_targets(button: MouseButton, state: ElementState, hits: &Vec<bool>) -> (r: Vec<
    usize,
>)
    ensures
        r@ == targets_for(button, state, hits@),
{
    let mut targets: Vec<usize> = Vec::new();
    if !activates_widgets(button, state) {
        return targets;
    }
    let n = hits.len();
    let mut i: usize = 0;
    while i < n
        invariant
            n == hits@.len(),
            i <= n,
            targets@ == hit_indices(hits@.take(i as int)),
        decreases n - i,
    {
        proof {
            assert(hits@.take((i + 1) as int).drop_last() =~= hits@.take(i as int));
        }
        if hits[i] {
            targets.push(i);
        }
        i = i + 1;
    }
    proof {
        assert(hits@.take(n as int) =~= hits@);
    }
    targets
}

/// `hit_indices` lists every hit position once, in increasing order, and
/// nothing else.
proof fn lemma_hit_indices(hits: Seq<bool>)
    requires
        hits.len() <= usize::MAX,
    ensures
        forall|k: int|
            0 <= k < hit_indices(hits).len() ==> {
                let p = #[trigger] hit_indices(hits)[k];
                p < hits.len() && hits[p as int]
            },
        forall|j: int, k: int|
            0 <= j < k < hit_indices(hits).len() ==> #[trigger] hit_indices(hits)[j]
                < #[trigger] hit_indices(hits)[k],
        forall|i: int| 0 <= i < hits.len() && #[trigger] hits[i] ==> hit_indices(hits).contains(i as usize),
    decreases hits.len(),
{
    if hits.len() > 0 {
        let prefix = hits.drop_last();
        lemma_hit_indices(prefix);
        let before = hit_indices(prefix);
        assert forall|i: int| 0 <= i < hits.len() && #[trigger] hits[i] implies hit_indices(hits).contains(i as usize) by {
            if i < hits.len() - 1 {
                assert(prefix[i] == hits[i]);
                let k = choose|k: int| 0 <= k < before.len() && before[k] == i as usize;
                if hits.last() {
                    assert(hit_indices(hits)[k] == i as usize);
                } else {
                    assert(hit_indices(hits)[k] == i as usize);
                }
            } else {
                let n = hit_indices(hits).len() - 1;
                assert(hit_indices(hits)[n] == i as usize);
            }
        }
    }
}

/// Only the release of the left button activates widgets; it activates
/// exactly the widgets that are hit (interactable, with the cursor in their
/// zone), each once, in the order in which they were inserted.
pub proof fn law_click_targets(button: MouseButton, state: ElementState, hits: Seq<bool>)
    requires
        hits.len() <= usize::MAX,
    ensures
        activates(button, state) <==> (button == MouseButton::Left && state
            == ElementState::Released),
        !activates(button, state) ==> targets_for(button, state, hits).len() == 0,
        activates(button, state) ==> {
            let t = targets_for(button, state, hits);
            &&& forall|k: int| 0 <= k < t.len() ==> #[trigger] t[k] < hits.len() && hits[t[k] as int]
            &&& forall|j: int, k: int| 0 <= j < k < t.len() ==> #[trigger] t[j] < #[trigger] t[k]
            &&& forall|i: int| 0 <= i < hits.len() && #[trigger] hits[i] ==> t.contains(i as usize)
        },
{
    lemma_hit_indices(hits);
}

/// Every window event gets its own answer: closing exits, a redraw updates
/// the widgets then draws, every mouse input (any button, pressed or
/// released) goes to the widgets with exactly that button and that state, a
/// cursor move is tracked, a resize reconfigures the surface to exactly the
/// new size, and everything else is ignored.
pub proof fn law_event_answers(b: MouseButton, s: ElementState, w: u32, h: u32)
    ensures
        action_for(GuiEvent::CloseRequested) == GuiAction::Exit,
        action_for(GuiEvent::RedrawRequested) == GuiAction::UpdateAndRender,
        action_for(GuiEvent::MouseInput { state: s, button: b }) == (GuiAction::Interact {
            button: b,
            state: s,
        }),
        action_for(GuiEvent::CursorMoved) == GuiAction::TrackCursor,
        action_for(GuiEvent::Resized { width: w, height: h }) == (GuiAction::ReconfigureSurface {
            width: w,
            height: h,
        }),
        action_for(GuiEvent::Other) == GuiAction::Ignore,
{
}

/// Different events of the same kind are told apart: two mouse inputs get
/// the same answer only if they have the same button and state, and two
/// resizes only if they have the same size.
pub proof fn law_event_answers_are_distinct(e1: GuiEvent, e2: GuiEvent)
    ensures
        action_for(e1) == action_for(e2) ==> e1 == e2,
{
}

} // verus!
