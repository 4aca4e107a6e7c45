use vstd::prelude::*;

use crate::event::{InputEvent, IntermediateEvent, PointerButton};
use crate::processor::Intermediate;

verus! {

/// A rectangular widget that turns left-button cursor events into button events.
///
/// A press inside the rectangle captures the pointer; the release that follows
/// is reported as `ButtonReleased` when it lands inside and as `ButtonCanceled`
/// when it lands outside. While captured, every further left-button press is
/// reported as a press of this widget, wherever it lands.
pub struct Button {
    pub id: u32,
    pub x: i32,
    pub y: i32,
    pub width: i32,
    pub height: i32,
    pressed: bool,
}

/// The mathematical model of a [`Button`]: its id, its rectangle, and whether
/// a press of it is being tracked toward its release.
pub ghost struct ButtonView {
    pub id: u32,
    pub x: int,
    pub y: int,
    pub width: int,
    pub height: int,
    pub captured: bool,
}

impl ButtonView {
    /// Whether the point `(px, py)` lies in the rectangle, edges included.
    pub open spec fn hit(self, px: int, py: int) -> bool {
        &&& 0 <= px - self.x <= self.width
        &&& 0 <= py - self.y <= self.height
    }

    /// The same widget, captured or not as `captured` says.
    pub open spec fn with_captured(self, captured: bool) -> ButtonView {
        ButtonView { captured, ..self }
    }

    /// The event emitted for `e`, and the widget after it.
    pub open spec fn step(self, e: InputEvent) -> (InputEvent, ButtonView) {
        match e {
            InputEvent::Intermediate(IntermediateEvent::CursorPressed(px, py, PointerButton::Left)) =>
                if self.hit(px as int, py as int) || self.captured {
                    (InputEvent::Intermediate(IntermediateEvent::ButtonPressed(self.id)), self.with_captured(true))
                } else {
                    (e, self)
                },
            InputEvent::Intermediate(IntermediateEvent::CursorReleased(px, py, PointerButton::Left)) =>
                if !self.captured {
                    (e, self)
                } else if self.hit(px as int, py as int) {
                    (InputEvent::Intermediate(IntermediateEvent::ButtonReleased(self.id)), self.with_captured(false))
                } else {
                    (InputEvent::Intermediate(IntermediateEvent::ButtonCanceled(self.id)), self.with_captured(false))
                },
            _ => (e, self),
        }
    }

    /// The batch emitted for `input`, and the widget after it: each event sees
    /// the state that the events before it left.
    pub open spec fn run(self, input: Seq<InputEvent>) -> (Seq<InputEvent>, ButtonView)
        decreases input.len(),
    {
        if input.len() == 0 {
            (Seq::empty(), self)
        } else {
            let before = self.run(input.drop_last());
            let last = before.1.step(input.last());
            (before.0.push(last.0), last.1)
        }
    }
}

impl View for Button {
    type V = ButtonView;

    closed spec fn view(&self) -> ButtonView {
        ButtonView {
            id: self.id,
            x: self.x as int,
            y: self.y as int,
            width: self.width as int,
            height: self.height as int,
            captured: self.pressed,
        }
    }
}

impl Button {
    /// Creates a rectangular `Button` with ID `id`, not captured.
    pub fn new(id: u32, x: i32, y: i32, width: i32, height: i32) -> (r: Button)
        ensures
            r@ == (ButtonView {
                id,
                x: x as int,
                y: y as int,
                width: width as int,
                height: height as int,
                captured: false,
            }),
    {
        Button { id, x, y, width, height, pressed: false }
    }

    /// Whether a press of this widget is being tracked toward its release.
    pub fn is_captured(&self) -> (r: bool)
        ensures
            r == self@.captured,
    {
        self.pressed
    }

    /// Whether the point `(x, y)` lies in the rectangle, edges included.
    pub fn inside(&self, x: i32, y: i32) -> (r: bool)
        ensures
            r == self@.hit(x as int, y as int),
    {
        let dx: i64 = x as i64 - self.x as i64;
        let dy: i64 = y as i64 - self.y as i64;
        0 <= dx && dx <= self.width as i64 && 0 <= dy && dy <= self.height as i64
    }

    /// Handles one event and returns the event that takes its place.
    fn handle(&mut self, e: InputEvent) -> (r: InputEvent)
        ensures
            (r, final(self)@) == old(self)@.step(e),
    {
        match e {
            InputEvent::Intermediate(IntermediateEvent::CursorPressed(px, py, PointerButton::Left)) => {
                if self.inside(px, py) || self.pressed {
                    self.pressed = true;
                    InputEvent::Intermediate(IntermediateEvent::ButtonPressed(self.id))
                } else {
                    e
                }
            },
            InputEvent::Intermediate(IntermediateEvent::CursorReleased(px, py, PointerButton::Left)) => {
                if !self.pressed {
                    e
                } else {
                    self.pressed = false;
                    if self.inside(px, py) {
                        InputEvent::Intermediate(IntermediateEvent::ButtonReleased(self.id))
                    } else {
                        InputEvent::Intermediate(IntermediateEvent::ButtonCanceled(self.id))
                    }
                }
            },
            _ => e,
        }
    }
}

impl Intermediate for Button {
    open spec fn output(&self, input: Seq<InputEvent>) -> Seq<InputEvent> {
        self@.run(input).0
    }

    open spec fn advances_to(&self, input: Seq<InputEvent>, after: Button) -> bool {
        after@ == self@.run(input).1
    }

    proof fn lemma_output_len(&self, input: Seq<InputEvent>) {
        lemma_run_len(self@, input);
    }

    fn process(&mut self, input: Vec<InputEvent>) -> (r: Vec<InputEvent>) {
        let ghost start = self@;
        let mut out: Vec<InputEvent> = Vec::new();
        let mut i: usize = 0;
        while i < input.len()
            invariant
                i <= input@.len(),
                (out@, self@) == start.run(input@.take(i as int)),
            decreases input@.len() - i,
        {
            let e = input[i];
            let r = self.handle(e);
            out.push(r);
            assert(input@.take(i as int + 1).drop_last() =~= input@.take(i as int));
            i = i + 1;
        }
        assert(input@.take(i as int) =~= input@);
        proof {
            lemma_run_len(start, input@);
        }
        out
    }
}

/// A widget's batch has as many events as the batch it was given.
pub proof fn lemma_run_len(b: ButtonView, input: Seq<InputEvent>)
    ensures
        b.run(input).0.len() == input.len(),
    decreases input.len(),
{
    if input.len() > 0 {
        lemma_run_len(b, input.drop_last());
    }
}

/// A batch of one event is handled as that event alone.
pub proof fn lemma_run_one(b: ButtonView, e: InputEvent)
    ensures
        b.run(seq![e]) == (seq![b.step(e).0], b.step(e).1),
{
    assert(seq![e].drop_last() =~= Seq::<InputEvent>::empty());
    assert(b.run(Seq::<InputEvent>::empty()) == (Seq::<InputEvent>::empty(), b));
    assert(Seq::<InputEvent>::empty().push(b.step(e).0) =~= seq![b.step(e).0]);
}

/// Whether `e` is a left-button press or release: the only events that a
/// widget may rewrite or react to.
pub open spec fn drives_capture(e: InputEvent) -> bool {
    match e {
        InputEvent::Intermediate(IntermediateEvent::CursorPressed(_, _, PointerButton::Left)) => true,
        InputEvent::Intermediate(IntermediateEvent::CursorReleased(_, _, PointerButton::Left)) => true,
        _ => false,
    }
}

/// An event that is not a left-button press or release goes through a widget
/// unchanged, in any state, and leaves the widget as it was; in a batch, it keeps
/// its place.
pub proof fn lemma_pass_through(b: ButtonView, input: Seq<InputEvent>, i: int)
    requires
        0 <= i < input.len(),
        !drives_capture(input[i]),
    ensures
        b.step(input[i]) == (input[i], b),
        b.run(seq![input[i]]) == (seq![input[i]], b),
        b.run(input).0[i] == input[i],
    decreases input.len(),
{
    lemma_run_one(b, input[i]);
    if i < input.len() - 1 {
        lemma_pass_through(b, input.drop_last(), i);
        lemma_run_len(b, input.drop_last());
    } else {
        lemma_run_len(b, input.drop_last());
        let w = b.run(input.drop_last()).1;
        assert(w.step(input[i]) == (input[i], w));
    }
}

/// The rectangle holds its corners `(x, y)` and `(x + width, y + height)`, and
/// not the points just left of the first or just below the second edge, when
/// its width and height are not negative.
pub proof fn lemma_edges_inclusive(b: ButtonView)
    requires
        b.width >= 0,
        b.height >= 0,
    ensures
        b.hit(b.x, b.y),
        b.hit(b.x + b.width, b.y + b.height),
        !b.hit(b.x - 1, b.y),
        !b.hit(b.x, b.y + b.height + 1),
{
}

/// While a widget is captured, any further left-button press, wherever it lands,
/// is reported as a press of that widget and leaves it captured.
pub proof fn lemma_captured_press(b: ButtonView, px: i32, py: i32)
    requires
        b.captured,
    ensures
        b.step(InputEvent::Intermediate(IntermediateEvent::CursorPressed(px, py, PointerButton::Left)))
            == (InputEvent::Intermediate(IntermediateEvent::ButtonPressed(b.id)), b),
{
    assert(b.with_captured(true) == b);
}

/// Of two widgets whose rectangles share no point, at most one changes state on
/// a single press, and one that does holds the pressed point and saw the left
/// button.
pub proof fn lemma_disjoint_isolation(a: ButtonView, b: ButtonView, px: i32, py: i32, button: PointerButton)
    requires
        forall|qx: int, qy: int| #![trigger a.hit(qx, qy), b.hit(qx, qy)] !(a.hit(qx, qy) && b.hit(qx, qy)),
    ensures
        a.step(InputEvent::Intermediate(IntermediateEvent::CursorPressed(px, py, button))).1 == a
            || b.step(InputEvent::Intermediate(IntermediateEvent::CursorPressed(px, py, button))).1 == b,
        a.step(InputEvent::Intermediate(IntermediateEvent::CursorPressed(px, py, button))).1 != a
            ==> a.hit(px as int, py as int) && button == PointerButton::Left,
        b.step(InputEvent::Intermediate(IntermediateEvent::CursorPressed(px, py, button))).1 != b
            ==> b.hit(px as int, py as int) && button == PointerButton::Left,
{
    assert(!(a.hit(px as int, py as int) && b.hit(px as int, py as int)));
    assert(a.captured ==> a.with_captured(true) == a);
    assert(b.captured ==> b.with_captured(true) == b);
}

} // verus!
