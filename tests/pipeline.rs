use anima_engine::button::Button;
use anima_engine::event::{InputEvent, IntermediateEvent, PointerButton};
use anima_engine::pipeline::Pipeline;

fn pressed(x: i32, y: i32) -> InputEvent {
    InputEvent::Intermediate(IntermediateEvent::CursorPressed(x, y, PointerButton::Left))
}

fn released(x: i32, y: i32) -> InputEvent {
    InputEvent::Intermediate(IntermediateEvent::CursorReleased(x, y, PointerButton::Left))
}

#[test]
fn empty_pipeline_returns_batch_unchanged() {
    let mut pipeline: Pipeline<Button> = Pipeline::new();
    assert_eq!(pipeline.len(), 0);
    let input = vec![pressed(1, 2), released(3, 4)];
    assert_eq!(pipeline.process(input.clone()), input);
}

#[test]
fn earlier_stage_takes_overlapping_press() {
    let mut pipeline = Pipeline::new();
    pipeline.add(Button::new(1, 0, 0, 100, 100));
    pipeline.add(Button::new(2, 50, 50, 100, 100));
    assert_eq!(pipeline.len(), 2);
    let output = pipeline.process(vec![pressed(75, 75), released(75, 75)]);
    assert_eq!(
        output,
        vec![
            InputEvent::Intermediate(IntermediateEvent::ButtonPressed(1)),
            InputEvent::Intermediate(IntermediateEvent::ButtonReleased(1)),
        ]
    );
}

#[test]
fn each_stage_sees_what_earlier_stages_left() {
    let mut pipeline = Pipeline::new();
    pipeline.add(Button::new(1, 0, 0, 10, 10));
    pipeline.add(Button::new(2, 20, 0, 10, 10));
    let output = pipeline.process(vec![pressed(5, 5), pressed(25, 5), released(25, 5), released(5, 5)]);
    assert_eq!(
        output,
        vec![
            InputEvent::Intermediate(IntermediateEvent::ButtonPressed(1)),
            InputEvent::Intermediate(IntermediateEvent::ButtonPressed(1)),
            InputEvent::Intermediate(IntermediateEvent::ButtonCanceled(1)),
            released(5, 5),
        ]
    );
    let output = pipeline.process(vec![pressed(25, 5), released(25, 5)]);
    assert_eq!(
        output,
        vec![
            InputEvent::Intermediate(IntermediateEvent::ButtonPressed(2)),
            InputEvent::Intermediate(IntermediateEvent::ButtonReleased(2)),
        ]
    );
}
