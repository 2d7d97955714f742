use sierpinski::run::{Action, Event, Phase, RenderError, Run};

const EVENTS: [Event; 6] = [
    Event::SurfaceAcquired,
    Event::SurfaceFailed,
    Event::ImageLoaded,
    Event::ImageFailed,
    Event::DrawingDone,
    Event::DrawingFailed,
];

#[test]
fn run_with_sprite_loads_then_draws() {
    let mut run = Run::new(true);
    assert_eq!(run.phase, Phase::AwaitingSurface);
    assert_eq!(run.handle(Event::SurfaceAcquired), Action::LoadImage);
    assert_eq!(run.phase, Phase::AwaitingImage);
    assert_eq!(run.handle(Event::ImageLoaded), Action::Draw);
    assert_eq!(run.phase, Phase::Drawing);
    assert_eq!(run.handle(Event::DrawingDone), Action::Nothing);
    assert_eq!(run.phase, Phase::Done);
    assert_eq!(run.error(), None);
}

#[test]
fn run_without_sprite_draws_at_once() {
    let mut run = Run::new(false);
    assert_eq!(run.handle(Event::SurfaceAcquired), Action::Draw);
    assert_eq!(run.phase, Phase::Drawing);
    assert!(!run.sprite);
}

#[test]
fn surface_failure_ends_the_run_before_any_drawing() {
    for sprite in [true, false] {
        let mut run = Run::new(sprite);
        assert_eq!(
            run.handle(Event::SurfaceFailed),
            Action::Report(RenderError::ResourceAcquisition)
        );
        assert_eq!(run.error(), Some(RenderError::ResourceAcquisition));
        for round in 0..3 {
            for event in EVENTS {
                assert_eq!(run.handle(event), Action::Nothing, "round {}", round);
                assert_eq!(run.phase, Phase::Failed(RenderError::ResourceAcquisition));
            }
        }
    }
}

#[test]
fn image_failure_is_reported_as_its_own_error() {
    let mut run = Run::new(true);
    run.handle(Event::SurfaceAcquired);
    assert_eq!(run.handle(Event::ImageFailed), Action::Report(RenderError::ImageLoad));
    assert_eq!(run.phase, Phase::Failed(RenderError::ImageLoad));
    assert_eq!(run.error(), Some(RenderError::ImageLoad));
}

#[test]
fn rejected_drawing_is_reported_as_its_own_error() {
    let mut run = Run::new(false);
    run.handle(Event::SurfaceAcquired);
    assert_eq!(run.handle(Event::DrawingFailed), Action::Report(RenderError::SurfaceOperation));
    assert_eq!(run.error(), Some(RenderError::SurfaceOperation));
    assert_eq!(run.handle(Event::DrawingDone), Action::Nothing);
    assert_eq!(run.error(), Some(RenderError::SurfaceOperation));
}

#[test]
fn load_and_error_both_fired_resume_once() {
    let mut run = Run::new(true);
    run.handle(Event::SurfaceAcquired);
    assert_eq!(run.handle(Event::ImageLoaded), Action::Draw);
    assert_eq!(run.handle(Event::ImageFailed), Action::Nothing);
    assert_eq!(run.phase, Phase::Drawing);

    let mut run = Run::new(true);
    run.handle(Event::SurfaceAcquired);
    assert_eq!(run.handle(Event::ImageFailed), Action::Report(RenderError::ImageLoad));
    assert_eq!(run.handle(Event::ImageLoaded), Action::Nothing);
    assert_eq!(run.phase, Phase::Failed(RenderError::ImageLoad));
}

#[test]
fn load_signal_fired_twice_resumes_once() {
    let mut run = Run::new(true);
    run.handle(Event::SurfaceAcquired);
    assert_eq!(run.handle(Event::ImageLoaded), Action::Draw);
    assert_eq!(run.handle(Event::ImageLoaded), Action::Nothing);
    assert_eq!(run.handle(Event::ImageLoaded), Action::Nothing);
    assert_eq!(run.phase, Phase::Drawing);
}

#[test]
fn events_out_of_turn_change_nothing() {
    let mut run = Run::new(true);
    for event in [Event::ImageLoaded, Event::ImageFailed, Event::DrawingDone, Event::DrawingFailed] {
        assert_eq!(run.handle(event), Action::Nothing);
        assert_eq!(run.phase, Phase::AwaitingSurface);
    }
    run.handle(Event::SurfaceAcquired);
    for event in [Event::SurfaceAcquired, Event::SurfaceFailed, Event::DrawingDone, Event::DrawingFailed] {
        assert_eq!(run.handle(event), Action::Nothing);
        assert_eq!(run.phase, Phase::AwaitingImage);
    }
    run.handle(Event::ImageLoaded);
    for event in [Event::SurfaceAcquired, Event::SurfaceFailed, Event::ImageLoaded, Event::ImageFailed] {
        assert_eq!(run.handle(event), Action::Nothing);
        assert_eq!(run.phase, Phase::Drawing);
    }
}

#[test]
fn finished_run_ignores_everything() {
    let mut run = Run::new(false);
    run.handle(Event::SurfaceAcquired);
    run.handle(Event::DrawingDone);
    for event in EVENTS {
        assert_eq!(run.handle(event), Action::Nothing);
        assert_eq!(run.phase, Phase::Done);
    }
}

#[test]
fn no_sequence_of_three_events_answers_two_image_signals() {
    for sprite in [true, false] {
        for a in EVENTS {
            for b in EVENTS {
                for c in EVENTS {
                    let mut run = Run::new(sprite);
                    let mut resumed = 0;
                    for event in [Event::SurfaceAcquired, a, b, c] {
                        let action = run.handle(event);
                        let signal = event == Event::ImageLoaded || event == Event::ImageFailed;
                        if signal && action != Action::Nothing {
                            resumed += 1;
                        }
                    }
                    assert!(resumed <= 1);
                }
            }
        }
    }
}
