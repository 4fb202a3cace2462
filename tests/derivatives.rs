use family_photos::derivative::{
    after_wait, derivative_kind, encoding_for, intermediate_path, plan_thumbnail,
    resize_dimensions_fill, resize_dimensions_fill_to, rotation_for, tool_command, AfterWait,
    DerivativeKind, Encoding, Rotation, WaitOutcome, U32_MAX,
};
use family_photos::manager::{Begin, InFlight};

#[test]
fn fill_resize_scales_the_short_side_to_the_target() {
    assert_eq!(resize_dimensions_fill_to(100, 50, 40), (80, 40));
    assert_eq!(resize_dimensions_fill_to(50, 100, 40), (40, 80));
    assert_eq!(resize_dimensions_fill(1000, 500), (1000, 500));
    assert_eq!(resize_dimensions_fill(4000, 3000), (667, 500));
    assert_eq!(resize_dimensions_fill(3, 7), (500, 1167));
}

#[test]
fn fill_resize_edges() {
    assert_eq!(resize_dimensions_fill_to(1, 1, 0), (1, 1));
    assert_eq!(resize_dimensions_fill_to(0, 0, 40), (1, 1));
    assert_eq!(resize_dimensions_fill_to(0, 5, 40), (1, U32_MAX));
    assert_eq!(resize_dimensions_fill_to(5, 0, 40), (U32_MAX, 1));
    // the long side would overflow: it is clamped, the short side follows
    assert_eq!(resize_dimensions_fill_to(U32_MAX, 1, 500), (U32_MAX, 1));
    assert_eq!(resize_dimensions_fill_to(1, U32_MAX, 2), (1, U32_MAX));
    assert_eq!(resize_dimensions_fill_to(U32_MAX, 2, 500), (U32_MAX, 2));
    assert_eq!(resize_dimensions_fill_to(3_000_000_000, 1_000, 2_000), (U32_MAX, 1_432));
}

#[test]
fn routes_by_extension() {
    assert_eq!(derivative_kind("/p/clip.mp4"), Some(DerivativeKind::Video));
    assert_eq!(derivative_kind("/p/clip.MOV"), Some(DerivativeKind::Video));
    assert_eq!(derivative_kind("/p/a.HEIC"), Some(DerivativeKind::HeicHeif));
    assert_eq!(derivative_kind("/p/a.heif"), Some(DerivativeKind::HeicHeif));
    assert_eq!(derivative_kind("/p/a.jpg"), Some(DerivativeKind::GenericImage));
    assert_eq!(derivative_kind("/p/noext"), None);
    assert_eq!(derivative_kind("/p.d/noext"), None);
}

#[test]
fn rotations_and_encodings() {
    assert_eq!(rotation_for(Some(3)), Rotation::Clockwise180);
    assert_eq!(rotation_for(Some(6)), Rotation::Clockwise90);
    assert_eq!(rotation_for(Some(8)), Rotation::Clockwise270);
    assert_eq!(rotation_for(Some(1)), Rotation::Keep);
    assert_eq!(rotation_for(None), Rotation::Keep);
    assert_eq!(encoding_for("/t/1.jpg"), Some(Encoding::Jpeg(70)));
    assert_eq!(encoding_for("/t/1.jpeg"), Some(Encoding::Jpeg(70)));
    assert_eq!(encoding_for("/t/1.png"), Some(Encoding::ByExtension));
    assert_eq!(encoding_for("/t/1"), None);
    let plan = plan_thumbnail(100, 50, Some(6), "/t/1.jpg").unwrap();
    assert_eq!((plan.width, plan.height), (1000, 500));
    assert_eq!(plan.rotation, Rotation::Clockwise90);
    assert!(plan_thumbnail(100, 50, None, "/t/noext").is_none());
}

#[test]
fn external_tool_commands() {
    assert_eq!(intermediate_path("/t/1.mp4"), Some("/t/1.jpg".to_string()));
    assert_eq!(intermediate_path("/t/1"), None);
    let v = tool_command(DerivativeKind::Video, "/p/c.mp4", "/t/1.webp").unwrap();
    assert_eq!(v.program, "ffmpegthumbnailer");
    assert_eq!(v.args, vec!["-i", "/p/c.mp4", "-o", "/t/1.jpg", "-s", "500"]);
    assert_eq!(v.timeout_secs, 15);
    let h = tool_command(DerivativeKind::HeicHeif, "/p/a.heic", "/t/1.heic").unwrap();
    assert_eq!(h.program, "heif-thumbnailer");
    assert_eq!(h.args, vec!["-s", "500", "/p/a.heic", "/t/1.heic"]);
    assert_eq!(h.timeout_secs, 5);
    assert!(tool_command(DerivativeKind::GenericImage, "/p/a.jpg", "/t/1.jpg").is_none());
}

#[test]
fn a_tool_past_its_time_is_killed_and_fails() {
    assert_eq!(after_wait(DerivativeKind::Video, WaitOutcome::TimedOut), AfterWait::KillThenFail);
    assert_eq!(after_wait(DerivativeKind::HeicHeif, WaitOutcome::TimedOut), AfterWait::KillThenFail);
    assert_eq!(after_wait(DerivativeKind::HeicHeif, WaitOutcome::WaitFailed), AfterWait::KillThenFail);
    assert_eq!(after_wait(DerivativeKind::HeicHeif, WaitOutcome::Exited(true)), AfterWait::Done(true));
    assert_eq!(after_wait(DerivativeKind::Video, WaitOutcome::Exited(false)), AfterWait::Done(false));
    assert_eq!(
        after_wait(DerivativeKind::Video, WaitOutcome::Exited(true)),
        AfterWait::ConvertIntermediate
    );
}

#[test]
fn concurrent_requests_for_one_photo_generate_once() {
    let mut in_flight = InFlight::new();
    assert_eq!(in_flight.begin(7, false), Begin::Generate);
    assert!(in_flight.contains(7));
    // a second request while the first generates waits
    assert_eq!(in_flight.begin(7, false), Begin::Wait);
    assert_eq!(in_flight.begin(7, true), Begin::Wait);
    // another photo is not held up
    assert_eq!(in_flight.begin(8, true), Begin::Ready);
    in_flight.finish(7);
    assert!(!in_flight.contains(7));
    // the file now exists: the waiting request is served it
    assert_eq!(in_flight.begin(7, true), Begin::Ready);
    assert!(!in_flight.contains(7));
}
