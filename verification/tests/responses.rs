use ipam::ipam_services::Ping;
use ipam::response_error::{Builder, Offset, ResponseError};

#[test]
fn a_description_has_status_400_unless_told() {
    let error = ResponseError::builder().title("bad".to_string()).build();
    assert_eq!(error.status, Some(400));
    assert_eq!(error.title.as_deref(), Some("bad"));
    assert!(error.kind.is_none());
    assert!(error.detail.is_none());
    assert!(error.instance.is_none());
    assert_eq!(error.timestamp.unwrap().offset, Offset { seconds: 0 });
}

#[test]
fn a_builder_keeps_what_it_is_told() {
    let error = ResponseError::builder()
        .kind("about:blank".to_string())
        .title("Not Found".to_string())
        .status(404)
        .detail("no such network".to_string())
        .instance("/networks/7".to_string())
        .offset(Offset { seconds: -3600 })
        .build();
    assert_eq!(error.kind.as_deref(), Some("about:blank"));
    assert_eq!(error.title.as_deref(), Some("Not Found"));
    assert_eq!(error.status, Some(404));
    assert_eq!(error.detail.as_deref(), Some("no such network"));
    assert_eq!(error.instance.as_deref(), Some("/networks/7"));
    assert_eq!(error.timestamp.unwrap().offset, Offset { seconds: -3600 });
}

#[test]
fn a_description_is_stamped_with_the_moment_given() {
    let error = ResponseError::create_at(ResponseError::builder().status(500), 1_234_567_890);
    assert_eq!(error.status, Some(500));
    assert_eq!(error.timestamp.unwrap().unix_nanos, 1_234_567_890);
}

#[test]
fn a_description_is_stamped_with_the_present() {
    let error = ResponseError::new(
        "t".to_string(),
        "title".to_string(),
        409,
        "d".to_string(),
        "i".to_string(),
        Some(Offset { seconds: 7200 }),
    );
    assert_eq!(error.kind.as_deref(), Some("t"));
    assert_eq!(error.status, Some(409));
    let stamp = error.timestamp.unwrap();
    assert_eq!(stamp.offset, Offset { seconds: 7200 });
    assert!(stamp.unix_nanos > 1_600_000_000_000_000_000);
    let later = ResponseError::from(ResponseError::builder());
    assert!(later.timestamp.unwrap().unix_nanos >= stamp.unix_nanos);
}

#[test]
fn an_offset_is_made_of_hours_minutes_and_seconds() {
    let offset = |hms| ResponseError::builder().offset_hms(hms).offset;
    assert_eq!(offset((1, 2, 3)), Some(Offset { seconds: 3723 }));
    assert_eq!(offset((-1, -2, -3)), Some(Offset { seconds: -3723 }));
    assert_eq!(offset((0, 0, 0)), Some(Offset { seconds: 0 }));
    assert_eq!(offset((1, -2, -3)), Some(Offset { seconds: 3723 }));
    assert_eq!(offset((100, 0, 0)), None);
    assert_eq!(offset((0, 60, 0)), None);
    assert_eq!(offset((0, 0, 60)), None);
}

#[test]
fn a_refused_offset_clears_the_one_before() {
    let builder = ResponseError::builder().offset(Offset { seconds: 60 }).offset_hms((0, 0, 99));
    assert_eq!(builder.offset, None);
}

#[test]
fn a_builder_takes_over_a_description() {
    let first = ResponseError::create_at(
        ResponseError::builder().title("t".to_string()).offset(Offset { seconds: 3600 }),
        42,
    );
    let builder = Builder::from(first);
    assert_eq!(builder.title.as_deref(), Some("t"));
    assert_eq!(builder.status, Some(400));
    assert_eq!(builder.offset, Some(Offset { seconds: 3600 }));
    let second = ResponseError::create_at(builder, 43);
    assert_eq!(second.title.as_deref(), Some("t"));
    assert_eq!(second.status, Some(400));
    assert_eq!(second.timestamp.unwrap().unix_nanos, 43);
    assert_eq!(second.timestamp.unwrap().offset, Offset { seconds: 3600 });
}

#[test]
fn only_exit_code_zero_is_an_answer() {
    assert_eq!(Ping::from_exit_code(Some(0)), Ping::Pong);
    assert_eq!(Ping::from_exit_code(Some(1)), Ping::Fail);
    assert_eq!(Ping::from_exit_code(Some(-1)), Ping::Fail);
    assert_eq!(Ping::from_exit_code(None), Ping::Fail);
}

#[test]
fn ping_outcomes_name_themselves() {
    assert_eq!(Ping::Pong.to_string(), "Pong");
    assert_eq!(Ping::Fail.to_string(), "Fail");
    assert!(Ping::Pong < Ping::Fail);
}
