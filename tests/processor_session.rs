use hematite::capture::{CaptureResult, FileType, Message as NodeMessage, Timestamp};
use hematite::processor::{CancelBehaviour, Message};
use hematite::session::{upload_file_name, Reply, Session};
use hematite::settings::{Aperture, DNTime, Exposure, Frame, Iso, Settings};

fn served() -> Settings {
    Settings {
        horizon: -670,
        daytime: DNTime { frame: Frame::Period(20_000), exposure: Exposure::Auto, iso: Iso::Manual(100), aperture: Aperture::Auto },
        nighttime: DNTime {
            frame: Frame::Continuous,
            exposure: Exposure::Manual(180_000),
            iso: Iso::Manual(800),
            aperture: Aperture::Manual(3_500),
        },
    }
}

#[test]
fn upload_names_use_the_hyphenated_id() {
    let id = 0x0123_4567_89ab_cdef_0123_4567_89ab_cdef_u128;
    assert_eq!(upload_file_name(id, FileType::Cr2), "01234567-89ab-cdef-0123-456789abcdef.cr2");
    assert_eq!(upload_file_name(0, FileType::Dummy), "00000000-0000-0000-0000-000000000000.dummy");
}

#[test]
fn settings_request_is_answered_while_open() {
    let mut session = Session::new(served(), CancelBehaviour::Always);
    assert!(session.is_open());
    match session.on_message(NodeMessage::RequestSettings) {
        Reply::Send(Message::SetSettings { settings, cancel_behaviour }) => {
            assert_eq!(settings, served());
            assert_eq!(cancel_behaviour, CancelBehaviour::Always);
        }
        other => panic!("expected settings, got {other:?}"),
    }
    session.on_close();
    assert!(!session.is_open());
    assert!(matches!(session.on_message(NodeMessage::RequestSettings), Reply::Nothing));
}

#[test]
fn upload_is_stored_under_its_name() {
    let mut session = Session::new(served(), CancelBehaviour::IfUnequal);
    let upload = CaptureResult {
        uuid: 0xffff_ffff_0000_0000_1111_2222_3333_4444,
        time: Timestamp { millis: 5 },
        is_night: true,
        file_type: FileType::Cr2,
        file: vec![1, 2, 3, 4],
    };
    match session.on_message(NodeMessage::Upload(upload)) {
        Reply::Store { name, file } => {
            assert_eq!(name, "ffffffff-0000-0000-1111-222233334444.cr2");
            assert_eq!(file, vec![1, 2, 3, 4]);
        }
        other => panic!("expected a file to store, got {other:?}"),
    }
}
