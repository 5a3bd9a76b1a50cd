use std::sync::Arc;

use hematite::backend::{build, Backend};
use hematite::capture::{CaptureCommand, CaptureError, FileType, Timestamp};
use hematite::config::CaptureModule;
use hematite::dummy::Dummy;
use hematite::gphoto2::{generate_args, GPhoto2, CAPTURE_FILENAME};
use hematite::settings::{Aperture, DNTime, Exposure, Frame, Iso};
use hematite::text::decimal;

fn strings(v: &[&str]) -> Vec<String> {
    v.iter().map(|s| s.to_string()).collect()
}

#[test]
fn file_type_extensions() {
    assert_eq!(FileType::Dummy.ext(), "dummy");
    assert_eq!(FileType::Cr2.ext(), "cr2");
    assert_eq!(FileType::Dummy.dotext(), ".dummy");
    assert_eq!(FileType::Cr2.dotext(), ".cr2");
}

#[test]
fn decimal_rendering() {
    assert_eq!(decimal(0), "0");
    assert_eq!(decimal(7), "7");
    assert_eq!(decimal(180_000), "180000");
    assert_eq!(decimal(u64::MAX), u64::MAX.to_string());
}

#[test]
fn manual_exposure_arguments() {
    let s = DNTime {
        frame: Frame::Continuous,
        exposure: Exposure::Manual(180_000),
        iso: Iso::Manual(800),
        aperture: Aperture::Manual(3_500),
    };
    assert_eq!(
        generate_args(&s),
        strings(&[
            "--set-config-value",
            "autoexposuremode=Manual",
            "--set-config-value",
            "imageformat=RAW",
            "--set-config-value",
            "iso=800",
            "--set-config",
            "bulb=1",
            "--wait-event=180000ms",
            "--set-config",
            "bulb=0",
            "--wait-event-and-download=2s",
        ])
    );
}

#[test]
fn auto_exposure_arguments() {
    let s = DNTime { frame: Frame::Period(20_000), exposure: Exposure::Auto, iso: Iso::Auto, aperture: Aperture::Implicit };
    assert_eq!(
        generate_args(&s),
        strings(&[
            "--set-config-value",
            "autoexposuremode=AV",
            "--set-config-value",
            "imageformat=RAW",
            "--set-config-value",
            "iso=auto",
            "--capture-image-and-download",
        ])
    );
}

#[test]
fn full_command_line_and_kill() {
    let g = GPhoto2::new();
    let s = DNTime { frame: Frame::Continuous, exposure: Exposure::Auto, iso: Iso::Manual(100), aperture: Aperture::Auto };
    let args = g.command_args(CAPTURE_FILENAME, &s);
    assert_eq!(&args[..3], &strings(&["--force-overwrite", "--filename", "capture.cr2"])[..]);
    assert_eq!(args[8], "iso=100");
    assert_eq!(args.len(), 3 + 7);
    assert_eq!(g.kill_args(4242), strings(&["-SIGTERM", "4242"]));
}

#[test]
fn exit_codes() {
    let g = GPhoto2::new();
    assert!(g.exit_outcome(Some(0)).is_ok());
    assert!(matches!(g.exit_outcome(Some(1)), Err(CaptureError::Module(_))));
    assert!(matches!(g.exit_outcome(None), Err(CaptureError::Module(_))));
}

#[test]
fn dummy_exposure_and_result() {
    let d = Dummy::new();
    let auto = DNTime { frame: Frame::Continuous, exposure: Exposure::Auto, iso: Iso::Auto, aperture: Aperture::Auto };
    let manual = DNTime { exposure: Exposure::Manual(60_000), ..auto };
    assert_eq!(d.exposure_millis(&auto), 100);
    assert_eq!(d.exposure_millis(&manual), 60_000);
    let cmd = CaptureCommand {
        cancel_token: Arc::new(tokio::sync::Notify::new()),
        time: Timestamp { millis: 1_700_000_000_000 },
        is_night: true,
        settings: manual,
    };
    let a = d.result_for(&cmd);
    let b = d.result_for(&cmd);
    assert_eq!(a.time, cmd.time);
    assert!(a.is_night);
    assert_eq!(a.file_type, FileType::Dummy);
    assert_eq!(a.file, vec![0, 0, 0]);
    assert_ne!(a.uuid, b.uuid);
}

#[test]
fn factory_picks_the_named_backend() {
    assert!(matches!(build(CaptureModule::Dummy), Backend::Dummy(_)));
    assert!(matches!(build(CaptureModule::GPhoto2), Backend::GPhoto2(_)));
}
