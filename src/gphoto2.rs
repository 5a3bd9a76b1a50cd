//! The backend that drives a camera through the gphoto2 command-line tool:
//! the command lines it runs and how it reads their outcome.
use vstd::prelude::*;
use crate::capture::CaptureError;
use crate::settings::{DNTime, Exposure, Iso};
use crate::text::{decimal, decimal_spec};

verus! {

/// The file name the camera's image is downloaded to.
pub const CAPTURE_FILENAME: &'static str = "capture.cr2";

pub open spec fn mode_args(exposure: Exposure) -> Seq<Seq<char>> {
    match exposure {
        Exposure::Manual(_) => seq!["--set-config-value"@, "autoexposuremode=Manual"@],
        Exposure::Auto => seq!["--set-config-value"@, "autoexposuremode=AV"@],
    }
}

pub open spec fn iso_args(iso: Iso) -> Seq<Seq<char>> {
    match iso {
        Iso::Auto => seq!["--set-config-value"@, "iso=auto"@],
        Iso::Manual(u) => seq!["--set-config-value"@, "iso="@ + decimal_spec(u as nat)],
    }
}

/// A bulb exposure for a set time, or a plain shot on auto exposure.
pub open spec fn shot_args(exposure: Exposure) -> Seq<Seq<char>> {
    match exposure {
        Exposure::Manual(ms) => seq![
            "--set-config"@,
            "bulb=1"@,
            "--wait-event="@ + decimal_spec(ms as nat) + "ms"@,
            "--set-config"@,
            "bulb=0"@,
            "--wait-event-and-download=2s"@,
        ],
        Exposure::Auto => seq!["--capture-image-and-download"@],
    }
}

/// The camera arguments for `settings` (the aperture is left to the camera).
pub open spec fn camera_args(settings: DNTime) -> Seq<Seq<char>> {
    mode_args(settings.exposure) + seq!["--set-config-value"@, "imageformat=RAW"@] + iso_args(
        settings.iso,
    ) + shot_args(settings.exposure)
}

fn push_arg(args: &mut Vec<String>, arg: String)
    ensures
        final(args).deep_view() == old(args).deep_view().push(arg@),
{
    let ghost a = arg@;
    args.push(arg);
    assert(args.deep_view() =~= old(args).deep_view().push(a));
}

fn push_lit(args: &mut Vec<String>, arg: &str)
    ensures
        final(args).deep_view() == old(args).deep_view().push(arg@),
{
    push_arg(args, String::from_str(arg));
}

/// The camera arguments for `settings`.
pub fn generate_args(settings: &DNTime) -> (args: Vec<String>)
    ensures
        args.deep_view() == camera_args(*settings),
{
    let mut args: Vec<String> = Vec::new();
    assert(args.deep_view() =~= Seq::<Seq<char>>::empty());
    push_lit(&mut args, "--set-config-value");
    match settings.exposure {
        Exposure::Manual(_) => push_lit(&mut args, "autoexposuremode=Manual"),
        Exposure::Auto => push_lit(&mut args, "autoexposuremode=AV"),
    }
    assert(args.deep_view() =~= mode_args(settings.exposure));
    push_lit(&mut args, "--set-config-value");
    push_lit(&mut args, "imageformat=RAW");
    push_lit(&mut args, "--set-config-value");
    match settings.iso {
        Iso::Auto => push_lit(&mut args, "iso=auto"),
        Iso::Manual(u) => {
            let mut a = String::from_str("iso=");
            a.append(decimal(u as u64).as_str());
            push_arg(&mut args, a);
        },
    }
    assert(args.deep_view() =~= mode_args(settings.exposure) + seq![
        "--set-config-value"@,
        "imageformat=RAW"@,
    ] + iso_args(settings.iso));
    match settings.exposure {
        Exposure::Manual(ms) => {
            push_lit(&mut args, "--set-config");
            push_lit(&mut args, "bulb=1");
            let mut a = String::from_str("--wait-event=");
            a.append(decimal(ms).as_str());
            a.append("ms");
            push_arg(&mut args, a);
            push_lit(&mut args, "--set-config");
            push_lit(&mut args, "bulb=0");
            push_lit(&mut args, "--wait-event-and-download=2s");
        },
        Exposure::Auto => push_lit(&mut args, "--capture-image-and-download"),
    }
    assert(args.deep_view() =~= camera_args(*settings));
    args
}

/// The whole command line: overwrite, the download file name, then the
/// camera arguments.
pub open spec fn command_args(filename: Seq<char>, settings: DNTime) -> Seq<Seq<char>> {
    seq!["--force-overwrite"@, "--filename"@, filename] + camera_args(settings)
}

/// The arguments of `kill` that ask process `pid` to terminate.
pub open spec fn kill_args_spec(pid: u32) -> Seq<Seq<char>> {
    seq!["-SIGTERM"@, decimal_spec(pid as nat)]
}

pub struct GPhoto2 {}

impl GPhoto2 {
    pub fn new() -> (r: GPhoto2) {
        GPhoto2 {  }
    }

    /// The gphoto2 command line that captures to `filename` with `settings`.
    pub fn command_args(&self, filename: &str, settings: &DNTime) -> (args: Vec<String>)
        ensures
            args.deep_view() == command_args(filename@, *settings),
    {
        let mut args: Vec<String> = Vec::new();
        assert(args.deep_view() =~= Seq::<Seq<char>>::empty());
        push_lit(&mut args, "--force-overwrite");
        push_lit(&mut args, "--filename");
        push_lit(&mut args, filename);
        let mut rest = generate_args(settings);
        let ghost before = args.deep_view();
        args.append(&mut rest);
        assert(args.deep_view() =~= before + camera_args(*settings));
        assert(args.deep_view() =~= command_args(filename@, *settings));
        args
    }

    /// The arguments of `kill` that stop a running capture process.
    pub fn kill_args(&self, pid: u32) -> (args: Vec<String>)
        ensures
            args.deep_view() == kill_args_spec(pid),
    {
        let mut args: Vec<String> = Vec::new();
        assert(args.deep_view() =~= Seq::<Seq<char>>::empty());
        push_lit(&mut args, "-SIGTERM");
        push_arg(&mut args, decimal(pid as u64));
        assert(args.deep_view() =~= kill_args_spec(pid));
        args
    }

    /// How the exit of the capture process ends the attempt: only exit code 0
    /// is a success; a missing code (killed by a signal) is a failure.
    pub fn exit_outcome(&self, code: Option<i32>) -> (r: Result<(), CaptureError>)
        ensures
            r is Ok <==> code == Some(0i32),
            r is Err ==> r->Err_0 is Module,
    {
        match code {
            Some(0) => Ok(()),
            _ => Err(CaptureError::Module(String::from_str("gphoto2 exited with a non zero exit code"))),
        }
    }
}

} // verus!
