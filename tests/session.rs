use rustclr::error::{check_status, ClrError};
use rustclr::exit::{exit_address, nt_success, ExitPatch, PatchAction, PatchPhase, PAGE_EXECUTE_READWRITE, RET_OPCODE};
use rustclr::output::OutputSink;
use rustclr::runtime::{image_header, validate_file, ImageHeader, RuntimeVersion, ClrSource};
use rustclr::session::{environment_step, start_status, Action, Event, RustClr};
use rustclr::variant::Variant;

const GOOD: ImageHeader = ImageHeader {
    characteristics: 0x0102,
    subsystem: 3,
    com_descriptor_address: 0x2008,
    com_descriptor_size: 0x48,
};

/// A minimal PE32 image: managed, executable, console subsystem.
fn pe_image(characteristics: u16, subsystem: u16, com_size: u32) -> Vec<u8> {
    let mut b = vec![0u8; 0x200];
    b[0] = b'M';
    b[1] = b'Z';
    b[0x3c] = 0x80;
    b[0x80..0x84].copy_from_slice(b"PE\0\0");
    b[0x96..0x98].copy_from_slice(&characteristics.to_le_bytes());
    b[0x98..0x9a].copy_from_slice(&0x10bu16.to_le_bytes());
    b[0xdc..0xde].copy_from_slice(&subsystem.to_le_bytes());
    b[0x168..0x16c].copy_from_slice(&0x2008u32.to_le_bytes());
    b[0x16c..0x170].copy_from_slice(&com_size.to_le_bytes());
    b
}

fn drive(clr: &mut RustClr, events: Vec<Event>) -> Vec<Action> {
    let mut seen = vec![clr.awaiting];
    for ev in events {
        seen.push(clr.step(ev));
    }
    seen
}

#[test]
fn full_run_with_capture_and_exit_patch() {
    let image = pe_image(0x0102, 3, 0x48);
    let mut clr = RustClr::new(&image).unwrap().output().exit().args(vec!["a"]);
    let seen = drive(&mut clr, vec![
        Event::Done,                                  // meta host
        Event::Done,                                  // runtime info
        Event::Identity(String::from("App, Version=1.0.0.0")),
        Event::Done,                                  // runtime host
        Event::Startable(true),
        Event::Done,                                  // interceptor registered
        Event::Done,                                  // started
        Event::Done,                                  // cor runtime host
        Event::Done,                                  // domain
        Event::Done,                                  // load
        Event::Done,                                  // mscorlib
        Event::Done,                                  // exit neutralized
        Event::Done,                                  // output armed
        Event::Done,                                  // entry invoked
        Event::Output(String::from("Hello World\r\n")),
        Event::Done,                                  // unloaded
        Event::Done,                                  // stopped
    ]);
    assert_eq!(seen, vec![
        Action::CreateMetaHost, Action::GetRuntime, Action::ExtractIdentity, Action::GetRuntimeHost,
        Action::CheckStarted, Action::RegisterInterceptor, Action::StartRuntime, Action::GetCorRuntimeHost,
        Action::CreateDomain, Action::LoadAssembly, Action::ResolveMscorlib, Action::NeutralizeExit,
        Action::ArmOutput, Action::InvokeEntry, Action::CaptureOutput, Action::UnloadDomain,
        Action::StopRuntime, Action::Finish,
    ]);
    assert_eq!(clr.identity_assembly, "App, Version=1.0.0.0");
    assert!(!clr.has_domain && !clr.has_host);
    assert_eq!(clr.into_outcome(), Ok(String::from("Hello World\r\n")));
}

#[test]
fn run_on_started_runtime_skips_interceptor() {
    let image = pe_image(0x0102, 3, 0x48);
    let mut clr = RustClr::new(&image).unwrap();
    let seen = drive(&mut clr, vec![
        Event::Done, Event::Done, Event::Identity(String::from("X")), Event::Done,
        Event::Startable(false), Event::Done, Event::Done, Event::Done, Event::Done, Event::Done,
        Event::Done, Event::Done,
    ]);
    assert_eq!(seen[5], Action::GetCorRuntimeHost);
    assert_eq!(&seen[6..], &[Action::CreateDomain, Action::LoadAssembly, Action::ResolveMscorlib,
        Action::InvokeEntry, Action::UnloadDomain, Action::StopRuntime, Action::Finish]);
    assert_eq!(clr.into_outcome(), Ok(String::new()));
}

#[test]
fn failure_before_runtime_host_finishes_at_once() {
    let image = pe_image(0x0102, 3, 0x48);
    let mut clr = RustClr::new(&image).unwrap();
    let e = ClrError::MetaHostCreationError(String::from("no runtime"));
    assert_eq!(clr.step(Event::Failed(e.clone())), Action::Finish);
    assert_eq!(clr.step(Event::Done), Action::Finish);
    assert_eq!(clr.into_outcome(), Err(e));
}

#[test]
fn failure_after_domain_unloads_then_stops_and_keeps_first_error() {
    let image = pe_image(0x0102, 3, 0x48);
    let mut clr = RustClr::new(&image).unwrap();
    drive(&mut clr, vec![
        Event::Done, Event::Done, Event::Identity(String::from("X")), Event::Done,
        Event::Startable(true), Event::Done, Event::Done, Event::Done, Event::Done,
    ]);
    assert_eq!(clr.awaiting, Action::LoadAssembly);
    let load = ClrError::ApiError("Load_2", -2147024894);
    assert_eq!(clr.step(Event::Failed(load.clone())), Action::UnloadDomain);
    assert_eq!(clr.step(Event::Failed(ClrError::ApiError("UnloadDomain", -1))), Action::StopRuntime);
    assert_eq!(clr.step(Event::Failed(ClrError::ApiError("Stop", -1))), Action::Finish);
    assert_eq!(clr.into_outcome(), Err(load));
}

#[test]
fn unload_failure_without_pending_error_is_reported() {
    let image = pe_image(0x0102, 3, 0x48);
    let mut clr = RustClr::new(&image).unwrap();
    drive(&mut clr, vec![
        Event::Done, Event::Done, Event::Identity(String::from("X")), Event::Done,
        Event::Startable(false), Event::Done, Event::Done, Event::Done, Event::Done, Event::Done,
    ]);
    assert_eq!(clr.awaiting, Action::UnloadDomain);
    let e = ClrError::ApiError("UnloadDomain", -3);
    assert_eq!(clr.step(Event::Failed(e.clone())), Action::StopRuntime);
    assert_eq!(clr.step(Event::Done), Action::Finish);
    assert_eq!(clr.into_outcome(), Err(e));
}

#[test]
fn teardown_without_domain_is_no_unload_and_no_error() {
    let image = pe_image(0x0102, 3, 0x48);
    let mut clr = RustClr::new(&image).unwrap();
    assert_eq!(clr.teardown(), Action::Finish);
    assert_eq!(clr.teardown(), Action::Finish);
    assert_eq!(clr.into_outcome(), Ok(String::new()));
}

#[test]
fn unload_is_asked_once() {
    let image = pe_image(0x0102, 3, 0x48);
    let mut clr = RustClr::new(&image).unwrap();
    drive(&mut clr, vec![
        Event::Done, Event::Done, Event::Identity(String::from("X")), Event::Done,
        Event::Startable(false), Event::Done, Event::Done,
    ]);
    assert!(clr.has_domain);
    assert_eq!(clr.teardown(), Action::UnloadDomain);
    assert_eq!(clr.step(Event::Done), Action::StopRuntime);
    assert_eq!(clr.teardown(), Action::StopRuntime);
    assert_eq!(clr.step(Event::Done), Action::Finish);
    assert_eq!(clr.teardown(), Action::Finish);
    assert!(clr.into_outcome().is_ok());
}

#[test]
fn unexpected_event_is_an_error() {
    let image = pe_image(0x0102, 3, 0x48);
    let mut clr = RustClr::new(&image).unwrap();
    clr.step(Event::Done);
    clr.step(Event::Done);
    assert_eq!(clr.step(Event::Done), Action::Finish);
    assert_eq!(clr.into_outcome(), Err(ClrError::GenericError("unexpected event")));
}

#[test]
fn session_data_for_actions() {
    let image = pe_image(0x0102, 3, 0x48);
    let clr = RustClr::new(&image).unwrap();
    let v4: Vec<u16> = "v4.0.30319".encode_utf16().chain(Some(0)).collect();
    assert_eq!(clr.version_wide(), v4);
    assert_eq!(clr.domain_name_wide("fresh"), vec![0x66, 0x72, 0x65, 0x73, 0x68, 0]);
    let clr = clr.runtime_version(RuntimeVersion::V2).domain("D");
    let v2: Vec<u16> = "v2.0.50727".encode_utf16().chain(Some(0)).collect();
    assert_eq!(clr.version_wide(), v2);
    assert_eq!(clr.domain_name_wide("fresh"), vec![0x44, 0]);
    assert!(clr.entry_args().is_none());
    let clr = clr.args(vec!["x"]);
    assert_eq!(clr.entry_args().unwrap().items, vec![Variant::TextArray(vec![vec![0x78]])]);
}

#[test]
fn interceptor_serves_the_extracted_identity() {
    let image = pe_image(0x0102, 3, 0x48);
    let mut clr = RustClr::new(&image).unwrap();
    drive(&mut clr, vec![Event::Done, Event::Done, Event::Identity(String::from("Id, Version=2.0.0.0"))]);
    let control = clr.interceptor();
    let iid = rustclr::guid::Guid::from_u128(rustclr::guid::IID_HOST_ASSEMBLY_MANAGER);
    let store = control.get_host_manager(iid).unwrap().get_assembly_store();
    let info = rustclr::store::AssemblyBindInfo {
        app_domain_id: 1,
        referenced_identity: String::from("Id"),
        post_policy_identity: clr.identity_assembly.clone(),
        policy_level: 0,
    };
    assert_eq!(store.provide_assembly(&info).unwrap().image, &image[..]);
}

#[test]
fn image_pre_check() {
    assert_eq!(validate_file(Some(GOOD)), Ok(()));
    assert_eq!(validate_file(None), Err(ClrError::InvalidNtHeader));
    let dll = ImageHeader { characteristics: 0x2102, ..GOOD };
    assert_eq!(validate_file(Some(dll)), Err(ClrError::InvalidExecutable));
    let not_exe = ImageHeader { characteristics: 0x0100, ..GOOD };
    assert_eq!(validate_file(Some(not_exe)), Err(ClrError::InvalidExecutable));
    let native = ImageHeader { subsystem: 1, ..GOOD };
    assert_eq!(validate_file(Some(native)), Err(ClrError::InvalidExecutable));
    let unmanaged = ImageHeader { com_descriptor_size: 0, ..GOOD };
    assert_eq!(validate_file(Some(unmanaged)), Err(ClrError::NotDotNet));
    let image = pe_image(0x0102, 3, 0);
    assert!(matches!(RustClr::new(&image), Err(ClrError::NotDotNet)));
    let image = pe_image(0x2102, 3, 0x48);
    assert!(matches!(RustClr::new(&image), Err(ClrError::InvalidExecutable)));
    assert!(matches!(RustClr::new(&[0u8; 10]), Err(ClrError::InvalidNtHeader)));
}

#[test]
fn header_fields_read_from_image() {
    let image = pe_image(0x0102, 3, 0x48);
    assert_eq!(image_header(&image), Some(GOOD));
    let mut plus = pe_image(0x0022, 2, 0);
    plus[0x98..0x9a].copy_from_slice(&0x20bu16.to_le_bytes());
    plus[0x178..0x17c].copy_from_slice(&0x3000u32.to_le_bytes());
    plus[0x17c..0x180].copy_from_slice(&0x10u32.to_le_bytes());
    assert_eq!(image_header(&plus), Some(ImageHeader {
        characteristics: 0x0022, subsystem: 2, com_descriptor_address: 0x3000, com_descriptor_size: 0x10,
    }));
    let mut bad = pe_image(0x0102, 3, 0x48);
    bad[0x81] = b'X';
    assert_eq!(image_header(&bad), None);
    let mut far = pe_image(0x0102, 3, 0x48);
    far[0x3c] = 0xff;
    far[0x3d] = 0xff;
    assert_eq!(image_header(&far), None);
    assert_eq!(image_header(&image[..0x100]), None);
}

#[test]
fn runtime_versions() {
    let w: Vec<u16> = "v3.0".encode_utf16().chain(Some(0)).collect();
    assert_eq!(RuntimeVersion::V3.to_vec(), w);
    let u: Vec<u16> = "UNKNOWN".encode_utf16().chain(Some(0)).collect();
    assert_eq!(RuntimeVersion::UNKNOWN.to_vec(), u);
    assert_eq!(RuntimeVersion::selected(None), RuntimeVersion::V4);
    assert_eq!(RuntimeVersion::selected(Some(RuntimeVersion::V2)), RuntimeVersion::V2);
}

#[test]
fn sources() {
    assert!(matches!(ClrSource::from("a.exe"), ClrSource::File("a.exe")));
    let b: &[u8] = &[1, 2];
    assert!(matches!(ClrSource::from(b), ClrSource::Buffer(&[1, 2])));
}

#[test]
fn status_checks() {
    assert_eq!(check_status("Start", 0), Ok(()));
    assert_eq!(check_status("GetInterface", -2147467262), Err(ClrError::ApiError("GetInterface", -2147467262)));
    assert_eq!(start_status(0), Ok(()));
    assert_eq!(start_status(1), Err(ClrError::RuntimeStartError));
}

#[test]
fn exit_patch_success() {
    let (mut p, first) = ExitPatch::new(0x7ff0_1000);
    assert_eq!(first, PatchAction::Protect { address: 0x7ff0_1000, protection: PAGE_EXECUTE_READWRITE });
    assert_eq!(p.step(0, 0x20), PatchAction::Write { address: 0x7ff0_1000, opcode: RET_OPCODE });
    assert_eq!(RET_OPCODE, 0xc3);
    assert_eq!(p.step(0, 0), PatchAction::Restore { address: 0x7ff0_1000, protection: 0x20 });
    assert_eq!(p.step(0, 0x40), PatchAction::Finish(Ok(())));
    assert_eq!(p.phase, PatchPhase::Done);
}

#[test]
fn exit_patch_protect_failure_writes_nothing() {
    let (mut p, _) = ExitPatch::new(0x1000);
    assert_eq!(
        p.step(-1073741819, 0),
        PatchAction::Finish(Err(ClrError::GenericError("Failed to change memory protection to RWX")))
    );
    assert_eq!(p.step(0, 0), PatchAction::Finish(Err(ClrError::GenericError("patch already finished"))));
}

#[test]
fn exit_patch_restore_failure() {
    let (mut p, _) = ExitPatch::new(0x1000);
    p.step(0, 0x20);
    p.step(0, 0);
    assert_eq!(
        p.step(-1, 0),
        PatchAction::Finish(Err(ClrError::GenericError("Failed to restore memory protection")))
    );
}

#[test]
fn exit_address_reading() {
    assert_eq!(exit_address(&Variant::I64(0x7ff0_2000)), Ok(0x7ff0_2000));
    assert_eq!(exit_address(&Variant::U64(0x10)), Ok(0x10));
    assert_eq!(exit_address(&Variant::Pointer(0x7ffe_0000)), Ok(0x7ffe_0000));
    assert_eq!(exit_address(&Variant::I64(0)), Err(ClrError::NullPointerError("GetFunctionPointer")));
    assert_eq!(exit_address(&Variant::from_str("x")), Err(ClrError::VariantUnsupported));
    assert!(nt_success(0) && nt_success(1) && !nt_success(-1));
}

#[test]
fn output_capture_windows_are_independent() {
    let mut sink = OutputSink::new();
    assert_eq!(sink.take_writer(), Err(ClrError::GenericError("No StringWriter instance found")));
    sink.arm(Variant::Object(0x100));
    assert_eq!(sink.take_writer(), Ok(Variant::Object(0x100)));
    assert_eq!(OutputSink::captured_text(&Variant::from_str("Hello World")), Ok(String::from("Hello World")));
    assert!(sink.take_writer().is_err());
    sink.arm(Variant::Object(0x200));
    assert_eq!(sink.take_writer(), Ok(Variant::Object(0x200)));
    assert_eq!(OutputSink::captured_text(&Variant::from_str("Hello Victor")), Ok(String::from("Hello Victor")));
    assert_eq!(OutputSink::captured_text(&Variant::I32(1)), Err(ClrError::VariantUnsupported));
}

#[test]
fn environment_setup_sequence() {
    assert_eq!(environment_step(Action::CreateMetaHost, Event::Done), Ok(Action::GetRuntime));
    assert_eq!(environment_step(Action::GetRuntime, Event::Done), Ok(Action::GetCorRuntimeHost));
    assert_eq!(environment_step(Action::GetCorRuntimeHost, Event::Done), Ok(Action::StartRuntime));
    assert_eq!(environment_step(Action::StartRuntime, Event::Done), Ok(Action::CreateDomain));
    assert_eq!(environment_step(Action::CreateDomain, Event::Done), Ok(Action::Finish));
    assert_eq!(
        environment_step(Action::CreateDomain, Event::Failed(ClrError::ApiError("CreateDomain", -1))),
        Err(ClrError::NoDomainAvailable)
    );
    assert_eq!(
        environment_step(Action::StartRuntime, Event::Failed(ClrError::RuntimeStartError)),
        Err(ClrError::RuntimeStartError)
    );
    assert_eq!(
        environment_step(Action::LoadAssembly, Event::Done),
        Err(ClrError::GenericError("unexpected event"))
    );
}
