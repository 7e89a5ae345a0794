//! The macFUSE channel.

use chevalier_sandbox::fuse::copy_body_buffers;
use chevalier_sandbox::fuse::copy_reply_payload;
use chevalier_sandbox::fuse::errno_sent_outcome;
use chevalier_sandbox::fuse::failed_reply;
use chevalier_sandbox::fuse::fuse_errno_reply_header;
use chevalier_sandbox::fuse::fuse_message_unique;
use chevalier_sandbox::fuse::fuse_reply_succeeded;
use chevalier_sandbox::fuse::ordinary_reply_size;
use chevalier_sandbox::fuse::plan_reply;
use chevalier_sandbox::fuse::prepare_buffered_reply;
use chevalier_sandbox::fuse::sent_outcome;
use chevalier_sandbox::fuse::Errno;
use chevalier_sandbox::fuse::ErrorKind;
use chevalier_sandbox::fuse::FailedReply;
use chevalier_sandbox::fuse::FuseError;
use chevalier_sandbox::fuse::PendingMessages;
use chevalier_sandbox::fuse::ReplyPlan;
use chevalier_sandbox::fuse::FUSE_OUT_HEADER_SIZE;
use chevalier_sandbox::fuse_channel::MacFuseChannel;
use chevalier_sandbox::fuse_mount::channel_errno;
use chevalier_sandbox::fuse_mount::mount_options_text;
use chevalier_sandbox::fuse_mount::mount_parameters;
use chevalier_sandbox::fuse_mount::mount_result;
use chevalier_sandbox::fuse_mount::path_detached;
use chevalier_sandbox::fuse_mount::plist_string;
use chevalier_sandbox::fuse_mount::preflight_macfuse_version;
use chevalier_sandbox::fuse_mount::MountFailure;
use chevalier_sandbox::fuse_mount::MountOption;
use chevalier_sandbox::fuse_mount::SessionACL;
use chevalier_sandbox::fuse_mount::UnmountWait;
use chevalier_sandbox::fuse_mount::MF_MOUNT_FILE_SYSTEM_EXTENSION_NOT_FOUND;
use chevalier_sandbox::fuse_mount::MF_MOUNT_FILE_SYSTEM_EXTENSION_REQUIRES_APPROVAL;
use chevalier_sandbox::fuse_mount::MF_MOUNT_SUCCESS;
use std::sync::atomic::AtomicUsize;
use std::sync::atomic::Ordering;
use std::sync::Arc;

#[derive(Debug)]
struct DropRecord {
    id: usize,
    drops: Arc<AtomicUsize>,
}

impl Drop for DropRecord {
    fn drop(&mut self) {
        self.drops.fetch_add(1, Ordering::SeqCst);
    }
}

#[test]
fn no_reply_completion_releases_pending_message() {
    let drops = Arc::new(AtomicUsize::new(0));
    let mut pending = PendingMessages::new();
    pending.insert(42, DropRecord { id: 1, drops: drops.clone() }).unwrap();

    drop(pending.remove(42));

    assert_eq!(drops.load(Ordering::SeqCst), 1);
    assert!(pending.remove(42).is_none());
}

#[test]
fn duplicate_unique_rejection_preserves_original_message() {
    let drops = Arc::new(AtomicUsize::new(0));
    let mut pending = PendingMessages::new();
    pending.insert(42, DropRecord { id: 1, drops: drops.clone() }).unwrap();

    let rejected = pending.insert(42, DropRecord { id: 2, drops: drops.clone() }).unwrap_err();

    assert_eq!(rejected.id, 2);
    drop(rejected);
    assert_eq!(drops.load(Ordering::SeqCst), 1);

    let original = pending.remove(42).unwrap();
    assert_eq!(original.id, 1);
    drop(original);
    assert_eq!(drops.load(Ordering::SeqCst), 2);
}

#[test]
fn teardown_releases_all_pending_messages() {
    let drops = Arc::new(AtomicUsize::new(0));
    let mut pending = PendingMessages::new();
    for unique in 1..=3 {
        pending.insert(unique, DropRecord { id: unique as usize, drops: drops.clone() }).unwrap();
    }

    pending.clear();

    assert_eq!(drops.load(Ordering::SeqCst), 3);
}

#[test]
fn mfmount_parameters_only_include_kernel_options() {
    let (options, quiet) = mount_parameters(
        &[
            MountOption::FSName("chevalier".to_owned()),
            MountOption::Subtype("ignored-by-mfmount".to_owned()),
            MountOption::RW,
            MountOption::CUSTOM("backend=fskit".to_owned()),
            MountOption::CUSTOM("quiet".to_owned()),
        ],
        SessionACL::RootAndOwner,
    )
    .unwrap();

    assert_eq!(options, "fsname=chevalier,rw,allow_other");
    assert!(quiet);
}

#[test]
fn flattens_mfmessage_body_buffers() {
    let header = [1u8, 2, 3];
    let payload = [4u8, 5];
    let buffers = [Some(&header[..]), Some(&payload[..])];
    let mut destination = [0u8; 5];

    let copied = copy_body_buffers(&buffers, 5, &mut destination).unwrap();

    assert_eq!(copied, destination.len());
    assert_eq!(destination, [1, 2, 3, 4, 5]);
}

#[test]
fn flattens_mfmessage_with_more_than_two_body_buffers() {
    let first = [1u8, 2];
    let second = [3u8];
    let third = [4u8, 5];
    let buffers = [Some(&first[..]), Some(&second[..]), Some(&third[..])];
    let mut destination = [0u8; 5];

    let copied = copy_body_buffers(&buffers, 5, &mut destination).unwrap();

    assert_eq!(copied, destination.len());
    assert_eq!(destination, [1, 2, 3, 4, 5]);
}

#[test]
fn rejects_inconsistent_mfmessage_body_size() {
    let body = [1u8, 2, 3];
    let buffers = [Some(&body[..])];
    let mut destination = [0u8; 4];

    let error = copy_body_buffers(&buffers, 4, &mut destination).unwrap_err();

    assert_eq!(error, Errno::EIO);
}

#[test]
fn extracts_fuse_message_unique() {
    let mut message = [0u8; 16];
    message[8..16].copy_from_slice(&42u64.to_ne_bytes());

    assert_eq!(fuse_message_unique(&message).unwrap(), 42);
    assert_eq!(fuse_message_unique(&message[..15]).unwrap_err(), Errno::EPROTO);
}

#[test]
fn copies_data_reply_into_transport_buffer() {
    let header = [0u8; FUSE_OUT_HEADER_SIZE];
    let first = [1u8, 2];
    let second = [3u8, 4, 5];
    let buffers = [&header[..], &first[..], &second[..]];
    let mut destination = [0u8; 8];

    let copied = copy_reply_payload(&mut destination, &buffers).unwrap();

    assert_eq!(copied, 5);
    assert_eq!(&destination[..copied], &[1, 2, 3, 4, 5]);
}

#[test]
fn prepares_exact_macfuse_reply_buffer_message() {
    let mut header = [0u8; FUSE_OUT_HEADER_SIZE];
    header[..4].copy_from_slice(&21u32.to_ne_bytes());
    header[8..16].copy_from_slice(&42u64.to_ne_bytes());
    let payload = [1u8, 2, 3, 4, 5];
    let buffers = [&header[..], &payload[..]];
    let mut destination = [0u8; 8];

    let reply = prepare_buffered_reply(&mut destination, &buffers).unwrap();

    assert_eq!(u32::from_ne_bytes(reply.header[..4].try_into().unwrap()), 24);
    assert_eq!(i32::from_ne_bytes(reply.header[4..8].try_into().unwrap()), 0);
    assert_eq!(u64::from_ne_bytes(reply.header[8..16].try_into().unwrap()), 42);
    assert_eq!(reply.buffer_out.size, payload.len() as u32);
    assert_eq!(reply.buffer_out.flags, 0);
    assert_eq!(&destination[..payload.len()], &payload);
}

#[test]
fn rejects_reply_payload_larger_than_transport_buffer() {
    let header = [0u8; FUSE_OUT_HEADER_SIZE];
    let payload = [1u8, 2, 3];
    let buffers = [&header[..], &payload[..]];
    let mut destination = [0u8; 2];

    let error = copy_reply_payload(&mut destination, &buffers).unwrap_err();

    assert_eq!(error.kind(), Some(ErrorKind::InvalidInput));
}

#[test]
fn recognizes_successful_and_error_replies() {
    let mut header = [0u8; FUSE_OUT_HEADER_SIZE];
    assert!(fuse_reply_succeeded(&header).unwrap());

    header[4..8].copy_from_slice(&(-libc::EIO).to_ne_bytes());
    assert!(!fuse_reply_succeeded(&header).unwrap());
}

#[test]
fn builds_correlated_errno_reply() {
    let header = fuse_errno_reply_header(42, libc::EIO);

    assert_eq!(u32::from_ne_bytes(header[..4].try_into().unwrap()), 16);
    assert_eq!(i32::from_ne_bytes(header[4..8].try_into().unwrap()), -libc::EIO);
    assert_eq!(u64::from_ne_bytes(header[8..16].try_into().unwrap()), 42);
}

#[test]
fn maps_mfmount_setup_results() {
    assert_eq!(
        mount_result(MF_MOUNT_FILE_SYSTEM_EXTENSION_NOT_FOUND, None).unwrap_err().kind(),
        Some(ErrorKind::NotFound)
    );
    assert_eq!(
        mount_result(MF_MOUNT_FILE_SYSTEM_EXTENSION_REQUIRES_APPROVAL, None).unwrap_err().kind(),
        Some(ErrorKind::PermissionDenied)
    );
    assert_eq!(
        MountFailure::from_result(MF_MOUNT_FILE_SYSTEM_EXTENSION_NOT_FOUND, None)
            .unwrap()
            .terminal_errno(),
        Errno::EIO
    );
    assert_eq!(
        MountFailure::from_result(MF_MOUNT_FILE_SYSTEM_EXTENSION_REQUIRES_APPROVAL, None)
            .unwrap()
            .terminal_errno(),
        Errno::EACCES
    );
}

#[test]
fn rejects_unsupported_or_ambiguous_mfmount_options() {
    assert_eq!(
        mount_parameters(&[MountOption::AutoUnmount], SessionACL::All).unwrap_err().kind(),
        Some(ErrorKind::Unsupported)
    );
    assert_eq!(
        mount_parameters(
            &[MountOption::CUSTOM("backend=kernel".to_owned())],
            SessionACL::Owner,
        )
        .unwrap_err()
        .kind(),
        Some(ErrorKind::InvalidInput)
    );
    assert_eq!(
        mount_parameters(
            &[MountOption::CUSTOM("rw,unexpected".to_owned())],
            SessionACL::Owner,
        )
        .unwrap_err()
        .kind(),
        Some(ErrorKind::InvalidInput)
    );
}

#[test]
fn parses_exact_macfuse_package_version() {
    let plist = r#"<plist><dict>
            <key>CFBundleShortVersionString</key><string>5.3.3</string>
        </dict></plist>"#;

    assert_eq!(
        plist_string(plist, "CFBundleShortVersionString").as_deref(),
        Some("5.3.3")
    );
}

#[test]
fn rejects_a_different_installed_macfuse_version() {
    let plist = r#"<plist><dict>
                <key>CFBundleShortVersionString</key><string>5.3.2</string>
            </dict></plist>"#;

    let error = preflight_macfuse_version(plist, "version.plist").unwrap_err();

    assert_eq!(error.kind(), Some(ErrorKind::Unsupported));
    match error {
        FuseError::Message { message, .. } => {
            assert!(message.contains("5.3.3 is required, found 5.3.2"), "{message}");
        },
        FuseError::System(_) => panic!("the message names both versions"),
    }
}

#[test]
fn accepts_the_pinned_macfuse_version() {
    let plist = "<key>CFBundleShortVersionString</key>\n<string>5.3.3</string>";
    assert!(preflight_macfuse_version(plist, "version.plist").is_ok());
    assert_eq!(
        preflight_macfuse_version("<plist/>", "version.plist").unwrap_err().kind(),
        Some(ErrorKind::InvalidData)
    );
    assert_eq!(plist_string("<plist/>", "CFBundleShortVersionString"), None);
}

#[test]
fn options_without_access_of_others() {
    let text = mount_options_text(&[MountOption::RO, MountOption::NoSuid], SessionACL::Owner);
    assert_eq!(text.unwrap(), "ro,nosuid,backend=fskit");
    assert!(mount_result(MF_MOUNT_SUCCESS, None).is_ok());
}

#[test]
fn unknown_mount_results_carry_the_error_of_the_system() {
    let failure = MountFailure::from_result(-1, Some(libc::EPERM)).unwrap();
    assert_eq!(failure.errno, Some(libc::EPERM));
    assert!(MountFailure::from_result(MF_MOUNT_SUCCESS, Some(1)).is_none());
}

#[test]
fn replies_are_planned_by_size_and_buffer() {
    let header = fuse_errno_reply_header(7, libc::EIO);
    let payload = [1u8, 2];
    assert_eq!(plan_reply(&[&header[..]], true).unwrap(), ReplyPlan::Ordinary(16));
    let good = [0u8; FUSE_OUT_HEADER_SIZE];
    assert_eq!(plan_reply(&[&good[..], &payload[..]], true).unwrap(), ReplyPlan::Buffered);
    assert_eq!(plan_reply(&[&good[..], &payload[..]], false).unwrap(), ReplyPlan::Ordinary(18));
    assert_eq!(ordinary_reply_size(&[&good[..], &payload[..]]).unwrap(), 18);
}

#[test]
fn short_sends_are_errors() {
    assert!(sent_outcome(16, 16).is_ok());
    assert_eq!(sent_outcome(15, 16).unwrap_err().kind(), Some(ErrorKind::WriteZero));
    assert!(sent_outcome(-1, 16).is_err());
    assert!(errno_sent_outcome(16).is_ok());
    assert!(errno_sent_outcome(0).is_err());
}

#[test]
fn a_failed_reply_is_answered_while_its_message_is_pending() {
    assert!(matches!(
        failed_reply(true, FuseError::System(Errno::EIO)),
        FailedReply::ReplyIoError
    ));
    assert!(matches!(
        failed_reply(false, FuseError::System(Errno::EIO)),
        FailedReply::Fail(FuseError::System(Errno::EIO))
    ));
}

#[test]
fn a_message_is_answered_once() {
    let mut channel: MacFuseChannel<&str> = MacFuseChannel::new();
    let mut body = [0u8; 16];
    body[8..16].copy_from_slice(&42u64.to_ne_bytes());
    let mut buffer = [0u8; 64];
    let taken = channel.take_in("message", 16, Some(&[Some(&body[..])]), &mut buffer).unwrap();
    assert_eq!(taken, 16);
    assert_eq!(&buffer[..16], &body);
    // A second message under the same number is refused.
    assert!(channel.take_in("other", 16, Some(&[Some(&body[..])]), &mut buffer).is_err());

    let mut header = [0u8; FUSE_OUT_HEADER_SIZE];
    header[..4].copy_from_slice(&16u32.to_ne_bytes());
    header[8..16].copy_from_slice(&42u64.to_ne_bytes());
    let start = channel.begin_send(&[&header[..]]).unwrap();
    assert_eq!(start.unique, 42);
    assert_eq!(start.pending, Some("message"));
    match channel.begin_send(&[&header[..]]) {
        Ok(again) => assert_eq!(again.pending, None),
        Err(_) => {},
    }
}

#[test]
fn a_closing_channel_takes_nothing_in() {
    let mut channel: MacFuseChannel<u8> = MacFuseChannel::new();
    assert!(channel.may_receive().is_ok());
    assert!(!channel.is_closing());
    channel.begin_closing();
    assert!(channel.is_closing());
    assert_eq!(channel.may_receive(), Err(Errno::ENODEV));
    channel.mark_closed_by_fuse_channel();
    assert!(channel.mount_error().is_none());
}

#[test]
fn a_failed_mount_ends_the_channel_with_its_error() {
    let mut channel: MacFuseChannel<u8> = MacFuseChannel::new();
    let failure =
        MountFailure::from_result(MF_MOUNT_FILE_SYSTEM_EXTENSION_REQUIRES_APPROVAL, None).unwrap();
    channel.set_mount_failure(failure);
    assert_eq!(channel.terminal_errno(), Errno::EACCES);
    assert_eq!(channel.mount_error().unwrap().kind(), Some(ErrorKind::PermissionDenied));
}

#[test]
fn requests_are_failed_by_number() {
    let mut channel: MacFuseChannel<u8> = MacFuseChannel::new();
    let mut body = [0u8; 16];
    body[8..16].copy_from_slice(&5u64.to_ne_bytes());
    let mut buffer = [0u8; 16];
    channel.take_in(1, 16, Some(&[Some(&body[..])]), &mut buffer).unwrap();
    let header = channel.fail_pending_request(5, libc::EIO).unwrap();
    assert_eq!(header, fuse_errno_reply_header(5, libc::EIO));
    assert!(!channel.complete_without_reply(6));
}

#[test]
fn unmounting_waits_and_gives_up() {
    assert!(UnmountWait::new().looked(false, Some(false)));
    assert!(UnmountWait::new().looked(true, None));
    let mut wait = UnmountWait::new();
    let mut pauses = 0;
    let error = loop {
        assert!(!wait.looked(false, if pauses % 2 == 0 { Some(true) } else { None }));
        pauses += 1;
        if let Err(error) = wait.paused() {
            break error;
        }
    };
    assert_eq!(pauses, 100);
    assert_eq!(error.kind(), Some(ErrorKind::TimedOut));
    assert!(path_detached(Some(false)));
    assert!(!path_detached(Some(true)));
    assert_eq!(channel_errno(0, false), None);
}
