//! Mounting through macFUSE: the options of a mount, what its results mean, the version that must be
//! installed, and how long an unmount is waited for.

use crate::fuse::fault;
use crate::fuse::fuse_error;
use crate::fuse::Errno;
use crate::fuse::ErrorKind;
use crate::fuse::FuseError;
use crate::fuse::FuseErrorView;
use crate::numeral::signed_decimal;
use crate::numeral::to_signed_decimal;
use crate::text::contains_char;
use crate::text::join;
use crate::text::joined;
use crate::text::same;
use crate::text::split_at_first;
use crate::text::split_once;
use crate::text::starts_with;
use crate::text::trim;
use crate::text::trimmed;
use crate::text::views;
use vstd::prelude::*;

verus! {

// ---------------------------------------------------------------------------
// Options
// ---------------------------------------------------------------------------
/// An option of a mount.
#[derive(Debug)]
pub enum MountOption {
    FSName(String),
    Subtype(String),
    CUSTOM(String),
    AutoUnmount,
    DefaultPermissions,
    Dev,
    NoDev,
    Suid,
    NoSuid,
    RO,
    RW,
    Exec,
    NoExec,
    Atime,
    NoAtime,
    DirSync,
    Sync,
    Async,
}

/// Who may use a mount.
#[derive(Clone, Copy, Debug, PartialEq, Eq, Structural)]
pub enum SessionACL {
    All,
    RootAndOwner,
    Owner,
}

/// The option that lets others than the owner use a mount.
pub open spec fn acl_option(acl: SessionACL) -> Option<Seq<char>> {
    match acl {
        SessionACL::All => Some("allow_other"@),
        SessionACL::RootAndOwner => Some("allow_other"@),
        SessionACL::Owner => None,
    }
}

/// An option as text.
pub open spec fn option_text(option: MountOption) -> Seq<char> {
    match option {
        MountOption::FSName(name) => "fsname="@ + name@,
        MountOption::Subtype(subtype) => "subtype="@ + subtype@,
        MountOption::CUSTOM(value) => value@,
        MountOption::AutoUnmount => "auto_unmount"@,
        MountOption::DefaultPermissions => "default_permissions"@,
        MountOption::Dev => "dev"@,
        MountOption::NoDev => "nodev"@,
        MountOption::Suid => "suid"@,
        MountOption::NoSuid => "nosuid"@,
        MountOption::RO => "ro"@,
        MountOption::RW => "rw"@,
        MountOption::Exec => "exec"@,
        MountOption::NoExec => "noexec"@,
        MountOption::Atime => "atime"@,
        MountOption::NoAtime => "noatime"@,
        MountOption::DirSync => "dirsync"@,
        MountOption::Sync => "sync"@,
        MountOption::Async => "async"@,
    }
}

/// An option as text.
pub fn option_to_string(option: &MountOption) -> (text: String)
    ensures
        text@ == option_text(*option),
{
    match option {
        MountOption::FSName(name) => "fsname=".to_owned().concat(name),
        MountOption::Subtype(subtype) => "subtype=".to_owned().concat(subtype),
        MountOption::CUSTOM(value) => value.clone(),
        MountOption::AutoUnmount => "auto_unmount".to_owned(),
        MountOption::DefaultPermissions => "default_permissions".to_owned(),
        MountOption::Dev => "dev".to_owned(),
        MountOption::NoDev => "nodev".to_owned(),
        MountOption::Suid => "suid".to_owned(),
        MountOption::NoSuid => "nosuid".to_owned(),
        MountOption::RO => "ro".to_owned(),
        MountOption::RW => "rw".to_owned(),
        MountOption::Exec => "exec".to_owned(),
        MountOption::NoExec => "noexec".to_owned(),
        MountOption::Atime => "atime".to_owned(),
        MountOption::NoAtime => "noatime".to_owned(),
        MountOption::DirSync => "dirsync".to_owned(),
        MountOption::Sync => "sync".to_owned(),
        MountOption::Async => "async".to_owned(),
    }
}

/// What becomes of an option.
pub enum OptionUse {
    /// It goes to the kernel.
    Kernel(Seq<char>),
    /// It keeps the mount quiet.
    Quiet,
    /// It says nothing that the mount does not do anyway.
    Nothing,
    /// The mount cannot have it.
    Refused(FuseErrorView),
}

/// What becomes of an option.
pub open spec fn option_use(option: MountOption) -> OptionUse {
    let text = option_text(option);
    let checked = if text.contains(',') {
        OptionUse::Refused(
            fault(
                ErrorKind::InvalidInput,
                "MFMount option contains an ambiguous comma: "@ + text,
            ),
        )
    } else {
        OptionUse::Kernel(text)
    };
    match option {
        MountOption::AutoUnmount => OptionUse::Refused(
            fault(
                ErrorKind::Unsupported,
                "AutoUnmount is not supported by the direct MFMount transport"@,
            ),
        ),
        MountOption::Subtype(_) => OptionUse::Nothing,
        MountOption::CUSTOM(value) => if value@ == "quiet"@ {
            OptionUse::Quiet
        } else if value@ == "backend=fskit"@ {
            OptionUse::Nothing
        } else if "backend="@.is_prefix_of(value@) {
            OptionUse::Refused(
                fault(
                    ErrorKind::InvalidInput,
                    value@ + " conflicts with the direct MFMount FSKit transport"@,
                ),
            )
        } else {
            checked
        },
        _ => checked,
    }
}

/// The options that go to the kernel, and whether the mount is quiet; an error for the first option
/// that the mount cannot have.
pub open spec fn kernel_options(options: Seq<MountOption>) -> std::result::Result<
    (Seq<Seq<char>>, bool),
    FuseErrorView,
>
    decreases options.len(),
{
    if options.len() == 0 {
        Ok((Seq::empty(), false))
    } else {
        match kernel_options(options.drop_last()) {
            Err(e) => Err(e),
            Ok((list, quiet)) => match option_use(options.last()) {
                OptionUse::Kernel(text) => Ok((list.push(text), quiet)),
                OptionUse::Quiet => Ok((list, true)),
                OptionUse::Nothing => Ok((list, quiet)),
                OptionUse::Refused(e) => Err(e),
            },
        }
    }
}

/// The options of a mount as text, and whether it is quiet.
pub open spec fn parameters_of(options: Seq<MountOption>, acl: SessionACL) -> std::result::Result<
    (Seq<char>, bool),
    FuseErrorView,
> {
    match kernel_options(options) {
        Err(e) => Err(e),
        Ok((list, quiet)) => Ok(
            (
                joined(
                    match acl_option(acl) {
                        Some(option) => list.push(option),
                        None => list,
                    },
                    ","@,
                ),
                quiet,
            ),
        ),
    }
}

/// A result that holds options and whether they are quiet, with its parts as views.
pub open spec fn parameters_outcome(r: std::result::Result<(String, bool), FuseError>) -> std::result::Result<
    (Seq<char>, bool),
    FuseErrorView,
> {
    match r {
        Ok(p) => Ok((p.0@, p.1)),
        Err(e) => Err(e@),
    }
}

proof fn lemma_refused_stays(options: Seq<MountOption>, n: int)
    requires
        0 <= n <= options.len(),
        kernel_options(options.take(n)) is Err,
    ensures
        kernel_options(options) == kernel_options(options.take(n)),
    decreases options.len(),
{
    if n == options.len() {
        assert(options.take(n) =~= options);
    } else {
        assert(options.drop_last().take(n) =~= options.take(n));
        lemma_refused_stays(options.drop_last(), n);
    }
}

fn kernel_option(option: &MountOption) -> (r: std::result::Result<String, FuseError>)
    ensures
        match r {
            Ok(text) => text@ == option_text(*option) && !text@.contains(','),
            Err(e) => option_text(*option).contains(',') && e@ == fault(
                ErrorKind::InvalidInput,
                "MFMount option contains an ambiguous comma: "@ + option_text(*option),
            ),
        },
{
    let text = option_to_string(option);
    if contains_char(&text, ',') {
        Err(
            FuseError::Message {
                kind: ErrorKind::InvalidInput,
                message: "MFMount option contains an ambiguous comma: ".to_owned().concat(&text),
            },
        )
    } else {
        Ok(text)
    }
}

/// The options of a mount as text, and whether it is quiet.
pub fn mount_parameters(options: &[MountOption], acl: SessionACL) -> (r: std::result::Result<
    (String, bool),
    FuseError,
>)
    ensures
        parameters_outcome(r) == parameters_of(options@, acl),
{
    let ghost all = options@;
    let mut quiet: bool = false;
    let mut list: Vec<String> = Vec::new();
    let mut i: usize = 0;
    assert(all.take(0).len() == 0);
    assert(views(list@) =~= Seq::empty());
    while i < options.len()
        invariant
            i <= options@.len(),
            all == options@,
            kernel_options(all.take(i as int)) == std::result::Result::<
                (Seq<Seq<char>>, bool),
                FuseErrorView,
            >::Ok((views(list@), quiet)),
        decreases options@.len() - i,
    {
        let ghost before = views(list@);
        let ghost option = all[i as int];
        proof {
            assert(all.take(i + 1).drop_last() =~= all.take(i as int));
            assert(all.take(i + 1).last() == option);
            if kernel_options(all.take(i + 1)) is Err {
                lemma_refused_stays(all, i + 1);
            }
        }
        let mut to_kernel: bool = false;
        match &options[i] {
            MountOption::AutoUnmount => {
                return Err(
                    fuse_error(
                        ErrorKind::Unsupported,
                        "AutoUnmount is not supported by the direct MFMount transport",
                    ),
                );
            },
            MountOption::Subtype(_) => {},
            MountOption::CUSTOM(value) => {
                if same(value, "quiet") {
                    quiet = true;
                } else if same(value, "backend=fskit") {
                } else if starts_with(value, "backend=") {
                    return Err(
                        FuseError::Message {
                            kind: ErrorKind::InvalidInput,
                            message: value.clone().concat(
                                " conflicts with the direct MFMount FSKit transport",
                            ),
                        },
                    );
                } else {
                    to_kernel = true;
                }
            },
            _ => {
                to_kernel = true;
            },
        }
        if to_kernel {
            match kernel_option(&options[i]) {
                Ok(text) => {
                    list.push(text);
                    assert(views(list@) =~= before.push(option_text(option)));
                },
                Err(e) => return Err(e),
            }
        }
        i += 1;
    }
    assert(all.take(all.len() as int) =~= all);
    let ghost kernel = views(list@);
    match acl {
        SessionACL::Owner => {},
        _ => {
            list.push("allow_other".to_owned());
            assert(views(list@) =~= kernel.push("allow_other"@));
        },
    }
    Ok((join(&list, ","), quiet))
}

/// The text of the options with which macFUSE is told to mount.
pub open spec fn mount_text(parameters: Seq<char>, quiet: bool) -> Seq<char> {
    (if parameters.len() > 0 {
        parameters + ","@
    } else {
        parameters
    }) + "backend=fskit"@ + (if quiet {
        ",quiet"@
    } else {
        ""@
    })
}

/// The text of the options with which macFUSE is told to mount. It can hold no NUL, as it goes to C.
pub fn mount_options_text(options: &[MountOption], acl: SessionACL) -> (r: std::result::Result<
    String,
    FuseError,
>)
    ensures
        match parameters_of(options@, acl) {
            Err(e) => r is Err && r->Err_0@ == e,
            Ok((parameters, quiet)) => if mount_text(parameters, quiet).contains('\0') {
                r is Err && r->Err_0@ == fault(
                    ErrorKind::InvalidInput,
                    "mount options contain an interior NUL byte"@,
                )
            } else {
                r is Ok && r->Ok_0@ == mount_text(parameters, quiet)
            },
        },
{
    let (parameters, quiet) = match mount_parameters(options, acl) {
        Ok(p) => p,
        Err(e) => return Err(e),
    };
    let start = if parameters.as_str().is_empty() {
        parameters
    } else {
        parameters.concat(",")
    };
    let end: &str = if quiet {
        ",quiet"
    } else {
        ""
    };
    let text = start.concat("backend=fskit").concat(end);
    if contains_char(&text, '\0') {
        Err(fuse_error(ErrorKind::InvalidInput, "mount options contain an interior NUL byte"))
    } else {
        Ok(text)
    }
}

// ---------------------------------------------------------------------------
// Results
// ---------------------------------------------------------------------------
pub const MF_MOUNT_SUCCESS: i32 = 0;

pub const MF_MOUNT_UNSUPPORTED_OS_VERSION: i32 = 1;

pub const MF_MOUNT_HELPER_TOOLS_INSTALLATION_FAILED: i32 = 2;

pub const MF_MOUNT_FILE_SYSTEM_EXTENSION_NOT_FOUND: i32 = 3;

pub const MF_MOUNT_FILE_SYSTEM_EXTENSION_REQUIRES_APPROVAL: i32 = 4;

pub const MF_MOUNT_UNEXPECTED_FAILURE: i32 = -1;

/// Why a mount failed.
#[derive(Clone, Copy, Debug)]
pub struct MountFailure {
    pub result: i32,
    pub errno: Option<i32>,
    pub kind: ErrorKind,
    pub message: &'static str,
}

/// The kind of error and the message for a result.
pub open spec fn result_meaning(result: i32) -> (ErrorKind, Seq<char>) {
    if result == MF_MOUNT_UNSUPPORTED_OS_VERSION {
        (ErrorKind::Unsupported, "MFMount does not support this macOS version"@)
    } else if result == MF_MOUNT_HELPER_TOOLS_INSTALLATION_FAILED {
        (ErrorKind::Other, "MFMount could not install its required helper tools"@)
    } else if result == MF_MOUNT_FILE_SYSTEM_EXTENSION_NOT_FOUND {
        (ErrorKind::NotFound, "MFMount could not find the macFUSE file system extension"@)
    } else if result == MF_MOUNT_FILE_SYSTEM_EXTENSION_REQUIRES_APPROVAL {
        (
            ErrorKind::PermissionDenied,
            "the macFUSE file system extension requires approval in System Settings"@,
        )
    } else if result == MF_MOUNT_UNEXPECTED_FAILURE {
        (ErrorKind::LastSystem, "MFMount reported an unexpected failure"@)
    } else {
        (ErrorKind::InvalidData, "MFMount returned an unknown result code"@)
    }
}

/// The text of a failure.
pub open spec fn failure_text(message: Seq<char>, result: i32, errno: Option<i32>) -> Seq<char> {
    message + " (MFMount result "@ + signed_decimal(result as int) + (match errno {
        Some(n) => ", errno "@ + signed_decimal(n as int),
        None => ""@,
    }) + ")"@
}

impl MountFailure {
    /// Why a mount failed; none where it did not. An unexpected failure comes with the error number
    /// that the system left.
    pub fn from_result(result: i32, last_errno: Option<i32>) -> (failure: Option<MountFailure>)
        ensures
            match failure {
                Some(f) => {
                    &&& result != MF_MOUNT_SUCCESS
                    &&& f.result == result
                    &&& f.kind == result_meaning(result).0
                    &&& f.message@ == result_meaning(result).1
                    &&& f.errno == (if result == MF_MOUNT_UNEXPECTED_FAILURE {
                        last_errno
                    } else {
                        None
                    })
                },
                None => result == MF_MOUNT_SUCCESS,
            },
    {
        if result == MF_MOUNT_SUCCESS {
            return None;
        }
        let (kind, message): (ErrorKind, &'static str) = if result
            == MF_MOUNT_UNSUPPORTED_OS_VERSION {
            (ErrorKind::Unsupported, "MFMount does not support this macOS version")
        } else if result == MF_MOUNT_HELPER_TOOLS_INSTALLATION_FAILED {
            (ErrorKind::Other, "MFMount could not install its required helper tools")
        } else if result == MF_MOUNT_FILE_SYSTEM_EXTENSION_NOT_FOUND {
            (ErrorKind::NotFound, "MFMount could not find the macFUSE file system extension")
        } else if result == MF_MOUNT_FILE_SYSTEM_EXTENSION_REQUIRES_APPROVAL {
            (
                ErrorKind::PermissionDenied,
                "the macFUSE file system extension requires approval in System Settings",
            )
        } else if result == MF_MOUNT_UNEXPECTED_FAILURE {
            (ErrorKind::LastSystem, "MFMount reported an unexpected failure")
        } else {
            (ErrorKind::InvalidData, "MFMount returned an unknown result code")
        };
        let errno: Option<i32> = if result == MF_MOUNT_UNEXPECTED_FAILURE {
            last_errno
        } else {
            None
        };
        Some(MountFailure { result, errno, kind, message })
    }

    /// The failure as an error.
    pub fn io_error(&self) -> (e: FuseError)
        ensures
            e@ == fault(self.kind, failure_text(self.message@, self.result, self.errno)),
    {
        let result = to_signed_decimal(self.result as i64);
        let errno = match self.errno {
            Some(n) => {
                let n = to_signed_decimal(n as i64);
                ", errno ".to_owned().concat(&n)
            },
            None => "".to_owned(),
        };
        FuseError::Message {
            kind: self.kind,
            message: self.message.to_owned().concat(" (MFMount result ").concat(&result).concat(
                &errno,
            ).concat(")"),
        }
    }

    /// The error number with which a channel whose mount failed ends.
    pub fn terminal_errno(&self) -> (errno: Errno)
        ensures
            errno == (if self.result == MF_MOUNT_UNSUPPORTED_OS_VERSION {
                Errno::ENOTSUP
            } else if self.result == MF_MOUNT_FILE_SYSTEM_EXTENSION_REQUIRES_APPROVAL {
                Errno::EACCES
            } else {
                Errno::EIO
            }),
    {
        if self.result == MF_MOUNT_UNSUPPORTED_OS_VERSION {
            Errno::ENOTSUP
        } else if self.result == MF_MOUNT_FILE_SYSTEM_EXTENSION_REQUIRES_APPROVAL {
            Errno::EACCES
        } else {
            Errno::EIO
        }
    }
}

/// What the result of a mount means.
pub fn mount_result(result: i32, last_errno: Option<i32>) -> (r: std::result::Result<(), FuseError>)
    ensures
        match r {
            Ok(_) => result == MF_MOUNT_SUCCESS,
            Err(e) => result != MF_MOUNT_SUCCESS && e@ == fault(
                result_meaning(result).0,
                failure_text(
                    result_meaning(result).1,
                    result,
                    if result == MF_MOUNT_UNEXPECTED_FAILURE {
                        last_errno
                    } else {
                        None
                    },
                ),
            ),
        },
{
    match MountFailure::from_result(result, last_errno) {
        Some(failure) => Err(failure.io_error()),
        None => Ok(()),
    }
}

/// The error number of an I/O error.
pub const EIO: i32 = 5;

/// The error number for a mount whose channel could not be had: the one that the status tells, where
/// it tells one. None where the channel could be had.
pub fn channel_errno(status: i32, missing: bool) -> (errno: Option<i32>)
    ensures
        errno == (if status == 0 && !missing {
            None
        } else if status < 0 && status > i32::MIN {
            Some((-status) as i32)
        } else {
            Some(EIO)
        }),
{
    if status == 0 && !missing {
        None
    } else if status < 0 && status > i32::MIN {
        Some(-status)
    } else {
        Some(EIO)
    }
}

// ---------------------------------------------------------------------------
// Version
// ---------------------------------------------------------------------------
/// The version of macFUSE that must be installed.
pub const MACFUSE_VERSION: &'static str = "5.3.3";

/// The file that tells which version of macFUSE is installed.
pub const MACFUSE_VERSION_PLIST: &'static str =
    "/Library/Filesystems/macfuse.fs/Contents/version.plist";

/// The string under a key of a property list.
pub open spec fn plist_value(plist: Seq<char>, key: Seq<char>) -> Option<Seq<char>> {
    match split_at_first(plist, "<key>"@ + key + "</key>"@) {
        None => None,
        Some((_, after_key)) => match split_at_first(after_key, "<string>"@) {
            None => None,
            Some((_, after_tag)) => match split_at_first(after_tag, "</string>"@) {
                None => None,
                Some((value, _)) => Some(trimmed(value)),
            },
        },
    }
}

/// The string under a key of a property list.
pub fn plist_string(plist: &str, key: &str) -> (value: Option<String>)
    ensures
        crate::vm::opt_view(value) == plist_value(plist@, key@),
{
    let tag = "<key>".to_owned().concat(key).concat("</key>");
    let after_key = match split_once(plist, &tag) {
        Some((_, rest)) => rest,
        None => return None,
    };
    let after_tag = match split_once(&after_key, "<string>") {
        Some((_, rest)) => rest,
        None => return None,
    };
    match split_once(&after_tag, "</string>") {
        Some((value, _)) => Some(trim(&value)),
        None => None,
    }
}

/// The error of an installed version, as its property list tells it.
pub open spec fn version_error(plist: Seq<char>, path: Seq<char>) -> Option<FuseErrorView> {
    match plist_value(plist, "CFBundleShortVersionString"@) {
        None => Some(
            fault(ErrorKind::InvalidData, path + " has no CFBundleShortVersionString"@),
        ),
        Some(version) => if version != MACFUSE_VERSION@ {
            Some(
                fault(
                    ErrorKind::Unsupported,
                    "macFUSE "@ + MACFUSE_VERSION@ + " is required, found "@ + version + " in "@
                        + path,
                ),
            )
        } else {
            None
        },
    }
}

/// Checks the installed version of macFUSE, given its property list and where that was read.
pub fn preflight_macfuse_version(plist: &str, path: &str) -> (r: std::result::Result<(), FuseError>)
    ensures
        match r {
            Ok(_) => version_error(plist@, path@) is None,
            Err(e) => version_error(plist@, path@) == Some(e@),
        },
{
    let version = match plist_string(plist, "CFBundleShortVersionString") {
        Some(version) => version,
        None => return Err(
            FuseError::Message {
                kind: ErrorKind::InvalidData,
                message: path.to_owned().concat(" has no CFBundleShortVersionString"),
            },
        ),
    };
    if same(&version, MACFUSE_VERSION) {
        Ok(())
    } else {
        Err(
            FuseError::Message {
                kind: ErrorKind::Unsupported,
                message: "macFUSE ".to_owned().concat(MACFUSE_VERSION).concat(
                    " is required, found ",
                ).concat(&version).concat(" in ").concat(path),
            },
        )
    }
}

// ---------------------------------------------------------------------------
// Unmounting
// ---------------------------------------------------------------------------
/// How often it is looked whether an unmount has finished. A pause follows every look that finds
/// it unfinished.
pub const UNMOUNT_TRIES: u32 = 100;

/// How long a pause is, in milliseconds.
pub const UNMOUNT_PAUSE_MS: u64 = 100;

/// The wait for an unmount to finish.
#[derive(Debug)]
pub struct UnmountWait {
    tries: u32,
}

impl UnmountWait {
    /// How often it has been looked.
    pub closed spec fn tries(&self) -> u32 {
        self.tries
    }

    /// No look yet.
    pub fn new() -> (wait: UnmountWait)
        ensures
            wait.tries() == 0,
    {
        UnmountWait { tries: 0 }
    }

    /// Whether a look finds the unmount finished: it is where the channel says that it is not mounted
    /// or the mount point is known to be free.
    pub fn looked(&mut self, not_mounted: bool, active: Option<bool>) -> (finished: bool)
        requires
            old(self).tries() < UNMOUNT_TRIES,
        ensures
            final(self).tries() == old(self).tries() + 1,
            finished == (not_mounted || active == Some(false)),
    {
        self.tries = self.tries + 1;
        let known_free: bool = match active {
            Some(active) => !active,
            None => false,
        };
        not_mounted || known_free
    }

    /// What follows a pause: another look, or the error where it has been looked often enough.
    pub fn paused(&self) -> (r: Result<(), FuseError>)
        ensures
            match r {
                Ok(_) => self.tries() < UNMOUNT_TRIES,
                Err(e) => self.tries() >= UNMOUNT_TRIES && e@ == fault(
                    ErrorKind::TimedOut,
                    "macFUSE did not finish unmounting within 10 seconds"@,
                ),
            },
    {
        if self.tries < UNMOUNT_TRIES {
            Ok(())
        } else {
            Err(
                fuse_error(
                    ErrorKind::TimedOut,
                    "macFUSE did not finish unmounting within 10 seconds",
                ),
            )
        }
    }
}

/// Whether the mount point is known to be free before an unmount: then neither is it unmounted by its
/// path nor is the end waited for.
pub fn path_detached(active: Option<bool>) -> (detached: bool)
    ensures
        detached == (active == Some(false)),
{
    match active {
        Some(active) => !active,
        None => false,
    }
}

// ---------------------------------------------------------------------------
// How a mount is asked for, and what its failures say
// ---------------------------------------------------------------------------
/// Each option is written as the system knows it.
pub proof fn law_options_are_written_by_their_names(name: String)
    ensures
        option_text(MountOption::FSName(name)) == "fsname="@ + name@,
        option_text(MountOption::Subtype(name)) == "subtype="@ + name@,
        option_text(MountOption::CUSTOM(name)) == name@,
        option_text(MountOption::AutoUnmount) == "auto_unmount"@,
        option_text(MountOption::DefaultPermissions) == "default_permissions"@,
        option_text(MountOption::Dev) == "dev"@ && option_text(MountOption::NoDev) == "nodev"@,
        option_text(MountOption::Suid) == "suid"@ && option_text(MountOption::NoSuid) == "nosuid"@,
        option_text(MountOption::RO) == "ro"@ && option_text(MountOption::RW) == "rw"@,
        option_text(MountOption::Exec) == "exec"@ && option_text(MountOption::NoExec) == "noexec"@,
        option_text(MountOption::Atime) == "atime"@ && option_text(MountOption::NoAtime)
            == "noatime"@,
        option_text(MountOption::DirSync) == "dirsync"@,
        option_text(MountOption::Sync) == "sync"@ && option_text(MountOption::Async) == "async"@,
{
}

/// Other users may reach a mount where it is for all or for root too, and only there.
pub proof fn law_others_reach_shared_mounts(acl: SessionACL)
    ensures
        acl is Owner ==> acl_option(acl) is None,
        acl is All || acl is RootAndOwner ==> acl_option(acl) == Some("allow_other"@),
{
}

/// An option with a comma is refused, for it would be read as two; so are one that unmounts by itself and
/// another backend. The backend that is used anyway and a subtype say nothing, and `quiet` keeps the
/// mount quiet. Every other option goes to the kernel as it is written.
pub proof fn law_options_are_used_by_what_they_ask(option: MountOption)
    ensures
        option is AutoUnmount ==> option_use(option) is Refused,
        option is Subtype ==> option_use(option) is Nothing,
        option matches MountOption::CUSTOM(v) ==> {
            &&& v@ == "quiet"@ ==> option_use(option) is Quiet
            &&& v@ == "backend=fskit"@ ==> option_use(option) is Nothing
            &&& v@ != "backend=fskit"@ && "backend="@.is_prefix_of(v@) ==> option_use(option)
                is Refused
            &&& v@ != "quiet"@ && !"backend="@.is_prefix_of(v@) && v@.contains(',') ==> option_use(
                option,
            ) is Refused
            &&& v@ != "quiet"@ && !"backend="@.is_prefix_of(v@) && !v@.contains(',') ==> option_use(
                option,
            ) == OptionUse::Kernel(v@)
        },
        option matches MountOption::FSName(v) ==> {
            &&& ("fsname="@ + v@).contains(',') ==> option_use(option) is Refused
            &&& !("fsname="@ + v@).contains(',') ==> option_use(option) == OptionUse::Kernel(
                "fsname="@ + v@,
            )
        },
        option is RO ==> option_use(option) == OptionUse::Kernel("ro"@),
        option is RW ==> option_use(option) == OptionUse::Kernel("rw"@),
        option is NoExec ==> option_use(option) == OptionUse::Kernel("noexec"@),
        option is DefaultPermissions ==> option_use(option) == OptionUse::Kernel(
            "default_permissions"@,
        ),
{
    reveal_strlit("quiet");
    reveal_strlit("backend=fskit");
    reveal_strlit("backend=");
    reveal_strlit("ro");
    reveal_strlit("rw");
    reveal_strlit("noexec");
    reveal_strlit("default_permissions");
    assert("quiet"@[0] == 'q' && "backend="@[0] == 'b');
    assert("quiet"@.len() == 5 && "backend=fskit"@.len() == 13);
    assert(!"backend="@.is_prefix_of("quiet"@)) by {
        if "backend="@.is_prefix_of("quiet"@) {
            assert("quiet"@[0] == "backend="@[0]);
        }
    }
    assert("backend="@ =~= "backend=fskit"@.take(8));
    assert("backend="@.is_prefix_of("backend=fskit"@));
    assert(!"ro"@.contains(','));
    assert(!"rw"@.contains(','));
    assert(!"noexec"@.contains(','));
    assert(!"default_permissions"@.contains(','));
}

/// Options go to the kernel in their order; the first that is refused refuses them all.
pub proof fn law_options_keep_their_order(options: Seq<MountOption>, option: MountOption)
    ensures
        kernel_options(Seq::<MountOption>::empty()) == std::result::Result::<
            (Seq<Seq<char>>, bool),
            FuseErrorView,
        >::Ok((Seq::empty(), false)),
        kernel_options(options) matches Err(e) ==> kernel_options(options.push(option))
            == std::result::Result::<(Seq<Seq<char>>, bool), FuseErrorView>::Err(e),
        kernel_options(options) matches Ok((list, quiet)) ==> {
            let next = kernel_options(options.push(option));
            match option_use(option) {
                OptionUse::Kernel(text) => next matches Ok((l, q)) && l == list.push(text) && q
                    == quiet,
                OptionUse::Quiet => next matches Ok((l, q)) && l == list && q,
                OptionUse::Nothing => next matches Ok((l, q)) && l == list && q == quiet,
                OptionUse::Refused(e) => next matches Err(x) && x == e,
            }
        },
{
    assert(options.push(option).drop_last() =~= options);
}

/// The parameters of a mount are its options with a comma between each two, the one for other users last;
/// the text of a mount adds the backend, and `quiet` where it was asked for.
pub proof fn law_mount_is_asked_for(
    options: Seq<MountOption>,
    acl: SessionACL,
    parameters: Seq<char>,
)
    ensures
        kernel_options(options) matches Err(e) ==> (parameters_of(options, acl) matches Err(x) && x
            == e),
        kernel_options(options) matches Ok((list, quiet)) ==> (parameters_of(options, acl) matches Ok(
            p,
        ) && p.1 == quiet && (acl is Owner ==> p.0 == joined(list, ","@)) && (!(acl is Owner)
            ==> p.0 == joined(list.push("allow_other"@), ","@))),
        parameters.len() > 0 ==> mount_text(parameters, true) == parameters + ","@
            + "backend=fskit"@ + ",quiet"@,
        parameters.len() > 0 ==> mount_text(parameters, false) == parameters + ","@
            + "backend=fskit"@,
        mount_text(Seq::empty(), false) == "backend=fskit"@,
        mount_text(Seq::empty(), true) == "backend=fskit"@ + ",quiet"@,
{
    reveal_strlit("");
    assert(""@ =~= Seq::<char>::empty());
    assert(parameters + ","@ + "backend=fskit"@ + ""@ =~= parameters + ","@ + "backend=fskit"@);
    assert(Seq::<char>::empty() + "backend=fskit"@ + ""@ =~= "backend=fskit"@);
    assert(Seq::<char>::empty() + "backend=fskit"@ + ",quiet"@ =~= "backend=fskit"@ + ",quiet"@);
}

/// What a mount answered has a meaning of its own for each number, and one for every other.
pub proof fn law_results_of_mount(result: i32)
    ensures
        result == 1 ==> result_meaning(result).0 is Unsupported,
        result == 2 ==> result_meaning(result).0 is Other,
        result == 3 ==> result_meaning(result).0 is NotFound,
        result == 4 ==> result_meaning(result).0 is PermissionDenied,
        result == -1 ==> result_meaning(result).0 is LastSystem,
        result != -1 && !(1 <= result <= 4) ==> result_meaning(result).0 is InvalidData,
{
}

/// The text of a failure holds its message, the number that the mount answered, and the system's own where
/// there is one.
pub proof fn law_failure_tells_its_numbers(message: Seq<char>, result: i32, n: i32)
    ensures
        failure_text(message, result, Some(n)) == message + " (MFMount result "@ + signed_decimal(
            result as int,
        ) + (", errno "@ + signed_decimal(n as int)) + ")"@,
        failure_text(message, result, None) == message + " (MFMount result "@ + signed_decimal(
            result as int,
        ) + ""@ + ")"@,
{
}

/// The value of a key in a property list is the text between the first pair of string tags behind the key.
pub proof fn law_value_stands_behind_its_key(plist: Seq<char>, key: Seq<char>)
    ensures
        plist_value(plist, key) matches Some(value) ==> exists|
            a: Seq<char>,
            b: Seq<char>,
            v: Seq<char>,
            c: Seq<char>,
        |
            #![trigger a + b + v + c]
            plist == a + ("<key>"@ + key + "</key>"@) + (b + "<string>"@ + (v + "</string>"@ + c))
                && value == trimmed(v) && !crate::text::occurs(v, "</string>"@),
        !crate::text::occurs(plist, "<key>"@ + key + "</key>"@) ==> plist_value(plist, key) is None,
{
    let tag = "<key>"@ + key + "</key>"@;
    crate::text::law_split_is_at_first(plist, tag);
    if let Some((a, after_key)) = split_at_first(plist, tag) {
        crate::text::law_split_is_at_first(after_key, "<string>"@);
        if !crate::text::occurs(plist, tag) {
            assert(plist.subrange(a.len() as int, (a.len() + tag.len()) as int) =~= tag);
            assert(crate::text::occurs_at(plist, tag, a.len() as int));
        }
        if let Some((b, after_tag)) = split_at_first(after_key, "<string>"@) {
            crate::text::law_split_is_at_first(after_tag, "</string>"@);
            if let Some((v, c)) = split_at_first(after_tag, "</string>"@) {
                let end = "</string>"@;
                if crate::text::occurs(v, end) {
                    let at = choose|at: int| #[trigger] crate::text::occurs_at(v, end, at);
                    reveal_strlit("</string>");
                    assert(after_tag.subrange(at, at + end.len()) =~= v.subrange(
                        at,
                        at + end.len(),
                    ));
                    assert(crate::text::occurs_at(after_tag, end, at));
                }
                assert((a + b + v + c).len() >= 0);
            }
        }
    }
}

/// The one version that is known to work is 5.3.3; another, or none, is refused.
pub proof fn law_version_must_be_the_known_one(plist: Seq<char>, path: Seq<char>)
    ensures
        version_error(plist, path) is None <==> plist_value(plist, "CFBundleShortVersionString"@)
            == Some("5.3.3"@),
        plist_value(plist, "CFBundleShortVersionString"@) is None ==> (version_error(
            plist,
            path,
        ) matches Some(FuseErrorView::Message { kind, .. }) && kind is InvalidData),
        plist_value(plist, "CFBundleShortVersionString"@) is Some && plist_value(
            plist,
            "CFBundleShortVersionString"@,
        )->Some_0 != "5.3.3"@ ==> (version_error(plist, path) matches Some(
            FuseErrorView::Message { kind, .. },
        ) && kind is Unsupported),
{
}

/// Parameters are seen as what they are.
pub proof fn law_parameters_are_seen_as_they_are(text: String, quiet: bool, e: FuseError)
    ensures
        parameters_outcome(Ok((text, quiet))) == std::result::Result::<
            (Seq<char>, bool),
            FuseErrorView,
        >::Ok((text@, quiet)),
        parameters_outcome(Err(e)) == std::result::Result::<(Seq<char>, bool), FuseErrorView>::Err(
            e@,
        ),
{
}

/// What is refused, and what failed, is told in words.
pub proof fn law_refused_mounts_tell_why(option: MountOption, result: i32, path: Seq<char>)
    ensures
        option is AutoUnmount ==> option_use(option) == OptionUse::Refused(
            FuseErrorView::Message {
                kind: ErrorKind::Unsupported,
                message: "AutoUnmount is not supported by the direct MFMount transport"@,
            },
        ),
        option is FSName && option_use(option) is Refused ==> option_use(option)
            == OptionUse::Refused(
            FuseErrorView::Message {
                kind: ErrorKind::InvalidInput,
                message: "MFMount option contains an ambiguous comma: "@ + option_text(option),
            },
        ),
        option matches MountOption::CUSTOM(v) ==> (v@ != "backend=fskit"@ && v@ != "quiet"@
            && "backend="@.is_prefix_of(v@) ==> option_use(option) == OptionUse::Refused(
            FuseErrorView::Message {
                kind: ErrorKind::InvalidInput,
                message: v@ + " conflicts with the direct MFMount FSKit transport"@,
            },
        )),
        result == 1 ==> result_meaning(result).1 == "MFMount does not support this macOS version"@,
        result == 2 ==> result_meaning(result).1
            == "MFMount could not install its required helper tools"@,
        result == 3 ==> result_meaning(result).1
            == "MFMount could not find the macFUSE file system extension"@,
        result == 4 ==> result_meaning(result).1
            == "the macFUSE file system extension requires approval in System Settings"@,
        result == -1 ==> result_meaning(result).1 == "MFMount reported an unexpected failure"@,
        result != -1 && !(1 <= result <= 4) ==> result_meaning(result).1
            == "MFMount returned an unknown result code"@,
{
}

/// Where the version stands, how often it is tried to unmount, and for how long in between.
pub proof fn law_unmounting_takes_ten_seconds_at_most()
    ensures
        UNMOUNT_TRIES * UNMOUNT_PAUSE_MS == 10 * 1000,
        UNMOUNT_PAUSE_MS == 100,
        MACFUSE_VERSION@ == "5.3.3"@,
        MACFUSE_VERSION_PLIST@ == "/Library/Filesystems/macfuse.fs/Contents/version.plist"@,
        MF_MOUNT_SUCCESS == 0 && EIO == 5,
{
}

/// A version that is missing, or another one, is told with the place where it was looked for.
pub proof fn law_wrong_version_is_told(plist: Seq<char>, path: Seq<char>)
    ensures
        plist_value(plist, "CFBundleShortVersionString"@) is None ==> version_error(plist, path)
            == Some(
            FuseErrorView::Message {
                kind: ErrorKind::InvalidData,
                message: path + " has no CFBundleShortVersionString"@,
            },
        ),
        plist_value(plist, "CFBundleShortVersionString"@) is Some && version_error(plist, path)
            is Some ==> version_error(plist, path) == Some(
            FuseErrorView::Message {
                kind: ErrorKind::Unsupported,
                message: "macFUSE "@ + "5.3.3"@ + " is required, found "@ + plist_value(
                    plist,
                    "CFBundleShortVersionString"@,
                )->Some_0 + " in "@ + path,
            },
        ),
{
}

} // verus!
