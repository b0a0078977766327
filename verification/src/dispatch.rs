//! Which methods a plugin answers, and the stages in which it does.

use crate::driver::Capability;
use crate::limits::{is_reserved, moves_bytes};
use crate::methods as m;
use crate::text::same_text;
use vstd::prelude::*;

verus! {

/// The methods a plugin answers. `shutdown` is not among them: it ends the
/// serving instead.
#[derive(Clone, Copy, Debug, PartialEq, Eq, Structural)]
pub enum Method {
    Initialize,
    SandboxCreate,
    SandboxAttach,
    SandboxList,
    SandboxDescribe,
    SandboxPlatformInfo,
    SandboxStart,
    SandboxStop,
    SandboxDelete,
    SandboxPause,
    SandboxResume,
    SandboxArchive,
    SandboxRecover,
    SandboxUndelete,
    SandboxRefreshActivity,
    SandboxFork,
    SandboxResize,
    SandboxSnapshot,
    SandboxSetTimers,
    SandboxSetLabels,
    SandboxUpdateNetwork,
    SandboxEnvironment,
    ExecStream,
    ExecStop,
    ExecStdioOpen,
    ExecStdioTerminate,
    ExecStdioWait,
    OneShotRun,
    PtyOpen,
    PtyResize,
    PtyClose,
    LogsFollow,
    StreamCancel,
    FsRead,
    FsWrite,
    FsDelete,
    FsExists,
    FsMetadata,
    FsListDir,
    FsCreateDir,
    FsRename,
    FsSetPermissions,
    GitClone,
    SnapshotCreate,
    SnapshotGet,
    SnapshotList,
    SnapshotDelete,
    SnapshotActivate,
    SnapshotDeactivate,
    SnapshotBuildLogs,
    TransportDiagnostics,
    ProviderHealth,
    VolumeCreate,
    VolumeGet,
    VolumeList,
    VolumeDelete,
    AccessPreviewUrl,
    AccessSignedPreviewUrl,
    AccessPreviewRelease,
    AccessSshCreate,
    AccessSshRevoke,
    AccessWebTerminal,
    AccessVnc,
}

/// The name of a method on the wire.
pub open spec fn method_name(method: Method) -> Seq<char> {
    match method {
        Method::Initialize => m::INITIALIZE@,
        Method::SandboxCreate => m::SANDBOX_CREATE@,
        Method::SandboxAttach => m::SANDBOX_ATTACH@,
        Method::SandboxList => m::SANDBOX_LIST@,
        Method::SandboxDescribe => m::SANDBOX_DESCRIBE@,
        Method::SandboxPlatformInfo => m::SANDBOX_PLATFORM_INFO@,
        Method::SandboxStart => m::SANDBOX_START@,
        Method::SandboxStop => m::SANDBOX_STOP@,
        Method::SandboxDelete => m::SANDBOX_DELETE@,
        Method::SandboxPause => m::SANDBOX_PAUSE@,
        Method::SandboxResume => m::SANDBOX_RESUME@,
        Method::SandboxArchive => m::SANDBOX_ARCHIVE@,
        Method::SandboxRecover => m::SANDBOX_RECOVER@,
        Method::SandboxUndelete => m::SANDBOX_UNDELETE@,
        Method::SandboxRefreshActivity => m::SANDBOX_REFRESH_ACTIVITY@,
        Method::SandboxFork => m::SANDBOX_FORK@,
        Method::SandboxResize => m::SANDBOX_RESIZE@,
        Method::SandboxSnapshot => m::SANDBOX_SNAPSHOT@,
        Method::SandboxSetTimers => m::SANDBOX_SET_TIMERS@,
        Method::SandboxSetLabels => m::SANDBOX_SET_LABELS@,
        Method::SandboxUpdateNetwork => m::SANDBOX_UPDATE_NETWORK@,
        Method::SandboxEnvironment => m::SANDBOX_ENVIRONMENT@,
        Method::ExecStream => m::EXEC_STREAM@,
        Method::ExecStop => m::EXEC_STOP@,
        Method::ExecStdioOpen => m::EXEC_STDIO_OPEN@,
        Method::ExecStdioTerminate => m::EXEC_STDIO_TERMINATE@,
        Method::ExecStdioWait => m::EXEC_STDIO_WAIT@,
        Method::OneShotRun => m::ONE_SHOT_RUN@,
        Method::PtyOpen => m::PTY_OPEN@,
        Method::PtyResize => m::PTY_RESIZE@,
        Method::PtyClose => m::PTY_CLOSE@,
        Method::LogsFollow => m::LOGS_FOLLOW@,
        Method::StreamCancel => m::STREAM_CANCEL@,
        Method::FsRead => m::FS_READ@,
        Method::FsWrite => m::FS_WRITE@,
        Method::FsDelete => m::FS_DELETE@,
        Method::FsExists => m::FS_EXISTS@,
        Method::FsMetadata => m::FS_METADATA@,
        Method::FsListDir => m::FS_LIST_DIR@,
        Method::FsCreateDir => m::FS_CREATE_DIR@,
        Method::FsRename => m::FS_RENAME@,
        Method::FsSetPermissions => m::FS_SET_PERMISSIONS@,
        Method::GitClone => m::GIT_CLONE@,
        Method::SnapshotCreate => m::SNAPSHOT_CREATE@,
        Method::SnapshotGet => m::SNAPSHOT_GET@,
        Method::SnapshotList => m::SNAPSHOT_LIST@,
        Method::SnapshotDelete => m::SNAPSHOT_DELETE@,
        Method::SnapshotActivate => m::SNAPSHOT_ACTIVATE@,
        Method::SnapshotDeactivate => m::SNAPSHOT_DEACTIVATE@,
        Method::SnapshotBuildLogs => m::SNAPSHOT_BUILD_LOGS@,
        Method::TransportDiagnostics => m::TRANSPORT_DIAGNOSTICS@,
        Method::ProviderHealth => m::PROVIDER_HEALTH@,
        Method::VolumeCreate => m::VOLUME_CREATE@,
        Method::VolumeGet => m::VOLUME_GET@,
        Method::VolumeList => m::VOLUME_LIST@,
        Method::VolumeDelete => m::VOLUME_DELETE@,
        Method::AccessPreviewUrl => m::ACCESS_PREVIEW_URL@,
        Method::AccessSignedPreviewUrl => m::ACCESS_SIGNED_PREVIEW_URL@,
        Method::AccessPreviewRelease => m::ACCESS_PREVIEW_RELEASE@,
        Method::AccessSshCreate => m::ACCESS_SSH_CREATE@,
        Method::AccessSshRevoke => m::ACCESS_SSH_REVOKE@,
        Method::AccessWebTerminal => m::ACCESS_WEB_TERMINAL@,
        Method::AccessVnc => m::ACCESS_VNC@,
    }
}

impl Method {
    /// The name of the method on the wire.
    pub fn name(self) -> (name: &'static str)
        ensures
            name@ == method_name(self),
    {
        match self {
            Method::Initialize => m::INITIALIZE,
            Method::SandboxCreate => m::SANDBOX_CREATE,
            Method::SandboxAttach => m::SANDBOX_ATTACH,
            Method::SandboxList => m::SANDBOX_LIST,
            Method::SandboxDescribe => m::SANDBOX_DESCRIBE,
            Method::SandboxPlatformInfo => m::SANDBOX_PLATFORM_INFO,
            Method::SandboxStart => m::SANDBOX_START,
            Method::SandboxStop => m::SANDBOX_STOP,
            Method::SandboxDelete => m::SANDBOX_DELETE,
            Method::SandboxPause => m::SANDBOX_PAUSE,
            Method::SandboxResume => m::SANDBOX_RESUME,
            Method::SandboxArchive => m::SANDBOX_ARCHIVE,
            Method::SandboxRecover => m::SANDBOX_RECOVER,
            Method::SandboxUndelete => m::SANDBOX_UNDELETE,
            Method::SandboxRefreshActivity => m::SANDBOX_REFRESH_ACTIVITY,
            Method::SandboxFork => m::SANDBOX_FORK,
            Method::SandboxResize => m::SANDBOX_RESIZE,
            Method::SandboxSnapshot => m::SANDBOX_SNAPSHOT,
            Method::SandboxSetTimers => m::SANDBOX_SET_TIMERS,
            Method::SandboxSetLabels => m::SANDBOX_SET_LABELS,
            Method::SandboxUpdateNetwork => m::SANDBOX_UPDATE_NETWORK,
            Method::SandboxEnvironment => m::SANDBOX_ENVIRONMENT,
            Method::ExecStream => m::EXEC_STREAM,
            Method::ExecStop => m::EXEC_STOP,
            Method::ExecStdioOpen => m::EXEC_STDIO_OPEN,
            Method::ExecStdioTerminate => m::EXEC_STDIO_TERMINATE,
            Method::ExecStdioWait => m::EXEC_STDIO_WAIT,
            Method::OneShotRun => m::ONE_SHOT_RUN,
            Method::PtyOpen => m::PTY_OPEN,
            Method::PtyResize => m::PTY_RESIZE,
            Method::PtyClose => m::PTY_CLOSE,
            Method::LogsFollow => m::LOGS_FOLLOW,
            Method::StreamCancel => m::STREAM_CANCEL,
            Method::FsRead => m::FS_READ,
            Method::FsWrite => m::FS_WRITE,
            Method::FsDelete => m::FS_DELETE,
            Method::FsExists => m::FS_EXISTS,
            Method::FsMetadata => m::FS_METADATA,
            Method::FsListDir => m::FS_LIST_DIR,
            Method::FsCreateDir => m::FS_CREATE_DIR,
            Method::FsRename => m::FS_RENAME,
            Method::FsSetPermissions => m::FS_SET_PERMISSIONS,
            Method::GitClone => m::GIT_CLONE,
            Method::SnapshotCreate => m::SNAPSHOT_CREATE,
            Method::SnapshotGet => m::SNAPSHOT_GET,
            Method::SnapshotList => m::SNAPSHOT_LIST,
            Method::SnapshotDelete => m::SNAPSHOT_DELETE,
            Method::SnapshotActivate => m::SNAPSHOT_ACTIVATE,
            Method::SnapshotDeactivate => m::SNAPSHOT_DEACTIVATE,
            Method::SnapshotBuildLogs => m::SNAPSHOT_BUILD_LOGS,
            Method::TransportDiagnostics => m::TRANSPORT_DIAGNOSTICS,
            Method::ProviderHealth => m::PROVIDER_HEALTH,
            Method::VolumeCreate => m::VOLUME_CREATE,
            Method::VolumeGet => m::VOLUME_GET,
            Method::VolumeList => m::VOLUME_LIST,
            Method::VolumeDelete => m::VOLUME_DELETE,
            Method::AccessPreviewUrl => m::ACCESS_PREVIEW_URL,
            Method::AccessSignedPreviewUrl => m::ACCESS_SIGNED_PREVIEW_URL,
            Method::AccessPreviewRelease => m::ACCESS_PREVIEW_RELEASE,
            Method::AccessSshCreate => m::ACCESS_SSH_CREATE,
            Method::AccessSshRevoke => m::ACCESS_SSH_REVOKE,
            Method::AccessWebTerminal => m::ACCESS_WEB_TERMINAL,
            Method::AccessVnc => m::ACCESS_VNC,
        }
    }
}

/// The method of this name, if a plugin answers one.
pub fn route(name: &str) -> (method: Option<Method>)
    ensures
        match method {
            Some(method) => method_name(method) == name@,
            None => forall|method: Method| method_name(method) != name@,
        },
{
    if same_text(name, m::INITIALIZE) {
        Some(Method::Initialize)
    } else if same_text(name, m::SANDBOX_CREATE) {
        Some(Method::SandboxCreate)
    } else if same_text(name, m::SANDBOX_ATTACH) {
        Some(Method::SandboxAttach)
    } else if same_text(name, m::SANDBOX_LIST) {
        Some(Method::SandboxList)
    } else if same_text(name, m::SANDBOX_DESCRIBE) {
        Some(Method::SandboxDescribe)
    } else if same_text(name, m::SANDBOX_PLATFORM_INFO) {
        Some(Method::SandboxPlatformInfo)
    } else if same_text(name, m::SANDBOX_START) {
        Some(Method::SandboxStart)
    } else if same_text(name, m::SANDBOX_STOP) {
        Some(Method::SandboxStop)
    } else if same_text(name, m::SANDBOX_DELETE) {
        Some(Method::SandboxDelete)
    } else if same_text(name, m::SANDBOX_PAUSE) {
        Some(Method::SandboxPause)
    } else if same_text(name, m::SANDBOX_RESUME) {
        Some(Method::SandboxResume)
    } else if same_text(name, m::SANDBOX_ARCHIVE) {
        Some(Method::SandboxArchive)
    } else if same_text(name, m::SANDBOX_RECOVER) {
        Some(Method::SandboxRecover)
    } else if same_text(name, m::SANDBOX_UNDELETE) {
        Some(Method::SandboxUndelete)
    } else if same_text(name, m::SANDBOX_REFRESH_ACTIVITY) {
        Some(Method::SandboxRefreshActivity)
    } else if same_text(name, m::SANDBOX_FORK) {
        Some(Method::SandboxFork)
    } else if same_text(name, m::SANDBOX_RESIZE) {
        Some(Method::SandboxResize)
    } else if same_text(name, m::SANDBOX_SNAPSHOT) {
        Some(Method::SandboxSnapshot)
    } else if same_text(name, m::SANDBOX_SET_TIMERS) {
        Some(Method::SandboxSetTimers)
    } else if same_text(name, m::SANDBOX_SET_LABELS) {
        Some(Method::SandboxSetLabels)
    } else if same_text(name, m::SANDBOX_UPDATE_NETWORK) {
        Some(Method::SandboxUpdateNetwork)
    } else if same_text(name, m::SANDBOX_ENVIRONMENT) {
        Some(Method::SandboxEnvironment)
    } else if same_text(name, m::EXEC_STREAM) {
        Some(Method::ExecStream)
    } else if same_text(name, m::EXEC_STOP) {
        Some(Method::ExecStop)
    } else if same_text(name, m::EXEC_STDIO_OPEN) {
        Some(Method::ExecStdioOpen)
    } else if same_text(name, m::EXEC_STDIO_TERMINATE) {
        Some(Method::ExecStdioTerminate)
    } else if same_text(name, m::EXEC_STDIO_WAIT) {
        Some(Method::ExecStdioWait)
    } else if same_text(name, m::ONE_SHOT_RUN) {
        Some(Method::OneShotRun)
    } else if same_text(name, m::PTY_OPEN) {
        Some(Method::PtyOpen)
    } else if same_text(name, m::PTY_RESIZE) {
        Some(Method::PtyResize)
    } else if same_text(name, m::PTY_CLOSE) {
        Some(Method::PtyClose)
    } else if same_text(name, m::LOGS_FOLLOW) {
        Some(Method::LogsFollow)
    } else if same_text(name, m::STREAM_CANCEL) {
        Some(Method::StreamCancel)
    } else if same_text(name, m::FS_READ) {
        Some(Method::FsRead)
    } else if same_text(name, m::FS_WRITE) {
        Some(Method::FsWrite)
    } else if same_text(name, m::FS_DELETE) {
        Some(Method::FsDelete)
    } else if same_text(name, m::FS_EXISTS) {
        Some(Method::FsExists)
    } else if same_text(name, m::FS_METADATA) {
        Some(Method::FsMetadata)
    } else if same_text(name, m::FS_LIST_DIR) {
        Some(Method::FsListDir)
    } else if same_text(name, m::FS_CREATE_DIR) {
        Some(Method::FsCreateDir)
    } else if same_text(name, m::FS_RENAME) {
        Some(Method::FsRename)
    } else if same_text(name, m::FS_SET_PERMISSIONS) {
        Some(Method::FsSetPermissions)
    } else if same_text(name, m::GIT_CLONE) {
        Some(Method::GitClone)
    } else if same_text(name, m::SNAPSHOT_CREATE) {
        Some(Method::SnapshotCreate)
    } else if same_text(name, m::SNAPSHOT_GET) {
        Some(Method::SnapshotGet)
    } else if same_text(name, m::SNAPSHOT_LIST) {
        Some(Method::SnapshotList)
    } else if same_text(name, m::SNAPSHOT_DELETE) {
        Some(Method::SnapshotDelete)
    } else if same_text(name, m::SNAPSHOT_ACTIVATE) {
        Some(Method::SnapshotActivate)
    } else if same_text(name, m::SNAPSHOT_DEACTIVATE) {
        Some(Method::SnapshotDeactivate)
    } else if same_text(name, m::SNAPSHOT_BUILD_LOGS) {
        Some(Method::SnapshotBuildLogs)
    } else if same_text(name, m::TRANSPORT_DIAGNOSTICS) {
        Some(Method::TransportDiagnostics)
    } else if same_text(name, m::PROVIDER_HEALTH) {
        Some(Method::ProviderHealth)
    } else if same_text(name, m::VOLUME_CREATE) {
        Some(Method::VolumeCreate)
    } else if same_text(name, m::VOLUME_GET) {
        Some(Method::VolumeGet)
    } else if same_text(name, m::VOLUME_LIST) {
        Some(Method::VolumeList)
    } else if same_text(name, m::VOLUME_DELETE) {
        Some(Method::VolumeDelete)
    } else if same_text(name, m::ACCESS_PREVIEW_URL) {
        Some(Method::AccessPreviewUrl)
    } else if same_text(name, m::ACCESS_SIGNED_PREVIEW_URL) {
        Some(Method::AccessSignedPreviewUrl)
    } else if same_text(name, m::ACCESS_PREVIEW_RELEASE) {
        Some(Method::AccessPreviewRelease)
    } else if same_text(name, m::ACCESS_SSH_CREATE) {
        Some(Method::AccessSshCreate)
    } else if same_text(name, m::ACCESS_SSH_REVOKE) {
        Some(Method::AccessSshRevoke)
    } else if same_text(name, m::ACCESS_WEB_TERMINAL) {
        Some(Method::AccessWebTerminal)
    } else if same_text(name, m::ACCESS_VNC) {
        Some(Method::AccessVnc)
    } else {
        None
    }
}

/// A number made of a name's length and two of its characters.
spec fn mark(name: Seq<char>) -> int {
    name.len() * 0x1_0000 + (name[name.len() - 6] as int) * 0x100 + name[name.len() - 2] as int
}

/// The mark of a method's name.
spec fn mark_of(method: Method) -> int {
    match method {
        Method::Initialize => 682362,
        Method::SandboxCreate => 942964,
        Method::SandboxAttach => 942435,
        Method::SandboxList => 817267,
        Method::SandboxDescribe => 1078114,
        Method::SandboxPlatformInfo => 1404262,
        Method::SandboxStart => 864114,
        Method::SandboxStop => 817263,
        Method::SandboxDelete => 943220,
        Method::SandboxPause => 864115,
        Method::SandboxResume => 946797,
        Method::SandboxArchive => 1012342,
        Method::SandboxRecover => 1008997,
        Method::SandboxUndelete => 1074292,
        Method::SandboxRefreshActivity => 1602676,
        Method::SandboxFork => 817266,
        Method::SandboxResize => 946810,
        Method::SandboxSnapshot => 1073519,
        Method::SandboxSetTimers => 1209458,
        Method::SandboxSetLabels => 1207404,
        Method::SandboxUpdateNetwork => 1467762,
        Method::SandboxEnvironment => 1273710,
        Method::ExecStream => 750433,
        Method::ExecStop => 615279,
        Method::ExecStdioOpen => 1011557,
        Method::ExecStdioTerminate => 1338740,
        Method::ExecStdioWait => 1011561,
        Method::OneShotRun => 814965,
        Method::PtyOpen => 555365,
        Method::PtyResize => 684666,
        Method::PtyClose => 601971,
        Method::LogsFollow => 747119,
        Method::StreamCancel => 877413,
        Method::FsRead => 488289,
        Method::FsWrite => 536436,
        Method::FsDelete => 615540,
        Method::FsExists => 615796,
        Method::FsMetadata => 750708,
        Method::FsListDir => 750441,
        Method::FsCreateDir => 881769,
        Method::FsRename => 619117,
        Method::FsSetPermissions => 1209198,
        Method::GitClone => 601966,
        Method::SnapshotCreate => 1008500,
        Method::SnapshotGet => 814949,
        Method::SnapshotList => 881779,
        Method::SnapshotDelete => 1008756,
        Method::SnapshotActivate => 1143924,
        Method::SnapshotDeactivate => 1274996,
        Method::SnapshotBuildLogs => 1270887,
        Method::TransportDiagnostics => 1404771,
        Method::ProviderHealth => 1009780,
        Method::VolumeCreate => 877428,
        Method::VolumeGet => 683365,
        Method::VolumeList => 746867,
        Method::VolumeDelete => 877684,
        Method::AccessPreviewUrl => 1205618,
        Method::AccessSignedPreviewUrl => 1664370,
        Method::AccessPreviewRelease => 1467763,
        Method::AccessSshCreate => 1139572,
        Method::AccessSshRevoke => 1143403,
        Method::AccessWebTerminal => 1274465,
        Method::AccessVnc => 684910,
    }
}

proof fn lemma_mark(method: Method)
    ensures
        mark(method_name(method)) == mark_of(method),
{
    match method {
        Method::Initialize => {
            reveal_strlit("initialize");
            assert(m::INITIALIZE@.len() == 10);
        },
        Method::SandboxCreate => {
            reveal_strlit("sandbox/create");
            assert(m::SANDBOX_CREATE@.len() == 14);
        },
        Method::SandboxAttach => {
            reveal_strlit("sandbox/attach");
            assert(m::SANDBOX_ATTACH@.len() == 14);
        },
        Method::SandboxList => {
            reveal_strlit("sandbox/list");
            assert(m::SANDBOX_LIST@.len() == 12);
        },
        Method::SandboxDescribe => {
            reveal_strlit("sandbox/describe");
            assert(m::SANDBOX_DESCRIBE@.len() == 16);
        },
        Method::SandboxPlatformInfo => {
            reveal_strlit("sandbox/platform_info");
            assert(m::SANDBOX_PLATFORM_INFO@.len() == 21);
        },
        Method::SandboxStart => {
            reveal_strlit("sandbox/start");
            assert(m::SANDBOX_START@.len() == 13);
        },
        Method::SandboxStop => {
            reveal_strlit("sandbox/stop");
            assert(m::SANDBOX_STOP@.len() == 12);
        },
        Method::SandboxDelete => {
            reveal_strlit("sandbox/delete");
            assert(m::SANDBOX_DELETE@.len() == 14);
        },
        Method::SandboxPause => {
            reveal_strlit("sandbox/pause");
            assert(m::SANDBOX_PAUSE@.len() == 13);
        },
        Method::SandboxResume => {
            reveal_strlit("sandbox/resume");
            assert(m::SANDBOX_RESUME@.len() == 14);
        },
        Method::SandboxArchive => {
            reveal_strlit("sandbox/archive");
            assert(m::SANDBOX_ARCHIVE@.len() == 15);
        },
        Method::SandboxRecover => {
            reveal_strlit("sandbox/recover");
            assert(m::SANDBOX_RECOVER@.len() == 15);
        },
        Method::SandboxUndelete => {
            reveal_strlit("sandbox/undelete");
            assert(m::SANDBOX_UNDELETE@.len() == 16);
        },
        Method::SandboxRefreshActivity => {
            reveal_strlit("sandbox/refresh_activity");
            assert(m::SANDBOX_REFRESH_ACTIVITY@.len() == 24);
        },
        Method::SandboxFork => {
            reveal_strlit("sandbox/fork");
            assert(m::SANDBOX_FORK@.len() == 12);
        },
        Method::SandboxResize => {
            reveal_strlit("sandbox/resize");
            assert(m::SANDBOX_RESIZE@.len() == 14);
        },
        Method::SandboxSnapshot => {
            reveal_strlit("sandbox/snapshot");
            assert(m::SANDBOX_SNAPSHOT@.len() == 16);
        },
        Method::SandboxSetTimers => {
            reveal_strlit("sandbox/set_timers");
            assert(m::SANDBOX_SET_TIMERS@.len() == 18);
        },
        Method::SandboxSetLabels => {
            reveal_strlit("sandbox/set_labels");
            assert(m::SANDBOX_SET_LABELS@.len() == 18);
        },
        Method::SandboxUpdateNetwork => {
            reveal_strlit("sandbox/update_network");
            assert(m::SANDBOX_UPDATE_NETWORK@.len() == 22);
        },
        Method::SandboxEnvironment => {
            reveal_strlit("sandbox/environment");
            assert(m::SANDBOX_ENVIRONMENT@.len() == 19);
        },
        Method::ExecStream => {
            reveal_strlit("exec/stream");
            assert(m::EXEC_STREAM@.len() == 11);
        },
        Method::ExecStop => {
            reveal_strlit("exec/stop");
            assert(m::EXEC_STOP@.len() == 9);
        },
        Method::ExecStdioOpen => {
            reveal_strlit("exec/stdio_open");
            assert(m::EXEC_STDIO_OPEN@.len() == 15);
        },
        Method::ExecStdioTerminate => {
            reveal_strlit("exec/stdio_terminate");
            assert(m::EXEC_STDIO_TERMINATE@.len() == 20);
        },
        Method::ExecStdioWait => {
            reveal_strlit("exec/stdio_wait");
            assert(m::EXEC_STDIO_WAIT@.len() == 15);
        },
        Method::OneShotRun => {
            reveal_strlit("one_shot/run");
            assert(m::ONE_SHOT_RUN@.len() == 12);
        },
        Method::PtyOpen => {
            reveal_strlit("pty/open");
            assert(m::PTY_OPEN@.len() == 8);
        },
        Method::PtyResize => {
            reveal_strlit("pty/resize");
            assert(m::PTY_RESIZE@.len() == 10);
        },
        Method::PtyClose => {
            reveal_strlit("pty/close");
            assert(m::PTY_CLOSE@.len() == 9);
        },
        Method::LogsFollow => {
            reveal_strlit("logs/follow");
            assert(m::LOGS_FOLLOW@.len() == 11);
        },
        Method::StreamCancel => {
            reveal_strlit("stream/cancel");
            assert(m::STREAM_CANCEL@.len() == 13);
        },
        Method::FsRead => {
            reveal_strlit("fs/read");
            assert(m::FS_READ@.len() == 7);
        },
        Method::FsWrite => {
            reveal_strlit("fs/write");
            assert(m::FS_WRITE@.len() == 8);
        },
        Method::FsDelete => {
            reveal_strlit("fs/delete");
            assert(m::FS_DELETE@.len() == 9);
        },
        Method::FsExists => {
            reveal_strlit("fs/exists");
            assert(m::FS_EXISTS@.len() == 9);
        },
        Method::FsMetadata => {
            reveal_strlit("fs/metadata");
            assert(m::FS_METADATA@.len() == 11);
        },
        Method::FsListDir => {
            reveal_strlit("fs/list_dir");
            assert(m::FS_LIST_DIR@.len() == 11);
        },
        Method::FsCreateDir => {
            reveal_strlit("fs/create_dir");
            assert(m::FS_CREATE_DIR@.len() == 13);
        },
        Method::FsRename => {
            reveal_strlit("fs/rename");
            assert(m::FS_RENAME@.len() == 9);
        },
        Method::FsSetPermissions => {
            reveal_strlit("fs/set_permissions");
            assert(m::FS_SET_PERMISSIONS@.len() == 18);
        },
        Method::GitClone => {
            reveal_strlit("git/clone");
            assert(m::GIT_CLONE@.len() == 9);
        },
        Method::SnapshotCreate => {
            reveal_strlit("snapshot/create");
            assert(m::SNAPSHOT_CREATE@.len() == 15);
        },
        Method::SnapshotGet => {
            reveal_strlit("snapshot/get");
            assert(m::SNAPSHOT_GET@.len() == 12);
        },
        Method::SnapshotList => {
            reveal_strlit("snapshot/list");
            assert(m::SNAPSHOT_LIST@.len() == 13);
        },
        Method::SnapshotDelete => {
            reveal_strlit("snapshot/delete");
            assert(m::SNAPSHOT_DELETE@.len() == 15);
        },
        Method::SnapshotActivate => {
            reveal_strlit("snapshot/activate");
            assert(m::SNAPSHOT_ACTIVATE@.len() == 17);
        },
        Method::SnapshotDeactivate => {
            reveal_strlit("snapshot/deactivate");
            assert(m::SNAPSHOT_DEACTIVATE@.len() == 19);
        },
        Method::SnapshotBuildLogs => {
            reveal_strlit("snapshot/build_logs");
            assert(m::SNAPSHOT_BUILD_LOGS@.len() == 19);
        },
        Method::TransportDiagnostics => {
            reveal_strlit("transport/diagnostics");
            assert(m::TRANSPORT_DIAGNOSTICS@.len() == 21);
        },
        Method::ProviderHealth => {
            reveal_strlit("provider/health");
            assert(m::PROVIDER_HEALTH@.len() == 15);
        },
        Method::VolumeCreate => {
            reveal_strlit("volume/create");
            assert(m::VOLUME_CREATE@.len() == 13);
        },
        Method::VolumeGet => {
            reveal_strlit("volume/get");
            assert(m::VOLUME_GET@.len() == 10);
        },
        Method::VolumeList => {
            reveal_strlit("volume/list");
            assert(m::VOLUME_LIST@.len() == 11);
        },
        Method::VolumeDelete => {
            reveal_strlit("volume/delete");
            assert(m::VOLUME_DELETE@.len() == 13);
        },
        Method::AccessPreviewUrl => {
            reveal_strlit("access/preview_url");
            assert(m::ACCESS_PREVIEW_URL@.len() == 18);
        },
        Method::AccessSignedPreviewUrl => {
            reveal_strlit("access/signed_preview_url");
            assert(m::ACCESS_SIGNED_PREVIEW_URL@.len() == 25);
        },
        Method::AccessPreviewRelease => {
            reveal_strlit("access/preview_release");
            assert(m::ACCESS_PREVIEW_RELEASE@.len() == 22);
        },
        Method::AccessSshCreate => {
            reveal_strlit("access/ssh_create");
            assert(m::ACCESS_SSH_CREATE@.len() == 17);
        },
        Method::AccessSshRevoke => {
            reveal_strlit("access/ssh_revoke");
            assert(m::ACCESS_SSH_REVOKE@.len() == 17);
        },
        Method::AccessWebTerminal => {
            reveal_strlit("access/web_terminal");
            assert(m::ACCESS_WEB_TERMINAL@.len() == 19);
        },
        Method::AccessVnc => {
            reveal_strlit("access/vnc");
            assert(m::ACCESS_VNC@.len() == 10);
        },
    }
}

/// No two methods share a name.
pub proof fn method_names_are_distinct(a: Method, b: Method)
    ensures
        method_name(a) == method_name(b) ==> a == b,
{
    lemma_mark(a);
    lemma_mark(b);
}

/// One thing a plugin does for a request. A stage that refuses ends the
/// request with its error.
#[derive(Clone, Copy, Debug, PartialEq, Eq, Structural)]
pub enum Stage {
    /// Agree on the protocol version and the data transport.
    Initialize,
    /// Take the sandbox's handle, attaching to the sandbox where there is
    /// none yet.
    Handle,
    /// Take the sandbox's handle if there is one, or else check its id.
    RememberedOrId,
    /// Check a sandbox id.
    CheckSandboxId,
    /// Check a snapshot id.
    CheckSnapshotId,
    /// Check a volume id.
    CheckVolumeId,
    /// Check how a sandbox is to be made.
    CheckSpec,
    /// Check how a sandbox is to be forked.
    CheckFork,
    /// Refuse what the sandbox has no facet for.
    Facet(Capability),
    /// Refuse what the provider has no service for.
    Service(Capability),
    /// Refuse an argument that the sandbox does not support.
    Flag(Capability),
    /// Make a command's stops addressable by its id.
    RegisterExec,
    /// A command's stops are no longer addressable.
    ForgetExec,
    /// Make a stop known to the command it is for.
    StopExec,
    /// Open the data channel that the request names.
    OpenChannel,
    /// Read a command's input where the provider cannot stream it.
    CollectStdin,
    /// Read a file's content.
    ReceiveContent,
    /// Have the driver do its part.
    Call,
    /// End this side of the data channel.
    FinishChannel,
    /// Keep the new handle.
    Remember,
    /// Drop the handle.
    ForgetHandle,
    /// Describe the new sandbox to the host.
    Describe,
    /// Keep the new stdio process under its id.
    RegisterStdio,
    /// Take the stdio process of an id.
    FindStdio,
    /// Drop the stdio process.
    ForgetStdio,
    /// Keep the new PTY under its id.
    RegisterPty,
    /// Take the PTY of an id.
    FindPty,
    /// Take the PTY of an id out, to come back if it cannot be closed.
    TakePty,
    /// Make a log stream cancellable by its id.
    FollowStream,
    /// A log stream is no longer cancellable.
    ForgetStream,
    /// Cancel a log stream.
    CancelStream,
    /// Report what the plugin owns.
    Diagnostics,
}

/// What a plugin does for a method, in order.
pub open spec fn stages_of(method: Method) -> Seq<Stage> {
    match method {
        Method::Initialize => seq![Stage::Initialize],
        Method::SandboxCreate => seq![
            Stage::CheckSpec,
            Stage::Call,
            Stage::Remember,
            Stage::Describe
        ],
        Method::SandboxAttach
        | Method::SandboxUndelete => seq![
            Stage::CheckSandboxId,
            Stage::Call,
            Stage::Remember,
            Stage::Describe
        ],
        Method::SandboxList
        | Method::ProviderHealth => seq![Stage::Call],
        Method::SandboxDescribe
        | Method::SandboxPlatformInfo
        | Method::SandboxStart
        | Method::SandboxStop
        | Method::SandboxPause
        | Method::SandboxResume
        | Method::SandboxArchive
        | Method::SandboxRecover
        | Method::SandboxRefreshActivity
        | Method::SandboxResize
        | Method::SandboxSnapshot
        | Method::SandboxSetTimers
        | Method::SandboxSetLabels
        | Method::SandboxUpdateNetwork
        | Method::SandboxEnvironment
        | Method::FsDelete
        | Method::FsExists
        | Method::FsMetadata
        | Method::FsListDir
        | Method::FsCreateDir
        | Method::FsRename
        | Method::FsSetPermissions => seq![Stage::Handle, Stage::Call],
        Method::SandboxDelete => seq![Stage::RememberedOrId, Stage::Call, Stage::ForgetHandle],
        Method::SandboxFork => seq![
            Stage::Handle,
            Stage::CheckFork,
            Stage::Call,
            Stage::Remember,
            Stage::Describe
        ],
        Method::ExecStream => seq![
            Stage::Handle,
            Stage::RegisterExec,
            Stage::OpenChannel,
            Stage::CollectStdin,
            Stage::Call,
            Stage::FinishChannel,
            Stage::ForgetExec
        ],
        Method::ExecStop => seq![Stage::StopExec],
        Method::ExecStdioOpen => seq![
            Stage::OpenChannel,
            Stage::Handle,
            Stage::Call,
            Stage::RegisterStdio
        ],
        Method::ExecStdioTerminate => seq![Stage::FindStdio, Stage::Call],
        Method::ExecStdioWait => seq![Stage::FindStdio, Stage::Call, Stage::ForgetStdio],
        Method::OneShotRun => seq![
            Stage::Handle,
            Stage::Facet(Capability::OneShot),
            Stage::RegisterExec,
            Stage::OpenChannel,
            Stage::Call,
            Stage::FinishChannel,
            Stage::ForgetExec
        ],
        Method::PtyOpen => seq![
            Stage::OpenChannel,
            Stage::Handle,
            Stage::Facet(Capability::Pty),
            Stage::Call,
            Stage::RegisterPty
        ],
        Method::PtyResize => seq![Stage::FindPty, Stage::Call],
        Method::PtyClose => seq![Stage::TakePty, Stage::Call],
        Method::LogsFollow => seq![
            Stage::Handle,
            Stage::Facet(Capability::Logs),
            Stage::OpenChannel,
            Stage::FollowStream,
            Stage::Call,
            Stage::ForgetStream,
            Stage::FinishChannel
        ],
        Method::StreamCancel => seq![Stage::CancelStream],
        Method::FsRead => seq![
            Stage::Handle,
            Stage::OpenChannel,
            Stage::Call,
            Stage::FinishChannel
        ],
        Method::FsWrite => seq![
            Stage::Handle,
            Stage::OpenChannel,
            Stage::ReceiveContent,
            Stage::Call,
            Stage::FinishChannel
        ],
        Method::GitClone => seq![Stage::Handle, Stage::Facet(Capability::Git), Stage::Call],
        Method::SnapshotCreate
        | Method::SnapshotList => seq![Stage::Service(Capability::Snapshots), Stage::Call],
        Method::SnapshotGet
        | Method::SnapshotDelete
        | Method::SnapshotActivate
        | Method::SnapshotDeactivate => seq![
            Stage::Service(Capability::Snapshots),
            Stage::CheckSnapshotId,
            Stage::Call
        ],
        Method::SnapshotBuildLogs => seq![
            Stage::Service(Capability::Snapshots),
            Stage::CheckSnapshotId,
            Stage::OpenChannel,
            Stage::FollowStream,
            Stage::Call,
            Stage::ForgetStream,
            Stage::FinishChannel
        ],
        Method::TransportDiagnostics => seq![Stage::Diagnostics],
        Method::VolumeCreate
        | Method::VolumeList => seq![Stage::Service(Capability::Volumes), Stage::Call],
        Method::VolumeGet
        | Method::VolumeDelete => seq![
            Stage::Service(Capability::Volumes),
            Stage::CheckVolumeId,
            Stage::Call
        ],
        Method::AccessPreviewUrl
        | Method::AccessSignedPreviewUrl
        | Method::AccessPreviewRelease => seq![
            Stage::Handle,
            Stage::Facet(Capability::PreviewUrls),
            Stage::Call
        ],
        Method::AccessSshCreate => seq![
            Stage::Handle,
            Stage::Flag(Capability::SshTtl),
            Stage::Facet(Capability::Ssh),
            Stage::Call
        ],
        Method::AccessSshRevoke => seq![
            Stage::Handle,
            Stage::Flag(Capability::SshRevoke),
            Stage::Facet(Capability::Ssh),
            Stage::Call
        ],
        Method::AccessWebTerminal => seq![
            Stage::Handle,
            Stage::Facet(Capability::WebTerminalAccess),
            Stage::Call
        ],
        Method::AccessVnc => seq![Stage::Handle, Stage::Facet(Capability::VncAccess), Stage::Call],
    }
}

/// What a plugin does for a method, in order.
pub fn plan(method: Method) -> (stages: Vec<Stage>)
    ensures
        stages@ == stages_of(method),
{
    match method {
        Method::Initialize => vec![Stage::Initialize],
        Method::SandboxCreate => vec![
            Stage::CheckSpec,
            Stage::Call,
            Stage::Remember,
            Stage::Describe
        ],
        Method::SandboxAttach
        | Method::SandboxUndelete => vec![
            Stage::CheckSandboxId,
            Stage::Call,
            Stage::Remember,
            Stage::Describe
        ],
        Method::SandboxList
        | Method::ProviderHealth => vec![Stage::Call],
        Method::SandboxDescribe
        | Method::SandboxPlatformInfo
        | Method::SandboxStart
        | Method::SandboxStop
        | Method::SandboxPause
        | Method::SandboxResume
        | Method::SandboxArchive
        | Method::SandboxRecover
        | Method::SandboxRefreshActivity
        | Method::SandboxResize
        | Method::SandboxSnapshot
        | Method::SandboxSetTimers
        | Method::SandboxSetLabels
        | Method::SandboxUpdateNetwork
        | Method::SandboxEnvironment
        | Method::FsDelete
        | Method::FsExists
        | Method::FsMetadata
        | Method::FsListDir
        | Method::FsCreateDir
        | Method::FsRename
        | Method::FsSetPermissions => vec![Stage::Handle, Stage::Call],
        Method::SandboxDelete => vec![Stage::RememberedOrId, Stage::Call, Stage::ForgetHandle],
        Method::SandboxFork => vec![
            Stage::Handle,
            Stage::CheckFork,
            Stage::Call,
            Stage::Remember,
            Stage::Describe
        ],
        Method::ExecStream => vec![
            Stage::Handle,
            Stage::RegisterExec,
            Stage::OpenChannel,
            Stage::CollectStdin,
            Stage::Call,
            Stage::FinishChannel,
            Stage::ForgetExec
        ],
        Method::ExecStop => vec![Stage::StopExec],
        Method::ExecStdioOpen => vec![
            Stage::OpenChannel,
            Stage::Handle,
            Stage::Call,
            Stage::RegisterStdio
        ],
        Method::ExecStdioTerminate => vec![Stage::FindStdio, Stage::Call],
        Method::ExecStdioWait => vec![Stage::FindStdio, Stage::Call, Stage::ForgetStdio],
        Method::OneShotRun => vec![
            Stage::Handle,
            Stage::Facet(Capability::OneShot),
            Stage::RegisterExec,
            Stage::OpenChannel,
            Stage::Call,
            Stage::FinishChannel,
            Stage::ForgetExec
        ],
        Method::PtyOpen => vec![
            Stage::OpenChannel,
            Stage::Handle,
            Stage::Facet(Capability::Pty),
            Stage::Call,
            Stage::RegisterPty
        ],
        Method::PtyResize => vec![Stage::FindPty, Stage::Call],
        Method::PtyClose => vec![Stage::TakePty, Stage::Call],
        Method::LogsFollow => vec![
            Stage::Handle,
            Stage::Facet(Capability::Logs),
            Stage::OpenChannel,
            Stage::FollowStream,
            Stage::Call,
            Stage::ForgetStream,
            Stage::FinishChannel
        ],
        Method::StreamCancel => vec![Stage::CancelStream],
        Method::FsRead => vec![
            Stage::Handle,
            Stage::OpenChannel,
            Stage::Call,
            Stage::FinishChannel
        ],
        Method::FsWrite => vec![
            Stage::Handle,
            Stage::OpenChannel,
            Stage::ReceiveContent,
            Stage::Call,
            Stage::FinishChannel
        ],
        Method::GitClone => vec![Stage::Handle, Stage::Facet(Capability::Git), Stage::Call],
        Method::SnapshotCreate
        | Method::SnapshotList => vec![Stage::Service(Capability::Snapshots), Stage::Call],
        Method::SnapshotGet
        | Method::SnapshotDelete
        | Method::SnapshotActivate
        | Method::SnapshotDeactivate => vec![
            Stage::Service(Capability::Snapshots),
            Stage::CheckSnapshotId,
            Stage::Call
        ],
        Method::SnapshotBuildLogs => vec![
            Stage::Service(Capability::Snapshots),
            Stage::CheckSnapshotId,
            Stage::OpenChannel,
            Stage::FollowStream,
            Stage::Call,
            Stage::ForgetStream,
            Stage::FinishChannel
        ],
        Method::TransportDiagnostics => vec![Stage::Diagnostics],
        Method::VolumeCreate
        | Method::VolumeList => vec![Stage::Service(Capability::Volumes), Stage::Call],
        Method::VolumeGet
        | Method::VolumeDelete => vec![
            Stage::Service(Capability::Volumes),
            Stage::CheckVolumeId,
            Stage::Call
        ],
        Method::AccessPreviewUrl
        | Method::AccessSignedPreviewUrl
        | Method::AccessPreviewRelease => vec![
            Stage::Handle,
            Stage::Facet(Capability::PreviewUrls),
            Stage::Call
        ],
        Method::AccessSshCreate => vec![
            Stage::Handle,
            Stage::Flag(Capability::SshTtl),
            Stage::Facet(Capability::Ssh),
            Stage::Call
        ],
        Method::AccessSshRevoke => vec![
            Stage::Handle,
            Stage::Flag(Capability::SshRevoke),
            Stage::Facet(Capability::Ssh),
            Stage::Call
        ],
        Method::AccessWebTerminal => vec![
            Stage::Handle,
            Stage::Facet(Capability::WebTerminalAccess),
            Stage::Call
        ],
        Method::AccessVnc => vec![Stage::Handle, Stage::Facet(Capability::VncAccess), Stage::Call],
    }
}

/// Whether a stage is among the first so many.
pub open spec fn comes_before(stages: Seq<Stage>, first: Stage, second: Stage) -> bool {
    forall|j: int|
        0 <= j < stages.len() && stages[j] == second ==> exists|i: int| 0 <= i < j && stages[i] == first
}

/// A data channel is opened for exactly the methods that are admitted as
/// moving bytes.
pub proof fn channels_are_opened_for_byte_methods(method: Method)
    ensures
        moves_bytes(method_name(method)) <==> stages_of(method).contains(Stage::OpenChannel),
{
    method_names_are_distinct(method, Method::ExecStream);
    method_names_are_distinct(method, Method::OneShotRun);
    method_names_are_distinct(method, Method::ExecStdioOpen);
    method_names_are_distinct(method, Method::PtyOpen);
    method_names_are_distinct(method, Method::LogsFollow);
    method_names_are_distinct(method, Method::FsRead);
    method_names_are_distinct(method, Method::FsWrite);
    method_names_are_distinct(method, Method::SnapshotBuildLogs);
    let stages = stages_of(method);
    if moves_bytes(method_name(method)) {
        let at: int = if method == Method::ExecStdioOpen || method == Method::PtyOpen {
            0
        } else if method == Method::FsRead || method == Method::FsWrite {
            1
        } else if method == Method::OneShotRun {
            3
        } else {
            2
        };
        assert(stages[at] == Stage::OpenChannel);
    } else {
        assert(stages.len() <= 5);
    }
}

/// A command's stops are addressable before its data channel is open: once
/// the host sees the channel, a stop can reach the command.
pub proof fn stops_are_registered_before_channels_open(method: Method)
    requires
        stages_of(method).contains(Stage::RegisterExec),
    ensures
        comes_before(stages_of(method), Stage::RegisterExec, Stage::OpenChannel),
{
    let stages = stages_of(method);
    assert(method == Method::ExecStream || method == Method::OneShotRun) by {
        let at = stages.index_of(Stage::RegisterExec);
        assert(stages[at] == Stage::RegisterExec);
    }
    if method == Method::ExecStream {
        assert(stages[1] == Stage::RegisterExec);
    } else {
        assert(stages[2] == Stage::RegisterExec);
    }
}

/// What is stopped or inspected needs no data channel.
pub proof fn reserved_methods_open_no_channel(method: Method)
    requires
        is_reserved(method_name(method)),
    ensures
        !stages_of(method).contains(Stage::OpenChannel),
{
    channels_are_opened_for_byte_methods(method);
    crate::limits::reserved_methods_move_no_bytes(method_name(method));
}

/// How often a stage comes from a place on.
pub open spec fn times(stages: Seq<Stage>, stage: Stage, from: nat) -> nat
    decreases stages.len() - from,
{
    if from >= stages.len() {
        0
    } else {
        times(stages, stage, from + 1) + if stages[from as int] == stage {
            1nat
        } else {
            0
        }
    }
}

/// A stage that comes at all comes somewhere.
pub proof fn a_stage_that_comes_is_somewhere(stages: Seq<Stage>, stage: Stage, from: nat) -> (at: int)
    requires
        times(stages, stage, from) > 0,
    ensures
        from <= at < stages.len(),
        stages[at] == stage,
    decreases stages.len() - from,
{
    if stages[from as int] == stage {
        from as int
    } else {
        a_stage_that_comes_is_somewhere(stages, stage, from + 1)
    }
}

/// The driver does its part of every request, once: there is no method whose
/// request is answered without it, but for the four that the plugin answers
/// from its own state.
pub proof fn every_request_reaches_the_driver_once(method: Method)
    ensures
        times(stages_of(method), Stage::Call, 0) == match method {
            Method::Initialize
            | Method::ExecStop
            | Method::StreamCancel
            | Method::TransportDiagnostics => 0nat,
            _ => 1,
        },
{
    reveal_with_fuel(times, 9);
}

/// No stage comes twice.
pub proof fn no_stage_comes_twice(method: Method, stage: Stage)
    ensures
        times(stages_of(method), stage, 0) <= 1,
{
    reveal_with_fuel(times, 9);
}

/// What is checked, looked up, opened or read for a request comes before the
/// driver's part of it, and what is kept, forgotten, ended or reported after
/// it comes behind: no id, capability or input is looked at too late, and
/// nothing is kept or given up before the driver is through.
pub proof fn checks_come_before_the_driver_and_records_after(method: Method, call: int, other: int)
    requires
        0 <= call < stages_of(method).len(),
        0 <= other < stages_of(method).len(),
        stages_of(method)[call] is Call,
    ensures
        other < call <==> match stages_of(method)[other] {
            Stage::Handle
            | Stage::RememberedOrId
            | Stage::CheckSandboxId
            | Stage::CheckSnapshotId
            | Stage::CheckVolumeId
            | Stage::CheckSpec
            | Stage::CheckFork
            | Stage::Facet(_)
            | Stage::Service(_)
            | Stage::Flag(_)
            | Stage::RegisterExec
            | Stage::OpenChannel
            | Stage::CollectStdin
            | Stage::ReceiveContent
            | Stage::FindStdio
            | Stage::FindPty
            | Stage::TakePty
            | Stage::FollowStream => true,
            _ => false,
        },
        other > call <==> match stages_of(method)[other] {
            Stage::FinishChannel
            | Stage::ForgetExec
            | Stage::Remember
            | Stage::ForgetHandle
            | Stage::Describe
            | Stage::RegisterStdio
            | Stage::ForgetStdio
            | Stage::RegisterPty
            | Stage::ForgetStream => true,
            _ => false,
        },
{
}

/// Every request is held to what it needs: a sandbox's facet, a service of
/// the provider or a supported argument is asked for exactly where the method
/// rests on it.
pub proof fn what_a_request_needs_is_asked_for(method: Method)
    ensures
        stages_of(method).contains(Stage::Facet(Capability::OneShot)) <==> match method {
            Method::OneShotRun => true,
            _ => false,
        },
        stages_of(method).contains(Stage::Facet(Capability::Pty)) <==> match method {
            Method::PtyOpen => true,
            _ => false,
        },
        stages_of(method).contains(Stage::Facet(Capability::Logs)) <==> match method {
            Method::LogsFollow => true,
            _ => false,
        },
        stages_of(method).contains(Stage::Facet(Capability::Git)) <==> match method {
            Method::GitClone => true,
            _ => false,
        },
        stages_of(method).contains(Stage::Facet(Capability::PreviewUrls)) <==> match method {
            Method::AccessPreviewUrl
            | Method::AccessSignedPreviewUrl
            | Method::AccessPreviewRelease => true,
            _ => false,
        },
        stages_of(method).contains(Stage::Facet(Capability::Ssh)) <==> match method {
            Method::AccessSshCreate
            | Method::AccessSshRevoke => true,
            _ => false,
        },
        stages_of(method).contains(Stage::Facet(Capability::WebTerminalAccess)) <==> match method {
            Method::AccessWebTerminal => true,
            _ => false,
        },
        stages_of(method).contains(Stage::Facet(Capability::VncAccess)) <==> match method {
            Method::AccessVnc => true,
            _ => false,
        },
        stages_of(method).contains(Stage::Flag(Capability::SshTtl)) <==> match method {
            Method::AccessSshCreate => true,
            _ => false,
        },
        stages_of(method).contains(Stage::Flag(Capability::SshRevoke)) <==> match method {
            Method::AccessSshRevoke => true,
            _ => false,
        },
        stages_of(method).contains(Stage::Service(Capability::Snapshots)) <==> match method {
            Method::SnapshotCreate
            | Method::SnapshotList
            | Method::SnapshotGet
            | Method::SnapshotDelete
            | Method::SnapshotActivate
            | Method::SnapshotDeactivate
            | Method::SnapshotBuildLogs => true,
            _ => false,
        },
        stages_of(method).contains(Stage::Service(Capability::Volumes)) <==> match method {
            Method::VolumeCreate
            | Method::VolumeList
            | Method::VolumeGet
            | Method::VolumeDelete => true,
            _ => false,
        },
{
    let stages = stages_of(method);
    match method {
        Method::OneShotRun => {
            assert(stages[1] == Stage::Facet(Capability::OneShot));
        },
        Method::PtyOpen => {
            assert(stages[2] == Stage::Facet(Capability::Pty));
        },
        Method::LogsFollow => {
            assert(stages[1] == Stage::Facet(Capability::Logs));
        },
        Method::GitClone => {
            assert(stages[1] == Stage::Facet(Capability::Git));
        },
        Method::AccessPreviewUrl
        | Method::AccessSignedPreviewUrl
        | Method::AccessPreviewRelease => {
            assert(stages[1] == Stage::Facet(Capability::PreviewUrls));
        },
        Method::AccessSshCreate => {
            assert(stages[1] == Stage::Flag(Capability::SshTtl));
            assert(stages[2] == Stage::Facet(Capability::Ssh));
        },
        Method::AccessSshRevoke => {
            assert(stages[1] == Stage::Flag(Capability::SshRevoke));
            assert(stages[2] == Stage::Facet(Capability::Ssh));
        },
        Method::AccessWebTerminal => {
            assert(stages[1] == Stage::Facet(Capability::WebTerminalAccess));
        },
        Method::AccessVnc => {
            assert(stages[1] == Stage::Facet(Capability::VncAccess));
        },
        Method::SnapshotCreate
        | Method::SnapshotList
        | Method::SnapshotGet
        | Method::SnapshotDelete
        | Method::SnapshotActivate
        | Method::SnapshotDeactivate
        | Method::SnapshotBuildLogs => {
            assert(stages[0] == Stage::Service(Capability::Snapshots));
        },
        Method::VolumeCreate
        | Method::VolumeList
        | Method::VolumeGet
        | Method::VolumeDelete => {
            assert(stages[0] == Stage::Service(Capability::Volumes));
        },
        _ => {},
    }
}

/// Every request finds what it is about: the handle of its sandbox, or an id
/// that was checked, or the session that its id names.
pub proof fn every_request_finds_what_it_is_about(method: Method)
    ensures
        stages_of(method).contains(Stage::CheckSandboxId) <==> match method {
            Method::SandboxAttach
            | Method::SandboxUndelete => true,
            _ => false,
        },
        stages_of(method).contains(Stage::RememberedOrId) <==> match method {
            Method::SandboxDelete => true,
            _ => false,
        },
        stages_of(method).contains(Stage::CheckSnapshotId) <==> match method {
            Method::SnapshotGet
            | Method::SnapshotDelete
            | Method::SnapshotActivate
            | Method::SnapshotDeactivate
            | Method::SnapshotBuildLogs => true,
            _ => false,
        },
        stages_of(method).contains(Stage::CheckVolumeId) <==> match method {
            Method::VolumeGet
            | Method::VolumeDelete => true,
            _ => false,
        },
        stages_of(method).contains(Stage::CheckSpec) <==> match method {
            Method::SandboxCreate => true,
            _ => false,
        },
        stages_of(method).contains(Stage::CheckFork) <==> match method {
            Method::SandboxFork => true,
            _ => false,
        },
        stages_of(method).contains(Stage::FindStdio) <==> match method {
            Method::ExecStdioTerminate
            | Method::ExecStdioWait => true,
            _ => false,
        },
        stages_of(method).contains(Stage::FindPty) <==> match method {
            Method::PtyResize => true,
            _ => false,
        },
        stages_of(method).contains(Stage::TakePty) <==> match method {
            Method::PtyClose => true,
            _ => false,
        },
        stages_of(method).contains(Stage::Handle) <==> match method {
            Method::SandboxDescribe
            | Method::SandboxPlatformInfo
            | Method::SandboxStart
            | Method::SandboxStop
            | Method::SandboxPause
            | Method::SandboxResume
            | Method::SandboxArchive
            | Method::SandboxRecover
            | Method::SandboxRefreshActivity
            | Method::SandboxResize
            | Method::SandboxSnapshot
            | Method::SandboxSetTimers
            | Method::SandboxSetLabels
            | Method::SandboxUpdateNetwork
            | Method::SandboxEnvironment
            | Method::FsDelete
            | Method::FsExists
            | Method::FsMetadata
            | Method::FsListDir
            | Method::FsCreateDir
            | Method::FsRename
            | Method::FsSetPermissions
            | Method::SandboxFork
            | Method::ExecStream
            | Method::ExecStdioOpen
            | Method::OneShotRun
            | Method::PtyOpen
            | Method::LogsFollow
            | Method::FsRead
            | Method::FsWrite
            | Method::GitClone
            | Method::AccessPreviewUrl
            | Method::AccessSignedPreviewUrl
            | Method::AccessPreviewRelease
            | Method::AccessSshCreate
            | Method::AccessSshRevoke
            | Method::AccessWebTerminal
            | Method::AccessVnc => true,
            _ => false,
        },
{
    let stages = stages_of(method);
    match method {
        Method::SandboxAttach
        | Method::SandboxUndelete => {
            assert(stages[0] == Stage::CheckSandboxId);
        },
        Method::SandboxDelete => {
            assert(stages[0] == Stage::RememberedOrId);
        },
        Method::SnapshotGet
        | Method::SnapshotDelete
        | Method::SnapshotActivate
        | Method::SnapshotDeactivate
        | Method::SnapshotBuildLogs => {
            assert(stages[1] == Stage::CheckSnapshotId);
        },
        Method::VolumeGet
        | Method::VolumeDelete => {
            assert(stages[1] == Stage::CheckVolumeId);
        },
        Method::SandboxCreate => {
            assert(stages[0] == Stage::CheckSpec);
        },
        Method::SandboxFork => {
            assert(stages[0] == Stage::Handle);
            assert(stages[1] == Stage::CheckFork);
        },
        Method::ExecStdioTerminate
        | Method::ExecStdioWait => {
            assert(stages[0] == Stage::FindStdio);
        },
        Method::PtyResize => {
            assert(stages[0] == Stage::FindPty);
        },
        Method::PtyClose => {
            assert(stages[0] == Stage::TakePty);
        },
        Method::SandboxDescribe
        | Method::SandboxPlatformInfo
        | Method::SandboxStart
        | Method::SandboxStop
        | Method::SandboxPause
        | Method::SandboxResume
        | Method::SandboxArchive
        | Method::SandboxRecover
        | Method::SandboxRefreshActivity
        | Method::SandboxResize
        | Method::SandboxSnapshot
        | Method::SandboxSetTimers
        | Method::SandboxSetLabels
        | Method::SandboxUpdateNetwork
        | Method::SandboxEnvironment
        | Method::FsDelete
        | Method::FsExists
        | Method::FsMetadata
        | Method::FsListDir
        | Method::FsCreateDir
        | Method::FsRename
        | Method::FsSetPermissions
        | Method::ExecStream
        | Method::OneShotRun
        | Method::LogsFollow
        | Method::FsRead
        | Method::FsWrite
        | Method::GitClone
        | Method::AccessPreviewUrl
        | Method::AccessSignedPreviewUrl
        | Method::AccessPreviewRelease
        | Method::AccessSshCreate
        | Method::AccessSshRevoke
        | Method::AccessWebTerminal
        | Method::AccessVnc => {
            assert(stages[0] == Stage::Handle);
        },
        Method::ExecStdioOpen
        | Method::PtyOpen => {
            assert(stages[1] == Stage::Handle);
        },
        _ => {},
    }
}

/// Every request leaves the records that it should: new handles are kept and
/// described, a deleted sandbox's handle is dropped, sessions are kept under
/// their ids until they end, and a command's stops and a log's cancellation
/// are there for as long as it runs.
pub proof fn every_request_leaves_its_records(method: Method)
    ensures
        stages_of(method).contains(Stage::Remember) <==> match method {
            Method::SandboxCreate
            | Method::SandboxAttach
            | Method::SandboxUndelete
            | Method::SandboxFork => true,
            _ => false,
        },
        stages_of(method).contains(Stage::Describe) <==> match method {
            Method::SandboxCreate
            | Method::SandboxAttach
            | Method::SandboxUndelete
            | Method::SandboxFork => true,
            _ => false,
        },
        stages_of(method).contains(Stage::ForgetHandle) <==> match method {
            Method::SandboxDelete => true,
            _ => false,
        },
        stages_of(method).contains(Stage::RegisterStdio) <==> match method {
            Method::ExecStdioOpen => true,
            _ => false,
        },
        stages_of(method).contains(Stage::ForgetStdio) <==> match method {
            Method::ExecStdioWait => true,
            _ => false,
        },
        stages_of(method).contains(Stage::RegisterPty) <==> match method {
            Method::PtyOpen => true,
            _ => false,
        },
        stages_of(method).contains(Stage::RegisterExec) <==> match method {
            Method::ExecStream
            | Method::OneShotRun => true,
            _ => false,
        },
        stages_of(method).contains(Stage::ForgetExec) <==> match method {
            Method::ExecStream
            | Method::OneShotRun => true,
            _ => false,
        },
        stages_of(method).contains(Stage::FollowStream) <==> match method {
            Method::LogsFollow
            | Method::SnapshotBuildLogs => true,
            _ => false,
        },
        stages_of(method).contains(Stage::ForgetStream) <==> match method {
            Method::LogsFollow
            | Method::SnapshotBuildLogs => true,
            _ => false,
        },
{
    let stages = stages_of(method);
    match method {
        Method::SandboxCreate
        | Method::SandboxAttach
        | Method::SandboxUndelete => {
            assert(stages[2] == Stage::Remember);
            assert(stages[3] == Stage::Describe);
        },
        Method::SandboxFork => {
            assert(stages[3] == Stage::Remember);
            assert(stages[4] == Stage::Describe);
        },
        Method::SandboxDelete => {
            assert(stages[2] == Stage::ForgetHandle);
        },
        Method::ExecStdioOpen => {
            assert(stages[3] == Stage::RegisterStdio);
        },
        Method::ExecStdioWait => {
            assert(stages[2] == Stage::ForgetStdio);
        },
        Method::PtyOpen => {
            assert(stages[4] == Stage::RegisterPty);
        },
        Method::ExecStream => {
            assert(stages[1] == Stage::RegisterExec);
            assert(stages[6] == Stage::ForgetExec);
        },
        Method::OneShotRun => {
            assert(stages[2] == Stage::RegisterExec);
            assert(stages[6] == Stage::ForgetExec);
        },
        Method::LogsFollow
        | Method::SnapshotBuildLogs => {
            assert(stages[3] == Stage::FollowStream);
            assert(stages[5] == Stage::ForgetStream);
        },
        _ => {},
    }
}

/// A stop, a cancellation, a report and the handshake are each made by their
/// own method; input and content are read, and channels opened and ended, for
/// exactly the methods that move bytes that way.
pub proof fn every_request_takes_its_own_steps(method: Method)
    ensures
        stages_of(method).contains(Stage::StopExec) <==> match method {
            Method::ExecStop => true,
            _ => false,
        },
        stages_of(method).contains(Stage::CancelStream) <==> match method {
            Method::StreamCancel => true,
            _ => false,
        },
        stages_of(method).contains(Stage::Diagnostics) <==> match method {
            Method::TransportDiagnostics => true,
            _ => false,
        },
        stages_of(method).contains(Stage::Initialize) <==> match method {
            Method::Initialize => true,
            _ => false,
        },
        stages_of(method).contains(Stage::CollectStdin) <==> match method {
            Method::ExecStream => true,
            _ => false,
        },
        stages_of(method).contains(Stage::ReceiveContent) <==> match method {
            Method::FsWrite => true,
            _ => false,
        },
        stages_of(method).contains(Stage::OpenChannel) <==> match method {
            Method::ExecStream
            | Method::ExecStdioOpen
            | Method::OneShotRun
            | Method::PtyOpen
            | Method::LogsFollow
            | Method::FsRead
            | Method::FsWrite
            | Method::SnapshotBuildLogs => true,
            _ => false,
        },
        stages_of(method).contains(Stage::FinishChannel) <==> match method {
            Method::ExecStream
            | Method::OneShotRun
            | Method::LogsFollow
            | Method::FsRead
            | Method::FsWrite
            | Method::SnapshotBuildLogs => true,
            _ => false,
        },
{
    let stages = stages_of(method);
    match method {
        Method::ExecStop => {
            assert(stages[0] == Stage::StopExec);
        },
        Method::StreamCancel => {
            assert(stages[0] == Stage::CancelStream);
        },
        Method::TransportDiagnostics => {
            assert(stages[0] == Stage::Diagnostics);
        },
        Method::Initialize => {
            assert(stages[0] == Stage::Initialize);
        },
        Method::ExecStream => {
            assert(stages[2] == Stage::OpenChannel);
            assert(stages[3] == Stage::CollectStdin);
            assert(stages[5] == Stage::FinishChannel);
        },
        Method::FsWrite => {
            assert(stages[1] == Stage::OpenChannel);
            assert(stages[2] == Stage::ReceiveContent);
            assert(stages[4] == Stage::FinishChannel);
        },
        Method::LogsFollow
        | Method::SnapshotBuildLogs => {
            assert(stages[2] == Stage::OpenChannel);
            assert(stages[6] == Stage::FinishChannel);
        },
        Method::ExecStdioOpen
        | Method::PtyOpen => {
            assert(stages[0] == Stage::OpenChannel);
        },
        Method::OneShotRun => {
            assert(stages[3] == Stage::OpenChannel);
            assert(stages[5] == Stage::FinishChannel);
        },
        Method::FsRead => {
            assert(stages[1] == Stage::OpenChannel);
            assert(stages[3] == Stage::FinishChannel);
        },
        _ => {},
    }
}

/// A handle is there before anything is asked of its sandbox, a channel is
/// open before anything is read from it or followed on it, a handle is kept
/// before it is described, and a log is forgotten, a channel ended and a
/// command's stops forgotten in that order.
pub proof fn stages_come_in_their_order(method: Method, first: int, second: int)
    requires
        0 <= first < stages_of(method).len(),
        0 <= second < stages_of(method).len(),
    ensures
        stages_of(method)[first] is Handle && (stages_of(method)[second] is Facet || stages_of(
            method,
        )[second] is Flag || stages_of(method)[second] is CheckFork || stages_of(method)[second]
            is RegisterExec) ==> first < second,
        stages_of(method)[first] is Service && (stages_of(method)[second] is CheckSnapshotId
            || stages_of(method)[second] is CheckVolumeId || stages_of(method)[second]
            is OpenChannel) ==> first < second,
        stages_of(method)[first] is OpenChannel && (stages_of(method)[second] is CollectStdin
            || stages_of(method)[second] is ReceiveContent || stages_of(method)[second]
            is FollowStream) ==> first < second,
        stages_of(method)[first] is RegisterExec && stages_of(method)[second] is OpenChannel
            ==> first < second,
        stages_of(method)[first] is Remember && stages_of(method)[second] is Describe ==> first
            < second,
        stages_of(method)[first] is ForgetStream && stages_of(method)[second] is FinishChannel
            ==> first < second,
        stages_of(method)[first] is FinishChannel && stages_of(method)[second] is ForgetExec
            ==> first < second,
        stages_of(method)[first] is Flag && stages_of(method)[second] is Facet ==> first < second,
        stages_of(method)[first] is CheckSnapshotId && stages_of(method)[second] is OpenChannel
            ==> first < second,
{
}

proof fn lemma_no_method_is_shutdown(method: Method)
    ensures
        method_name(method) != m::SHUTDOWN@,
{
    lemma_mark(method);
    reveal_strlit("shutdown");
    assert(m::SHUTDOWN@.len() == 8);
    assert(m::SHUTDOWN@[2] == 'u');
    assert(m::SHUTDOWN@[6] == 'w');
    assert(mark(m::SHUTDOWN@) == 554359);
}

/// What stops, deletes or inspects runs on the reserve, and nothing else
/// does.
pub proof fn stops_and_inspections_are_reserved(method: Method)
    ensures
        is_reserved(method_name(method)) <==> match method {
            Method::ExecStop
            | Method::ExecStdioTerminate
            | Method::PtyClose
            | Method::StreamCancel
            | Method::SandboxStop
            | Method::SandboxDelete
            | Method::TransportDiagnostics
            | Method::ProviderHealth => true,
            _ => false,
        },
        is_reserved(m::SHUTDOWN@),
{
    method_names_are_distinct(method, Method::ExecStop);
    method_names_are_distinct(method, Method::ExecStdioTerminate);
    method_names_are_distinct(method, Method::PtyClose);
    method_names_are_distinct(method, Method::StreamCancel);
    method_names_are_distinct(method, Method::SandboxStop);
    method_names_are_distinct(method, Method::SandboxDelete);
    method_names_are_distinct(method, Method::TransportDiagnostics);
    method_names_are_distinct(method, Method::ProviderHealth);
    lemma_no_method_is_shutdown(method);
}

/// Nothing else is asked for: the only facets, services and arguments that a
/// request is held to are those that the protocol knows.
pub proof fn nothing_else_is_asked_for(method: Method, at: int)
    requires
        0 <= at < stages_of(method).len(),
    ensures
        stages_of(method)[at] matches Stage::Facet(capability) ==> match capability {
            Capability::OneShot
            | Capability::Pty
            | Capability::Logs
            | Capability::Git
            | Capability::PreviewUrls
            | Capability::Ssh
            | Capability::WebTerminalAccess
            | Capability::VncAccess => true,
            _ => false,
        },
        stages_of(method)[at] matches Stage::Service(capability) ==> capability is Snapshots
            || capability is Volumes,
        stages_of(method)[at] matches Stage::Flag(capability) ==> capability is SshTtl
            || capability is SshRevoke,
{
}

/// The channel of a process or a terminal is open before its sandbox is
/// looked for; every other channel is opened once the sandbox is found.
pub proof fn sessions_open_their_channel_first(method: Method, channel: int, handle: int)
    requires
        0 <= channel < stages_of(method).len(),
        0 <= handle < stages_of(method).len(),
        stages_of(method)[channel] is OpenChannel,
        stages_of(method)[handle] is Handle,
    ensures
        channel < handle <==> method is ExecStdioOpen || method is PtyOpen,
{
}

} // verus!
