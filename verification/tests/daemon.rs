use nydusd::api::MountInfo;
use nydusd::daemon::{
    start_api_server, ApiStartError, ApiStartStep, DaemonOptions, Lifecycle, LifecycleAction,
    LifecyclePhase, EXIT_FAILURE, EXIT_OK,
};
use nydusd::error::{Error, IoError, IoErrorKind};

fn options(metadata: &str, apisock: &str) -> DaemonOptions {
    DaemonOptions {
        config: "cfg.toml".to_string(),
        sock: "/tmp/v.sock".to_string(),
        metadata: metadata.to_string(),
        apisock: apisock.to_string(),
    }
}

#[test]
fn image_is_mounted_at_root_before_the_daemon_starts() {
    let mut daemon = Lifecycle::new(options("/data/meta0", ""));
    assert_eq!(daemon.pending(), LifecycleAction::LoadConfig("cfg.toml".to_string()));
    assert_eq!(daemon.step(true), LifecycleAction::CreateDevice);
    assert_eq!(
        daemon.step(true),
        LifecycleAction::MountRoot(MountInfo {
            source: "/data/meta0".to_string(),
            mountpoint: "/".to_string(),
        })
    );
    assert_eq!(daemon.phase(), LifecyclePhase::MountingRoot);
    assert_eq!(daemon.step(true), LifecycleAction::StartDaemon("/tmp/v.sock".to_string()));
    assert_eq!(daemon.step(true), LifecycleAction::WaitDaemon);
    assert_eq!(daemon.phase(), LifecyclePhase::Running);
    assert_eq!(daemon.step(true), LifecycleAction::SignalExit);
    assert_eq!(daemon.step(true), LifecycleAction::Exit(0));
    assert_eq!(daemon.step(true), LifecycleAction::Exit(0));
    assert_eq!(daemon.phase(), LifecyclePhase::Exited(EXIT_OK));
}

#[test]
fn full_plan_with_image_and_admin_socket() {
    let mut daemon = Lifecycle::new(options("/data/meta0", "/tmp/api.sock"));
    assert_eq!(
        daemon.root_mount(),
        MountInfo { source: "/data/meta0".to_string(), mountpoint: "/".to_string() }
    );
    assert_eq!(daemon.step(true), LifecycleAction::CreateDevice);
    assert_eq!(daemon.step(true), LifecycleAction::MountRoot(daemon.root_mount()));
    assert_eq!(daemon.step(true), LifecycleAction::StartApiServer("/tmp/api.sock".to_string()));
    assert_eq!(daemon.step(true), LifecycleAction::StartDaemon("/tmp/v.sock".to_string()));
    assert_eq!(daemon.step(true), LifecycleAction::WaitDaemon);
    assert_eq!(daemon.step(true), LifecycleAction::SignalExit);
    assert_eq!(daemon.step(false), LifecycleAction::Exit(0));
}

#[test]
fn plan_without_image_and_without_admin_socket() {
    let mut daemon = Lifecycle::new(options("", ""));
    assert_eq!(daemon.step(true), LifecycleAction::CreateDevice);
    assert_eq!(daemon.step(true), LifecycleAction::StartDaemon("/tmp/v.sock".to_string()));
}

#[test]
fn plan_with_admin_socket_only() {
    let mut daemon = Lifecycle::new(options("", "/tmp/api.sock"));
    assert_eq!(daemon.step(true), LifecycleAction::CreateDevice);
    assert_eq!(daemon.step(true), LifecycleAction::StartApiServer("/tmp/api.sock".to_string()));
    assert_eq!(daemon.step(true), LifecycleAction::StartDaemon("/tmp/v.sock".to_string()));
}

#[test]
fn failed_start_exits_at_once() {
    let mut daemon = Lifecycle::new(options("/data/meta0", "/tmp/api.sock"));
    assert_eq!(daemon.step(false), LifecycleAction::Exit(1));

    let mut daemon = Lifecycle::new(options("/data/meta0", "/tmp/api.sock"));
    daemon.step(true);
    assert_eq!(daemon.step(false), LifecycleAction::Exit(1));

    let mut daemon = Lifecycle::new(options("/data/meta0", "/tmp/api.sock"));
    daemon.step(true);
    daemon.step(true);
    assert_eq!(daemon.step(false), LifecycleAction::Exit(EXIT_FAILURE));

    let mut daemon = Lifecycle::new(options("/data/meta0", "/tmp/api.sock"));
    daemon.step(true);
    daemon.step(true);
    daemon.step(true);
    assert_eq!(daemon.step(false), LifecycleAction::Exit(1));

    let mut daemon = Lifecycle::new(options("/data/meta0", "/tmp/api.sock"));
    daemon.step(true);
    daemon.step(true);
    daemon.step(true);
    daemon.step(true);
    assert_eq!(daemon.step(false), LifecycleAction::Exit(1));
    assert_eq!(daemon.step(true), LifecycleAction::Exit(1));
}

#[test]
fn failed_transport_still_signals_exit_and_fails() {
    let mut daemon = Lifecycle::new(options("", ""));
    daemon.step(true);
    daemon.step(true);
    assert_eq!(daemon.step(true), LifecycleAction::WaitDaemon);
    assert_eq!(daemon.step(false), LifecycleAction::SignalExit);
    assert_eq!(daemon.phase(), LifecyclePhase::Stopping(true));
    assert_eq!(daemon.step(true), LifecycleAction::Exit(1));
}

#[test]
fn failed_exit_signal_keeps_the_exit_code() {
    let mut daemon = Lifecycle::new(options("", ""));
    daemon.step(true);
    daemon.step(true);
    daemon.step(true);
    assert_eq!(daemon.step(true), LifecycleAction::SignalExit);
    assert_eq!(daemon.phase(), LifecyclePhase::Stopping(false));
    assert_eq!(daemon.step(false), LifecycleAction::Exit(0));
}

#[test]
fn admin_channel_comes_up_step_by_step() {
    assert_eq!(start_api_server(ApiStartStep::CreateEvent, Ok(())), Ok(Some(ApiStartStep::CloneEvent)));
    assert_eq!(start_api_server(ApiStartStep::CloneEvent, Ok(())), Ok(Some(ApiStartStep::SpawnHandler)));
    assert_eq!(start_api_server(ApiStartStep::SpawnHandler, Ok(())), Ok(Some(ApiStartStep::StartHttp)));
    assert_eq!(start_api_server(ApiStartStep::StartHttp, Ok(())), Ok(None));
}

#[test]
fn admin_channel_failures_are_named_by_their_step() {
    let e = IoError { kind: IoErrorKind::Other, code: Some(24) };
    assert_eq!(
        start_api_server(ApiStartStep::CreateEvent, Err(e)),
        Err(ApiStartError::Device(Error::Epoll(e)))
    );
    assert_eq!(
        start_api_server(ApiStartStep::CloneEvent, Err(e)),
        Err(ApiStartError::Device(Error::EventFdClone(e)))
    );
    assert_eq!(
        start_api_server(ApiStartStep::SpawnHandler, Err(e)),
        Err(ApiStartError::Device(Error::ThreadSpawn(e)))
    );
    assert_eq!(start_api_server(ApiStartStep::StartHttp, Err(e)), Err(ApiStartError::Http(e)));
}
