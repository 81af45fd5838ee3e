use friday::exec::pool::{
    auth_row, build_ssh_transport, build_transport, build_transport_in, fetch_environment, spawn_timeout_kill, EnvironmentRow,
    ExecChannelPool, KillStage, PoolError, TargetKey,
};
use friday::exec::ssh::SshAuth;

/// A channel stands for itself by a number.
type Pool = ExecChannelPool<u32>;

const SECOND: u64 = 1000;

fn named(env_id: &str) -> TargetKey {
    TargetKey::from(env_id.to_string())
}

#[test]
fn test_disconnect_removes_connection() {
    let mut pool = Pool::new();
    pool.insert_channel(named("env-1"), 1, 0);
    let removed = pool.disconnect("env-1");
    assert_eq!(removed.len(), 1);
    assert_eq!(removed[0].1, 1);
    assert_eq!(pool.connection_count(), 0);
}

#[test]
fn test_disconnect_nonexistent_is_noop() {
    let mut pool = Pool::new();
    assert!(pool.disconnect("nonexistent").is_empty());
    assert_eq!(pool.connection_count(), 0);
}

#[test]
fn test_disconnect_all_removes_all() {
    let mut pool = Pool::new();
    pool.insert_channel(named("env-1"), 1, 0);
    pool.insert_channel(named("env-2"), 2, 0);
    assert_eq!(pool.disconnect_all().len(), 2);
    assert_eq!(pool.connection_count(), 0);
}

#[test]
fn test_get_or_create_caches_by_environment_id() {
    let mut pool = Pool::new();
    pool.insert_channel(named("env-1"), 7, 0);
    let first = pool.get_or_create("env-1", None, None, 1).copied();
    assert_eq!(first, Some(7));
    let second = pool.get_or_create("env-1", None, None, 2).copied();
    assert_eq!(pool.connection_count(), 1);
    assert_eq!(first, second);
}

#[test]
fn test_get_or_create_unknown_environment_returns_error() {
    let mut pool = Pool::new();
    assert_eq!(pool.get_or_create("no-such-env", None, None, 0), None);
    let lookup = fetch_environment("no-such-env", Ok(None));
    let result = pool.complete("no-such-env", None, None, lookup.map(|_| 1), 0);
    assert!(matches!(result, Err(PoolError::EnvironmentNotFound { .. })));
    assert_eq!(pool.connection_count(), 0);
}

#[test]
fn test_cleanup_idle_returns_promptly_when_disconnect_blocks() {
    let mut pool = Pool::new();
    pool.insert_channel(named("env-slow"), 1, 660 * SECOND);
    pool.mark_last_used_for_test(&TargetKey::base("env-slow"), 0);
    let removed = pool.cleanup_idle(600 * SECOND, 660 * SECOND);
    assert_eq!(removed.len(), 1);
    assert_eq!(pool.connection_count(), 0);
}

#[test]
fn test_idle_cleanup_removes_stale_connections() {
    let mut pool = Pool::new();
    pool.insert_channel(named("env-1"), 1, 660 * SECOND);
    assert_eq!(pool.connection_count(), 1);
    pool.mark_last_used_for_test(&TargetKey::base("env-1"), 0);
    let removed = pool.cleanup_idle(600 * SECOND, 660 * SECOND);
    assert_eq!(removed.len(), 1);
    assert_eq!(pool.connection_count(), 0);
}

#[test]
fn test_idle_cleanup_keeps_recent_connections() {
    let mut pool = Pool::new();
    pool.insert_channel(named("env-1"), 1, 0);
    let removed = pool.cleanup_idle(600 * SECOND, 0);
    assert_eq!(removed.len(), 0);
    assert_eq!(pool.connection_count(), 1);
}

fn row() -> EnvironmentRow {
    EnvironmentRow {
        host: Some("10.0.0.1".to_string()),
        port: Some(22),
        user: Some("root".to_string()),
        transport_type: "ssh".to_string(),
        auth_type: Some("password".to_string()),
        private_key_path: None,
        cred_id: None,
        cred_username: None,
        cred_auth_type: None,
        cred_private_key_path: None,
    }
}

fn default_credential_row() -> EnvironmentRow {
    EnvironmentRow {
        cred_id: Some("c1".to_string()),
        cred_username: Some("svcapp".to_string()),
        cred_auth_type: Some("private_key".to_string()),
        cred_private_key_path: Some("~/.ssh/svc".to_string()),
        ..row()
    }
}

#[test]
fn test_fetch_environment_prefers_default_credential() {
    let info = fetch_environment("env-1", Ok(Some(default_credential_row()))).unwrap();
    assert_eq!(info.user.as_deref(), Some("svcapp"));
    assert_eq!(info.auth_type.as_deref(), Some("private_key"));
    assert_eq!(info.private_key_path.as_deref(), Some("~/.ssh/svc"));
    assert_eq!(info.default_cred_id.as_deref(), Some("c1"));

    let transport = build_ssh_transport("env-1", &info, Some(SshAuth::PrivateKey)).unwrap();
    assert_eq!(transport.user, "svcapp");
    assert_eq!(transport.cred_id_as_ref(), Some("c1"));
}

#[test]
fn test_fetch_environment_falls_back_to_env_columns() {
    let info = fetch_environment("env-1", Ok(Some(row()))).unwrap();
    assert_eq!(info.user.as_deref(), Some("root"));
    assert_eq!(info.auth_type.as_deref(), Some("password"));
    assert!(info.default_cred_id.is_none());
}

#[test]
fn test_k8s_target_keyed_independently_from_base() {
    let mut pool = Pool::new();
    pool.insert_channel(TargetKey::base("env-1"), 1, 0);
    pool.insert_channel(TargetKey::k8s("env-1", "pod-a", None), 2, 0);
    assert_eq!(pool.connection_count(), 2);
    assert_eq!(pool.get_or_create("env-1", None, None, 0), Some(&1));
    assert_eq!(pool.get_or_create("env-1", Some("pod-a"), None, 0), Some(&2));
    assert_eq!(pool.connection_count(), 2);
}

#[test]
fn test_disconnect_env_removes_base_and_k8s_keys() {
    let mut pool = Pool::new();
    pool.insert_channel(TargetKey::base("env-1"), 1, 0);
    pool.insert_channel(TargetKey::k8s("env-1", "pod-a", Some("c1")), 2, 0);
    pool.insert_channel(TargetKey::base("env-2"), 3, 0);
    pool.disconnect("env-1");
    assert_eq!(pool.connection_count(), 1, "only env-2 survives");
}

#[test]
fn test_disconnect_target_removes_only_that_key() {
    let mut pool = Pool::new();
    pool.insert_channel(TargetKey::base("env-1"), 1, 0);
    pool.insert_channel(TargetKey::k8s("env-1", "pod-a", None), 2, 0);
    assert_eq!(pool.disconnect_target(&TargetKey::k8s("env-1", "pod-a", None)), Some(2));
    assert_eq!(pool.connection_count(), 1, "base key survives");
}

#[test]
fn test_from_parts_normalizes_empty_strings() {
    let k = TargetKey::from_parts("e", Some(""), Some(""));
    assert_eq!(k, TargetKey::base("e"));
}

#[test]
fn a_connection_made_meanwhile_is_replaced_and_marked_used() {
    let mut pool = Pool::new();
    assert!(pool.complete("env-1", Some("pod-a"), None, Ok(1), 5).is_ok());
    assert!(pool.complete("env-1", Some("pod-a"), None, Ok(2), 9).is_ok());
    assert_eq!(pool.connection_count(), 1);
    let key = TargetKey::k8s("env-1", "pod-a", None);
    assert_eq!(pool.get_or_create_unchecked_for_test(&key), &2);
    assert!(pool.cleanup_idle(4, 9).is_empty());
}

#[test]
fn using_a_connection_keeps_it() {
    let mut pool = Pool::new();
    pool.insert_channel(named("env-1"), 1, 0);
    assert_eq!(pool.get_or_create("env-1", None, None, 500), Some(&1));
    assert!(pool.cleanup_idle(600, 1000).is_empty());
    assert_eq!(pool.cleanup_idle(600, 2000).len(), 1);
}

#[test]
fn empty_columns_have_defaults_but_the_way_to_log_in_has_none() {
    let bare = EnvironmentRow { user: None, host: None, port: None, auth_type: None, ..row() };
    let info = fetch_environment("env-1", Ok(Some(bare))).unwrap();
    assert_eq!(auth_row(&info), ("private_key", None));
    let made = build_ssh_transport("env-1", &info, Some(SshAuth::PrivateKey)).unwrap();
    assert_eq!((made.host.as_str(), made.port, made.user.as_str()), ("", 22, ""));
    let refused = build_ssh_transport("env-1", &info, None);
    assert_eq!(
        refused,
        Err(PoolError::TransportNotImplemented(
            "invalid auth config for environment env-1".to_string()
        ))
    );
}

#[test]
fn a_credential_fills_the_columns_that_it_has() {
    let half = EnvironmentRow {
        private_key_path: Some("~/.ssh/id".to_string()),
        cred_private_key_path: None,
        ..default_credential_row()
    };
    let info = fetch_environment("env-1", Ok(Some(half))).unwrap();
    assert_eq!(info.user.as_deref(), Some("svcapp"));
    assert_eq!(info.private_key_path.as_deref(), Some("~/.ssh/id"));
}

#[test]
fn a_stored_port_is_cut_to_sixteen_bits() {
    let wide = EnvironmentRow { port: Some(65536 + 2222), ..row() };
    assert_eq!(fetch_environment("env-1", Ok(Some(wide))).unwrap().port, Some(2222));
}

#[test]
fn the_transport_type_is_a_hint_alone() {
    let odd = EnvironmentRow { transport_type: "telnet".to_string(), ..row() };
    let info = fetch_environment("env-1", Ok(Some(odd))).unwrap();
    let made = build_transport("env-1", &info, Some(SshAuth::Password), None, None).unwrap();
    assert_eq!(made.host.user, "root");
    assert!(made.pod.is_none());
}

#[test]
fn a_database_error_is_a_connection_error() {
    let lookup = fetch_environment("env-1", Err("locked".to_string()));
    assert!(matches!(lookup, Err(PoolError::Connection(_))));
}

#[test]
fn a_pod_is_reached_over_its_host() {
    let info = fetch_environment("env-1", Ok(Some(row()))).unwrap();
    let made =
        build_transport("env-1", &info, Some(SshAuth::Password), Some("pod-a"), Some("c1")).unwrap();
    let pod = made.pod.expect("pod channel");
    assert_eq!(pod.pod, "pod-a");
    assert_eq!(pod.container.as_deref(), Some("c1"));
    assert_eq!(made.host.host, "10.0.0.1");
}

#[test]
fn a_timeout_kills_in_pods_alone() {
    assert!(spawn_timeout_kill(&TargetKey::base("env-1"), "jstat -gcutil 1").is_none());
    let mut kill =
        spawn_timeout_kill(&TargetKey::k8s("env-1", "pod-a", None), "jstat -gcutil 1").unwrap();
    assert_eq!(kill.cmd, "pkill -f '[j]stat -gcutil 1'");
    assert_eq!(kill.stage, KillStage::Load);
    kill.step(true);
    assert_eq!(kill.stage, KillStage::Connect);
    kill.step(true);
    assert_eq!(kill.stage, KillStage::Run);
    kill.step(false);
    assert_eq!(kill.stage, KillStage::Disconnect);
    kill.step(true);
    assert_eq!(kill.stage, KillStage::Ended);

    let mut kill =
        spawn_timeout_kill(&TargetKey::k8s("env-1", "pod-a", None), "jstat -gcutil 1").unwrap();
    kill.step(false);
    assert_eq!(kill.stage, KillStage::Ended);
}

#[test]
fn a_namespace_makes_another_target() {
    let plain = TargetKey::from_parts("e", Some("p"), None);
    assert_eq!(plain.clone().in_namespace(Some("")), plain);
    let one = plain.clone().in_namespace(Some("ns1"));
    assert_eq!(one.namespace.as_deref(), Some("ns1"));
    let mut pool: ExecChannelPool<u32> = ExecChannelPool::new();
    assert_eq!(pool.complete_target(one.clone(), Ok(1), 0), Ok(()));
    assert_eq!(pool.use_target(&one, 5), Some(&1));
    assert_eq!(pool.use_target(&plain, 5), None);
    assert_eq!(pool.get_or_create("e", Some("p"), None, 5), None);
    let lost = Err(PoolError::Connection("lost".to_string()));
    assert!(pool.complete_target(plain, lost, 6).is_err());
    assert_eq!(pool.connection_count(), 1);
    let info = fetch_environment("env-1", Ok(Some(row()))).unwrap();
    let auth = Some(SshAuth::Password);
    let made = build_transport_in("env-1", &info, auth, Some("p"), Some("ns1"), None).unwrap();
    assert_eq!(made.pod.unwrap().namespace.as_deref(), Some("ns1"));
}
