use aesir_cloud::daemon::Daemon;
use aesir_cloud::daemon::UnregisterOutcome;
use aesir_cloud::errors::CloudError;
use aesir_cloud::instance::Instance;
use aesir_cloud::loader::config::LoaderConfig;
use aesir_cloud::minecraft_version::MinecraftVersion;

fn sample(id: &str, port: u16) -> Instance {
    Instance {
        server_id: id.to_string(),
        server_name: format!("{} display", id),
        is_persistent: true,
        loader: LoaderConfig::Paper { version: MinecraftVersion::V1_21_10 },
        port,
        max_player: 20,
        started: false,
        heartbeat_started: false,
        last_heartbeat: 0,
    }
}

#[test]
fn register_accepts_fresh_id() {
    let mut d = Daemon::default();
    assert!(d.register(sample("s1", 25571)).is_ok());
    assert_eq!(d.server_list.len(), 1);
    assert_eq!(d.server_list[0].server_id, "s1");
}

#[test]
fn register_keeps_registration_order() {
    let mut d = Daemon::default();
    assert!(d.register(sample("a", 25570)).is_ok());
    assert!(d.register(sample("b", 25571)).is_ok());
    assert!(d.register(sample("c", 25572)).is_ok());
    let ids: Vec<&str> = d.server_list.iter().map(|i| i.server_id.as_str()).collect();
    assert_eq!(ids, vec!["a", "b", "c"]);
}

#[test]
fn duplicate_registration_is_refused_and_registry_unchanged() {
    let mut d = Daemon::default();
    assert!(d.register(sample("s1", 25571)).is_ok());
    let before: Vec<String> = d.server_list.iter().map(|i| i.server_id.clone()).collect();
    let second = d.register(sample("s1", 25572));
    assert!(matches!(second, Err(CloudError::InstanceAlreadyExists)));
    let after: Vec<String> = d.server_list.iter().map(|i| i.server_id.clone()).collect();
    assert_eq!(before, after);
    assert_eq!(d.server_list.len(), 1);
    assert_eq!(d.server_list[0].port, 25571);
}

#[test]
fn get_instance_finds_registered_id() {
    let mut d = Daemon::default();
    assert!(d.register(sample("alpha", 25570)).is_ok());
    assert!(d.register(sample("beta", 25571)).is_ok());
    let idx = d.get_instance(&"beta".to_string());
    assert_eq!(idx, Some(1));
    assert_eq!(d.get_instance(&"gamma".to_string()), None);
    assert!(d.has_instance(&"alpha".to_string()));
    assert!(!d.has_instance(&"delta".to_string()));
}

#[test]
fn unregister_removes_only_stopped_instances() {
    let mut d = Daemon::default();
    assert_eq!(d.unregister(&"ghost".to_string()), UnregisterOutcome::NotFound);
    assert!(d.register(sample("s1", 25571)).is_ok());
    d.server_list[0].mark_started();
    assert_eq!(d.unregister(&"s1".to_string()), UnregisterOutcome::StillStarted);
    assert_eq!(d.server_list.len(), 1);
    d.server_list[0].reclaim();
    assert_eq!(d.unregister(&"s1".to_string()), UnregisterOutcome::Removed);
    assert!(d.server_list.is_empty());
}

#[test]
fn unregister_frees_the_instances_port() {
    let mut d = Daemon::default();
    assert!(d.claim_port(25571).is_ok());
    assert!(d.register(sample("s1", 25571)).is_ok());
    assert_eq!(d.unregister(&"s1".to_string()), UnregisterOutcome::Removed);
    assert!(!d.used_ports.contains(&25571));
    assert!(d.claim_port(25571).is_ok());
}

#[test]
fn workspace_layout_of_persistent_instance() {
    let i = sample("s1", 25571);
    assert_eq!(i.workspace_dir(), "running/static/s1");
    assert_eq!(i.eula_path(), "running/static/s1/eula.txt");
    assert_eq!(i.metadata_path(), "running/static/s1/aesir.config");
    assert_eq!(i.properties_path(), "running/static/s1/server.properties");
}

#[test]
fn workspace_layout_of_ephemeral_instance() {
    let mut i = sample("tmp9", 25580);
    i.is_persistent = false;
    assert_eq!(i.workspace_dir(), "running/disposable/tmp9");
}

#[test]
fn workspace_file_contents() {
    let i = sample("s1", 25571);
    assert_eq!(aesir_cloud::instance::eula_contents(), "eula=true");
    assert_eq!(i.metadata_contents(), "server_id=s1");
    assert_eq!(i.properties_contents(), "max-players=20\nserver-port=25571");
}

#[test]
fn properties_contents_render_any_capacity_and_port() {
    let mut i = sample("s2", 25589);
    i.max_player = 0;
    assert_eq!(i.properties_contents(), "max-players=0\nserver-port=25589");
    i.max_player = 65535;
    i.port = 1;
    assert_eq!(i.properties_contents(), "max-players=65535\nserver-port=1");
}
