use wallet_adapter::chains::Chains;
use wallet_adapter::cluster_store::{AdapterCluster, ClusterStore, ClusterStoreActions};
use wallet_adapter::formatting::{adapter_query_string, format_address_url, format_tx_url};

fn names(store: &ClusterStore) -> Vec<String> {
    store.get_clusters().iter().map(|c| c.name().to_string()).collect()
}

fn add(store: &mut ClusterStore, name: &str, endpoint: &str, network: &str) -> (String, u32, bool) {
    let (notice, render) = store.reduce(ClusterStoreActions::Add {
        name: name.to_string(),
        endpoint: endpoint.to_string(),
        network: network.to_string(),
    });
    (notice.message().to_string(), notice.secs(), render)
}

#[test]
fn new_store_has_the_four_clusters() {
    let store = ClusterStore::new();
    assert_eq!(names(&store), vec!["devnet", "localnet", "testnet", "mainnet"]);
    assert_eq!(store.active_cluster().name(), "devnet");
    assert_eq!(store.active_cluster().endpoint(), "https://api.devnet.solana.com");
}

#[test]
fn default_store_is_empty() {
    let store = ClusterStore::default();
    assert!(store.get_clusters().is_empty());
    assert!(store.get_networks().is_empty());
    assert_eq!(store.active_cluster().cluster(), Chains::DevNet);
}

#[test]
fn builtin_endpoints() {
    assert_eq!(AdapterCluster::mainnet().endpoint(), "https://api.mainnet-beta.solana.com");
    assert_eq!(AdapterCluster::testnet().endpoint(), "https://api.testnet.solana.com");
    assert_eq!(AdapterCluster::localnet().endpoint(), "http://localhost:8899");
    assert_eq!(AdapterCluster::default().name(), "devnet");
    assert_eq!(AdapterCluster::new().cluster(), Chains::DevNet);
}

#[test]
fn adding_a_fresh_cluster() {
    let mut store = ClusterStore::new();
    let (message, secs, render) = add(&mut store, "Rising Sun", "http://localhost:9000", "testnet");
    assert_eq!(message, "`Rising Sun` cluster added!");
    assert_eq!(secs, 2);
    assert!(render);
    let added = store.get_cluster("Rising Sun").unwrap();
    assert_eq!(added.endpoint(), "http://localhost:9000");
    assert_eq!(added.cluster(), Chains::TestNet);
    assert_eq!(store.get_clusters().len(), 5);
}

#[test]
fn unknown_network_means_devnet() {
    let mut store = ClusterStore::new();
    add(&mut store, "mine", "http://mine:1", "nowhere");
    assert_eq!(store.get_cluster("mine").unwrap().cluster(), Chains::DevNet);
    add(&mut store, "chain", "http://chain:1", "solana:mainnet");
    assert_eq!(store.get_cluster("chain").unwrap().cluster(), Chains::MainNet);
}

#[test]
fn clashing_cluster_is_refused() {
    let mut store = ClusterStore::new();
    let (message, secs, render) = add(&mut store, "devnet", "http://other:1", "devnet");
    assert_eq!(message, "Cluster exists, make sure endpoint or name are not the same");
    assert_eq!(secs, 5);
    assert!(render);
    let (message, _, _) = add(&mut store, "other", "http://localhost:8899", "localnet");
    assert_eq!(message, "Cluster exists, make sure endpoint or name are not the same");
    assert_eq!(store.get_clusters().len(), 4);
}

#[test]
fn add_then_remove_restores() {
    let mut store = ClusterStore::new();
    let before = names(&store);
    add(&mut store, "extra", "http://extra:1", "devnet");
    let (notice, render) = store.reduce(ClusterStoreActions::Remove { cluster_name: "extra".to_string() });
    assert_eq!(notice.message(), "`extra` removed!");
    assert_eq!(notice.secs(), 5);
    assert!(render);
    assert_eq!(names(&store), before);
}

#[test]
fn removing_an_unknown_cluster() {
    let mut store = ClusterStore::new();
    let (notice, render) = store.reduce(ClusterStoreActions::Remove { cluster_name: "nope".to_string() });
    assert_eq!(notice.message(), "`nope` cluster not found!");
    assert!(render);
    assert_eq!(store.get_clusters().len(), 4);
}

#[test]
fn setting_the_active_cluster() {
    let mut store = ClusterStore::new();
    let (notice, render) = store.reduce(ClusterStoreActions::SetActive { name: "testnet".to_string() });
    assert_eq!(notice.message(), "`testnet` cluster added!");
    assert_eq!(notice.secs(), 2);
    assert!(render);
    assert_eq!(store.active_cluster().name(), "testnet");

    let (notice, render) = store.reduce(ClusterStoreActions::SetActive { name: "gone".to_string() });
    assert_eq!(notice.message(), "`gone` cluster not found!");
    assert_eq!(notice.secs(), 5);
    assert!(!render);
    assert_eq!(store.active_cluster().name(), "testnet");
}

#[test]
fn networks_drop_repeated_neighbours() {
    let mut store = ClusterStore::default();
    add(&mut store, "a", "http://a", "devnet");
    add(&mut store, "b", "http://b", "devnet");
    add(&mut store, "c", "http://c", "mainnet");
    add(&mut store, "d", "http://d", "devnet");
    add(&mut store, "e", "http://e", "devnet");
    assert_eq!(store.get_networks(), vec![Chains::DevNet, Chains::MainNet, Chains::DevNet]);
    assert_eq!(
        ClusterStore::new().get_networks(),
        vec![Chains::DevNet, Chains::LocalNet, Chains::TestNet, Chains::MainNet]
    );
}

#[test]
fn query_string_of_builtin_clusters() {
    assert_eq!(AdapterCluster::devnet().query_string(), "?cluster=devnet");
    assert_eq!(AdapterCluster::mainnet().query_string(), "?cluster=mainnet");
    assert_eq!(AdapterCluster::testnet().query_string(), "?cluster=testnet");
    assert_eq!(
        AdapterCluster::localnet().query_string(),
        "?cluster=custom&customUrl=http%3A%2F%2Flocalhost%3A8899"
    );
}

#[test]
fn query_string_of_custom_clusters() {
    let custom = AdapterCluster::new().add_name("my node").add_endpoint("https://a.b/c?d=é");
    assert_eq!(
        custom.query_string(),
        "?cluster=custom&customUrl=https%3A%2F%2Fa%2Eb%2Fc%3Fd%3D%C3%A9"
    );
    assert_eq!(adapter_query_string(&custom), custom.query_string());
}

#[test]
fn explorer_links() {
    let devnet = AdapterCluster::devnet();
    assert_eq!(
        format_address_url("Addr", &devnet),
        "https://explorer.solana.com/address/Addr?cluster=devnet"
    );
    assert_eq!(
        format_tx_url("Sig", &AdapterCluster::localnet()),
        "https://explorer.solana.com/tx/Sig?cluster=custom&customUrl=http%3A%2F%2Flocalhost%3A8899"
    );
}

#[test]
fn chains_text() {
    assert_eq!(Chains::from_text("devnet"), Some(Chains::DevNet));
    assert_eq!(Chains::from_text("solana:testnet"), Some(Chains::TestNet));
    assert_eq!(Chains::from_text("Devnet"), None);
    assert_eq!(Chains::from_text_or_default("x"), Chains::DevNet);
    for c in [Chains::MainNet, Chains::DevNet, Chains::TestNet, Chains::LocalNet] {
        assert_eq!(Chains::from_text(c.name()), Some(c));
        assert_eq!(Chains::from_text(c.chain()), Some(c));
    }
    assert_eq!(Chains::default(), Chains::DevNet);
}
