use clashtui::display::{chain_label, conn_target, delay_label};
use clashtui::model::{Connection, ConnectionMetadata};

fn conn_to(host: &str, ip: &str) -> Connection {
    Connection {
        id: "1".to_string(),
        metadata: ConnectionMetadata {
            network: "tcp".to_string(),
            conn_type: "HTTP".to_string(),
            source_ip: "10.0.0.2".to_string(),
            destination_ip: ip.to_string(),
            source_port: "50000".to_string(),
            destination_port: "443".to_string(),
            host: host.to_string(),
        },
        upload: 0,
        download: 0,
        start: "2024-01-01T00:00:00Z".to_string(),
        chains: vec![],
        rule: "MATCH".to_string(),
    }
}

#[test]
fn chain_shown_innermost_first() {
    let chains = vec!["HK".to_string(), "Auto".to_string(), "Proxy".to_string()];
    assert_eq!(chain_label(&chains), "Proxy ← Auto ← HK");
    assert_eq!(chain_label(&vec!["HK".to_string()]), "HK");
}

#[test]
fn empty_chain_is_direct() {
    assert_eq!(chain_label(&vec![]), "DIRECT");
}

#[test]
fn target_prefers_host() {
    assert_eq!(conn_target(&conn_to("example.com", "1.1.1.1")), "example.com");
    assert_eq!(conn_target(&conn_to("", "1.1.1.1")), "1.1.1.1");
}

#[test]
fn delay_labels() {
    assert_eq!(delay_label(87), "87ms");
    assert_eq!(delay_label(0), "---");
    assert_eq!(delay_label(-1), "---");
}
