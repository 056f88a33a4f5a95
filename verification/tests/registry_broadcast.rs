use ptrack::registry::{LocalEndpoint, Registry};
use ptrack::relay::relay_text;

fn local_registry() -> Registry<LocalEndpoint> {
    Registry::new(String::from("save"))
}

fn inbox(reg: &Registry<LocalEndpoint>, i: usize) -> Vec<String> {
    reg.connections[i].endpoint.inbox.clone()
}

#[test]
fn register_assigns_positions_in_order() {
    let mut reg = local_registry();
    assert_eq!(reg.register(LocalEndpoint::new(), false), 0);
    assert_eq!(reg.register(LocalEndpoint::new(), true), 1);
    assert_eq!(reg.register(LocalEndpoint::new(), false), 2);
    assert_eq!(reg.connections.len(), 3);
    assert!(reg.connections[1].is_leader);
    assert!(!reg.connections[0].is_leader);
}

#[test]
fn broadcast_delivers_to_all_including_sender() {
    let mut reg = local_registry();
    for _ in 0..4 {
        reg.register(LocalEndpoint::new(), false);
    }
    reg.broadcast(&String::from("position update"));
    assert_eq!(reg.connections.len(), 4);
    for i in 0..4 {
        assert_eq!(inbox(&reg, i), vec![String::from("position update")]);
    }
}

#[test]
fn single_failure_removes_exactly_the_failing_connection() {
    let mut reg = local_registry();
    reg.register(LocalEndpoint::new(), false);
    let mut broken = LocalEndpoint::new();
    broken.break_channel();
    reg.register(broken, false);
    reg.register(LocalEndpoint::new(), false);

    reg.broadcast(&String::from("m"));

    assert_eq!(reg.connections.len(), 2);
    assert_eq!(reg.connections[0].ordinal, 0);
    assert_eq!(reg.connections[1].ordinal, 2);
    assert_eq!(inbox(&reg, 0), vec![String::from("m")]);
    assert_eq!(inbox(&reg, 1), vec![String::from("m")]);
}

#[test]
fn only_lowest_failing_connection_is_removed_per_pass() {
    let mut reg = local_registry();
    let mut b0 = LocalEndpoint::new();
    b0.break_channel();
    let mut b2 = LocalEndpoint::new();
    b2.break_channel();
    reg.register(b0, false);
    reg.register(LocalEndpoint::new(), false);
    reg.register(b2, false);

    reg.broadcast(&String::from("first"));
    assert_eq!(reg.connections.len(), 2);
    assert_eq!(reg.connections[0].ordinal, 1);
    assert_eq!(reg.connections[1].ordinal, 2);

    reg.broadcast(&String::from("second"));
    assert_eq!(reg.connections.len(), 1);
    assert_eq!(reg.connections[0].ordinal, 1);
    assert_eq!(
        inbox(&reg, 0),
        vec![String::from("first"), String::from("second")]
    );
}

#[test]
fn three_clients_one_breaks_mid_session() {
    let mut reg = local_registry();
    reg.register(LocalEndpoint::new(), false); // A
    reg.register(LocalEndpoint::new(), false); // B
    reg.register(LocalEndpoint::new(), false); // C

    relay_text(&mut reg, String::from("{\"x\":1}"));
    assert_eq!(reg.connections.len(), 3);
    for i in 0..3 {
        assert_eq!(inbox(&reg, i), vec![String::from("{\"x\":1}")]);
    }

    reg.connections[1].endpoint.break_channel(); // B's channel fails

    relay_text(&mut reg, String::from("{\"x\":2}"));
    assert_eq!(reg.connections.len(), 2);
    assert_eq!(reg.connections[0].ordinal, 0); // A
    assert_eq!(reg.connections[1].ordinal, 2); // C
    assert_eq!(
        inbox(&reg, 0),
        vec![String::from("{\"x\":1}"), String::from("{\"x\":2}")]
    );
    assert_eq!(
        inbox(&reg, 1),
        vec![String::from("{\"x\":1}"), String::from("{\"x\":2}")]
    );
}

#[test]
fn broadcast_to_an_empty_registry_is_a_no_op() {
    let mut reg = local_registry();
    reg.broadcast(&String::from("{}"));
    relay_text(&mut reg, String::from("{}"));
    assert_eq!(reg.connections.len(), 0);
}

#[test]
fn save_dir_is_carried_unchanged() {
    let mut reg = local_registry();
    reg.register(LocalEndpoint::new(), false);
    reg.broadcast(&String::from("{}"));
    assert_eq!(reg.save_dir, String::from("save"));
}
