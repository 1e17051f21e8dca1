use msgflo::participant::{Info, InfoBuilder, Port};

fn port(id: &str, queue: &str) -> Port {
    Port { id: id.to_string(), queue: queue.to_string() }
}

#[test]
fn builder_new_sets_only_component() {
    let info = InfoBuilder::new("rust/Repeat").build();
    assert_eq!(info.component, "rust/Repeat");
    assert_eq!(info.id, "");
    assert_eq!(info.role, "");
    assert_eq!(info.label, None);
    assert_eq!(info.icon, None);
    assert!(info.inports.is_empty());
    assert!(info.outports.is_empty());
}

#[test]
fn builder_chain_like_repeat_example() {
    let info = InfoBuilder::new("rust/Repeat")
        .label("Repeats input as-is")
        .inport("in")
        .outport("out")
        .build();
    assert_eq!(info.component, "rust/Repeat");
    assert_eq!(info.label, Some("Repeats input as-is".to_string()));
    assert_eq!(info.inports, vec![port("in", "")]);
    assert_eq!(info.outports, vec![port("out", "")]);
    assert_eq!(info.role, "");
}

#[test]
fn builder_role_and_ports_in_order() {
    let mut b = InfoBuilder::new("c");
    b.role("worker").inport("a").inport("b").outport("x");
    b.role("boss");
    let info = b.build();
    assert_eq!(info.role, "boss");
    assert_eq!(info.inports, vec![port("a", ""), port("b", "")]);
    assert_eq!(info.outports, vec![port("x", "")]);
}

#[test]
fn builder_label_set_twice_keeps_last() {
    let mut b = InfoBuilder::new("c");
    b.label("first").label("second");
    assert_eq!(b.build().label, Some("second".to_string()));
}

#[test]
fn build_leaves_builder_unchanged() {
    let mut b = InfoBuilder::new("c");
    b.inport("in");
    let first = b.build();
    let second = b.build();
    assert_eq!(first, second);
    b.outport("out");
    assert_eq!(b.build().outports.len(), 1);
    assert_eq!(first.outports.len(), 0);
}

#[test]
fn info_clone_and_default() {
    let info = InfoBuilder::new("c").label("l").inport("in").build();
    assert_eq!(info.clone(), info);
    let d = Info::default();
    assert_eq!(d.component, "");
    assert!(d.inports.is_empty());
    let p = Port::default();
    assert_eq!(p, port("", ""));
}
