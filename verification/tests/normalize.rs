use msgflo::normalize::{default_queue, normalize_info, normalize_info_with, Options};
use msgflo::participant::{Info, InfoBuilder, Port};

fn port(id: &str, queue: &str) -> Port {
    Port { id: id.to_string(), queue: queue.to_string() }
}

fn options(role: &str) -> Options {
    Options { role: role.to_string(), broker: "amqp://localhost//".to_string() }
}

fn repeat_info() -> Info {
    InfoBuilder::new("rust/Repeat").label("Repeats input as-is").inport("in").outport("out").build()
}

#[test]
fn default_queue_is_role_dot_upper_port() {
    assert_eq!(default_queue("repeat".to_string(), "in".to_string()), "repeat.IN");
    assert_eq!(default_queue("r".to_string(), "outPort".to_string()), "r.OUTPORT");
    assert_eq!(default_queue("".to_string(), "".to_string()), ".");
}

#[test]
fn options_default() {
    let o = Options::default();
    assert_eq!(o.broker, "amqp://localhost//");
    assert_eq!(o.role, "");
}

#[test]
fn requested_role_wins() {
    let mut b = InfoBuilder::new("c");
    b.role("own").inport("in");
    let n = normalize_info_with(&b.build(), &options("asked"), "abcde", "xyz12");
    assert_eq!(n.role, "asked");
    assert_eq!(n.id, "asked-xyz12");
    assert_eq!(n.inports, vec![port("in", "asked.IN")]);
}

#[test]
fn own_role_kept_without_request() {
    let mut b = InfoBuilder::new("c");
    b.role("own").outport("out");
    let n = normalize_info_with(&b.build(), &options(""), "abcde", "xyz12");
    assert_eq!(n.role, "own");
    assert_eq!(n.id, "own-xyz12");
    assert_eq!(n.outports, vec![port("out", "own.OUT")]);
}

#[test]
fn generated_role_without_any() {
    let n = normalize_info_with(&repeat_info(), &options(""), "abcde", "xyz12");
    assert_eq!(n.role, "msgflo-rust-abcde");
    assert_eq!(n.id, "msgflo-rust-abcde-xyz12");
    assert_eq!(n.inports, vec![port("in", "msgflo-rust-abcde.IN")]);
    assert_eq!(n.outports, vec![port("out", "msgflo-rust-abcde.OUT")]);
    assert_eq!(n.component, "rust/Repeat");
    assert_eq!(n.label, Some("Repeats input as-is".to_string()));
}

#[test]
fn given_queue_is_kept() {
    let mut info = repeat_info();
    info.inports[0].queue = "rustparty.IN".to_string();
    let n = normalize_info_with(&info, &options("r"), "abcde", "xyz12");
    assert_eq!(n.inports, vec![port("in", "rustparty.IN")]);
    assert_eq!(n.outports, vec![port("out", "r.OUT")]);
}

#[test]
fn normalizing_twice_changes_only_the_id() {
    let once = normalize_info_with(&repeat_info(), &options(""), "abcde", "xyz12");
    let twice = normalize_info_with(&once, &options(""), "QQQQQ", "77777");
    assert_eq!(twice.role, once.role);
    assert_eq!(twice.inports, once.inports);
    assert_eq!(twice.outports, once.outports);
    assert_eq!(twice.id, "msgflo-rust-abcde-77777");
}

#[test]
fn normalized_is_runnable() {
    let n = normalize_info_with(&repeat_info(), &options(""), "", "");
    assert!(!n.role.is_empty());
    assert!(n.inports.iter().all(|p| !p.queue.is_empty()));
    assert!(n.outports.iter().all(|p| !p.queue.is_empty()));
}

#[test]
fn random_normalization_shape() {
    let n = normalize_info(&repeat_info(), &options(""));
    assert!(n.role.starts_with("msgflo-rust-"));
    let suffix = &n.role["msgflo-rust-".len()..];
    assert_eq!(suffix.chars().count(), 5);
    assert!(suffix.chars().all(|c| c.is_ascii_alphanumeric()));
    let id_prefix = format!("{}-", n.role);
    assert!(n.id.starts_with(&id_prefix));
    let id_suffix = &n.id[id_prefix.len()..];
    assert_eq!(id_suffix.chars().count(), 5);
    assert!(id_suffix.chars().all(|c| c.is_ascii_alphanumeric()));
    assert_eq!(n.inports, vec![port("in", &format!("{}.IN", n.role))]);
}

#[test]
fn random_normalization_with_requested_role() {
    let n = normalize_info(&repeat_info(), &options("repeat"));
    assert_eq!(n.role, "repeat");
    assert!(n.id.starts_with("repeat-"));
    assert_eq!(n.id.len(), "repeat-".len() + 5);
    assert_eq!(n.outports, vec![port("out", "repeat.OUT")]);
}
