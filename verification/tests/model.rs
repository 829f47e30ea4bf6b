use zenoh_flow::message::{ControlMessage, DataMessage, Message};
use zenoh_flow::model::{
    clone_ports, has_unique_port_ids, ZFPeriodDescriptor, ZFPortDescriptor,
    ZFRegistryComponentArchitecture, ZFRegistryComponentTag, ZFRegistryGraph,
};
use zenoh_flow::types::{InstanceContext, ZFError};

fn port(id: &str, ty: &str) -> ZFPortDescriptor {
    ZFPortDescriptor { port_id: String::from(id), port_type: String::from(ty) }
}

#[test]
fn unique_port_ids() {
    assert!(has_unique_port_ids(&vec![]));
    assert!(has_unique_port_ids(&vec![port("a", "t")]));
    assert!(has_unique_port_ids(&vec![port("a", "t"), port("b", "t"), port("c", "t")]));
    assert!(!has_unique_port_ids(&vec![port("a", "t"), port("b", "t"), port("a", "u")]));
    assert!(!has_unique_port_ids(&vec![port("a", "t"), port("a", "t")]));
    assert!(!has_unique_port_ids(&vec![port("x", "t"), port("b", "t"), port("b", "t")]));
}

#[test]
fn ports_are_copied_in_order() {
    let ports = vec![port("b", "t"), port("a", "u")];
    assert_eq!(clone_ports(&ports), ports);
    assert_eq!(ports[0].clone(), port("b", "t"));
}

#[test]
fn registry_metadata_holds_what_it_is_given() {
    let arch = ZFRegistryComponentArchitecture {
        arch: String::from("x86_64"),
        os: String::from("linux"),
        uri: String::from("file:///lib/libnode.so"),
        checksum: String::from("abc"),
        signature: String::from("sig"),
    };
    let tag = ZFRegistryComponentTag {
        name: String::from("latest"),
        requirement_labels: vec![String::from("gpu")],
        architectures: vec![arch.clone()],
    };
    let graph = ZFRegistryGraph {
        id: String::from("node"),
        classes: vec![String::from("operator")],
        tags: vec![tag.clone()],
        inputs: vec![port("in", "t")],
        outputs: vec![port("out", "t")],
        period: Some(ZFPeriodDescriptor { duration: 10, unit: String::from("ms") }),
    };
    let copy = graph.clone();
    assert_eq!(copy, graph);
    assert_eq!(copy.tags[0].architectures[0], arch);
    assert_eq!(copy.tags[0], tag);
}

#[test]
fn messages_are_copied_whole() {
    let data = Message::from_data(vec![1, 2, 3], 42);
    assert_eq!(data, Message::Data(DataMessage { payload: vec![1, 2, 3], timestamp: 42 }));
    assert_eq!(data.clone(), data);
    assert!(data.is_data());
    let control = Message::Control(ControlMessage::Watermark { timestamp: 7 });
    assert_eq!(control.clone(), control);
    assert!(!control.is_data());
}

#[test]
fn errors_and_contexts_are_copied_whole() {
    for e in [
        ZFError::ParsingError(String::from("p")),
        ZFError::Unimplemented,
        ZFError::VersionMismatch,
        ZFError::MissingState,
        ZFError::NodeNotFound(String::from("n")),
        ZFError::IOError(String::from("io")),
        ZFError::LinkClosed,
    ] {
        assert_eq!(e.clone(), e);
    }
    let ctx = InstanceContext {
        flow_id: String::from("f"),
        instance_id: String::from("i"),
        runtime_id: String::from("r"),
    };
    assert_eq!(ctx.clone(), ctx);
}
