use midi_synthesizer_autoconnect::port::{
    PORT_CAP_READ, PORT_CAP_WRITE, PORT_TYPE_APPLICATION, PORT_TYPE_MIDI_GENERIC,
    PORT_TYPE_SYNTHESIZER,
};
use midi_synthesizer_autoconnect::{
    Addr, ConnectDecision, Detection, Event, InitStatus, PortClass, Port, Subscription, Summary,
    Warning, auto_connect, classify, confirmation_notes, connect, connect_all, connections_to,
    contains_tags, find_subscription, handle, is_midi_source, is_synthetizer, midi_sources,
    synthetizer,
};

fn addr(client: i32, port: i32) -> Addr {
    Addr { client, port }
}

fn port(client: i32, name: &str, port_type: u32, capability: u32) -> Port {
    Port { addr: addr(client, 0), name: name.to_string(), port_type, capability }
}

fn synth(client: i32) -> Port {
    port(client, "FluidSynth", PORT_TYPE_SYNTHESIZER | PORT_TYPE_APPLICATION, PORT_CAP_WRITE)
}

fn source(client: i32) -> Port {
    port(client, "Keyboard", PORT_TYPE_MIDI_GENERIC, PORT_CAP_READ | PORT_CAP_WRITE)
}

fn other(client: i32) -> Port {
    port(client, "Through", PORT_TYPE_APPLICATION, PORT_CAP_READ)
}

fn sub(sender: Addr, dest: Addr) -> Subscription {
    Subscription { sender, dest }
}

#[test]
fn tags_are_tested_bit_by_bit() {
    assert!(contains_tags(PORT_TYPE_SYNTHESIZER | PORT_TYPE_APPLICATION, PORT_TYPE_SYNTHESIZER));
    assert!(!contains_tags(PORT_TYPE_APPLICATION, PORT_TYPE_SYNTHESIZER));
    assert!(contains_tags(0, 0));
    assert!(!contains_tags(PORT_CAP_WRITE, PORT_CAP_READ | PORT_CAP_WRITE));
}

#[test]
fn classification_of_each_kind() {
    assert!(is_synthetizer(&synth(1)));
    assert!(!is_midi_source(&synth(1)));
    assert!(is_midi_source(&source(2)));
    assert!(!is_synthetizer(&source(2)));
    assert_eq!(classify(&synth(1)), PortClass::Synthesizer);
    assert_eq!(classify(&source(2)), PortClass::MidiSource);
    assert_eq!(classify(&other(3)), PortClass::Unrecognized);
}

#[test]
fn midi_source_needs_read_capability() {
    let p = port(4, "Out only", PORT_TYPE_MIDI_GENERIC, PORT_CAP_WRITE);
    assert!(!is_midi_source(&p));
    assert_eq!(classify(&p), PortClass::Unrecognized);
}

#[test]
fn both_tags_classify_as_synthesizer() {
    let p = port(5, "Both", PORT_TYPE_SYNTHESIZER | PORT_TYPE_MIDI_GENERIC, PORT_CAP_READ);
    assert!(is_synthetizer(&p));
    assert!(is_midi_source(&p));
    assert_eq!(classify(&p), PortClass::Synthesizer);
    assert_eq!(midi_sources(&vec![p]), Vec::<Addr>::new());
}

#[test]
fn first_synthesizer_is_first_tagged_entry() {
    let ports = vec![source(1), other(2), synth(3), synth(4)];
    assert_eq!(synthetizer(&ports), Some(2));
    assert_eq!(synthetizer(&ports), Some(2));
    assert_eq!(synthetizer(&vec![synth(4), synth(3)]), Some(0));
    assert_eq!(synthetizer(&vec![source(1), other(2)]), None);
    assert_eq!(synthetizer(&vec![]), None);
}

#[test]
fn sources_keep_enumeration_order() {
    let ports = vec![source(7), synth(1), other(2), source(5)];
    assert_eq!(midi_sources(&ports), vec![addr(7, 0), addr(5, 0)]);
}

#[test]
fn connections_go_from_each_sender() {
    let d = addr(9, 1);
    assert_eq!(
        connections_to(&vec![addr(1, 0), addr(2, 3)], d),
        vec![sub(addr(1, 0), d), sub(addr(2, 3), d)]
    );
    assert!(connections_to(&vec![], d).is_empty());
}

#[test]
fn init_connects_every_source_to_the_synthesizer() {
    let ports = vec![source(1), synth(2), source(3), other(4), source(5)];
    let plan = connect_all(&ports);
    assert_eq!(plan.synthesizer, Some(addr(2, 0)));
    assert_eq!(plan.sources, vec![addr(1, 0), addr(3, 0), addr(5, 0)]);
    assert_eq!(plan.connections.len(), 3);
    assert_eq!(
        plan.connections,
        vec![sub(addr(1, 0), addr(2, 0)), sub(addr(3, 0), addr(2, 0)), sub(addr(5, 0), addr(2, 0))]
    );
    assert!(plan.warnings.is_empty());
    assert_eq!(plan.status, InitStatus { synthesizer_found: true, sources_found: true });
    assert_eq!(plan.status.summary(), Summary::WaitingForMoreSources);
}

#[test]
fn init_with_synthesizer_and_no_source() {
    let plan = connect_all(&vec![other(1), synth(2)]);
    assert_eq!(plan.synthesizer, Some(addr(2, 0)));
    assert!(plan.connections.is_empty());
    assert_eq!(plan.warnings, vec![Warning::NoMidiSources]);
    assert_eq!(plan.status, InitStatus { synthesizer_found: true, sources_found: false });
    assert_eq!(plan.status.summary(), Summary::WaitingForSources);
}

#[test]
fn init_without_synthesizer_lists_sources() {
    let plan = connect_all(&vec![source(1), source(2)]);
    assert_eq!(plan.synthesizer, None);
    assert_eq!(plan.sources, vec![addr(1, 0), addr(2, 0)]);
    assert!(plan.connections.is_empty());
    assert_eq!(plan.warnings, vec![Warning::NoSynthesizer]);
    assert_eq!(plan.status.summary(), Summary::WaitingForSynthesizer);
}

#[test]
fn init_on_empty_graph() {
    let plan = connect_all(&vec![]);
    assert_eq!(plan.synthesizer, None);
    assert!(plan.sources.is_empty());
    assert!(plan.connections.is_empty());
    assert_eq!(plan.warnings, vec![Warning::NoSynthesizer, Warning::NoMidiSources]);
    assert_eq!(plan.status, InitStatus { synthesizer_found: false, sources_found: false });
    assert_eq!(plan.status.summary(), Summary::WaitingForSynthesizerAndSources);
}

#[test]
fn summary_messages() {
    assert_eq!(Summary::WaitingForMoreSources.message(), "Waiting for more MIDI sources");
    assert_eq!(Summary::WaitingForSources.message(), "Waiting for MIDI sources");
    assert_eq!(Summary::WaitingForSynthesizer.message(), "Waiting for a synthetizer");
    assert_eq!(
        Summary::WaitingForSynthesizerAndSources.message(),
        "Waiting for a synthetizer and MIDI sources"
    );
    assert_eq!(Warning::NoMidiSources.message(), "No MIDI sources available");
    assert_eq!(Warning::NoSynthesizer.message(), "Cannot connect: no synthetizer available");
    assert_eq!(Detection::Synthesizer.label(), "Synthetizer");
    assert_eq!(Detection::MidiSource.label(), "Midi source");
    assert_eq!(Detection::Unknown.label(), "Unknown seq port");
}

#[test]
fn new_synthesizer_receives_every_source() {
    let s = synth(8);
    let ports = vec![source(1), source(2), s.clone()];
    let r = auto_connect(&s, &ports);
    assert_eq!(r.detected, Detection::Synthesizer);
    assert_eq!(r.connections, vec![sub(addr(1, 0), addr(8, 0)), sub(addr(2, 0), addr(8, 0))]);
    assert_eq!(r.warning, None);
}

#[test]
fn new_synthesizer_without_sources_warns() {
    let s = synth(8);
    let r = auto_connect(&s, &vec![s.clone()]);
    assert_eq!(r.detected, Detection::Synthesizer);
    assert!(r.connections.is_empty());
    assert_eq!(r.warning, Some(Warning::NoMidiSources));
}

#[test]
fn new_source_goes_to_first_synthesizer() {
    let k = source(6);
    let ports = vec![synth(3), k.clone(), synth(4)];
    let r = auto_connect(&k, &ports);
    assert_eq!(r.detected, Detection::MidiSource);
    assert_eq!(r.connections, vec![sub(addr(6, 0), addr(3, 0))]);
    assert_eq!(r.warning, None);
}

#[test]
fn new_source_without_synthesizer_warns() {
    let k = source(6);
    let r = auto_connect(&k, &vec![k.clone()]);
    assert_eq!(r.detected, Detection::MidiSource);
    assert!(r.connections.is_empty());
    assert_eq!(r.warning, Some(Warning::NoSynthesizer));
}

#[test]
fn unknown_port_is_only_reported() {
    let o = other(9);
    let r = auto_connect(&o, &vec![synth(1), source(2), o.clone()]);
    assert_eq!(r.detected, Detection::Unknown);
    assert!(r.connections.is_empty());
    assert_eq!(r.warning, None);
}

#[test]
fn synthesizer_then_source_connect_once() {
    let s = synth(1);
    let k = source(2);
    let first = auto_connect(&s, &vec![s.clone()]);
    let second = auto_connect(&k, &vec![s.clone(), k.clone()]);
    let mut all = first.connections.clone();
    all.extend(second.connections.clone());
    assert_eq!(all, vec![sub(addr(2, 0), addr(1, 0))]);
}

#[test]
fn events_name_the_port_to_look_up() {
    assert_eq!(handle(&Event::PortStarted(addr(20, 1))), Some(addr(20, 1)));
    assert_eq!(handle(&Event::Other), None);
}

#[test]
fn lookup_finds_first_matching_pair() {
    let a = addr(1, 0);
    let b = addr(2, 0);
    let subs = vec![sub(b, a), sub(a, addr(3, 0)), sub(a, b), sub(a, b)];
    assert_eq!(find_subscription(&subs, a, b), Some(2));
    assert_eq!(find_subscription(&subs, b, b), None);
    assert_eq!(find_subscription(&vec![], a, b), None);
}

#[test]
fn connecting_twice_creates_once() {
    let a = addr(1, 0);
    let b = addr(2, 0);
    let mut subs = vec![sub(a, addr(3, 0))];
    let first = connect(&subs, a, b);
    assert_eq!(first, ConnectDecision::Create(sub(a, b)));
    assert!(first.created());
    subs.push(first.subscription());
    let second = connect(&subs, a, b);
    assert_eq!(second, ConnectDecision::AlreadyConnected(sub(a, b)));
    assert!(!second.created());
    assert_eq!(second.subscription(), sub(a, b));
    assert_eq!(subs.iter().filter(|s| s.sender == a && s.dest == b).count(), 1);
}

#[test]
fn confirmation_only_for_new_subscriptions() {
    assert_eq!(confirmation_notes(true), vec![60u8, 64, 69]);
    assert!(confirmation_notes(false).is_empty());
    let a = addr(1, 0);
    let b = addr(2, 0);
    let existing = connect(&vec![sub(a, b)], a, b);
    assert!(confirmation_notes(existing.created()).is_empty());
}
