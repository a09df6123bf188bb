use vstd::prelude::*;

verus! {

/// Port type tag: a generic MIDI device.
pub const PORT_TYPE_MIDI_GENERIC: u32 = 2;

/// Port type tag: a port that renders MIDI to audio.
pub const PORT_TYPE_SYNTHESIZER: u32 = 262144;

/// Port type tag: a port that belongs to an application.
pub const PORT_TYPE_APPLICATION: u32 = 1048576;

/// Capability tag: others may read (subscribe to) the port.
pub const PORT_CAP_READ: u32 = 1;

/// Capability tag: others may write to the port.
pub const PORT_CAP_WRITE: u32 = 2;

/// The address of a port: the client that owns it and its number there.
#[derive(Clone, Copy, Debug, PartialEq, Eq, Structural)]
pub struct Addr {
    pub client: i32,
    pub port: i32,
}

/// A copy of a port's metadata, as the sequencer reported it at one moment.
///
/// `port_type` and `capability` are tag sets, one bit per tag; tags this
/// library does not know are carried along untouched.
#[derive(Clone, Debug)]
pub struct Port {
    pub addr: Addr,
    pub name: String,
    pub port_type: u32,
    pub capability: u32,
}

/// The three classes a port can fall into.
#[derive(Clone, Copy, Debug, PartialEq, Eq, Structural)]
pub enum PortClass {
    Synthesizer,
    MidiSource,
    Unrecognized,
}

/// Every tag of `tags` is in the set `set`.
pub open spec fn has_tags(set: u32, tags: u32) -> bool {
    set & tags == tags
}

pub open spec fn spec_is_synthetizer(p: Port) -> bool {
    has_tags(p.port_type, PORT_TYPE_SYNTHESIZER)
}

pub open spec fn spec_is_midi_source(p: Port) -> bool {
    has_tags(p.port_type, PORT_TYPE_MIDI_GENERIC) && has_tags(p.capability, PORT_CAP_READ)
}

/// The class of a port; the synthesizer test comes first, so a port that
/// carries both kinds of tags is a synthesizer.
pub open spec fn class_of(p: Port) -> PortClass {
    if spec_is_synthetizer(p) {
        PortClass::Synthesizer
    } else if spec_is_midi_source(p) {
        PortClass::MidiSource
    } else {
        PortClass::Unrecognized
    }
}

/// Whether the tag set `set` holds every tag of `tags`.
pub fn contains_tags(set: u32, tags: u32) -> (r: bool)
    ensures
        r == has_tags(set, tags),
{
    set & tags == tags
}

/// Whether the port's type tags mark it as a synthesizer.
pub fn is_synthetizer(p: &Port) -> (r: bool)
    ensures
        r == spec_is_synthetizer(*p),
{
    contains_tags(p.port_type, PORT_TYPE_SYNTHESIZER)
}

/// Whether the port is a generic MIDI device that others can read from.
pub fn is_midi_source(p: &Port) -> (r: bool)
    ensures
        r == spec_is_midi_source(*p),
{
    contains_tags(p.port_type, PORT_TYPE_MIDI_GENERIC) && contains_tags(
        p.capability,
        PORT_CAP_READ,
    )
}

/// Classifies a port, the synthesizer test first.
pub fn classify(p: &Port) -> (r: PortClass)
    ensures
        r == class_of(*p),
{
    if is_synthetizer(p) {
        PortClass::Synthesizer
    } else if is_midi_source(p) {
        PortClass::MidiSource
    } else {
        PortClass::Unrecognized
    }
}

/// Every port falls into exactly one class: a synthesizer when it carries
/// the synthesizer tag (whatever else it carries), else a MIDI source when it
/// qualifies as one, else unrecognized.
pub proof fn lemma_classification_total(p: Port)
    ensures
        (class_of(p) == PortClass::Synthesizer) == spec_is_synthetizer(p),
        (class_of(p) == PortClass::MidiSource) == (!spec_is_synthetizer(p) && spec_is_midi_source(
            p,
        )),
        (class_of(p) == PortClass::Unrecognized) == (!spec_is_synthetizer(p)
            && !spec_is_midi_source(p)),
{
}

} // verus!
