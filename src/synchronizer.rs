use vstd::prelude::*;

use crate::port::{
    Addr, Port, PortClass, class_of, classify, is_synthetizer, spec_is_synthetizer,
};
use crate::subscription::Subscription;

verus! {

/// The first position of `ports` that holds a synthesizer, in enumeration order.
pub open spec fn first_synthetizer(ports: Seq<Port>) -> Option<int>
    decreases ports.len(),
{
    if ports.len() == 0 {
        None
    } else {
        match first_synthetizer(ports.drop_last()) {
            Some(i) => Some(i),
            None => if spec_is_synthetizer(ports.last()) {
                Some(ports.len() - 1)
            } else {
                None
            },
        }
    }
}

/// The address of the first synthesizer of `ports`, if there is one.
pub open spec fn synthetizer_addr(ports: Seq<Port>) -> Option<Addr> {
    match first_synthetizer(ports) {
        Some(i) => Some(ports[i].addr),
        None => None,
    }
}

/// The addresses of the ports of `ports` classed as MIDI sources, in
/// enumeration order; a port that is also tagged as a synthesizer is none.
pub open spec fn source_addrs(ports: Seq<Port>) -> Seq<Addr>
    decreases ports.len(),
{
    if ports.len() == 0 {
        Seq::empty()
    } else if class_of(ports.last()) == PortClass::MidiSource {
        source_addrs(ports.drop_last()).push(ports.last().addr)
    } else {
        source_addrs(ports.drop_last())
    }
}

/// One subscription from each sender of `senders` to `dest`, in order.
pub open spec fn links(senders: Seq<Addr>, dest: Addr) -> Seq<Subscription> {
    senders.map_values(|a: Addr| Subscription { sender: a, dest })
}

proof fn lemma_first_synthetizer_stays(ports: Seq<Port>, k: int, n: int)
    requires
        0 <= k <= n <= ports.len(),
        first_synthetizer(ports.subrange(0, k)) is Some,
    ensures
        first_synthetizer(ports.subrange(0, n)) == first_synthetizer(ports.subrange(0, k)),
    decreases n - k,
{
    if n > k {
        lemma_first_synthetizer_stays(ports, k, n - 1);
        assert(ports.subrange(0, n).drop_last() =~= ports.subrange(0, n - 1));
    }
}

/// The first synthesizer is the entry that carries the synthesizer tag and
/// has none before it: the choice depends on the enumeration order alone.
pub proof fn lemma_first_synthetizer_is_first_tagged(ports: Seq<Port>)
    ensures
        first_synthetizer(ports) matches Some(i) ==> 0 <= i < ports.len() && spec_is_synthetizer(
            ports[i],
        ) && forall|j: int| 0 <= j < i ==> !spec_is_synthetizer(#[trigger] ports[j]),
        first_synthetizer(ports) is None ==> forall|j: int|
            0 <= j < ports.len() ==> !spec_is_synthetizer(#[trigger] ports[j]),
    decreases ports.len(),
{
    if ports.len() > 0 {
        let init = ports.drop_last();
        lemma_first_synthetizer_is_first_tagged(init);
        assert forall|j: int| 0 <= j < init.len() implies init[j] == ports[j] by {}
    }
}

/// Finds the first synthesizer of `ports`, in enumeration order.
pub fn synthetizer(ports: &Vec<Port>) -> (r: Option<usize>)
    ensures
        r matches Some(i) ==> i < ports@.len() && first_synthetizer(ports@) == Some(i as int),
        r is None ==> first_synthetizer(ports@) is None,
{
    let mut i: usize = 0;
    while i < ports.len()
        invariant
            i <= ports@.len(),
            first_synthetizer(ports@.subrange(0, i as int)) is None,
        decreases ports@.len() - i,
    {
        assert(ports@.subrange(0, i + 1).drop_last() =~= ports@.subrange(0, i as int));
        if is_synthetizer(&ports[i]) {
            proof {
                lemma_first_synthetizer_stays(ports@, i + 1, ports@.len() as int);
                assert(ports@.subrange(0, ports@.len() as int) =~= ports@);
            }
            return Some(i);
        }
        i = i + 1;
    }
    assert(ports@.subrange(0, i as int) =~= ports@);
    None
}

/// The addresses of the ports of `ports` classed as MIDI sources, in
/// enumeration order.
pub fn midi_sources(ports: &Vec<Port>) -> (r: Vec<Addr>)
    ensures
        r@ == source_addrs(ports@),
{
    let mut r: Vec<Addr> = Vec::new();
    let mut i: usize = 0;
    while i < ports.len()
        invariant
            i <= ports@.len(),
            r@ == source_addrs(ports@.subrange(0, i as int)),
        decreases ports@.len() - i,
    {
        assert(ports@.subrange(0, i + 1).drop_last() =~= ports@.subrange(0, i as int));
        if classify(&ports[i]) == PortClass::MidiSource {
            r.push(ports[i].addr);
        }
        i = i + 1;
    }
    assert(ports@.subrange(0, i as int) =~= ports@);
    r
}

/// One subscription from each of `senders` to `dest`, in the senders' order.
pub fn connections_to(senders: &Vec<Addr>, dest: Addr) -> (r: Vec<Subscription>)
    ensures
        r@ == links(senders@, dest),
{
    let mut r: Vec<Subscription> = Vec::new();
    let mut i: usize = 0;
    while i < senders.len()
        invariant
            i <= senders@.len(),
            r@ == links(senders@.subrange(0, i as int), dest),
        decreases senders@.len() - i,
    {
        r.push(Subscription { sender: senders[i], dest });
        i = i + 1;
        assert(r@ =~= links(senders@.subrange(0, i as int), dest));
    }
    assert(senders@.subrange(0, i as int) =~= senders@);
    r
}

/// A condition worth a warning to the operator.
#[derive(Clone, Copy, Debug, PartialEq, Eq, Structural)]
pub enum Warning {
    NoMidiSources,
    NoSynthesizer,
}

/// How a port that just appeared was recognised.
#[derive(Clone, Copy, Debug, PartialEq, Eq, Structural)]
pub enum Detection {
    Synthesizer,
    MidiSource,
    Unknown,
}

impl Warning {
    /// The operator-facing text of the warning.
    pub fn message(&self) -> (r: &'static str)
        ensures
            r@ == (match *self {
                Warning::NoMidiSources => "No MIDI sources available"@,
                Warning::NoSynthesizer => "Cannot connect: no synthetizer available"@,
            }),
    {
        match self {
            Warning::NoMidiSources => "No MIDI sources available",
            Warning::NoSynthesizer => "Cannot connect: no synthetizer available",
        }
    }
}

impl Detection {
    /// The operator-facing name of what was detected.
    pub fn label(&self) -> (r: &'static str)
        ensures
            r@ == (match *self {
                Detection::Synthesizer => "Synthetizer"@,
                Detection::MidiSource => "Midi source"@,
                Detection::Unknown => "Unknown seq port"@,
            }),
    {
        match self {
            Detection::Synthesizer => "Synthetizer",
            Detection::MidiSource => "Midi source",
            Detection::Unknown => "Unknown seq port",
        }
    }
}

/// An event delivered by the watch loop, as far as the synchronizer cares.
#[derive(Clone, Copy, Debug, PartialEq, Eq, Structural)]
pub enum Event {
    /// A port has appeared at this address.
    PortStarted(Addr),
    /// Any other event.
    Other,
}

/// The port whose arrival `event` reports, which is to be looked up and
/// reacted to; `None` for an event that is only traced.
pub fn handle(event: &Event) -> (r: Option<Addr>)
    ensures
        r == (match *event {
            Event::PortStarted(a) => Some(a),
            Event::Other => None,
        }),
{
    match event {
        Event::PortStarted(a) => Some(*a),
        Event::Other => None,
    }
}

/// What the first pass over the graph found.
#[derive(Clone, Copy, Debug, PartialEq, Eq, Structural)]
pub struct InitStatus {
    pub synthesizer_found: bool,
    pub sources_found: bool,
}

/// The summary given to the operator once the first pass is done.
#[derive(Clone, Copy, Debug, PartialEq, Eq, Structural)]
pub enum Summary {
    WaitingForMoreSources,
    WaitingForSources,
    WaitingForSynthesizer,
    WaitingForSynthesizerAndSources,
}

pub open spec fn summary_of(s: InitStatus) -> Summary {
    if s.synthesizer_found && s.sources_found {
        Summary::WaitingForMoreSources
    } else if s.synthesizer_found {
        Summary::WaitingForSources
    } else if s.sources_found {
        Summary::WaitingForSynthesizer
    } else {
        Summary::WaitingForSynthesizerAndSources
    }
}

impl InitStatus {
    /// The summary for this outcome of the first pass.
    pub fn summary(&self) -> (r: Summary)
        ensures
            r == summary_of(*self),
    {
        if self.synthesizer_found && self.sources_found {
            Summary::WaitingForMoreSources
        } else if self.synthesizer_found {
            Summary::WaitingForSources
        } else if self.sources_found {
            Summary::WaitingForSynthesizer
        } else {
            Summary::WaitingForSynthesizerAndSources
        }
    }
}

impl Summary {
    /// The operator-facing text of the summary.
    pub fn message(&self) -> (r: &'static str)
        ensures
            r@ == (match *self {
                Summary::WaitingForMoreSources => "Waiting for more MIDI sources"@,
                Summary::WaitingForSources => "Waiting for MIDI sources"@,
                Summary::WaitingForSynthesizer => "Waiting for a synthetizer"@,
                Summary::WaitingForSynthesizerAndSources => "Waiting for a synthetizer and MIDI sources"@,
            }),
    {
        match self {
            Summary::WaitingForMoreSources => "Waiting for more MIDI sources",
            Summary::WaitingForSources => "Waiting for MIDI sources",
            Summary::WaitingForSynthesizer => "Waiting for a synthetizer",
            Summary::WaitingForSynthesizerAndSources => "Waiting for a synthetizer and MIDI sources",
        }
    }
}

/// What the first pass over the whole graph is to do.
pub struct InitPlan {
    /// The synthesizer every source is routed to, if the graph has one.
    pub synthesizer: Option<Addr>,
    /// Every MIDI source of the graph, in enumeration order.
    pub sources: Vec<Addr>,
    /// The subscriptions to make, one per source.
    pub connections: Vec<Subscription>,
    /// The warnings to give, in order.
    pub warnings: Vec<Warning>,
    pub status: InitStatus,
}

/// What to do about one port that has just appeared.
pub struct Reaction {
    pub detected: Detection,
    /// The subscriptions to make, in order.
    pub connections: Vec<Subscription>,
    pub warning: Option<Warning>,
}

pub open spec fn init_connections(ports: Seq<Port>) -> Seq<Subscription> {
    match synthetizer_addr(ports) {
        Some(a) => links(source_addrs(ports), a),
        None => Seq::empty(),
    }
}

pub open spec fn init_status(ports: Seq<Port>) -> InitStatus {
    InitStatus {
        synthesizer_found: first_synthetizer(ports) is Some,
        sources_found: source_addrs(ports).len() > 0,
    }
}

pub open spec fn init_warnings(ports: Seq<Port>) -> Seq<Warning> {
    let missing_sources: Seq<Warning> = if source_addrs(ports).len() == 0 {
        seq![Warning::NoMidiSources]
    } else {
        Seq::empty()
    };
    if first_synthetizer(ports) is Some {
        missing_sources
    } else {
        seq![Warning::NoSynthesizer] + missing_sources
    }
}

pub open spec fn detection_of(p: Port) -> Detection {
    match class_of(p) {
        PortClass::Synthesizer => Detection::Synthesizer,
        PortClass::MidiSource => Detection::MidiSource,
        PortClass::Unrecognized => Detection::Unknown,
    }
}

/// The subscriptions called for by the arrival of `p`, `ports` being the
/// graph as it stands afterwards.
pub open spec fn reaction_connections(p: Port, ports: Seq<Port>) -> Seq<Subscription> {
    match class_of(p) {
        PortClass::Synthesizer => links(source_addrs(ports), p.addr),
        PortClass::MidiSource => match synthetizer_addr(ports) {
            Some(a) => seq![Subscription { sender: p.addr, dest: a }],
            None => Seq::empty(),
        },
        PortClass::Unrecognized => Seq::empty(),
    }
}

pub open spec fn reaction_warning(p: Port, ports: Seq<Port>) -> Option<Warning> {
    match class_of(p) {
        PortClass::Synthesizer => if source_addrs(ports).len() == 0 {
            Some(Warning::NoMidiSources)
        } else {
            None
        },
        PortClass::MidiSource => if first_synthetizer(ports) is None {
            Some(Warning::NoSynthesizer)
        } else {
            None
        },
        PortClass::Unrecognized => None,
    }
}

/// Plans the first pass over the graph `ports`: every MIDI source is routed
/// to the first synthesizer, if there is one.
pub fn connect_all(ports: &Vec<Port>) -> (r: InitPlan)
    ensures
        r.synthesizer == synthetizer_addr(ports@),
        r.sources@ == source_addrs(ports@),
        r.connections@ == init_connections(ports@),
        r.warnings@ == init_warnings(ports@),
        r.status == init_status(ports@),
{
    let sources = midi_sources(ports);
    let no_midi_sources = sources.len() == 0;
    let mut warnings: Vec<Warning> = Vec::new();
    let found = synthetizer(ports);
    let (synthesizer, connections) = match found {
        Some(i) => {
            let a = ports[i].addr;
            (Some(a), connections_to(&sources, a))
        },
        None => {
            warnings.push(Warning::NoSynthesizer);
            (None, Vec::new())
        },
    };
    if no_midi_sources {
        warnings.push(Warning::NoMidiSources);
    }
    proof {
        assert(connections@ =~= init_connections(ports@));
        assert(warnings@ =~= init_warnings(ports@));
    }
    let status = InitStatus { synthesizer_found: found.is_some(), sources_found: !no_midi_sources };
    InitPlan { synthesizer, sources, connections, warnings, status }
}

/// Plans the reaction to the arrival of port `p`, `ports` being the graph
/// as it stands now: a synthesizer receives every MIDI source, a MIDI source
/// is routed to the first synthesizer, any other port is only reported.
pub fn auto_connect(p: &Port, ports: &Vec<Port>) -> (r: Reaction)
    ensures
        r.detected == detection_of(*p),
        r.connections@ == reaction_connections(*p, ports@),
        r.warning == reaction_warning(*p, ports@),
{
    match classify(p) {
        PortClass::Synthesizer => {
            let sources = midi_sources(ports);
            let warning = if sources.len() == 0 {
                Some(Warning::NoMidiSources)
            } else {
                None
            };
            let connections = connections_to(&sources, p.addr);
            Reaction { detected: Detection::Synthesizer, connections, warning }
        },
        PortClass::MidiSource => match synthetizer(ports) {
            Some(i) => {
                let mut connections: Vec<Subscription> = Vec::new();
                connections.push(Subscription { sender: p.addr, dest: ports[i].addr });
                proof {
                    assert(connections@ =~= reaction_connections(*p, ports@));
                }
                Reaction { detected: Detection::MidiSource, connections, warning: None }
            },
            None => {
                let connections: Vec<Subscription> = Vec::new();
                proof {
                    assert(connections@ =~= reaction_connections(*p, ports@));
                }
                Reaction {
                    detected: Detection::MidiSource,
                    connections,
                    warning: Some(Warning::NoSynthesizer),
                }
            },
        },
        PortClass::Unrecognized => {
            let connections: Vec<Subscription> = Vec::new();
            proof {
                assert(connections@ =~= reaction_connections(*p, ports@));
            }
            Reaction { detected: Detection::Unknown, connections, warning: None }
        },
    }
}

/// With a synthesizer in the graph, the first pass makes one connection per
/// MIDI source, each from that source to the first synthesizer, and reports
/// the synthesizer as found and the sources as found exactly when there is
/// at least one.
pub proof fn lemma_init_completeness(ports: Seq<Port>)
    requires
        first_synthetizer(ports) is Some,
    ensures
        init_connections(ports).len() == source_addrs(ports).len(),
        forall|i: int|
            0 <= i < source_addrs(ports).len() ==> #[trigger] init_connections(ports)[i] == (
            Subscription { sender: source_addrs(ports)[i], dest: ports[first_synthetizer(ports)->0].addr }),
        init_status(ports) == (InitStatus {
            synthesizer_found: true,
            sources_found: source_addrs(ports).len() > 0,
        }),
{
}

/// Starting from an empty graph, a synthesizer that appears and then a MIDI
/// source that appears are connected exactly once, by the reaction to the
/// source, whichever order the graph then lists them in.
pub proof fn lemma_reactive_connection(synth: Port, source: Port)
    requires
        class_of(synth) == PortClass::Synthesizer,
        class_of(source) == PortClass::MidiSource,
    ensures
        reaction_connections(synth, seq![synth]).len() == 0,
        reaction_connections(source, seq![synth, source]) == seq![
            Subscription { sender: source.addr, dest: synth.addr },
        ],
        reaction_connections(source, seq![source, synth]) == seq![
            Subscription { sender: source.addr, dest: synth.addr },
        ],
{
    let one = seq![synth];
    assert(one.drop_last() =~= Seq::<Port>::empty());
    assert(source_addrs(Seq::<Port>::empty()) =~= Seq::<Addr>::empty());
    assert(source_addrs(one) =~= Seq::<Addr>::empty());
    assert(links(source_addrs(one), synth.addr) =~= Seq::<Subscription>::empty());
    assert(first_synthetizer(Seq::<Port>::empty()) is None);
    assert(one.last() == synth);
    assert(first_synthetizer(one) == Some(0int));
    let a = seq![synth, source];
    assert(a.drop_last() =~= one);
    assert(first_synthetizer(a) == Some(0int));
    let b = seq![source, synth];
    let only_source = seq![source];
    assert(b.drop_last() =~= only_source);
    assert(only_source.drop_last() =~= Seq::<Port>::empty());
    assert(first_synthetizer(only_source) is None);
    assert(first_synthetizer(b) == Some(1int));
}

/// A port that is neither a synthesizer nor a MIDI source is only reported:
/// it calls for no connection and no warning.
pub proof fn lemma_unknown_port_ignored(p: Port, ports: Seq<Port>)
    requires
        class_of(p) == PortClass::Unrecognized,
    ensures
        detection_of(p) == Detection::Unknown,
        reaction_connections(p, ports).len() == 0,
        reaction_warning(p, ports) is None,
{
}

} // verus!
