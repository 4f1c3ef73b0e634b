//! What the host knows of its MIDI input: the ports it found and the note
//! that sounds. Finding ports and listening to one is the host's work.

use vstd::prelude::*;

use crate::note::Note;

verus! {

/// An input port as the host lists it.
#[derive(Debug)]
pub struct Port {
    pub index: usize,
    pub name: Box<String>,
}

/// What a port stands for: its place in the list and its name.
pub struct PortView {
    pub index: usize,
    pub name: Seq<char>,
}

impl View for Port {
    type V = PortView;

    open spec fn view(&self) -> PortView {
        PortView { index: self.index, name: self.name@ }
    }
}

impl Port {
    /// The port at `index` with this name.
    pub fn new(index: usize, name: String) -> (port: Port)
        ensures
            port@ == (PortView { index, name: name@ }),
    {
        Port { index, name: Box::new(name) }
    }

    /// Whether two ports are the same: the same index and the same name.
    pub fn same(&self, other: &Self) -> (same: bool)
        ensures
            same == (self@ == other@),
    {
        if other.index == self.index && *other.name == *self.name {
            return true;
        } else {
            return false;
        }
    }

    /// The name of the port, as it is shown.
    pub fn label(&self) -> (label: String)
        ensures
            label@ == self@.name,
    {
        (*self.name).clone()
    }

    /// A copy of the port.
    pub fn duplicate(&self) -> (port: Port)
        ensures
            port@ == self@,
    {
        Port { index: self.index, name: Box::new((*self.name).clone()) }
    }
}

/// What the host knows: the note that sounds, if any, and the ports found.
#[derive(Debug)]
pub struct MidiData {
    pub note: Option<Note>,
    pub ports_list: Vec<Port>,
}

/// What the host's knowledge stands for.
pub struct MidiDataView {
    pub note: Option<Note>,
    pub ports_list: Seq<PortView>,
}

/// What a list of ports stands for.
pub open spec fn port_views(ports: Seq<Port>) -> Seq<PortView> {
    Seq::new(ports.len(), |i: int| ports[i]@)
}

impl View for MidiData {
    type V = MidiDataView;

    open spec fn view(&self) -> MidiDataView {
        MidiDataView { note: self.note, ports_list: port_views(self.ports_list@) }
    }
}

impl MidiData {
    /// No note and no ports.
    pub fn new() -> (data: MidiData)
        ensures
            data.note is None,
            data.ports_list@ == Seq::<Port>::empty(),
            data@ == (MidiDataView { note: None, ports_list: Seq::<PortView>::empty() }),
    {
        let data = MidiData { note: None, ports_list: Vec::new() };
        assert(data@.ports_list =~= Seq::<PortView>::empty());
        data
    }

    /// Whether two states are the same: the same note, and the same ports
    /// in the same order.
    pub fn same(&self, other: &Self) -> (same: bool)
        ensures
            same == (self@ == other@),
    {
        if self.note != other.note {
            return false;
        }
        if self.ports_list.len() != other.ports_list.len() {
            assert(self@.ports_list.len() != other@.ports_list.len());
            return false;
        }
        let mut i: usize = 0;
        while i < self.ports_list.len()
            invariant
                0 <= i <= self.ports_list@.len(),
                self.ports_list@.len() == other.ports_list@.len(),
                forall|j: int| 0 <= j < i ==> (#[trigger] self.ports_list@[j])@ == other.ports_list@[j]@,
            decreases self.ports_list@.len() - i,
        {
            if !self.ports_list[i].same(&other.ports_list[i]) {
                assert(self@.ports_list[i as int] != other@.ports_list[i as int]);
                return false;
            }
            i = i + 1;
        }
        assert(self@.ports_list =~= other@.ports_list);
        return true;
    }
}

} // verus!
