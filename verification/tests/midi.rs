use midi_staff::midi::{MidiData, Port};
use midi_staff::note::Note;

#[test]
fn ports_are_the_same_by_index_and_name() {
    let a = Port::new(0, String::from("Keyboard"));
    assert!(a.same(&Port::new(0, String::from("Keyboard"))));
    assert!(!a.same(&Port::new(1, String::from("Keyboard"))));
    assert!(!a.same(&Port::new(0, String::from("Keyboard 2"))));
    assert!(a.same(&a.duplicate()));
    assert_eq!(a.label(), "Keyboard");
    assert_eq!(a.index, 0);
}

#[test]
fn new_midi_data_holds_nothing() {
    let data = MidiData::new();
    assert!(data.note.is_none());
    assert!(data.ports_list.is_empty());
    assert!(data.same(&MidiData::new()));
}

#[test]
fn midi_data_is_the_same_by_note_and_ports() {
    let with = |note: Option<u8>, names: &[&str]| MidiData {
        note: note.map(|n| Note::new(n).unwrap()),
        ports_list: names
            .iter()
            .enumerate()
            .map(|(i, name)| Port::new(i, String::from(*name)))
            .collect(),
    };
    let data = with(Some(60), &["a", "b"]);
    assert!(data.same(&with(Some(60), &["a", "b"])));
    assert!(!data.same(&with(Some(61), &["a", "b"])));
    assert!(!data.same(&with(None, &["a", "b"])));
    assert!(!data.same(&with(Some(60), &["a"])));
    assert!(!data.same(&with(Some(60), &["a", "c"])));
    assert!(!data.same(&with(Some(60), &["b", "a"])));
    assert!(!data.same(&with(Some(60), &["a", "b", "c"])));
}
