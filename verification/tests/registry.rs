use kayak_core::font_mapping::{FontHandle, FontMapping};

#[test]
fn add_assigns_dense_ids() {
    let mut mapping = FontMapping::default();
    let h0 = FontHandle { id: 77 };
    let h1 = FontHandle { id: 12 };
    let h2 = FontHandle { id: 9000 };
    assert_eq!(mapping.add(h0), 0);
    assert_eq!(mapping.add(h1), 1);
    assert_eq!(mapping.add(h2), 2);
}

#[test]
fn add_is_idempotent() {
    let mut mapping = FontMapping::default();
    let h0 = FontHandle { id: 77 };
    let h1 = FontHandle { id: 12 };
    let first = mapping.add(h0);
    let other = mapping.add(h1);
    let second = mapping.add(h0);
    assert_eq!(first, second);
    assert_ne!(first, other);
    // Registering again allotted no new id.
    let h2 = FontHandle { id: 1 };
    assert_eq!(mapping.add(h2), 2);
}

#[test]
fn get_handle_round_trip() {
    let mut mapping = FontMapping::default();
    let h0 = FontHandle { id: 501 };
    let h1 = FontHandle { id: 502 };
    let id0 = mapping.add(h0);
    let id1 = mapping.add(h1);
    assert_eq!(mapping.get_handle(id0), Some(h0));
    assert_eq!(mapping.get_handle(id1), Some(h1));
}

#[test]
fn get_handle_unassigned_is_none() {
    let mut mapping = FontMapping::default();
    assert_eq!(mapping.get_handle(0), None);
    mapping.add(FontHandle { id: 3 });
    assert_eq!(mapping.get_handle(1), None);
    assert_eq!(mapping.get_handle(u16::MAX), None);
}
