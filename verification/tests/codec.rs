use stpl::templates::{base, home};

type Wire = ((String,), String);

fn to_wire(data: &home::Data) -> Wire {
    ((data.page.title.clone(),), data.name.clone())
}

fn from_wire(wire: Wire) -> home::Data {
    let ((title,), name) = wire;
    home::Data { page: base::Data { title }, name }
}

#[test]
fn argument_survives_the_codec() {
    let data = home::Data { page: base::Data { title: "Hello!".into() }, name: "William".into() };
    let bytes = bincode::serialize(&to_wire(&data)).unwrap();
    let back: Wire = bincode::deserialize(&bytes).unwrap();
    assert_eq!(from_wire(back), data);
}

#[test]
fn argument_with_any_text_survives_the_codec() {
    for (title, name) in [("", ""), ("<T & \"t\">", "Zażółć gęślą jaźń"), ("\0\n", "\u{10ffff}")] {
        let data = home::Data { page: base::Data { title: title.into() }, name: name.into() };
        let bytes = bincode::serialize(&to_wire(&data)).unwrap();
        let back: Wire = bincode::deserialize(&bytes).unwrap();
        assert_eq!(from_wire(back), data);
    }
}

#[test]
fn truncated_argument_does_not_decode() {
    let data = home::Data { page: base::Data { title: "Hello!".into() }, name: "William".into() };
    let bytes = bincode::serialize(&to_wire(&data)).unwrap();
    assert!(bincode::deserialize::<Wire>(&bytes[..bytes.len() - 1]).is_err());
}
