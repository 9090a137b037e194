use nexus::ethernet::Ethernet;
use nexus::ip_opt::IpOption;
use nexus::json::Value;
use nexus::pdu::Pdu;

#[test]
fn objects_keep_their_members_in_order() {
    let mut doc = Value::object();
    assert_eq!(doc, Value::Object(Vec::new()));
    doc.insert("b", Value::from_u8(1));
    doc.insert("a", Value::from_u16(0x1234));
    doc.insert("b", Value::from_u32(0x12345678));
    doc.insert("t", Value::text("x".to_string()));
    assert_eq!(
        doc,
        Value::Object(vec![
            ("b".to_string(), Value::Number(1)),
            ("a".to_string(), Value::Number(0x1234)),
            ("b".to_string(), Value::Number(0x12345678)),
            ("t".to_string(), Value::Text("x".to_string())),
        ])
    );
    assert_eq!(doc.get("b"), Some(&Value::Number(1)));
    assert_eq!(doc.get("a"), Some(&Value::Number(0x1234)));
    assert_eq!(doc.get("t"), Some(&Value::Text("x".to_string())));
    assert_eq!(doc.get("c"), None);
    assert_eq!(doc.get(""), None);
}

#[test]
fn only_objects_have_members() {
    let mut n = Value::from_u8(3);
    n.insert("a", Value::from_u8(1));
    assert_eq!(n, Value::Number(3));
    assert_eq!(n.get("a"), None);
    let mut t = Value::text("a".to_string());
    t.insert("a", Value::from_u8(1));
    assert_eq!(t, Value::Text("a".to_string()));
    assert_eq!(t.get("a"), None);
}

#[test]
fn wrapping_names_an_object() {
    let mut inner = Value::object();
    inner.insert("k", Value::from_u8(9));
    let doc = Value::wrap("outer", inner);
    assert_eq!(doc.get("outer").unwrap().get("k"), Some(&Value::Number(9)));
    assert_eq!(doc.get("k"), None);
}

#[test]
fn node_without_child_shows_its_payload_as_text() {
    let mut eth = Ethernet::new();
    let doc = eth.to_json();
    let inner = doc.get("eth").unwrap();
    assert_eq!(inner.get("eth.data"), Some(&Value::Text(String::new())));
    assert_eq!(inner.get("eth.type"), Some(&Value::Number(0)));
    assert_eq!(inner.get("eth.src_addr"), Some(&Value::Text("00:00:00:00:00:00".to_string())));
    eth.set_payload(&[b'o', b'k', 0xFF]);
    assert_eq!(eth.child_to_json(), Value::Text("ok.".to_string()));
}

#[test]
fn option_projection() {
    let mut opt = IpOption::new();
    opt.with_opt_type(7).with_opt_length(3).with_opt_data(b"abc");
    let doc = opt.to_json();
    assert_eq!(
        doc,
        Value::Object(vec![(
            "ip_opt".to_string(),
            Value::Object(vec![
                ("ip_opt.type".to_string(), Value::Number(7)),
                ("ip_opt.length".to_string(), Value::Number(3)),
                ("ip_opt.data".to_string(), Value::Text("abc".to_string())),
            ])
        )])
    );
}
