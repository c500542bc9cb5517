use holochain_client_wrapper::{
    AgentPk, AppInfo, CellId, CellIdRoleId, DnaHash, Entry, FromValue, HashRoleProof,
    ShapeMismatch, ToValue, Value, status_from_value,
};

fn s(x: &str) -> Value {
    Value::Str(String::from(x))
}

fn entry(k: &str, v: Value) -> Entry {
    Entry { key: String::from(k), value: v }
}

fn cell(d: &str, a: &str) -> CellId {
    (DnaHash(s(d)), AgentPk(s(a)))
}

#[test]
fn string_round_trip() {
    let v = String::from("hello");
    assert_eq!(String::from_value(&v.to_value()), Ok(v));
}

#[test]
fn opaque_leaf_round_trip() {
    let h = DnaHash(Value::Array(vec![Value::Num(1), Value::Num(2)]));
    assert_eq!(h.to_value(), Value::Array(vec![Value::Num(1), Value::Num(2)]));
    assert_eq!(DnaHash::from_value(&h.to_value()), Ok(h));
    let k = AgentPk(s("key"));
    assert_eq!(AgentPk::from_value(&k.to_value()), Ok(k));
}

#[test]
fn pair_serializes_to_two_item_array() {
    let c = cell("dna", "agent");
    assert_eq!(c.to_value(), Value::Array(vec![s("dna"), s("agent")]));
}

#[test]
fn pair_round_trip() {
    let c = cell("dna", "agent");
    let back = CellId::from_value(&c.to_value()).unwrap();
    assert_eq!(back.0, c.0);
    assert_eq!(back.1, c.1);
}

#[test]
fn pair_reads_positions() {
    let v = Value::Array(vec![s("a"), s("b")]);
    let (x, y) = <(String, String)>::from_value(&v).unwrap();
    assert_eq!(x, "a");
    assert_eq!(y, "b");
    let v = Value::Array(vec![s("a"), Value::Num(3)]);
    assert_eq!(<(String, String)>::from_value(&v), Err(ShapeMismatch));
}

#[test]
fn pair_from_one_item_fails() {
    let v = Value::Array(vec![s("a")]);
    assert!(CellId::from_value(&v).is_err());
}

#[test]
fn pair_from_non_array_fails() {
    assert!(CellId::from_value(&s("a")).is_err());
    assert!(CellId::from_value(&Value::Null).is_err());
}

#[test]
fn sequence_keeps_order() {
    let xs = vec![String::from("x1"), String::from("x2"), String::from("x3")];
    let v = xs.to_value();
    assert_eq!(v, Value::Array(vec![s("x1"), s("x2"), s("x3")]));
    assert_eq!(<Vec<String>>::from_value(&v), Ok(xs));
}

#[test]
fn sequence_of_pairs_round_trip() {
    let cells = vec![cell("d1", "a1"), cell("d2", "a2")];
    let back = <Vec<CellId>>::from_value(&cells.to_value()).unwrap();
    assert_eq!(back.len(), 2);
    assert_eq!(back[0].0, cells[0].0);
    assert_eq!(back[1].1, cells[1].1);
}

#[test]
fn sequence_from_non_array_fails() {
    assert_eq!(<Vec<String>>::from_value(&s("x")), Err(ShapeMismatch));
    assert_eq!(<Vec<String>>::from_value(&Value::Array(vec![s("a"), Value::Null])), Err(ShapeMismatch));
}

#[test]
fn empty_sequence_round_trip() {
    let xs: Vec<String> = Vec::new();
    assert_eq!(xs.to_value(), Value::Array(Vec::new()));
    assert_eq!(<Vec<String>>::from_value(&Value::Array(Vec::new())), Ok(xs));
}

#[test]
fn option_serializes_to_null_or_value() {
    let none: Option<String> = None;
    assert_eq!(none.to_value(), Value::Null);
    assert_eq!(Some(String::from("u")).to_value(), s("u"));
}

#[test]
fn number_serializes() {
    assert_eq!(8888u16.to_value(), Value::Num(8888));
    assert_eq!(65535u16.to_value(), Value::Num(65535));
}

#[test]
fn hash_role_proof_serializes_every_field() {
    let p = HashRoleProof { hash: DnaHash(s("h")), role: String::from("r"), membrane_proof: None };
    assert_eq!(
        p.to_value(),
        Value::Object(vec![entry("hash", s("h")), entry("role", s("r")), entry("membrane_proof", Value::Null)])
    );
    let p = HashRoleProof {
        hash: DnaHash(s("h")),
        role: String::from("r"),
        membrane_proof: Some(String::from("m")),
    };
    assert_eq!(
        p.to_value(),
        Value::Object(vec![entry("hash", s("h")), entry("role", s("r")), entry("membrane_proof", s("m"))])
    );
}

#[test]
fn cell_role_round_trip() {
    let c = CellIdRoleId { cell_id: cell("d", "a"), role_id: String::from("role") };
    let back = CellIdRoleId::from_value(&c.to_value()).unwrap();
    assert_eq!(back, c);
}

#[test]
fn status_keeps_only_first_key() {
    let raw = Value::Object(vec![entry("status", Value::Object(vec![entry("Running", Value::Object(Vec::new()))]))]);
    if let Value::Object(entries) = &raw {
        let st = holochain_client_wrapper::get_field(entries, "status").unwrap();
        assert_eq!(status_from_value(&st), Ok(String::from("Running")));
    }
    let detailed = Value::Object(vec![entry("Paused", Value::Object(vec![entry("reason", s("x"))]))]);
    assert_eq!(status_from_value(&detailed), Ok(String::from("Paused")));
}

#[test]
fn status_without_key_fails() {
    assert_eq!(status_from_value(&Value::Object(Vec::new())), Err(ShapeMismatch));
    assert_eq!(status_from_value(&s("Running")), Err(ShapeMismatch));
}

fn app_info_raw() -> Value {
    Value::Object(vec![
        entry("installed_app_id", s("test-app")),
        entry(
            "cell_data",
            Value::Array(vec![Value::Object(vec![
                entry("cell_id", Value::Array(vec![s("dna"), s("agent")])),
                entry("role_id", s("main")),
            ])]),
        ),
        entry("status", Value::Object(vec![entry("Running", Value::Object(Vec::new()))])),
    ])
}

#[test]
fn app_info_reads_status_name() {
    let info = AppInfo::from_value(&app_info_raw()).unwrap();
    assert_eq!(info.installed_app_id, "test-app");
    assert_eq!(info.status, "Running");
    assert_eq!(info.cell_data.len(), 1);
    assert_eq!(info.cell_data[0].role_id, "main");
    assert_eq!(info.cell_data[0].cell_id.0, DnaHash(s("dna")));
}

#[test]
fn app_info_round_trip() {
    let info = AppInfo::from_value(&app_info_raw()).unwrap();
    let again = AppInfo::from_value(&info.to_value()).unwrap();
    assert_eq!(again, info);
    assert_eq!(info.to_value(), app_info_raw());
}

#[test]
fn app_info_missing_key_fails() {
    let raw = Value::Object(vec![entry("installed_app_id", s("a")), entry("cell_data", Value::Array(Vec::new()))]);
    assert_eq!(AppInfo::from_value(&raw), Err(ShapeMismatch));
    assert_eq!(AppInfo::from_value(&s("a")), Err(ShapeMismatch));
}

#[test]
fn first_entry_under_a_key_wins() {
    let entries = vec![entry("k", s("first")), entry("k", s("second"))];
    assert_eq!(holochain_client_wrapper::get_field(&entries, "k"), Some(s("first")));
    assert_eq!(holochain_client_wrapper::get_field(&entries, "other"), None);
}

#[test]
fn value_clone_is_deep() {
    let v = app_info_raw();
    assert_eq!(v.clone(), v);
}
