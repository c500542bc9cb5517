use holochain_client_wrapper::{
    AdminWsCmd, AdminWsCmdResponse, AgentPk, AppWsCmd, AppWsCmdResponse, DnaHash, Entry,
    HashRoleProof, ShapeMismatch, Value, admin_tag_known, app_tag_known,
    parse_admin_ws_cmd_response, parse_app_ws_cmd_response,
};

fn s(x: &str) -> Value {
    Value::Str(String::from(x))
}

fn entry(k: &str, v: Value) -> Entry {
    Entry { key: String::from(k), value: v }
}

#[test]
fn enable_app_end_to_end() {
    let cmd = AdminWsCmd::EnableApp { installed_app_id: String::from("test-app") };
    let call = cmd.to_call();
    assert_eq!(call.method, "enableApp");
    assert_eq!(call.payload, Some(Value::Object(vec![entry("installed_app_id", s("test-app"))])));
    assert_eq!(call.tag, "EnableApp");
    let x = Value::Object(vec![entry("app", s("whatever"))]);
    let resp = parse_admin_ws_cmd_response(x.clone(), call.tag).unwrap();
    assert_eq!(resp, AdminWsCmdResponse::EnableApp(x));
}

#[test]
fn generate_agent_pub_key_end_to_end() {
    let cmd = AdminWsCmd::GenerateAgentPubKey;
    let call = cmd.to_call();
    assert_eq!(call.method, "generateAgentPubKey");
    assert_eq!(call.payload, None);
    let k = Value::Array(vec![Value::Num(132), Value::Num(32)]);
    let resp = parse_admin_ws_cmd_response(k.clone(), call.tag).unwrap();
    assert_eq!(resp, AdminWsCmdResponse::GenerateAgentPubKey(AgentPk(k)));
}

#[test]
fn every_admin_command_names_its_method() {
    let cmds = vec![
        (AdminWsCmd::AttachAppInterface { port: 8888 }, "attachAppInterface", "AttachAppInterface"),
        (AdminWsCmd::DisableApp { installed_app_id: String::from("a") }, "disableApp", "DisableApp"),
        (AdminWsCmd::UninstallApp { installed_app_id: String::from("a") }, "uninstallApp", "UninstallApp"),
        (
            AdminWsCmd::RegisterDna { path: String::from("p"), uid: None, properties: None },
            "registerDna",
            "RegisterDna",
        ),
        (AdminWsCmd::ListDnas, "listDnas", "ListDnas"),
        (AdminWsCmd::ListCellIds, "listCellIds", "ListCellIds"),
        (AdminWsCmd::ListActiveApps, "listActiveApps", "ListActiveApps"),
    ];
    for (cmd, method, tag) in cmds {
        let call = cmd.to_call();
        assert_eq!(call.method, method);
        assert_eq!(call.tag, tag);
        assert!(admin_tag_known(&call.tag));
    }
}

#[test]
fn attach_app_interface_payload() {
    let call = AdminWsCmd::AttachAppInterface { port: 8888 }.to_call();
    assert_eq!(call.payload, Some(Value::Object(vec![entry("port", Value::Num(8888))])));
}

#[test]
fn register_dna_payload() {
    let cmd = AdminWsCmd::RegisterDna {
        path: String::from("./x.dna"),
        uid: Some(String::from("u1")),
        properties: None,
    };
    assert_eq!(
        cmd.payload(),
        Some(Value::Object(vec![
            entry("path", s("./x.dna")),
            entry("uid", s("u1")),
            entry("properties", Value::Null),
        ]))
    );
}

#[test]
fn install_app_payload() {
    let cmd = AdminWsCmd::InstallApp {
        installed_app_id: String::from("app"),
        agent_key: AgentPk(s("k")),
        dnas: vec![HashRoleProof {
            hash: DnaHash(s("h")),
            role: String::from("r"),
            membrane_proof: None,
        }],
    };
    let call = cmd.to_call();
    assert_eq!(call.method, "installApp");
    assert_eq!(
        call.payload,
        Some(Value::Object(vec![
            entry("installed_app_id", s("app")),
            entry("agent_key", s("k")),
            entry(
                "dnas",
                Value::Array(vec![Value::Object(vec![
                    entry("hash", s("h")),
                    entry("role", s("r")),
                    entry("membrane_proof", Value::Null),
                ])]),
            ),
        ]))
    );
}

#[test]
fn unit_commands_have_no_payload() {
    assert_eq!(AdminWsCmd::ListDnas.payload(), None);
    assert_eq!(AdminWsCmd::ListCellIds.payload(), None);
    assert_eq!(AdminWsCmd::ListActiveApps.payload(), None);
    assert_eq!(AdminWsCmd::GenerateAgentPubKey.payload(), None);
}

#[test]
fn register_dna_reads_hash() {
    let resp = parse_admin_ws_cmd_response(s("hash"), String::from("RegisterDna")).unwrap();
    assert_eq!(resp, AdminWsCmdResponse::RegisterDna(DnaHash(s("hash"))));
}

#[test]
fn list_cell_ids_reads_pairs() {
    let raw = Value::Array(vec![Value::Array(vec![s("d"), s("a")])]);
    let resp = parse_admin_ws_cmd_response(raw, String::from("ListCellIds")).unwrap();
    match resp {
        AdminWsCmdResponse::ListCellIds(cells) => {
            assert_eq!(cells.len(), 1);
            assert_eq!(cells[0].0, DnaHash(s("d")));
            assert_eq!(cells[0].1, AgentPk(s("a")));
        }
        other => panic!("unexpected result {:?}", other),
    }
}

#[test]
fn list_cell_ids_shape_mismatch() {
    let r = parse_admin_ws_cmd_response(s("nope"), String::from("ListCellIds"));
    assert_eq!(r, Err(ShapeMismatch));
    let r = parse_admin_ws_cmd_response(Value::Array(vec![Value::Array(vec![s("d")])]), String::from("ListCellIds"));
    assert_eq!(r, Err(ShapeMismatch));
}

#[test]
fn passthrough_results_keep_raw_value() {
    for tag in ["AttachAppInterface", "DisableApp", "InstallApp", "UninstallApp", "ListDnas", "ListActiveApps"] {
        let r = parse_admin_ws_cmd_response(Value::Num(7), String::from(tag)).unwrap();
        let inner = match r {
            AdminWsCmdResponse::AttachAppInterface(v)
            | AdminWsCmdResponse::DisableApp(v)
            | AdminWsCmdResponse::InstallApp(v)
            | AdminWsCmdResponse::UninstallApp(v)
            | AdminWsCmdResponse::ListDnas(v)
            | AdminWsCmdResponse::ListActiveApps(v) => v,
            other => panic!("unexpected result {:?}", other),
        };
        assert_eq!(inner, Value::Num(7));
    }
}

#[test]
fn unknown_tags_are_not_known() {
    assert!(!admin_tag_known(&String::from("DumpState")));
    assert!(!admin_tag_known(&String::from("enableApp")));
    assert!(!admin_tag_known(&String::new()));
    assert!(!app_tag_known(&String::from("ListDnas")));
    assert!(app_tag_known(&String::from("CallZome")));
}

#[test]
fn app_info_command_end_to_end() {
    let cmd = AppWsCmd::AppInfo { installed_app_id: String::from("test-app") };
    let call = cmd.to_call();
    assert_eq!(call.method, "appInfo");
    assert_eq!(call.payload, Some(Value::Object(vec![entry("installed_app_id", s("test-app"))])));
    let raw = Value::Object(vec![
        entry("installed_app_id", s("test-app")),
        entry("cell_data", Value::Array(Vec::new())),
        entry("status", Value::Object(vec![entry("Running", Value::Object(Vec::new()))])),
    ]);
    match parse_app_ws_cmd_response(raw, call.tag).unwrap() {
        AppWsCmdResponse::AppInfo(info) => {
            assert_eq!(info.installed_app_id, "test-app");
            assert_eq!(info.status, "Running");
            assert!(info.cell_data.is_empty());
        }
        other => panic!("unexpected result {:?}", other),
    }
}

#[test]
fn app_info_result_shape_mismatch() {
    let r = parse_app_ws_cmd_response(Value::Null, String::from("AppInfo"));
    assert_eq!(r, Err(ShapeMismatch));
}

#[test]
fn call_zome_end_to_end() {
    let cmd = AppWsCmd::CallZome {
        cell_id: (DnaHash(s("d")), AgentPk(s("a"))),
        zome_name: String::from("z"),
        fn_name: String::from("f"),
        payload: Value::Num(1),
        provenance: AgentPk(s("a")),
        cap: String::from("c"),
    };
    let call = cmd.to_call();
    assert_eq!(call.method, "callZome");
    assert_eq!(
        call.payload,
        Some(Value::Object(vec![
            entry("cell_id", Value::Array(vec![s("d"), s("a")])),
            entry("zome_name", s("z")),
            entry("fn_name", s("f")),
            entry("payload", Value::Num(1)),
            entry("provenance", s("a")),
            entry("cap", s("c")),
        ]))
    );
    let r = parse_app_ws_cmd_response(s("out"), call.tag).unwrap();
    assert_eq!(r, AppWsCmdResponse::CallZome(s("out")));
}

#[test]
fn interleaved_dispatches_stay_independent() {
    let first = AdminWsCmd::EnableApp { installed_app_id: String::from("one") }.to_call();
    let second = AdminWsCmd::DisableApp { installed_app_id: String::from("two") }.to_call();
    let r2 = parse_admin_ws_cmd_response(s("b"), second.tag.clone()).unwrap();
    let r1 = parse_admin_ws_cmd_response(s("a"), first.tag.clone()).unwrap();
    assert_eq!(first.payload, Some(Value::Object(vec![entry("installed_app_id", s("one"))])));
    assert_eq!(second.payload, Some(Value::Object(vec![entry("installed_app_id", s("two"))])));
    assert_eq!(r1, AdminWsCmdResponse::EnableApp(s("a")));
    assert_eq!(r2, AdminWsCmdResponse::DisableApp(s("b")));
}
