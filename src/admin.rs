use vstd::prelude::*;

use crate::dispatch::{WsCall, opt_view, tag_is};
use crate::marshal::{FromValue, ToValue};
use crate::naming::{lowercase_first_letter, wire_name};
use crate::types::{AgentPk, CellIdVec, DnaHash, HashRoleProof, object_of};
use crate::value::{Json, ShapeMismatch, Value, object1, object3};

verus! {

/// The commands of the administrative interface, one for each of its
/// remote methods.
#[derive(Clone, Debug, PartialEq)]
pub enum AdminWsCmd {
    AttachAppInterface { port: u16 },
    DisableApp { installed_app_id: String },
    EnableApp { installed_app_id: String },
    GenerateAgentPubKey,
    RegisterDna { path: String, uid: Option<String>, properties: Option<String> },
    InstallApp { installed_app_id: String, agent_key: AgentPk, dnas: Vec<HashRoleProof> },
    UninstallApp { installed_app_id: String },
    ListDnas,
    ListCellIds,
    ListActiveApps,
}

impl AdminWsCmd {
    /// The name of the command, which is also the tag of its result.
    pub open spec fn tag_spec(&self) -> Seq<char> {
        match self {
            AdminWsCmd::AttachAppInterface { .. } => "AttachAppInterface"@,
            AdminWsCmd::DisableApp { .. } => "DisableApp"@,
            AdminWsCmd::EnableApp { .. } => "EnableApp"@,
            AdminWsCmd::GenerateAgentPubKey => "GenerateAgentPubKey"@,
            AdminWsCmd::RegisterDna { .. } => "RegisterDna"@,
            AdminWsCmd::InstallApp { .. } => "InstallApp"@,
            AdminWsCmd::UninstallApp { .. } => "UninstallApp"@,
            AdminWsCmd::ListDnas => "ListDnas"@,
            AdminWsCmd::ListCellIds => "ListCellIds"@,
            AdminWsCmd::ListActiveApps => "ListActiveApps"@,
        }
    }

    /// The name of the remote method that the command calls.
    pub open spec fn method_spec(&self) -> Seq<char> {
        match self {
            AdminWsCmd::AttachAppInterface { .. } => "attachAppInterface"@,
            AdminWsCmd::DisableApp { .. } => "disableApp"@,
            AdminWsCmd::EnableApp { .. } => "enableApp"@,
            AdminWsCmd::GenerateAgentPubKey => "generateAgentPubKey"@,
            AdminWsCmd::RegisterDna { .. } => "registerDna"@,
            AdminWsCmd::InstallApp { .. } => "installApp"@,
            AdminWsCmd::UninstallApp { .. } => "uninstallApp"@,
            AdminWsCmd::ListDnas => "listDnas"@,
            AdminWsCmd::ListCellIds => "listCellIds"@,
            AdminWsCmd::ListActiveApps => "listActiveApps"@,
        }
    }

    /// The payload of the command: an object with one entry per field,
    /// under the field's name; none for a command without fields.
    pub open spec fn payload_spec(&self) -> Option<Json> {
        match self {
            AdminWsCmd::AttachAppInterface { port } => Some(
                object_of(seq!["port"@], seq![u16::encode(port.model())]),
            ),
            AdminWsCmd::DisableApp { installed_app_id } => Some(
                object_of(seq!["installed_app_id"@], seq![Json::Str(installed_app_id@)]),
            ),
            AdminWsCmd::EnableApp { installed_app_id } => Some(
                object_of(seq!["installed_app_id"@], seq![Json::Str(installed_app_id@)]),
            ),
            AdminWsCmd::RegisterDna { path, uid, properties } => Some(
                object_of(
                    seq!["path"@, "uid"@, "properties"@],
                    seq![
                        Json::Str(path@),
                        Option::<String>::encode(uid.model()),
                        Option::<String>::encode(properties.model()),
                    ],
                ),
            ),
            AdminWsCmd::InstallApp { installed_app_id, agent_key, dnas } => Some(
                object_of(
                    seq!["installed_app_id"@, "agent_key"@, "dnas"@],
                    seq![
                        Json::Str(installed_app_id@),
                        agent_key.model(),
                        Vec::<HashRoleProof>::encode(dnas.model()),
                    ],
                ),
            ),
            AdminWsCmd::UninstallApp { installed_app_id } => Some(
                object_of(seq!["installed_app_id"@], seq![Json::Str(installed_app_id@)]),
            ),
            _ => None,
        }
    }

    /// The name of the command.
    pub fn tag(&self) -> (r: String)
        ensures
            r@ == self.tag_spec(),
    {
        match self {
            AdminWsCmd::AttachAppInterface { .. } => String::from_str("AttachAppInterface"),
            AdminWsCmd::DisableApp { .. } => String::from_str("DisableApp"),
            AdminWsCmd::EnableApp { .. } => String::from_str("EnableApp"),
            AdminWsCmd::GenerateAgentPubKey => String::from_str("GenerateAgentPubKey"),
            AdminWsCmd::RegisterDna { .. } => String::from_str("RegisterDna"),
            AdminWsCmd::InstallApp { .. } => String::from_str("InstallApp"),
            AdminWsCmd::UninstallApp { .. } => String::from_str("UninstallApp"),
            AdminWsCmd::ListDnas => String::from_str("ListDnas"),
            AdminWsCmd::ListCellIds => String::from_str("ListCellIds"),
            AdminWsCmd::ListActiveApps => String::from_str("ListActiveApps"),
        }
    }

    /// The name of the remote method: the command's name with its first
    /// letter lowercased.
    pub fn method_name(&self) -> (r: String)
        ensures
            r@ == wire_name(self.tag_spec()),
            r@ == self.method_spec(),
    {
        let r = lowercase_first_letter(self.tag());
        proof {
            match self {
                AdminWsCmd::AttachAppInterface { .. } => {
                    reveal_strlit("AttachAppInterface");
                    reveal_strlit("attachAppInterface");
                },
                AdminWsCmd::DisableApp { .. } => {
                    reveal_strlit("DisableApp");
                    reveal_strlit("disableApp");
                },
                AdminWsCmd::EnableApp { .. } => {
                    reveal_strlit("EnableApp");
                    reveal_strlit("enableApp");
                },
                AdminWsCmd::GenerateAgentPubKey => {
                    reveal_strlit("GenerateAgentPubKey");
                    reveal_strlit("generateAgentPubKey");
                },
                AdminWsCmd::RegisterDna { .. } => {
                    reveal_strlit("RegisterDna");
                    reveal_strlit("registerDna");
                },
                AdminWsCmd::InstallApp { .. } => {
                    reveal_strlit("InstallApp");
                    reveal_strlit("installApp");
                },
                AdminWsCmd::UninstallApp { .. } => {
                    reveal_strlit("UninstallApp");
                    reveal_strlit("uninstallApp");
                },
                AdminWsCmd::ListDnas => {
                    reveal_strlit("ListDnas");
                    reveal_strlit("listDnas");
                },
                AdminWsCmd::ListCellIds => {
                    reveal_strlit("ListCellIds");
                    reveal_strlit("listCellIds");
                },
                AdminWsCmd::ListActiveApps => {
                    reveal_strlit("ListActiveApps");
                    reveal_strlit("listActiveApps");
                },
            }
            assert(r@ =~= self.method_spec());
        }
        r
    }

    /// The payload of the command.
    pub fn payload(&self) -> (r: Option<Value>)
        ensures
            opt_view(r) == self.payload_spec(),
    {
        match self {
            AdminWsCmd::AttachAppInterface { port } => Some(object1("port", port.to_value())),
            AdminWsCmd::DisableApp { installed_app_id } => Some(
                object1("installed_app_id", installed_app_id.to_value()),
            ),
            AdminWsCmd::EnableApp { installed_app_id } => Some(
                object1("installed_app_id", installed_app_id.to_value()),
            ),
            AdminWsCmd::RegisterDna { path, uid, properties } => Some(
                object3(
                    "path",
                    path.to_value(),
                    "uid",
                    uid.to_value(),
                    "properties",
                    properties.to_value(),
                ),
            ),
            AdminWsCmd::InstallApp { installed_app_id, agent_key, dnas } => Some(
                object3(
                    "installed_app_id",
                    installed_app_id.to_value(),
                    "agent_key",
                    agent_key.to_value(),
                    "dnas",
                    dnas.to_value(),
                ),
            ),
            AdminWsCmd::UninstallApp { installed_app_id } => Some(
                object1("installed_app_id", installed_app_id.to_value()),
            ),
            _ => None,
        }
    }

    /// The remote call that carries out the command.
    pub fn to_call(&self) -> (r: WsCall)
        ensures
            r.method@ == wire_name(self.tag_spec()),
            r.method@ == self.method_spec(),
            opt_view(r.payload) == self.payload_spec(),
            r.tag@ == self.tag_spec(),
            is_admin_tag(r.tag@),
    {
        WsCall { method: self.method_name(), payload: self.payload(), tag: self.tag() }
    }
}

/// The results of the administrative commands, one for each command.
#[derive(Clone, Debug, PartialEq)]
pub enum AdminWsCmdResponse {
    AttachAppInterface(Value),
    DisableApp(Value),
    EnableApp(Value),
    GenerateAgentPubKey(AgentPk),
    RegisterDna(DnaHash),
    InstallApp(Value),
    UninstallApp(Value),
    ListDnas(Value),
    ListCellIds(CellIdVec),
    ListActiveApps(Value),
}

/// The mathematical form of an administrative result.
pub enum AdminResponseModel {
    AttachAppInterface(Json),
    DisableApp(Json),
    EnableApp(Json),
    GenerateAgentPubKey(Json),
    RegisterDna(Json),
    InstallApp(Json),
    UninstallApp(Json),
    ListDnas(Json),
    ListCellIds(Seq<(Json, Json)>),
    ListActiveApps(Json),
}

impl View for AdminWsCmdResponse {
    type V = AdminResponseModel;

    open spec fn view(&self) -> AdminResponseModel {
        match self {
            AdminWsCmdResponse::AttachAppInterface(v) => AdminResponseModel::AttachAppInterface(v@),
            AdminWsCmdResponse::DisableApp(v) => AdminResponseModel::DisableApp(v@),
            AdminWsCmdResponse::EnableApp(v) => AdminResponseModel::EnableApp(v@),
            AdminWsCmdResponse::GenerateAgentPubKey(k) => AdminResponseModel::GenerateAgentPubKey(
                k.model(),
            ),
            AdminWsCmdResponse::RegisterDna(h) => AdminResponseModel::RegisterDna(h.model()),
            AdminWsCmdResponse::InstallApp(v) => AdminResponseModel::InstallApp(v@),
            AdminWsCmdResponse::UninstallApp(v) => AdminResponseModel::UninstallApp(v@),
            AdminWsCmdResponse::ListDnas(v) => AdminResponseModel::ListDnas(v@),
            AdminWsCmdResponse::ListCellIds(c) => AdminResponseModel::ListCellIds(c.model()),
            AdminWsCmdResponse::ListActiveApps(v) => AdminResponseModel::ListActiveApps(v@),
        }
    }
}

impl AdminResponseModel {
    /// The name of the command that the result belongs to.
    pub open spec fn tag(self) -> Seq<char> {
        match self {
            AdminResponseModel::AttachAppInterface(_) => "AttachAppInterface"@,
            AdminResponseModel::DisableApp(_) => "DisableApp"@,
            AdminResponseModel::EnableApp(_) => "EnableApp"@,
            AdminResponseModel::GenerateAgentPubKey(_) => "GenerateAgentPubKey"@,
            AdminResponseModel::RegisterDna(_) => "RegisterDna"@,
            AdminResponseModel::InstallApp(_) => "InstallApp"@,
            AdminResponseModel::UninstallApp(_) => "UninstallApp"@,
            AdminResponseModel::ListDnas(_) => "ListDnas"@,
            AdminResponseModel::ListCellIds(_) => "ListCellIds"@,
            AdminResponseModel::ListActiveApps(_) => "ListActiveApps"@,
        }
    }
}

/// Whether `tag` names one of the administrative commands.
pub open spec fn is_admin_tag(tag: Seq<char>) -> bool {
    ||| tag == "AttachAppInterface"@
    ||| tag == "DisableApp"@
    ||| tag == "EnableApp"@
    ||| tag == "GenerateAgentPubKey"@
    ||| tag == "RegisterDna"@
    ||| tag == "InstallApp"@
    ||| tag == "UninstallApp"@
    ||| tag == "ListDnas"@
    ||| tag == "ListCellIds"@
    ||| tag == "ListActiveApps"@
}

/// The result that `raw` gives under `tag`: the raw value itself where the
/// result is left generic, the value read as the result's type otherwise;
/// `None` where it cannot be read so.
pub open spec fn admin_response_of(raw: Json, tag: Seq<char>) -> Option<AdminResponseModel> {
    if tag == "AttachAppInterface"@ {
        Some(AdminResponseModel::AttachAppInterface(raw))
    } else if tag == "DisableApp"@ {
        Some(AdminResponseModel::DisableApp(raw))
    } else if tag == "EnableApp"@ {
        Some(AdminResponseModel::EnableApp(raw))
    } else if tag == "GenerateAgentPubKey"@ {
        match AgentPk::decode(raw) {
            Some(k) => Some(AdminResponseModel::GenerateAgentPubKey(k)),
            None => None,
        }
    } else if tag == "RegisterDna"@ {
        match DnaHash::decode(raw) {
            Some(h) => Some(AdminResponseModel::RegisterDna(h)),
            None => None,
        }
    } else if tag == "InstallApp"@ {
        Some(AdminResponseModel::InstallApp(raw))
    } else if tag == "UninstallApp"@ {
        Some(AdminResponseModel::UninstallApp(raw))
    } else if tag == "ListDnas"@ {
        Some(AdminResponseModel::ListDnas(raw))
    } else if tag == "ListCellIds"@ {
        match CellIdVec::decode(raw) {
            Some(c) => Some(AdminResponseModel::ListCellIds(c)),
            None => None,
        }
    } else {
        Some(AdminResponseModel::ListActiveApps(raw))
    }
}

/// Every administrative command's name is a known tag, and the raw value
/// that its remote method gives is read under that tag as a result of the
/// same command; it can fail only for the list of cells.
pub proof fn lemma_admin_dispatch(cmd: AdminWsCmd, raw: Json)
    ensures
        is_admin_tag(cmd.tag_spec()),
        admin_response_of(raw, cmd.tag_spec()) matches Some(m) ==> m.tag() == cmd.tag_spec(),
        !(cmd is ListCellIds) ==> admin_response_of(raw, cmd.tag_spec()) is Some,
        cmd is ListCellIds ==> (admin_response_of(raw, cmd.tag_spec()) is Some
            <==> CellIdVec::decode(raw) is Some),
{
    reveal_strlit("AttachAppInterface");
    reveal_strlit("DisableApp");
    reveal_strlit("EnableApp");
    reveal_strlit("GenerateAgentPubKey");
    reveal_strlit("RegisterDna");
    reveal_strlit("InstallApp");
    reveal_strlit("UninstallApp");
    reveal_strlit("ListDnas");
    reveal_strlit("ListCellIds");
    reveal_strlit("ListActiveApps");
    assert("DisableApp"@[0] != "AttachAppInterface"@[0]);
    assert("EnableApp"@[0] != "AttachAppInterface"@[0]);
    assert("EnableApp"@[0] != "DisableApp"@[0]);
    assert("GenerateAgentPubKey"@[0] != "AttachAppInterface"@[0]);
    assert("GenerateAgentPubKey"@[0] != "DisableApp"@[0]);
    assert("GenerateAgentPubKey"@[0] != "EnableApp"@[0]);
    assert("RegisterDna"@[0] != "AttachAppInterface"@[0]);
    assert("RegisterDna"@[0] != "DisableApp"@[0]);
    assert("RegisterDna"@[0] != "EnableApp"@[0]);
    assert("RegisterDna"@[0] != "GenerateAgentPubKey"@[0]);
    assert("InstallApp"@[0] != "AttachAppInterface"@[0]);
    assert("InstallApp"@[0] != "DisableApp"@[0]);
    assert("InstallApp"@[0] != "EnableApp"@[0]);
    assert("InstallApp"@[0] != "GenerateAgentPubKey"@[0]);
    assert("InstallApp"@[0] != "RegisterDna"@[0]);
    assert("UninstallApp"@[0] != "AttachAppInterface"@[0]);
    assert("UninstallApp"@[0] != "DisableApp"@[0]);
    assert("UninstallApp"@[0] != "EnableApp"@[0]);
    assert("UninstallApp"@[0] != "GenerateAgentPubKey"@[0]);
    assert("UninstallApp"@[0] != "RegisterDna"@[0]);
    assert("UninstallApp"@[0] != "InstallApp"@[0]);
    assert("ListDnas"@[0] != "AttachAppInterface"@[0]);
    assert("ListDnas"@[0] != "DisableApp"@[0]);
    assert("ListDnas"@[0] != "EnableApp"@[0]);
    assert("ListDnas"@[0] != "GenerateAgentPubKey"@[0]);
    assert("ListDnas"@[0] != "RegisterDna"@[0]);
    assert("ListDnas"@[0] != "InstallApp"@[0]);
    assert("ListDnas"@[0] != "UninstallApp"@[0]);
    assert("ListCellIds"@[0] != "AttachAppInterface"@[0]);
    assert("ListCellIds"@[0] != "DisableApp"@[0]);
    assert("ListCellIds"@[0] != "EnableApp"@[0]);
    assert("ListCellIds"@[0] != "GenerateAgentPubKey"@[0]);
    assert("ListCellIds"@[0] != "RegisterDna"@[0]);
    assert("ListCellIds"@[0] != "InstallApp"@[0]);
    assert("ListCellIds"@[0] != "UninstallApp"@[0]);
    assert("ListCellIds"@[4] != "ListDnas"@[4]);
    assert("ListActiveApps"@[0] != "AttachAppInterface"@[0]);
    assert("ListActiveApps"@[0] != "DisableApp"@[0]);
    assert("ListActiveApps"@[0] != "EnableApp"@[0]);
    assert("ListActiveApps"@[0] != "GenerateAgentPubKey"@[0]);
    assert("ListActiveApps"@[0] != "RegisterDna"@[0]);
    assert("ListActiveApps"@[0] != "InstallApp"@[0]);
    assert("ListActiveApps"@[0] != "UninstallApp"@[0]);
    assert("ListActiveApps"@[4] != "ListDnas"@[4]);
    assert("ListActiveApps"@[4] != "ListCellIds"@[4]);
}

/// Whether `tag` names one of the administrative commands.
pub fn admin_tag_known(tag: &String) -> (r: bool)
    ensures
        r == is_admin_tag(tag@),
{
    tag_is(tag, "AttachAppInterface") || tag_is(tag, "DisableApp") || tag_is(tag, "EnableApp")
        || tag_is(tag, "GenerateAgentPubKey") || tag_is(tag, "RegisterDna") || tag_is(
        tag,
        "InstallApp",
    ) || tag_is(tag, "UninstallApp") || tag_is(tag, "ListDnas") || tag_is(tag, "ListCellIds")
        || tag_is(tag, "ListActiveApps")
}

/// Builds the result of the administrative command named `tag` from the
/// raw value that the remote method gave.
pub fn parse_admin_ws_cmd_response(val: Value, tag: String) -> (r: Result<
    AdminWsCmdResponse,
    ShapeMismatch,
>)
    requires
        is_admin_tag(tag@),
    ensures
        r is Ok <==> admin_response_of(val@, tag@) is Some,
        r matches Ok(x) ==> admin_response_of(val@, tag@) == Some(x@),
{
    if tag_is(&tag, "AttachAppInterface") {
        Ok(AdminWsCmdResponse::AttachAppInterface(val))
    } else if tag_is(&tag, "DisableApp") {
        Ok(AdminWsCmdResponse::DisableApp(val))
    } else if tag_is(&tag, "EnableApp") {
        Ok(AdminWsCmdResponse::EnableApp(val))
    } else if tag_is(&tag, "GenerateAgentPubKey") {
        Ok(AdminWsCmdResponse::GenerateAgentPubKey(AgentPk::from_value(&val)?))
    } else if tag_is(&tag, "RegisterDna") {
        Ok(AdminWsCmdResponse::RegisterDna(DnaHash::from_value(&val)?))
    } else if tag_is(&tag, "InstallApp") {
        Ok(AdminWsCmdResponse::InstallApp(val))
    } else if tag_is(&tag, "UninstallApp") {
        Ok(AdminWsCmdResponse::UninstallApp(val))
    } else if tag_is(&tag, "ListDnas") {
        Ok(AdminWsCmdResponse::ListDnas(val))
    } else if tag_is(&tag, "ListCellIds") {
        Ok(AdminWsCmdResponse::ListCellIds(CellIdVec::from_value(&val)?))
    } else {
        Ok(AdminWsCmdResponse::ListActiveApps(val))
    }
}

} // verus!
