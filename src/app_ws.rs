use vstd::prelude::*;

use crate::dispatch::{WsCall, opt_view, tag_is};
use crate::marshal::{FromValue, ToValue};
use crate::naming::{lowercase_first_letter, wire_name};
use crate::types::{AgentPk, AppInfo, CellId, object_of};
use crate::value::{Entry, Json, ShapeMismatch, Value, lemma_object_view, object1};

verus! {

/// The commands of the application interface, one for each of its remote
/// methods.
#[derive(Debug, PartialEq)]
pub enum AppWsCmd {
    AppInfo { installed_app_id: String },
    CallZome {
        cell_id: CellId,
        zome_name: String,
        fn_name: String,
        payload: Value,
        provenance: AgentPk,
        cap: String,
    },
}

/// The results of the application commands, one for each command.
#[derive(Debug, PartialEq)]
pub enum AppWsCmdResponse {
    AppInfo(AppInfo),
    CallZome(Value),
}

/// The mathematical form of an application result.
pub enum AppResponseModel {
    AppInfo((Seq<char>, Seq<((Json, Json), Seq<char>)>, Seq<char>)),
    CallZome(Json),
}

impl View for AppWsCmdResponse {
    type V = AppResponseModel;

    open spec fn view(&self) -> AppResponseModel {
        match self {
            AppWsCmdResponse::AppInfo(i) => AppResponseModel::AppInfo(i.model()),
            AppWsCmdResponse::CallZome(v) => AppResponseModel::CallZome(v@),
        }
    }
}

impl AppResponseModel {
    /// The name of the command that the result belongs to.
    pub open spec fn tag(self) -> Seq<char> {
        match self {
            AppResponseModel::AppInfo(_) => "AppInfo"@,
            AppResponseModel::CallZome(_) => "CallZome"@,
        }
    }
}

/// Whether `tag` names one of the application commands.
pub open spec fn is_app_tag(tag: Seq<char>) -> bool {
    tag == "AppInfo"@ || tag == "CallZome"@
}

/// The result that `raw` gives under `tag`; `None` where it cannot be read
/// as that result.
pub open spec fn app_response_of(raw: Json, tag: Seq<char>) -> Option<AppResponseModel> {
    if tag == "AppInfo"@ {
        match AppInfo::decode(raw) {
            Some(i) => Some(AppResponseModel::AppInfo(i)),
            None => None,
        }
    } else {
        Some(AppResponseModel::CallZome(raw))
    }
}

impl AppWsCmd {
    /// The name of the command, which is also the tag of its result.
    pub open spec fn tag_spec(&self) -> Seq<char> {
        match self {
            AppWsCmd::AppInfo { .. } => "AppInfo"@,
            AppWsCmd::CallZome { .. } => "CallZome"@,
        }
    }

    /// The name of the remote method that the command calls.
    pub open spec fn method_spec(&self) -> Seq<char> {
        match self {
            AppWsCmd::AppInfo { .. } => "appInfo"@,
            AppWsCmd::CallZome { .. } => "callZome"@,
        }
    }

    /// The payload of the command: an object with one entry per field,
    /// under the field's name.
    pub open spec fn payload_spec(&self) -> Option<Json> {
        match self {
            AppWsCmd::AppInfo { installed_app_id } => Some(
                object_of(seq!["installed_app_id"@], seq![Json::Str(installed_app_id@)]),
            ),
            AppWsCmd::CallZome { cell_id, zome_name, fn_name, payload, provenance, cap } => Some(
                object_of(
                    seq!["cell_id"@, "zome_name"@, "fn_name"@, "payload"@, "provenance"@, "cap"@],
                    seq![
                        CellId::encode(cell_id.model()),
                        Json::Str(zome_name@),
                        Json::Str(fn_name@),
                        payload@,
                        provenance.model(),
                        Json::Str(cap@),
                    ],
                ),
            ),
        }
    }

    /// The name of the command.
    pub fn tag(&self) -> (r: String)
        ensures
            r@ == self.tag_spec(),
    {
        match self {
            AppWsCmd::AppInfo { .. } => String::from_str("AppInfo"),
            AppWsCmd::CallZome { .. } => String::from_str("CallZome"),
        }
    }

    /// The name of the remote method: the command's name with its first
    /// letter lowercased.
    pub fn method_name(&self) -> (r: String)
        ensures
            r@ == wire_name(self.tag_spec()),
            r@ == self.method_spec(),
    {
        let r = lowercase_first_letter(self.tag());
        proof {
            match self {
                AppWsCmd::AppInfo { .. } => {
                    reveal_strlit("AppInfo");
                    reveal_strlit("appInfo");
                },
                AppWsCmd::CallZome { .. } => {
                    reveal_strlit("CallZome");
                    reveal_strlit("callZome");
                },
            }
            assert(r@ =~= self.method_spec());
        }
        r
    }

    /// The payload of the command.
    pub fn payload(&self) -> (r: Option<Value>)
        ensures
            opt_view(r) == self.payload_spec(),
    {
        match self {
            AppWsCmd::AppInfo { installed_app_id } => Some(
                object1("installed_app_id", installed_app_id.to_value()),
            ),
            AppWsCmd::CallZome { cell_id, zome_name, fn_name, payload, provenance, cap } => {
                let mut entries: Vec<Entry> = Vec::new();
                entries.push(
                    Entry { key: String::from_str("cell_id"), value: cell_id.to_value() },
                );
                entries.push(
                    Entry {
                        key: String::from_str("zome_name"),
                        value: zome_name.to_value(),
                    },
                );
                entries.push(
                    Entry { key: String::from_str("fn_name"), value: fn_name.to_value() },
                );
                entries.push(
                    Entry { key: String::from_str("payload"), value: payload.to_value() },
                );
                entries.push(
                    Entry {
                        key: String::from_str("provenance"),
                        value: provenance.to_value(),
                    },
                );
                entries.push(
                    Entry { key: String::from_str("cap"), value: cap.to_value() },
                );
                proof {
                    lemma_object_view(entries);
                }
                let r = Value::Object(entries);
                assert(r@->Object_0 =~= seq![
                    "cell_id"@,
                    "zome_name"@,
                    "fn_name"@,
                    "payload"@,
                    "provenance"@,
                    "cap"@,
                ]);
                assert(r@->Object_1 =~= seq![
                    CellId::encode(cell_id.model()),
                    Json::Str(zome_name@),
                    Json::Str(fn_name@),
                    payload@,
                    provenance.model(),
                    Json::Str(cap@),
                ]);
                Some(r)
            },
        }
    }

    /// The remote call that carries out the command.
    pub fn to_call(&self) -> (r: WsCall)
        ensures
            r.method@ == wire_name(self.tag_spec()),
            r.method@ == self.method_spec(),
            opt_view(r.payload) == self.payload_spec(),
            r.tag@ == self.tag_spec(),
            is_app_tag(r.tag@),
    {
        WsCall { method: self.method_name(), payload: self.payload(), tag: self.tag() }
    }
}

/// Every application command's name is a known tag, and the raw value that
/// its remote method gives is read under that tag as a result of the same
/// command; where the result is left generic, always, and as the raw value.
pub proof fn lemma_app_dispatch(cmd: AppWsCmd, raw: Json)
    ensures
        is_app_tag(cmd.tag_spec()),
        app_response_of(raw, cmd.tag_spec()) matches Some(m) ==> m.tag() == cmd.tag_spec(),
        cmd is CallZome ==> app_response_of(raw, cmd.tag_spec()) == Some(
            AppResponseModel::CallZome(raw),
        ),
        cmd is AppInfo ==> (app_response_of(raw, cmd.tag_spec()) is Some <==> AppInfo::decode(
            raw,
        ) is Some),
{
    reveal_strlit("AppInfo");
    reveal_strlit("CallZome");
    assert("CallZome"@[0] != "AppInfo"@[0]);
}

/// Whether `tag` names one of the application commands.
pub fn app_tag_known(tag: &String) -> (r: bool)
    ensures
        r == is_app_tag(tag@),
{
    tag_is(tag, "AppInfo") || tag_is(tag, "CallZome")
}

/// Builds the result of the application command named `tag` from the raw
/// value that the remote method gave.
pub fn parse_app_ws_cmd_response(val: Value, tag: String) -> (r: Result<
    AppWsCmdResponse,
    ShapeMismatch,
>)
    requires
        is_app_tag(tag@),
    ensures
        r is Ok <==> app_response_of(val@, tag@) is Some,
        r matches Ok(x) ==> app_response_of(val@, tag@) == Some(x@),
{
    if tag_is(&tag, "AppInfo") {
        Ok(AppWsCmdResponse::AppInfo(AppInfo::from_value(&val)?))
    } else {
        Ok(AppWsCmdResponse::CallZome(val))
    }
}

} // verus!
