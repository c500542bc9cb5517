use vstd::prelude::*;

use crate::marshal::{FromValue, ToValue, decode_all, encode_all};
use crate::value::{
    Json, ShapeMismatch, Value, field_of, get_field, lemma_object_view, object1, object2, object3,
};

verus! {

/// The hash of a DNA, carried as the generic value that the remote side
/// gave.
#[derive(Clone, Debug, PartialEq)]
pub struct DnaHash(pub Value);

/// The public key of an agent, carried as the generic value that the
/// remote side gave.
#[derive(Clone, Debug, PartialEq)]
pub struct AgentPk(pub Value);

/// A cell: the DNA it runs and the agent it runs for.
pub type CellId = (DnaHash, AgentPk);

pub type CellIdVec = Vec<CellId>;

/// A DNA to install: its hash, its role, and an optional membrane proof.
#[derive(Clone, Debug, PartialEq)]
pub struct HashRoleProof {
    pub hash: DnaHash,
    pub role: String,
    pub membrane_proof: Option<String>,
}

pub type CellIdRoleIdVec = Vec<CellIdRoleId>;

/// What the remote side reports of an installed application.
#[derive(Debug, PartialEq)]
pub struct AppInfo {
    pub installed_app_id: String,
    pub cell_data: CellIdRoleIdVec,
    /// The name of the status; the details that come with it are dropped.
    pub status: String,
}

/// A cell of an application and the role it fills.
#[derive(Debug, PartialEq)]
pub struct CellIdRoleId {
    pub cell_id: CellId,
    pub role_id: String,
}

/// An object with the given keys and values.
pub open spec fn object_of(keys: Seq<Seq<char>>, vals: Seq<Json>) -> Json {
    Json::Object(keys, vals)
}

/// The value under `key` in `j`, where `j` is an object that has one.
pub open spec fn member(j: Json, key: Seq<char>) -> Option<Json> {
    match j {
        Json::Object(ks, vs) => field_of(ks, vs, key),
        _ => None,
    }
}

/// A status as it stands on the wire: an object with the status's name as
/// its one key, here with no details.
pub open spec fn encode_status(name: Seq<char>) -> Json {
    Json::Object(seq![name], seq![Json::Object(Seq::empty(), Seq::empty())])
}

/// The status read from its wire form: the first key of an object.
pub open spec fn decode_status(j: Json) -> Option<Seq<char>> {
    match j {
        Json::Object(ks, vs) => if ks.len() > 0 {
            Some(ks[0])
        } else {
            None
        },
        _ => None,
    }
}

impl ToValue for DnaHash {
    type Model = Json;

    open spec fn model(&self) -> Json {
        self.0@
    }

    open spec fn encode(m: Json) -> Json {
        m
    }

    fn to_value(&self) -> (r: Value) {
        self.0.clone()
    }
}

impl FromValue for DnaHash {
    open spec fn decode(j: Json) -> Option<Json> {
        Some(j)
    }

    fn from_value(v: &Value) -> (r: Result<DnaHash, ShapeMismatch>) {
        Ok(DnaHash(v.clone()))
    }

    proof fn lemma_round_trip(m: Json) {
    }
}

impl ToValue for AgentPk {
    type Model = Json;

    open spec fn model(&self) -> Json {
        self.0@
    }

    open spec fn encode(m: Json) -> Json {
        m
    }

    fn to_value(&self) -> (r: Value) {
        self.0.clone()
    }
}

impl FromValue for AgentPk {
    open spec fn decode(j: Json) -> Option<Json> {
        Some(j)
    }

    fn from_value(v: &Value) -> (r: Result<AgentPk, ShapeMismatch>) {
        Ok(AgentPk(v.clone()))
    }

    proof fn lemma_round_trip(m: Json) {
    }
}

impl ToValue for HashRoleProof {
    type Model = (Json, Seq<char>, Option<Seq<char>>);

    open spec fn model(&self) -> (Json, Seq<char>, Option<Seq<char>>) {
        (self.hash.model(), self.role@, self.membrane_proof.model())
    }

    open spec fn encode(m: (Json, Seq<char>, Option<Seq<char>>)) -> Json {
        object_of(
            seq!["hash"@, "role"@, "membrane_proof"@],
            seq![m.0, Json::Str(m.1), Option::<String>::encode(m.2)],
        )
    }

    fn to_value(&self) -> (r: Value) {
        object3(
            "hash",
            self.hash.to_value(),
            "role",
            self.role.to_value(),
            "membrane_proof",
            self.membrane_proof.to_value(),
        )
    }
}

impl ToValue for CellIdRoleId {
    type Model = ((Json, Json), Seq<char>);

    open spec fn model(&self) -> ((Json, Json), Seq<char>) {
        (self.cell_id.model(), self.role_id@)
    }

    open spec fn encode(m: ((Json, Json), Seq<char>)) -> Json {
        object_of(seq!["cell_id"@, "role_id"@], seq![CellId::encode(m.0), Json::Str(m.1)])
    }

    fn to_value(&self) -> (r: Value) {
        object2("cell_id", self.cell_id.to_value(), "role_id", self.role_id.to_value())
    }
}

impl FromValue for CellIdRoleId {
    open spec fn decode(j: Json) -> Option<((Json, Json), Seq<char>)> {
        match (member(j, "cell_id"@), member(j, "role_id"@)) {
            (Some(c), Some(r)) => match (CellId::decode(c), String::decode(r)) {
                (Some(c), Some(r)) => Some((c, r)),
                _ => None,
            },
            _ => None,
        }
    }

    fn from_value(v: &Value) -> (r: Result<CellIdRoleId, ShapeMismatch>) {
        match v {
            Value::Object(entries) => {
                proof {
                    lemma_object_view(*entries);
                }
                let c = match get_field(entries, "cell_id") {
                    Some(c) => c,
                    None => return Err(ShapeMismatch),
                };
                let r = match get_field(entries, "role_id") {
                    Some(r) => r,
                    None => return Err(ShapeMismatch),
                };
                let cell_id = CellId::from_value(&c)?;
                let role_id = String::from_value(&r)?;
                Ok(CellIdRoleId { cell_id, role_id })
            },
            _ => Err(ShapeMismatch),
        }
    }

    proof fn lemma_round_trip(m: ((Json, Json), Seq<char>)) {
        reveal_strlit("cell_id");
        reveal_strlit("role_id");
        let j = Self::encode(m);
        assert(member(j, "cell_id"@) == Some(CellId::encode(m.0)));
        assert("cell_id"@[0] != "role_id"@[0]);
        assert(seq!["cell_id"@, "role_id"@].drop_first() =~= seq!["role_id"@]);
        assert(seq![CellId::encode(m.0), Json::Str(m.1)].drop_first() =~= seq![Json::Str(m.1)]);
        assert(field_of(seq!["role_id"@], seq![Json::Str(m.1)], "role_id"@) == Some(Json::Str(m.1)));
        assert(member(j, "role_id"@) == Some(Json::Str(m.1)));
        CellId::lemma_round_trip(m.0);
    }
}

/// A status written as an object with the status's name as its first key
/// reads as that name, whatever details stand under it.
pub proof fn lemma_status_first_key(name: Seq<char>, details: Json, keys: Seq<Seq<char>>, vals: Seq<Json>)
    ensures
        decode_status(Json::Object(seq![name] + keys, seq![details] + vals)) == Some(name),
        decode_status(encode_status(name)) == Some(name),
{
}

/// Reads a status from its wire form: the first key of an object, with
/// whatever stands under it dropped.
pub fn status_from_value(v: &Value) -> (r: Result<String, ShapeMismatch>)
    ensures
        r is Ok <==> decode_status(v@) is Some,
        r matches Ok(s) ==> decode_status(v@) == Some(s@),
{
    match v {
        Value::Object(entries) => {
            proof {
                lemma_object_view(*entries);
            }
            if entries.len() == 0 {
                Err(ShapeMismatch)
            } else {
                Ok(entries[0].key.clone())
            }
        },
        _ => Err(ShapeMismatch),
    }
}

/// Writes a status in its wire form: an object whose one key is the
/// status's name, with no details under it.
pub fn status_to_value(name: &String) -> (r: Value)
    ensures
        r@ == encode_status(name@),
{
    let details = Value::Object(Vec::new());
    assert(details@->Object_0 =~= Seq::empty());
    assert(details@->Object_1 =~= Seq::empty());
    object1(name.as_str(), details)
}

impl ToValue for AppInfo {
    type Model = (Seq<char>, Seq<((Json, Json), Seq<char>)>, Seq<char>);

    open spec fn model(&self) -> (Seq<char>, Seq<((Json, Json), Seq<char>)>, Seq<char>) {
        (self.installed_app_id@, self.cell_data.model(), self.status@)
    }

    open spec fn encode(m: (Seq<char>, Seq<((Json, Json), Seq<char>)>, Seq<char>)) -> Json {
        object_of(
            seq!["installed_app_id"@, "cell_data"@, "status"@],
            seq![Json::Str(m.0), CellIdRoleIdVec::encode(m.1), encode_status(m.2)],
        )
    }

    fn to_value(&self) -> (r: Value) {
        object3(
            "installed_app_id",
            self.installed_app_id.to_value(),
            "cell_data",
            self.cell_data.to_value(),
            "status",
            status_to_value(&self.status),
        )
    }
}

impl FromValue for AppInfo {
    open spec fn decode(j: Json) -> Option<(Seq<char>, Seq<((Json, Json), Seq<char>)>, Seq<char>)> {
        match (member(j, "installed_app_id"@), member(j, "cell_data"@), member(j, "status"@)) {
            (Some(a), Some(c), Some(s)) => match (
                String::decode(a),
                CellIdRoleIdVec::decode(c),
                decode_status(s),
            ) {
                (Some(a), Some(c), Some(s)) => Some((a, c, s)),
                _ => None,
            },
            _ => None,
        }
    }

    fn from_value(v: &Value) -> (r: Result<AppInfo, ShapeMismatch>) {
        match v {
            Value::Object(entries) => {
                proof {
                    lemma_object_view(*entries);
                }
                let a = match get_field(entries, "installed_app_id") {
                    Some(a) => a,
                    None => return Err(ShapeMismatch),
                };
                let c = match get_field(entries, "cell_data") {
                    Some(c) => c,
                    None => return Err(ShapeMismatch),
                };
                let s = match get_field(entries, "status") {
                    Some(s) => s,
                    None => return Err(ShapeMismatch),
                };
                let installed_app_id = String::from_value(&a)?;
                let cell_data = CellIdRoleIdVec::from_value(&c)?;
                let status = status_from_value(&s)?;
                Ok(AppInfo { installed_app_id, cell_data, status })
            },
            _ => Err(ShapeMismatch),
        }
    }

    proof fn lemma_round_trip(m: (Seq<char>, Seq<((Json, Json), Seq<char>)>, Seq<char>)) {
        reveal_strlit("installed_app_id");
        reveal_strlit("cell_data");
        reveal_strlit("status");
        let ks = seq!["installed_app_id"@, "cell_data"@, "status"@];
        let vs = seq![Json::Str(m.0), CellIdRoleIdVec::encode(m.1), encode_status(m.2)];
        assert("installed_app_id"@[0] != "cell_data"@[0]);
        assert("installed_app_id"@[0] != "status"@[0]);
        assert("cell_data"@[0] != "status"@[0]);
        assert(ks.drop_first() =~= seq!["cell_data"@, "status"@]);
        assert(vs.drop_first() =~= seq![CellIdRoleIdVec::encode(m.1), encode_status(m.2)]);
        assert(ks.drop_first().drop_first() =~= seq!["status"@]);
        assert(vs.drop_first().drop_first() =~= seq![encode_status(m.2)]);
        assert(field_of(seq!["status"@], seq![encode_status(m.2)], "status"@) == Some(
            encode_status(m.2),
        ));
        assert(field_of(ks.drop_first(), vs.drop_first(), "status"@) == Some(encode_status(m.2)));
        assert(field_of(ks.drop_first(), vs.drop_first(), "cell_data"@) == Some(
            CellIdRoleIdVec::encode(m.1),
        ));
        CellIdRoleIdVec::lemma_round_trip(m.1);
    }
}

} // verus!
