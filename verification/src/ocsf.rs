//! The output side of the pipeline: the fixed-shape OCSF event record,
//! its mathematical mirror, its projection onto the JSON value model
//! (optional fields are omitted when absent), and a builder.

use vstd::prelude::*;

use crate::value::{
    jv_view_pairs, lemma_jv_view_pairs, lemma_jv_view_pairs_snoc, lemma_jv_view_seq,
    JsonVal, JsonValV,
};

verus! {

#[derive(Debug, Clone, PartialEq)]
pub struct OcsfProduct {
    pub vendor_name: String,
    pub name: String,
    pub version: String,
}

pub struct OcsfProductV {
    pub vendor_name: Seq<char>,
    pub name: Seq<char>,
    pub version: Seq<char>,
}

impl View for OcsfProduct {
    type V = OcsfProductV;

    open spec fn view(&self) -> OcsfProductV {
        OcsfProductV {
            vendor_name: self.vendor_name@,
            name: self.name@,
            version: self.version@,
        }
    }
}

#[derive(Debug, Clone, PartialEq)]
pub struct OcsfUser {
    pub name: String,
    pub uid: String,
}

pub struct OcsfUserV {
    pub name: Seq<char>,
    pub uid: Seq<char>,
}

impl View for OcsfUser {
    type V = OcsfUserV;

    open spec fn view(&self) -> OcsfUserV {
        OcsfUserV { name: self.name@, uid: self.uid@ }
    }
}

#[derive(Debug, Clone, PartialEq)]
pub struct OcsfActor {
    pub user: OcsfUser,
}

pub struct OcsfActorV {
    pub user: OcsfUserV,
}

impl View for OcsfActor {
    type V = OcsfActorV;

    open spec fn view(&self) -> OcsfActorV {
        OcsfActorV { user: self.user@ }
    }
}

#[derive(Debug, Clone, PartialEq)]
pub struct OcsfService {
    pub name: String,
}

pub struct OcsfServiceV {
    pub name: Seq<char>,
}

impl View for OcsfService {
    type V = OcsfServiceV;

    open spec fn view(&self) -> OcsfServiceV {
        OcsfServiceV { name: self.name@ }
    }
}

#[derive(Debug, Clone, PartialEq)]
pub struct OcsfEndpoint {
    pub ip: Option<String>,
    pub hostname: Option<String>,
    pub port: Option<i32>,
}

pub struct OcsfEndpointV {
    pub ip: Option<Seq<char>>,
    pub hostname: Option<Seq<char>>,
    pub port: Option<int>,
}

impl View for OcsfEndpoint {
    type V = OcsfEndpointV;

    open spec fn view(&self) -> OcsfEndpointV {
        OcsfEndpointV {
            ip: opt_str_view(self.ip),
            hostname: opt_str_view(self.hostname),
            port: opt_i32_view(self.port),
        }
    }
}

#[derive(Debug, Clone, PartialEq)]
pub struct OcsfProcess {
    pub name: String,
    pub cmd_line: String,
    pub uid: String,
    pub pid: Option<i32>,
}

pub struct OcsfProcessV {
    pub name: Seq<char>,
    pub cmd_line: Seq<char>,
    pub uid: Seq<char>,
    pub pid: Option<int>,
}

impl View for OcsfProcess {
    type V = OcsfProcessV;

    open spec fn view(&self) -> OcsfProcessV {
        OcsfProcessV {
            name: self.name@,
            cmd_line: self.cmd_line@,
            uid: self.uid@,
            pid: opt_i32_view(self.pid),
        }
    }
}

/// An observable; `observable_type` serializes under the key `type`.
#[derive(Debug, Clone, PartialEq)]
pub struct OcsfObservable {
    pub name: String,
    pub observable_type: String,
    pub type_id: i32,
    pub value: String,
}

pub struct OcsfObservableV {
    pub name: Seq<char>,
    pub observable_type: Seq<char>,
    pub type_id: int,
    pub value: Seq<char>,
}

impl View for OcsfObservable {
    type V = OcsfObservableV;

    open spec fn view(&self) -> OcsfObservableV {
        OcsfObservableV {
            name: self.name@,
            observable_type: self.observable_type@,
            type_id: self.type_id as int,
            value: self.value@,
        }
    }
}

#[derive(Debug, Clone, PartialEq)]
pub struct OcsfMetadata {
    pub uid: Option<String>,
    pub version: String,
    pub product: OcsfProduct,
    pub logged_time: Option<i64>,
    pub log_name: Option<String>,
    pub log_provider: Option<String>,
    pub event_code: Option<String>,
    pub profiles: Option<Vec<String>>,
    pub log_version: Option<String>,
    pub log_level: Option<String>,
    pub original_time: Option<String>,
}

pub struct OcsfMetadataV {
    pub uid: Option<Seq<char>>,
    pub version: Seq<char>,
    pub product: OcsfProductV,
    pub logged_time: Option<int>,
    pub log_name: Option<Seq<char>>,
    pub log_provider: Option<Seq<char>>,
    pub event_code: Option<Seq<char>>,
    pub profiles: Option<Seq<Seq<char>>>,
    pub log_version: Option<Seq<char>>,
    pub log_level: Option<Seq<char>>,
    pub original_time: Option<Seq<char>>,
}

impl View for OcsfMetadata {
    type V = OcsfMetadataV;

    open spec fn view(&self) -> OcsfMetadataV {
        OcsfMetadataV {
            uid: opt_str_view(self.uid),
            version: self.version@,
            product: self.product@,
            logged_time: opt_i64_view(self.logged_time),
            log_name: opt_str_view(self.log_name),
            log_provider: opt_str_view(self.log_provider),
            event_code: opt_str_view(self.event_code),
            profiles: match self.profiles {
                Some(p) => Some(Seq::new(p@.len(), |i: int| p@[i]@)),
                None => None,
            },
            log_version: opt_str_view(self.log_version),
            log_level: opt_str_view(self.log_level),
            original_time: opt_str_view(self.original_time),
        }
    }
}

/// The OCSF event record. The identifiers, names, timestamp, activity,
/// status, and severity fields are always present; the rest are omitted
/// from serialization when absent.
#[derive(Debug, Clone, PartialEq)]
pub struct OcsfEvent {
    pub metadata: OcsfMetadata,
    pub category_uid: i32,
    pub category_name: String,
    pub class_uid: i32,
    pub class_name: String,
    pub time: i64,
    pub type_uid: i32,
    /// Serializes under the key `type_name`.
    pub type_title: String,
    pub activity_id: i32,
    pub activity_name: String,
    pub status: String,
    pub status_id: i32,
    pub severity: String,
    pub severity_id: i32,
    pub user: Option<OcsfUser>,
    pub actor: Option<OcsfActor>,
    pub service: Option<OcsfService>,
    pub src_endpoint: Option<OcsfEndpoint>,
    pub dst_endpoint: Option<OcsfEndpoint>,
    pub auth_protocol: Option<String>,
    pub auth_protocol_id: Option<i32>,
    pub logon_type: Option<String>,
    pub logon_type_id: Option<i32>,
    pub logon_process: Option<OcsfProcess>,
    pub is_remote: Option<bool>,
    pub is_mfa: Option<bool>,
    pub is_cleartext: Option<bool>,
    pub status_code: Option<String>,
    pub status_detail: Option<String>,
    pub message: Option<String>,
    pub raw_data: Option<String>,
    pub observables: Option<Vec<OcsfObservable>>,
    pub unmapped: Option<Vec<(String, JsonVal)>>,
    pub timezone_offset: Option<i32>,
}

pub struct OcsfEventV {
    pub metadata: OcsfMetadataV,
    pub category_uid: int,
    pub category_name: Seq<char>,
    pub class_uid: int,
    pub class_name: Seq<char>,
    pub time: int,
    pub type_uid: int,
    pub type_title: Seq<char>,
    pub activity_id: int,
    pub activity_name: Seq<char>,
    pub status: Seq<char>,
    pub status_id: int,
    pub severity: Seq<char>,
    pub severity_id: int,
    pub user: Option<OcsfUserV>,
    pub actor: Option<OcsfActorV>,
    pub service: Option<OcsfServiceV>,
    pub src_endpoint: Option<OcsfEndpointV>,
    pub dst_endpoint: Option<OcsfEndpointV>,
    pub auth_protocol: Option<Seq<char>>,
    pub auth_protocol_id: Option<int>,
    pub logon_type: Option<Seq<char>>,
    pub logon_type_id: Option<int>,
    pub logon_process: Option<OcsfProcessV>,
    pub is_remote: Option<bool>,
    pub is_mfa: Option<bool>,
    pub is_cleartext: Option<bool>,
    pub status_code: Option<Seq<char>>,
    pub status_detail: Option<Seq<char>>,
    pub message: Option<Seq<char>>,
    pub raw_data: Option<Seq<char>>,
    pub observables: Option<Seq<OcsfObservableV>>,
    pub unmapped: Option<Seq<(Seq<char>, JsonValV)>>,
    pub timezone_offset: Option<int>,
}

pub open spec fn opt_str_view(o: Option<String>) -> Option<Seq<char>> {
    match o {
        Some(s) => Some(s@),
        None => None,
    }
}

pub open spec fn opt_i32_view(o: Option<i32>) -> Option<int> {
    match o {
        Some(i) => Some(i as int),
        None => None,
    }
}

pub open spec fn opt_i64_view(o: Option<i64>) -> Option<int> {
    match o {
        Some(i) => Some(i as int),
        None => None,
    }
}

impl View for OcsfEvent {
    type V = OcsfEventV;

    open spec fn view(&self) -> OcsfEventV {
        OcsfEventV {
            metadata: self.metadata@,
            category_uid: self.category_uid as int,
            category_name: self.category_name@,
            class_uid: self.class_uid as int,
            class_name: self.class_name@,
            time: self.time as int,
            type_uid: self.type_uid as int,
            type_title: self.type_title@,
            activity_id: self.activity_id as int,
            activity_name: self.activity_name@,
            status: self.status@,
            status_id: self.status_id as int,
            severity: self.severity@,
            severity_id: self.severity_id as int,
            user: match self.user {
                Some(u) => Some(u@),
                None => None,
            },
            actor: match self.actor {
                Some(a) => Some(a@),
                None => None,
            },
            service: match self.service {
                Some(s) => Some(s@),
                None => None,
            },
            src_endpoint: match self.src_endpoint {
                Some(e) => Some(e@),
                None => None,
            },
            dst_endpoint: match self.dst_endpoint {
                Some(e) => Some(e@),
                None => None,
            },
            auth_protocol: opt_str_view(self.auth_protocol),
            auth_protocol_id: opt_i32_view(self.auth_protocol_id),
            logon_type: opt_str_view(self.logon_type),
            logon_type_id: opt_i32_view(self.logon_type_id),
            logon_process: match self.logon_process {
                Some(p) => Some(p@),
                None => None,
            },
            is_remote: self.is_remote,
            is_mfa: self.is_mfa,
            is_cleartext: self.is_cleartext,
            status_code: opt_str_view(self.status_code),
            status_detail: opt_str_view(self.status_detail),
            message: opt_str_view(self.message),
            raw_data: opt_str_view(self.raw_data),
            observables: match self.observables {
                Some(obs) => Some(Seq::new(obs@.len(), |i: int| obs@[i]@)),
                None => None,
            },
            unmapped: match self.unmapped {
                Some(u) => Some(jv_view_pairs(u@)),
                None => None,
            },
            timezone_offset: opt_i32_view(self.timezone_offset),
        }
    }
}

/// One optional string member: present exactly when the value is.
pub open spec fn opt_str_field(key: Seq<char>, o: Option<Seq<char>>) -> Seq<
    (Seq<char>, JsonValV),
> {
    match o {
        Some(s) => seq![(key, JsonValV::Str(s))],
        None => Seq::empty(),
    }
}

/// One optional integer member: present exactly when the value is.
pub open spec fn opt_int_field(key: Seq<char>, o: Option<int>) -> Seq<(Seq<char>, JsonValV)> {
    match o {
        Some(i) => seq![(key, JsonValV::Int(i))],
        None => Seq::empty(),
    }
}

/// One optional boolean member: present exactly when the value is.
pub open spec fn opt_bool_field(key: Seq<char>, o: Option<bool>) -> Seq<(Seq<char>, JsonValV)> {
    match o {
        Some(b) => seq![(key, JsonValV::Bool(b))],
        None => Seq::empty(),
    }
}

/// A list of strings as a list of JSON strings.
pub open spec fn str_seq_jv(s: Seq<Seq<char>>) -> Seq<JsonValV> {
    Seq::new(s.len(), |i: int| JsonValV::Str(s[i]))
}

pub open spec fn product_jv(p: OcsfProductV) -> JsonValV {
    JsonValV::Obj(
        seq![
            ("vendor_name"@, JsonValV::Str(p.vendor_name)),
            ("name"@, JsonValV::Str(p.name)),
            ("version"@, JsonValV::Str(p.version)),
        ],
    )
}

pub open spec fn user_jv(u: OcsfUserV) -> JsonValV {
    JsonValV::Obj(seq![("name"@, JsonValV::Str(u.name)), ("uid"@, JsonValV::Str(u.uid))])
}

pub open spec fn actor_jv(a: OcsfActorV) -> JsonValV {
    JsonValV::Obj(seq![("user"@, user_jv(a.user))])
}

pub open spec fn service_jv(s: OcsfServiceV) -> JsonValV {
    JsonValV::Obj(seq![("name"@, JsonValV::Str(s.name))])
}

pub open spec fn endpoint_jv(e: OcsfEndpointV) -> JsonValV {
    JsonValV::Obj(
        opt_str_field("ip"@, e.ip) + opt_str_field("hostname"@, e.hostname) + opt_int_field(
            "port"@,
            e.port,
        ),
    )
}

pub open spec fn process_jv(p: OcsfProcessV) -> JsonValV {
    JsonValV::Obj(
        seq![
            ("name"@, JsonValV::Str(p.name)),
            ("cmd_line"@, JsonValV::Str(p.cmd_line)),
            ("uid"@, JsonValV::Str(p.uid)),
        ] + opt_int_field("pid"@, p.pid),
    )
}

pub open spec fn observable_jv(o: OcsfObservableV) -> JsonValV {
    JsonValV::Obj(
        seq![
            ("name"@, JsonValV::Str(o.name)),
            ("type"@, JsonValV::Str(o.observable_type)),
            ("type_id"@, JsonValV::Int(o.type_id)),
            ("value"@, JsonValV::Str(o.value)),
        ],
    )
}

/// Appends one member pair to a field list under construction.
fn push_field(out: &mut Vec<(String, JsonVal)>, key: &str, v: JsonVal)
    ensures
        jv_view_pairs(final(out)@) == jv_view_pairs(old(out)@) + seq![
            (key@, crate::value::jv_view(v)),
        ],
{
    let ghost vv = crate::value::jv_view(v);
    let k = key.to_owned();
    out.push((k, v));
    proof {
        lemma_jv_view_pairs_snoc(old(out)@, final(out)@[final(out)@.len() - 1]);
        assert(jv_view_pairs(final(out)@) =~= jv_view_pairs(old(out)@) + seq![(key@, vv)]);
    }
}

fn opt_str_json(out: &mut Vec<(String, JsonVal)>, key: &str, o: &Option<String>)
    ensures
        jv_view_pairs(final(out)@) == jv_view_pairs(old(out)@) + opt_str_field(
            key@,
            opt_str_view(*o),
        ),
{
    match o {
        Some(s) => push_field(out, key, JsonVal::Str(s.clone())),
        None => {
            proof {
                assert(jv_view_pairs(out@) =~= jv_view_pairs(out@) + Seq::<(
                    Seq<char>,
                    JsonValV,
                )>::empty());
            }
        }
    }
}

fn opt_i32_json(out: &mut Vec<(String, JsonVal)>, key: &str, o: &Option<i32>)
    ensures
        jv_view_pairs(final(out)@) == jv_view_pairs(old(out)@) + opt_int_field(
            key@,
            opt_i32_view(*o),
        ),
{
    match o {
        Some(i) => push_field(out, key, JsonVal::Int(*i as i64)),
        None => {
            proof {
                assert(jv_view_pairs(out@) =~= jv_view_pairs(out@) + Seq::<(
                    Seq<char>,
                    JsonValV,
                )>::empty());
            }
        }
    }
}

fn opt_i64_json(out: &mut Vec<(String, JsonVal)>, key: &str, o: &Option<i64>)
    ensures
        jv_view_pairs(final(out)@) == jv_view_pairs(old(out)@) + opt_int_field(
            key@,
            opt_i64_view(*o),
        ),
{
    match o {
        Some(i) => push_field(out, key, JsonVal::Int(*i)),
        None => {
            proof {
                assert(jv_view_pairs(out@) =~= jv_view_pairs(out@) + Seq::<(
                    Seq<char>,
                    JsonValV,
                )>::empty());
            }
        }
    }
}

fn opt_bool_json(out: &mut Vec<(String, JsonVal)>, key: &str, o: &Option<bool>)
    ensures
        jv_view_pairs(final(out)@) == jv_view_pairs(old(out)@) + opt_bool_field(key@, *o),
{
    match o {
        Some(b) => push_field(out, key, JsonVal::Bool(*b)),
        None => {
            proof {
                assert(jv_view_pairs(out@) =~= jv_view_pairs(out@) + Seq::<(
                    Seq<char>,
                    JsonValV,
                )>::empty());
            }
        }
    }
}

pub fn product_json(p: &OcsfProduct) -> (r: JsonVal)
    ensures
        r@ == product_jv(p@),
{
    let mut fields: Vec<(String, JsonVal)> = Vec::new();
    proof {
        assert(jv_view_pairs(fields@) =~= Seq::<(Seq<char>, JsonValV)>::empty());
    }
    push_field(&mut fields, "vendor_name", JsonVal::Str(p.vendor_name.clone()));
    push_field(&mut fields, "name", JsonVal::Str(p.name.clone()));
    push_field(&mut fields, "version", JsonVal::Str(p.version.clone()));
    let r = JsonVal::Obj(fields);
    proof {
        assert(r@->Obj_0 =~= product_jv(p@)->Obj_0);
    }
    r
}

pub fn user_json(u: &OcsfUser) -> (r: JsonVal)
    ensures
        r@ == user_jv(u@),
{
    let mut fields: Vec<(String, JsonVal)> = Vec::new();
    proof {
        assert(jv_view_pairs(fields@) =~= Seq::<(Seq<char>, JsonValV)>::empty());
    }
    push_field(&mut fields, "name", JsonVal::Str(u.name.clone()));
    push_field(&mut fields, "uid", JsonVal::Str(u.uid.clone()));
    let r = JsonVal::Obj(fields);
    proof {
        assert(r@->Obj_0 =~= user_jv(u@)->Obj_0);
    }
    r
}

pub fn actor_json(a: &OcsfActor) -> (r: JsonVal)
    ensures
        r@ == actor_jv(a@),
{
    let mut fields: Vec<(String, JsonVal)> = Vec::new();
    proof {
        assert(jv_view_pairs(fields@) =~= Seq::<(Seq<char>, JsonValV)>::empty());
    }
    push_field(&mut fields, "user", user_json(&a.user));
    let r = JsonVal::Obj(fields);
    proof {
        assert(r@->Obj_0 =~= actor_jv(a@)->Obj_0);
    }
    r
}

pub fn service_json(s: &OcsfService) -> (r: JsonVal)
    ensures
        r@ == service_jv(s@),
{
    let mut fields: Vec<(String, JsonVal)> = Vec::new();
    proof {
        assert(jv_view_pairs(fields@) =~= Seq::<(Seq<char>, JsonValV)>::empty());
    }
    push_field(&mut fields, "name", JsonVal::Str(s.name.clone()));
    let r = JsonVal::Obj(fields);
    proof {
        assert(r@->Obj_0 =~= service_jv(s@)->Obj_0);
    }
    r
}

pub fn endpoint_json(e: &OcsfEndpoint) -> (r: JsonVal)
    ensures
        r@ == endpoint_jv(e@),
{
    let mut fields: Vec<(String, JsonVal)> = Vec::new();
    proof {
        assert(jv_view_pairs(fields@) =~= Seq::<(Seq<char>, JsonValV)>::empty());
    }
    opt_str_json(&mut fields, "ip", &e.ip);
    opt_str_json(&mut fields, "hostname", &e.hostname);
    opt_i32_json(&mut fields, "port", &e.port);
    let r = JsonVal::Obj(fields);
    proof {
        assert(r@->Obj_0 =~= endpoint_jv(e@)->Obj_0);
    }
    r
}

pub fn process_json(p: &OcsfProcess) -> (r: JsonVal)
    ensures
        r@ == process_jv(p@),
{
    let mut fields: Vec<(String, JsonVal)> = Vec::new();
    proof {
        assert(jv_view_pairs(fields@) =~= Seq::<(Seq<char>, JsonValV)>::empty());
    }
    push_field(&mut fields, "name", JsonVal::Str(p.name.clone()));
    push_field(&mut fields, "cmd_line", JsonVal::Str(p.cmd_line.clone()));
    push_field(&mut fields, "uid", JsonVal::Str(p.uid.clone()));
    opt_i32_json(&mut fields, "pid", &p.pid);
    let r = JsonVal::Obj(fields);
    proof {
        assert(r@->Obj_0 =~= process_jv(p@)->Obj_0);
    }
    r
}

pub fn observable_json(o: &OcsfObservable) -> (r: JsonVal)
    ensures
        r@ == observable_jv(o@),
{
    let mut fields: Vec<(String, JsonVal)> = Vec::new();
    proof {
        assert(jv_view_pairs(fields@) =~= Seq::<(Seq<char>, JsonValV)>::empty());
    }
    push_field(&mut fields, "name", JsonVal::Str(o.name.clone()));
    push_field(&mut fields, "type", JsonVal::Str(o.observable_type.clone()));
    push_field(&mut fields, "type_id", JsonVal::Int(o.type_id as i64));
    push_field(&mut fields, "value", JsonVal::Str(o.value.clone()));
    let r = JsonVal::Obj(fields);
    proof {
        assert(r@->Obj_0 =~= observable_jv(o@)->Obj_0);
    }
    r
}

/// The members of the metadata object, in declaration order, optional
/// ones present exactly when set.
pub open spec fn metadata_fields(m: OcsfMetadataV) -> Seq<(Seq<char>, JsonValV)> {
    opt_str_field("uid"@, m.uid) + seq![("version"@, JsonValV::Str(m.version))] + seq![
        ("product"@, product_jv(m.product)),
    ] + opt_int_field("logged_time"@, m.logged_time) + opt_str_field("log_name"@, m.log_name)
        + opt_str_field("log_provider"@, m.log_provider) + opt_str_field(
        "event_code"@,
        m.event_code,
    ) + (match m.profiles {
        Some(p) => seq![("profiles"@, JsonValV::Arr(str_seq_jv(p)))],
        None => Seq::empty(),
    }) + opt_str_field("log_version"@, m.log_version) + opt_str_field("log_level"@, m.log_level)
        + opt_str_field("original_time"@, m.original_time)
}

pub open spec fn metadata_jv(m: OcsfMetadataV) -> JsonValV {
    JsonValV::Obj(metadata_fields(m))
}

pub fn metadata_json(m: &OcsfMetadata) -> (r: JsonVal)
    ensures
        r@ == metadata_jv(m@),
{
    let mut fields: Vec<(String, JsonVal)> = Vec::new();
    proof {
        assert(jv_view_pairs(fields@) =~= Seq::<(Seq<char>, JsonValV)>::empty());
    }
    opt_str_json(&mut fields, "uid", &m.uid);
    push_field(&mut fields, "version", JsonVal::Str(m.version.clone()));
    push_field(&mut fields, "product", product_json(&m.product));
    opt_i64_json(&mut fields, "logged_time", &m.logged_time);
    opt_str_json(&mut fields, "log_name", &m.log_name);
    opt_str_json(&mut fields, "log_provider", &m.log_provider);
    opt_str_json(&mut fields, "event_code", &m.event_code);
    match &m.profiles {
        Some(p) => {
            let mut elems: Vec<JsonVal> = Vec::new();
            let n = p.len();
            let mut i: usize = 0;
            while i < n
                invariant
                    i <= n,
                    n == p.len(),
                    elems@.len() == i,
                    forall|j: int| 0 <= j < i
                        ==> crate::value::jv_view(#[trigger] elems@[j]) == JsonValV::Str(p@[j]@),
                decreases n - i,
            {
                elems.push(JsonVal::Str(p[i].clone()));
                i = i + 1;
            }
            proof {
                crate::value::lemma_jv_view_seq(elems@);
                assert(crate::value::jv_view_seq(elems@) =~= str_seq_jv(m@.profiles->0));
            }
            push_field(&mut fields, "profiles", JsonVal::Arr(elems));
        }
        None => (),
    }
    opt_str_json(&mut fields, "log_version", &m.log_version);
    opt_str_json(&mut fields, "log_level", &m.log_level);
    opt_str_json(&mut fields, "original_time", &m.original_time);
    let r = JsonVal::Obj(fields);
    proof {
        assert(r@->Obj_0 =~= metadata_fields(m@));
    }
    r
}

/// The members of the event object, in declaration order, optional ones
/// present exactly when set.
pub open spec fn event_fields(e: OcsfEventV) -> Seq<(Seq<char>, JsonValV)> {
    seq![("metadata"@, metadata_jv(e.metadata))] + seq![
        ("category_uid"@, JsonValV::Int(e.category_uid)),
    ] + seq![("category_name"@, JsonValV::Str(e.category_name))] + seq![
        ("class_uid"@, JsonValV::Int(e.class_uid)),
    ] + seq![("class_name"@, JsonValV::Str(e.class_name))] + seq![
        ("time"@, JsonValV::Int(e.time)),
    ] + seq![("type_uid"@, JsonValV::Int(e.type_uid))] + seq![
        ("type_name"@, JsonValV::Str(e.type_title)),
    ] + seq![("activity_id"@, JsonValV::Int(e.activity_id))] + seq![
        ("activity_name"@, JsonValV::Str(e.activity_name)),
    ] + seq![("status"@, JsonValV::Str(e.status))] + seq![
        ("status_id"@, JsonValV::Int(e.status_id)),
    ] + seq![("severity"@, JsonValV::Str(e.severity))] + seq![
        ("severity_id"@, JsonValV::Int(e.severity_id)),
    ] + (match e.user {
        Some(u) => seq![("user"@, user_jv(u))],
        None => Seq::empty(),
    }) + (match e.actor {
        Some(a) => seq![("actor"@, actor_jv(a))],
        None => Seq::empty(),
    }) + (match e.service {
        Some(s) => seq![("service"@, service_jv(s))],
        None => Seq::empty(),
    }) + (match e.src_endpoint {
        Some(ep) => seq![("src_endpoint"@, endpoint_jv(ep))],
        None => Seq::empty(),
    }) + (match e.dst_endpoint {
        Some(ep) => seq![("dst_endpoint"@, endpoint_jv(ep))],
        None => Seq::empty(),
    }) + opt_str_field("auth_protocol"@, e.auth_protocol) + opt_int_field(
        "auth_protocol_id"@,
        e.auth_protocol_id,
    ) + opt_str_field("logon_type"@, e.logon_type) + opt_int_field(
        "logon_type_id"@,
        e.logon_type_id,
    ) + (match e.logon_process {
        Some(p) => seq![("logon_process"@, process_jv(p))],
        None => Seq::empty(),
    }) + opt_bool_field("is_remote"@, e.is_remote) + opt_bool_field("is_mfa"@, e.is_mfa)
        + opt_bool_field("is_cleartext"@, e.is_cleartext) + opt_str_field(
        "status_code"@,
        e.status_code,
    ) + opt_str_field("status_detail"@, e.status_detail) + opt_str_field("message"@, e.message)
        + opt_str_field("raw_data"@, e.raw_data) + (match e.observables {
        Some(obs) => seq![
            ("observables"@, JsonValV::Arr(Seq::new(obs.len(), |i: int| observable_jv(obs[i])))),
        ],
        None => Seq::empty(),
    }) + (match e.unmapped {
        Some(u) => seq![("unmapped"@, JsonValV::Obj(u))],
        None => Seq::empty(),
    }) + opt_int_field("timezone_offset"@, e.timezone_offset)
}

/// The event as a JSON object value.
pub open spec fn event_jv(e: OcsfEventV) -> JsonValV {
    JsonValV::Obj(event_fields(e))
}

/// Clones a member list, preserving its viewed pairs.
pub fn clone_pairs(src: &Vec<(String, JsonVal)>) -> (r: Vec<(String, JsonVal)>)
    ensures
        jv_view_pairs(r@) == jv_view_pairs(src@),
{
    let mut out: Vec<(String, JsonVal)> = Vec::new();
    let n = src.len();
    let mut i: usize = 0;
    while i < n
        invariant
            i <= n,
            n == src.len(),
            out@.len() == i,
            forall|j: int| 0 <= j < i ==> out@[j].0@ == src@[j].0@ && crate::value::jv_view(
                out@[j].1,
            ) == crate::value::jv_view(src@[j].1),
        decreases n - i,
    {
        let k = src[i].0.clone();
        let v = src[i].1.clone();
        out.push((k, v));
        i = i + 1;
    }
    proof {
        lemma_jv_view_pairs(out@);
        lemma_jv_view_pairs(src@);
        assert(jv_view_pairs(out@) =~= jv_view_pairs(src@));
    }
    out
}

impl OcsfEvent {
    /// The event's projection onto the JSON value model: the wire shape
    /// of the record, with absent optional members omitted.
    #[verifier::rlimit(100)]
    pub fn to_json(&self) -> (r: JsonVal)
        ensures
            r@ == event_jv(self@),
    {
        let mut fields: Vec<(String, JsonVal)> = Vec::new();
        proof {
            assert(jv_view_pairs(fields@) =~= Seq::<(Seq<char>, JsonValV)>::empty());
        }
        push_field(&mut fields, "metadata", metadata_json(&self.metadata));
        push_field(&mut fields, "category_uid", JsonVal::Int(self.category_uid as i64));
        push_field(&mut fields, "category_name", JsonVal::Str(self.category_name.clone()));
        push_field(&mut fields, "class_uid", JsonVal::Int(self.class_uid as i64));
        push_field(&mut fields, "class_name", JsonVal::Str(self.class_name.clone()));
        push_field(&mut fields, "time", JsonVal::Int(self.time));
        push_field(&mut fields, "type_uid", JsonVal::Int(self.type_uid as i64));
        push_field(&mut fields, "type_name", JsonVal::Str(self.type_title.clone()));
        push_field(&mut fields, "activity_id", JsonVal::Int(self.activity_id as i64));
        push_field(&mut fields, "activity_name", JsonVal::Str(self.activity_name.clone()));
        push_field(&mut fields, "status", JsonVal::Str(self.status.clone()));
        push_field(&mut fields, "status_id", JsonVal::Int(self.status_id as i64));
        push_field(&mut fields, "severity", JsonVal::Str(self.severity.clone()));
        push_field(&mut fields, "severity_id", JsonVal::Int(self.severity_id as i64));
        match &self.user {
            Some(u) => push_field(&mut fields, "user", user_json(u)),
            None => (),
        }
        match &self.actor {
            Some(a) => push_field(&mut fields, "actor", actor_json(a)),
            None => (),
        }
        match &self.service {
            Some(sv) => push_field(&mut fields, "service", service_json(sv)),
            None => (),
        }
        match &self.src_endpoint {
            Some(ep) => push_field(&mut fields, "src_endpoint", endpoint_json(ep)),
            None => (),
        }
        match &self.dst_endpoint {
            Some(ep) => push_field(&mut fields, "dst_endpoint", endpoint_json(ep)),
            None => (),
        }
        opt_str_json(&mut fields, "auth_protocol", &self.auth_protocol);
        opt_i32_json(&mut fields, "auth_protocol_id", &self.auth_protocol_id);
        opt_str_json(&mut fields, "logon_type", &self.logon_type);
        opt_i32_json(&mut fields, "logon_type_id", &self.logon_type_id);
        match &self.logon_process {
            Some(p) => push_field(&mut fields, "logon_process", process_json(p)),
            None => (),
        }
        opt_bool_json(&mut fields, "is_remote", &self.is_remote);
        opt_bool_json(&mut fields, "is_mfa", &self.is_mfa);
        opt_bool_json(&mut fields, "is_cleartext", &self.is_cleartext);
        opt_str_json(&mut fields, "status_code", &self.status_code);
        opt_str_json(&mut fields, "status_detail", &self.status_detail);
        opt_str_json(&mut fields, "message", &self.message);
        opt_str_json(&mut fields, "raw_data", &self.raw_data);
        match &self.observables {
            Some(obs) => {
                let mut elems: Vec<JsonVal> = Vec::new();
                let n = obs.len();
                let mut i: usize = 0;
                while i < n
                    invariant
                        i <= n,
                        n == obs.len(),
                        elems@.len() == i,
                        forall|j: int| 0 <= j < i
                            ==> crate::value::jv_view(#[trigger] elems@[j]) == observable_jv(
                            obs@[j]@,
                        ),
                    decreases n - i,
                {
                    elems.push(observable_json(&obs[i]));
                    i = i + 1;
                }
                proof {
                    crate::value::lemma_jv_view_seq(elems@);
                    assert(crate::value::jv_view_seq(elems@) =~= Seq::new(
                        self@.observables->0.len(),
                        |i: int| observable_jv(self@.observables->0[i]),
                    ));
                }
                push_field(&mut fields, "observables", JsonVal::Arr(elems));
            }
            None => (),
        }
        match &self.unmapped {
            Some(u) => push_field(&mut fields, "unmapped", JsonVal::Obj(clone_pairs(u))),
            None => (),
        }
        opt_i32_json(&mut fields, "timezone_offset", &self.timezone_offset);
        let r = JsonVal::Obj(fields);
        proof {
            assert(r@->Obj_0 =~= event_fields(self@));
        }
        r
    }
}

/// The event a fresh builder starts from: authentication-log product
/// metadata, the `host` profile, zeroed identifiers, empty names, and no
/// optional members.
pub open spec fn default_event_v() -> OcsfEventV {
    OcsfEventV {
        metadata: OcsfMetadataV {
            uid: None,
            version: "1.6.0"@,
            product: OcsfProductV {
                vendor_name: "Linux"@,
                name: "Authentication Logs"@,
                version: "system"@,
            },
            logged_time: None,
            log_name: None,
            log_provider: None,
            event_code: None,
            profiles: Some(seq!["host"@]),
            log_version: None,
            log_level: None,
            original_time: None,
        },
        category_uid: 0,
        category_name: Seq::empty(),
        class_uid: 0,
        class_name: Seq::empty(),
        time: 0,
        type_uid: 0,
        type_title: Seq::empty(),
        activity_id: 0,
        activity_name: Seq::empty(),
        status: Seq::empty(),
        status_id: 0,
        severity: Seq::empty(),
        severity_id: 0,
        user: None,
        actor: None,
        service: None,
        src_endpoint: None,
        dst_endpoint: None,
        auth_protocol: None,
        auth_protocol_id: None,
        logon_type: None,
        logon_type_id: None,
        logon_process: None,
        is_remote: None,
        is_mfa: None,
        is_cleartext: None,
        status_code: None,
        status_detail: None,
        message: None,
        raw_data: None,
        observables: None,
        unmapped: None,
        timezone_offset: None,
    }
}

/// A fluent builder over one event record.
pub struct OcsfEventBuilder {
    event: OcsfEvent,
}

impl View for OcsfEventBuilder {
    type V = OcsfEventV;

    closed spec fn view(&self) -> OcsfEventV {
        self.event@
    }
}

impl OcsfEventBuilder {
    /// A builder holding the default event.
    pub fn new() -> (r: Self)
        ensures
            r@ == default_event_v(),
    {
        let mut profiles: Vec<String> = Vec::new();
        profiles.push("host".to_owned());
        let event = OcsfEvent {
            metadata: OcsfMetadata {
                uid: None,
                version: "1.6.0".to_owned(),
                product: OcsfProduct {
                    vendor_name: "Linux".to_owned(),
                    name: "Authentication Logs".to_owned(),
                    version: "system".to_owned(),
                },
                logged_time: None,
                log_name: None,
                log_provider: None,
                event_code: None,
                profiles: Some(profiles),
                log_version: None,
                log_level: None,
                original_time: None,
            },
            category_uid: 0,
            category_name: String::new(),
            class_uid: 0,
            class_name: String::new(),
            time: 0,
            type_uid: 0,
            type_title: String::new(),
            activity_id: 0,
            activity_name: String::new(),
            status: String::new(),
            status_id: 0,
            severity: String::new(),
            severity_id: 0,
            user: None,
            actor: None,
            service: None,
            src_endpoint: None,
            dst_endpoint: None,
            auth_protocol: None,
            auth_protocol_id: None,
            logon_type: None,
            logon_type_id: None,
            logon_process: None,
            is_remote: None,
            is_mfa: None,
            is_cleartext: None,
            status_code: None,
            status_detail: None,
            message: None,
            raw_data: None,
            observables: None,
            unmapped: None,
            timezone_offset: None,
        };
        let r = OcsfEventBuilder { event };
        proof {
            assert(r@.metadata.profiles->0 =~= seq!["host"@]);
        }
        r
    }

    /// Replaces the metadata block.
    pub fn with_metadata(self, metadata: OcsfMetadata) -> (r: Self)
        ensures
            r@ == (OcsfEventV { metadata: metadata@, ..self@ }),
    {
        let mut b = self;
        b.event.metadata = metadata;
        b
    }

    /// Sets the category identifier and name.
    pub fn with_category(self, uid: i32, name: &str) -> (r: Self)
        ensures
            r@ == (OcsfEventV { category_uid: uid as int, category_name: name@, ..self@ }),
    {
        let mut b = self;
        b.event.category_uid = uid;
        b.event.category_name = name.to_owned();
        b
    }

    /// Sets the class identifier and name.
    pub fn with_class(self, uid: i32, name: &str) -> (r: Self)
        ensures
            r@ == (OcsfEventV { class_uid: uid as int, class_name: name@, ..self@ }),
    {
        let mut b = self;
        b.event.class_uid = uid;
        b.event.class_name = name.to_owned();
        b
    }

    /// Sets the event time.
    pub fn with_time(self, time: i64) -> (r: Self)
        ensures
            r@ == (OcsfEventV { time: time as int, ..self@ }),
    {
        let mut b = self;
        b.event.time = time;
        b
    }

    /// Sets the type identifier and name.
    pub fn with_type(self, uid: i32, name: &str) -> (r: Self)
        ensures
            r@ == (OcsfEventV { type_uid: uid as int, type_title: name@, ..self@ }),
    {
        let mut b = self;
        b.event.type_uid = uid;
        b.event.type_title = name.to_owned();
        b
    }

    /// Sets the activity identifier and name.
    pub fn with_activity(self, id: i32, name: &str) -> (r: Self)
        ensures
            r@ == (OcsfEventV { activity_id: id as int, activity_name: name@, ..self@ }),
    {
        let mut b = self;
        b.event.activity_id = id;
        b.event.activity_name = name.to_owned();
        b
    }

    /// Sets the status text and identifier.
    pub fn with_status(self, status: &str, status_id: i32) -> (r: Self)
        ensures
            r@ == (OcsfEventV { status: status@, status_id: status_id as int, ..self@ }),
    {
        let mut b = self;
        b.event.status = status.to_owned();
        b.event.status_id = status_id;
        b
    }

    /// Sets the severity text and identifier.
    pub fn with_severity(self, severity: &str, severity_id: i32) -> (r: Self)
        ensures
            r@ == (OcsfEventV { severity: severity@, severity_id: severity_id as int, ..self@ }),
    {
        let mut b = self;
        b.event.severity = severity.to_owned();
        b.event.severity_id = severity_id;
        b
    }

    /// Sets the user block.
    pub fn with_user(self, user: OcsfUser) -> (r: Self)
        ensures
            r@ == (OcsfEventV { user: Some(user@), ..self@ }),
    {
        let mut b = self;
        b.event.user = Some(user);
        b
    }

    /// Sets the message text.
    pub fn with_message(self, message: &str) -> (r: Self)
        ensures
            r@ == (OcsfEventV { message: Some(message@), ..self@ }),
    {
        let mut b = self;
        b.event.message = Some(message.to_owned());
        b
    }

    /// Hands the built event out.
    pub fn build(self) -> (r: OcsfEvent)
        ensures
            r@ == self@,
    {
        self.event
    }
}

impl Default for OcsfEventBuilder {
    fn default() -> (r: Self)
        ensures
            r@ == default_event_v(),
    {
        OcsfEventBuilder::new()
    }
}

} // verus!
