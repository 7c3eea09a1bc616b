//! The records of the reverse-proxy manager: as the server sends them, and
//! as they are shown.
//!
//! The shown records carry the facts of the raw ones under other keys. A
//! list shows fewer of them than the detail view. Which fields a shown
//! record has is stated by its `entries`: the certificate of a proxy host is
//! left out when it has none, its advanced configuration when that is empty.

use crate::document::{
    entries_of, has_key, keys_distinct, lemma_nodes_push, lemma_nothing, nodes_of, put,
    text_nodes, texts, within, Field, Node, Value,
};
use vstd::prelude::*;

verus! {

/// A proxy host as the server sends it.
#[derive(Debug)]
pub struct ApiProxyHost {
    pub id: i64,
    pub domain_names: Vec<String>,
    pub forward_scheme: String,
    pub forward_host: String,
    pub forward_port: i32,
    pub certificate_id: Option<i64>,
    pub ssl_forced: bool,
    pub block_exploits: bool,
    pub caching_enabled: bool,
    pub allow_websocket_upgrade: bool,
    pub enabled: bool,
    pub advanced_config: String,
}

/// A certificate as the server sends it.
#[derive(Debug)]
pub struct ApiCertificate {
    pub id: i64,
    pub provider: String,
    pub nice_name: String,
    pub domain_names: Vec<String>,
    pub expires_on: String,
}

/// The answer to a login, as the server sends it.
#[derive(Debug)]
pub struct ApiLoginResponse {
    pub token: String,
}

/// A proxy host as its detail view shows it.
#[derive(Debug)]
pub struct ProxyHost {
    pub id: i64,
    pub domain_names: Vec<String>,
    pub forward_scheme: String,
    pub forward_host: String,
    pub forward_port: i32,
    pub certificate_id: Option<i64>,
    pub ssl_forced: bool,
    pub block_exploits: bool,
    pub caching_enabled: bool,
    pub websocket: bool,
    pub enabled: bool,
    pub advanced_config: String,
}

/// The list of proxy hosts as it is shown.
#[derive(Debug)]
pub struct ProxyHostList {
    pub hosts: Vec<ProxyHostListItem>,
}

/// A proxy host as a list shows it.
#[derive(Debug)]
pub struct ProxyHostListItem {
    pub id: i64,
    pub domain_names: Vec<String>,
    pub forward_host: String,
    pub forward_port: i32,
    pub ssl_forced: bool,
    pub enabled: bool,
}

/// A certificate as its detail view shows it.
#[derive(Debug)]
pub struct Certificate {
    pub id: i64,
    pub provider: String,
    pub nice_name: String,
    pub domain_names: Vec<String>,
    pub expires_on: String,
}

/// The list of certificates as it is shown.
#[derive(Debug)]
pub struct CertificateList {
    pub certificates: Vec<CertificateListItem>,
}

/// A certificate as a list shows it.
#[derive(Debug)]
pub struct CertificateListItem {
    pub id: i64,
    pub nice_name: String,
    pub provider: String,
    pub expires_on: String,
}

/// What a raw proxy host stands for.
pub struct ApiProxyHostModel {
    pub id: i64,
    pub domain_names: Seq<Seq<char>>,
    pub forward_scheme: Seq<char>,
    pub forward_host: Seq<char>,
    pub forward_port: i32,
    pub certificate_id: Option<i64>,
    pub ssl_forced: bool,
    pub block_exploits: bool,
    pub caching_enabled: bool,
    pub allow_websocket_upgrade: bool,
    pub enabled: bool,
    pub advanced_config: Seq<char>,
}

/// What a raw certificate stands for.
pub struct ApiCertificateModel {
    pub id: i64,
    pub provider: Seq<char>,
    pub nice_name: Seq<char>,
    pub domain_names: Seq<Seq<char>>,
    pub expires_on: Seq<char>,
}

/// What a shown proxy host stands for.
pub struct ProxyHostModel {
    pub id: i64,
    pub domain_names: Seq<Seq<char>>,
    pub forward_scheme: Seq<char>,
    pub forward_host: Seq<char>,
    pub forward_port: i32,
    pub certificate_id: Option<i64>,
    pub ssl_forced: bool,
    pub block_exploits: bool,
    pub caching_enabled: bool,
    pub websocket: bool,
    pub enabled: bool,
    pub advanced_config: Seq<char>,
}

/// What an item of the list of proxy hosts stands for.
pub struct ProxyHostListItemModel {
    pub id: i64,
    pub domain_names: Seq<Seq<char>>,
    pub forward_host: Seq<char>,
    pub forward_port: i32,
    pub ssl_forced: bool,
    pub enabled: bool,
}

/// What a shown certificate stands for.
pub struct CertificateModel {
    pub id: i64,
    pub provider: Seq<char>,
    pub nice_name: Seq<char>,
    pub domain_names: Seq<Seq<char>>,
    pub expires_on: Seq<char>,
}

/// What an item of the list of certificates stands for.
pub struct CertificateListItemModel {
    pub id: i64,
    pub nice_name: Seq<char>,
    pub provider: Seq<char>,
    pub expires_on: Seq<char>,
}

/// What the proxy hosts of a response stand for, in their order.
pub open spec fn host_models(hosts: Seq<ApiProxyHost>) -> Seq<ApiProxyHostModel> {
    Seq::new(hosts.len(), |i: int| hosts[i]@)
}

/// What the certificates of a response stand for, in their order.
pub open spec fn certificate_models(certificates: Seq<ApiCertificate>) -> Seq<
    ApiCertificateModel,
> {
    Seq::new(certificates.len(), |i: int| certificates[i]@)
}

impl View for ApiProxyHost {
    type V = ApiProxyHostModel;

    open spec fn view(&self) -> ApiProxyHostModel {
        ApiProxyHostModel {
            id: self.id,
            domain_names: texts(self.domain_names@),
            forward_scheme: self.forward_scheme@,
            forward_host: self.forward_host@,
            forward_port: self.forward_port,
            certificate_id: self.certificate_id,
            ssl_forced: self.ssl_forced,
            block_exploits: self.block_exploits,
            caching_enabled: self.caching_enabled,
            allow_websocket_upgrade: self.allow_websocket_upgrade,
            enabled: self.enabled,
            advanced_config: self.advanced_config@,
        }
    }
}

impl View for ApiCertificate {
    type V = ApiCertificateModel;

    open spec fn view(&self) -> ApiCertificateModel {
        ApiCertificateModel {
            id: self.id,
            provider: self.provider@,
            nice_name: self.nice_name@,
            domain_names: texts(self.domain_names@),
            expires_on: self.expires_on@,
        }
    }
}

impl View for ApiLoginResponse {
    type V = Seq<char>;

    open spec fn view(&self) -> Seq<char> {
        self.token@
    }
}

impl View for ProxyHost {
    type V = ProxyHostModel;

    open spec fn view(&self) -> ProxyHostModel {
        ProxyHostModel {
            id: self.id,
            domain_names: texts(self.domain_names@),
            forward_scheme: self.forward_scheme@,
            forward_host: self.forward_host@,
            forward_port: self.forward_port,
            certificate_id: self.certificate_id,
            ssl_forced: self.ssl_forced,
            block_exploits: self.block_exploits,
            caching_enabled: self.caching_enabled,
            websocket: self.websocket,
            enabled: self.enabled,
            advanced_config: self.advanced_config@,
        }
    }
}

impl View for ProxyHostListItem {
    type V = ProxyHostListItemModel;

    open spec fn view(&self) -> ProxyHostListItemModel {
        ProxyHostListItemModel {
            id: self.id,
            domain_names: texts(self.domain_names@),
            forward_host: self.forward_host@,
            forward_port: self.forward_port,
            ssl_forced: self.ssl_forced,
            enabled: self.enabled,
        }
    }
}

impl View for ProxyHostList {
    type V = Seq<ProxyHostListItemModel>;

    open spec fn view(&self) -> Seq<ProxyHostListItemModel> {
        Seq::new(self.hosts@.len(), |i: int| self.hosts@[i]@)
    }
}

impl View for Certificate {
    type V = CertificateModel;

    open spec fn view(&self) -> CertificateModel {
        CertificateModel {
            id: self.id,
            provider: self.provider@,
            nice_name: self.nice_name@,
            domain_names: texts(self.domain_names@),
            expires_on: self.expires_on@,
        }
    }
}

impl View for CertificateListItem {
    type V = CertificateListItemModel;

    open spec fn view(&self) -> CertificateListItemModel {
        CertificateListItemModel {
            id: self.id,
            nice_name: self.nice_name@,
            provider: self.provider@,
            expires_on: self.expires_on@,
        }
    }
}

impl View for CertificateList {
    type V = Seq<CertificateListItemModel>;

    open spec fn view(&self) -> Seq<CertificateListItemModel> {
        Seq::new(self.certificates@.len(), |i: int| self.certificates@[i]@)
    }
}

impl ApiProxyHostModel {
    /// The proxy host as a list shows it.
    pub open spec fn list_item(self) -> ProxyHostListItemModel {
        ProxyHostListItemModel {
            id: self.id,
            domain_names: self.domain_names,
            forward_host: self.forward_host,
            forward_port: self.forward_port,
            ssl_forced: self.ssl_forced,
            enabled: self.enabled,
        }
    }

    /// The proxy host as its detail view shows it.
    pub open spec fn detail(self) -> ProxyHostModel {
        ProxyHostModel {
            id: self.id,
            domain_names: self.domain_names,
            forward_scheme: self.forward_scheme,
            forward_host: self.forward_host,
            forward_port: self.forward_port,
            certificate_id: self.certificate_id,
            ssl_forced: self.ssl_forced,
            block_exploits: self.block_exploits,
            caching_enabled: self.caching_enabled,
            websocket: self.allow_websocket_upgrade,
            enabled: self.enabled,
            advanced_config: self.advanced_config,
        }
    }
}

impl ApiCertificateModel {
    /// The certificate as a list shows it.
    pub open spec fn list_item(self) -> CertificateListItemModel {
        CertificateListItemModel {
            id: self.id,
            nice_name: self.nice_name,
            provider: self.provider,
            expires_on: self.expires_on,
        }
    }

    /// The certificate as its detail view shows it.
    pub open spec fn detail(self) -> CertificateModel {
        CertificateModel {
            id: self.id,
            provider: self.provider,
            nice_name: self.nice_name,
            domain_names: self.domain_names,
            expires_on: self.expires_on,
        }
    }
}

impl ProxyHostListItemModel {
    /// The fields of a list item, in the order in which they are written.
    pub open spec fn entries(self) -> Seq<(Seq<char>, Node)> {
        seq![
            ("id"@, Node::Int(self.id as int)),
            ("domainNames"@, Node::List(text_nodes(self.domain_names))),
            ("forwardHost"@, Node::Text(self.forward_host)),
            ("forwardPort"@, Node::Int(self.forward_port as int)),
            ("sslForced"@, Node::Bool(self.ssl_forced)),
            ("enabled"@, Node::Bool(self.enabled)),
        ]
    }
}

impl ProxyHostModel {
    /// The part of the proxy host that a list shows too.
    pub open spec fn summary(self) -> ProxyHostListItemModel {
        ProxyHostListItemModel {
            id: self.id,
            domain_names: self.domain_names,
            forward_host: self.forward_host,
            forward_port: self.forward_port,
            ssl_forced: self.ssl_forced,
            enabled: self.enabled,
        }
    }

    /// The fields up to the forward target.
    pub open spec fn target_entries(self) -> Seq<(Seq<char>, Node)> {
        seq![
            ("id"@, Node::Int(self.id as int)),
            ("domainNames"@, Node::List(text_nodes(self.domain_names))),
            ("forwardScheme"@, Node::Text(self.forward_scheme)),
            ("forwardHost"@, Node::Text(self.forward_host)),
            ("forwardPort"@, Node::Int(self.forward_port as int)),
        ]
    }

    /// The field `certificateId`, where the host has a certificate.
    pub open spec fn certificate_entries(self) -> Seq<(Seq<char>, Node)> {
        match self.certificate_id {
            Some(id) => seq![("certificateId"@, Node::Int(id as int))],
            None => seq![],
        }
    }

    /// The five switches.
    pub open spec fn switch_entries(self) -> Seq<(Seq<char>, Node)> {
        seq![
            ("sslForced"@, Node::Bool(self.ssl_forced)),
            ("blockExploits"@, Node::Bool(self.block_exploits)),
            ("cachingEnabled"@, Node::Bool(self.caching_enabled)),
            ("websocket"@, Node::Bool(self.websocket)),
            ("enabled"@, Node::Bool(self.enabled)),
        ]
    }

    /// The field `advancedConfig`, where the advanced configuration is not
    /// empty.
    pub open spec fn advanced_entries(self) -> Seq<(Seq<char>, Node)> {
        if self.advanced_config.len() > 0 {
            seq![("advancedConfig"@, Node::Text(self.advanced_config))]
        } else {
            seq![]
        }
    }

    /// The fields of the detail view, in the order in which they are
    /// written. The certificate and the advanced configuration are there
    /// only where they have something to show.
    pub open spec fn entries(self) -> Seq<(Seq<char>, Node)> {
        self.target_entries() + self.certificate_entries() + self.switch_entries()
            + self.advanced_entries()
    }
}

impl CertificateListItemModel {
    /// The fields of a list item, in the order in which they are written.
    pub open spec fn entries(self) -> Seq<(Seq<char>, Node)> {
        seq![
            ("id"@, Node::Int(self.id as int)),
            ("niceName"@, Node::Text(self.nice_name)),
            ("provider"@, Node::Text(self.provider)),
            ("expiresOn"@, Node::Text(self.expires_on)),
        ]
    }
}

impl CertificateModel {
    /// The part of the certificate that a list shows too.
    pub open spec fn summary(self) -> CertificateListItemModel {
        CertificateListItemModel {
            id: self.id,
            nice_name: self.nice_name,
            provider: self.provider,
            expires_on: self.expires_on,
        }
    }

    /// The fields of the detail view, in the order in which they are
    /// written.
    pub open spec fn entries(self) -> Seq<(Seq<char>, Node)> {
        seq![
            ("id"@, Node::Int(self.id as int)),
            ("provider"@, Node::Text(self.provider)),
            ("niceName"@, Node::Text(self.nice_name)),
            ("domainNames"@, Node::List(text_nodes(self.domain_names))),
            ("expiresOn"@, Node::Text(self.expires_on)),
        ]
    }
}

/// The items of a list of proxy hosts as records.
pub open spec fn host_item_nodes(items: Seq<ProxyHostListItemModel>) -> Seq<Node> {
    Seq::new(items.len(), |i: int| Node::Record(items[i].entries()))
}

/// The items of a list of certificates as records.
pub open spec fn certificate_item_nodes(items: Seq<CertificateListItemModel>) -> Seq<Node> {
    Seq::new(items.len(), |i: int| Node::Record(items[i].entries()))
}

/// The fields of the list of proxy hosts: `hosts` alone.
pub open spec fn host_list_entries(items: Seq<ProxyHostListItemModel>) -> Seq<(Seq<char>, Node)> {
    seq![("hosts"@, Node::List(host_item_nodes(items)))]
}

/// The fields of the list of certificates: `certificates` alone.
pub open spec fn certificate_list_entries(items: Seq<CertificateListItemModel>) -> Seq<
    (Seq<char>, Node),
> {
    seq![("certificates"@, Node::List(certificate_item_nodes(items)))]
}

/// The list items of the proxy hosts of a response, in their order.
pub open spec fn host_list_items(hosts: Seq<ApiProxyHostModel>) -> Seq<ProxyHostListItemModel> {
    Seq::new(hosts.len(), |i: int| hosts[i].list_item())
}

/// The list items of the certificates of a response, in their order.
pub open spec fn certificate_list_items(certificates: Seq<ApiCertificateModel>) -> Seq<
    CertificateListItemModel,
> {
    Seq::new(certificates.len(), |i: int| certificates[i].list_item())
}

/// A copy of a list of names.
fn copy_names(names: &Vec<String>) -> (r: Vec<String>)
    ensures
        texts(r@) == texts(names@),
{
    let mut out: Vec<String> = Vec::new();
    let mut i: usize = 0;
    while i < names.len()
        invariant
            i <= names.len(),
            out@.len() == i,
            forall|j: int| 0 <= j < i ==> out@[j]@ == names@[j]@,
        decreases names.len() - i,
    {
        out.push(names[i].clone());
        i = i + 1;
    }
    assert(texts(out@) =~= texts(names@));
    out
}

impl ApiProxyHost {
    /// The proxy host as a list shows it.
    pub fn to_list_item(&self) -> (r: ProxyHostListItem)
        ensures
            r@ == self@.list_item(),
    {
        ProxyHostListItem {
            id: self.id,
            domain_names: copy_names(&self.domain_names),
            forward_host: self.forward_host.clone(),
            forward_port: self.forward_port,
            ssl_forced: self.ssl_forced,
            enabled: self.enabled,
        }
    }

    /// The proxy host as its detail view shows it.
    pub fn to_proxy_host(&self) -> (r: ProxyHost)
        ensures
            r@ == self@.detail(),
    {
        ProxyHost {
            id: self.id,
            domain_names: copy_names(&self.domain_names),
            forward_scheme: self.forward_scheme.clone(),
            forward_host: self.forward_host.clone(),
            forward_port: self.forward_port,
            certificate_id: self.certificate_id,
            ssl_forced: self.ssl_forced,
            block_exploits: self.block_exploits,
            caching_enabled: self.caching_enabled,
            websocket: self.allow_websocket_upgrade,
            enabled: self.enabled,
            advanced_config: self.advanced_config.clone(),
        }
    }
}

impl ApiCertificate {
    /// The certificate as a list shows it.
    pub fn to_list_item(&self) -> (r: CertificateListItem)
        ensures
            r@ == self@.list_item(),
    {
        CertificateListItem {
            id: self.id,
            nice_name: self.nice_name.clone(),
            provider: self.provider.clone(),
            expires_on: self.expires_on.clone(),
        }
    }

    /// The certificate as its detail view shows it.
    pub fn to_certificate(&self) -> (r: Certificate)
        ensures
            r@ == self@.detail(),
    {
        Certificate {
            id: self.id,
            provider: self.provider.clone(),
            nice_name: self.nice_name.clone(),
            domain_names: copy_names(&self.domain_names),
            expires_on: self.expires_on.clone(),
        }
    }
}

impl ProxyHostListItem {
    /// The item as a record to print.
    pub fn document(&self) -> (v: Value)
        ensures
            v@ == Node::Record(self@.entries()),
    {
        let mut fields: Vec<Field> = Vec::new();
        proof {
            lemma_nothing();
        }
        put(&mut fields, "id", Value::Int(self.id));
        put(&mut fields, "domainNames", Value::text_list(&self.domain_names));
        put(&mut fields, "forwardHost", Value::text(self.forward_host.as_str()));
        put(&mut fields, "forwardPort", Value::Int(self.forward_port as i64));
        put(&mut fields, "sslForced", Value::Bool(self.ssl_forced));
        put(&mut fields, "enabled", Value::Bool(self.enabled));
        assert(entries_of(fields@) =~= self@.entries());
        Value::Record(fields)
    }
}

impl ProxyHost {
    /// The proxy host as a record to print. The certificate is written only
    /// where there is one, the advanced configuration only where it is not
    /// empty.
    pub fn document(&self) -> (v: Value)
        ensures
            v@ == Node::Record(self@.entries()),
    {
        let mut fields: Vec<Field> = Vec::new();
        proof {
            lemma_nothing();
        }
        put(&mut fields, "id", Value::Int(self.id));
        put(&mut fields, "domainNames", Value::text_list(&self.domain_names));
        put(&mut fields, "forwardScheme", Value::text(self.forward_scheme.as_str()));
        put(&mut fields, "forwardHost", Value::text(self.forward_host.as_str()));
        put(&mut fields, "forwardPort", Value::Int(self.forward_port as i64));
        assert(entries_of(fields@) =~= self@.target_entries());
        match self.certificate_id {
            Some(id) => {
                put(&mut fields, "certificateId", Value::Int(id));
            },
            None => {},
        }
        assert(entries_of(fields@) =~= self@.target_entries() + self@.certificate_entries());
        put(&mut fields, "sslForced", Value::Bool(self.ssl_forced));
        put(&mut fields, "blockExploits", Value::Bool(self.block_exploits));
        put(&mut fields, "cachingEnabled", Value::Bool(self.caching_enabled));
        put(&mut fields, "websocket", Value::Bool(self.websocket));
        put(&mut fields, "enabled", Value::Bool(self.enabled));
        assert(entries_of(fields@) =~= self@.target_entries() + self@.certificate_entries()
            + self@.switch_entries());
        if self.advanced_config.as_str().unicode_len() > 0 {
            put(&mut fields, "advancedConfig", Value::text(self.advanced_config.as_str()));
        }
        assert(entries_of(fields@) =~= self@.entries());
        Value::Record(fields)
    }
}

impl CertificateListItem {
    /// The item as a record to print.
    pub fn document(&self) -> (v: Value)
        ensures
            v@ == Node::Record(self@.entries()),
    {
        let mut fields: Vec<Field> = Vec::new();
        proof {
            lemma_nothing();
        }
        put(&mut fields, "id", Value::Int(self.id));
        put(&mut fields, "niceName", Value::text(self.nice_name.as_str()));
        put(&mut fields, "provider", Value::text(self.provider.as_str()));
        put(&mut fields, "expiresOn", Value::text(self.expires_on.as_str()));
        assert(entries_of(fields@) =~= self@.entries());
        Value::Record(fields)
    }
}

impl Certificate {
    /// The certificate as a record to print.
    pub fn document(&self) -> (v: Value)
        ensures
            v@ == Node::Record(self@.entries()),
    {
        let mut fields: Vec<Field> = Vec::new();
        proof {
            lemma_nothing();
        }
        put(&mut fields, "id", Value::Int(self.id));
        put(&mut fields, "provider", Value::text(self.provider.as_str()));
        put(&mut fields, "niceName", Value::text(self.nice_name.as_str()));
        put(&mut fields, "domainNames", Value::text_list(&self.domain_names));
        put(&mut fields, "expiresOn", Value::text(self.expires_on.as_str()));
        assert(entries_of(fields@) =~= self@.entries());
        Value::Record(fields)
    }
}

impl ProxyHostList {
    /// The list that shows an item of each proxy host of a response, in the
    /// order of the response.
    pub fn from_api(hosts: &Vec<ApiProxyHost>) -> (r: ProxyHostList)
        ensures
            r@ == host_list_items(host_models(hosts@)),
    {
        let mut items: Vec<ProxyHostListItem> = Vec::new();
        let mut i: usize = 0;
        while i < hosts.len()
            invariant
                i <= hosts.len(),
                items@.len() == i,
                forall|j: int| 0 <= j < i ==> items@[j]@ == hosts@[j]@.list_item(),
            decreases hosts.len() - i,
        {
            items.push(hosts[i].to_list_item());
            i = i + 1;
        }
        let r = ProxyHostList { hosts: items };
        assert(r@ =~= host_list_items(host_models(hosts@)));
        r
    }

    /// The list as a record to print.
    pub fn document(&self) -> (v: Value)
        ensures
            v@ == Node::Record(host_list_entries(self@)),
    {
        let mut out: Vec<Value> = Vec::new();
        let mut i: usize = 0;
        proof {
            lemma_nothing();
        }
        while i < self.hosts.len()
            invariant
                i <= self.hosts.len(),
                nodes_of(out@) == host_item_nodes(self@).subrange(0, i as int),
            decreases self.hosts.len() - i,
        {
            let item = self.hosts[i].document();
            proof {
                lemma_nodes_push(out@, item);
                assert(nodes_of(out@.push(item)) =~= host_item_nodes(self@).subrange(0, i + 1));
            }
            out.push(item);
            i = i + 1;
        }
        assert(nodes_of(out@) =~= host_item_nodes(self@));
        let mut fields: Vec<Field> = Vec::new();
        put(&mut fields, "hosts", Value::List(out));
        assert(entries_of(fields@) =~= host_list_entries(self@));
        Value::Record(fields)
    }
}

impl CertificateList {
    /// The list that shows an item of each certificate of a response, in
    /// the order of the response.
    pub fn from_api(certificates: &Vec<ApiCertificate>) -> (r: CertificateList)
        ensures
            r@ == certificate_list_items(certificate_models(certificates@)),
    {
        let mut items: Vec<CertificateListItem> = Vec::new();
        let mut i: usize = 0;
        while i < certificates.len()
            invariant
                i <= certificates.len(),
                items@.len() == i,
                forall|j: int| 0 <= j < i ==> items@[j]@ == certificates@[j]@.list_item(),
            decreases certificates.len() - i,
        {
            items.push(certificates[i].to_list_item());
            i = i + 1;
        }
        let r = CertificateList { certificates: items };
        assert(r@ =~= certificate_list_items(certificate_models(certificates@)));
        r
    }

    /// The list as a record to print.
    pub fn document(&self) -> (v: Value)
        ensures
            v@ == Node::Record(certificate_list_entries(self@)),
    {
        let mut out: Vec<Value> = Vec::new();
        let mut i: usize = 0;
        proof {
            lemma_nothing();
        }
        while i < self.certificates.len()
            invariant
                i <= self.certificates.len(),
                nodes_of(out@) == certificate_item_nodes(self@).subrange(0, i as int),
            decreases self.certificates.len() - i,
        {
            let item = self.certificates[i].document();
            proof {
                lemma_nodes_push(out@, item);
                assert(nodes_of(out@.push(item)) =~= certificate_item_nodes(self@).subrange(
                    0,
                    i + 1,
                ));
            }
            out.push(item);
            i = i + 1;
        }
        assert(nodes_of(out@) =~= certificate_item_nodes(self@));
        let mut fields: Vec<Field> = Vec::new();
        put(&mut fields, "certificates", Value::List(out));
        assert(entries_of(fields@) =~= certificate_list_entries(self@));
        Value::Record(fields)
    }
}

/// What the literal keys of the proxy host records hold.
proof fn lemma_host_keys()
    ensures
        "id"@.len() == 2,
        "domainNames"@.len() == 11 && "domainNames"@[0] == 'd',
        "forwardScheme"@.len() == 13 && "forwardScheme"@[0] == 'f',
        "forwardHost"@.len() == 11 && "forwardHost"@[0] == 'f' && "forwardHost"@[7] == 'H',
        "forwardPort"@.len() == 11 && "forwardPort"@[0] == 'f' && "forwardPort"@[7] == 'P',
        "certificateId"@.len() == 13 && "certificateId"@[0] == 'c',
        "sslForced"@.len() == 9 && "sslForced"@[0] == 's',
        "blockExploits"@.len() == 13 && "blockExploits"@[0] == 'b',
        "cachingEnabled"@.len() == 14 && "cachingEnabled"@[0] == 'c',
        "websocket"@.len() == 9 && "websocket"@[0] == 'w',
        "enabled"@.len() == 7,
        "advancedConfig"@.len() == 14 && "advancedConfig"@[0] == 'a',
{
    reveal_strlit("id");
    reveal_strlit("domainNames");
    reveal_strlit("forwardScheme");
    reveal_strlit("forwardHost");
    reveal_strlit("forwardPort");
    reveal_strlit("certificateId");
    reveal_strlit("sslForced");
    reveal_strlit("blockExploits");
    reveal_strlit("cachingEnabled");
    reveal_strlit("websocket");
    reveal_strlit("enabled");
    reveal_strlit("advancedConfig");
}

/// What the literal keys of the certificate records hold.
proof fn lemma_certificate_keys()
    ensures
        "id"@.len() == 2,
        "provider"@.len() == 8 && "provider"@[0] == 'p',
        "niceName"@.len() == 8 && "niceName"@[0] == 'n',
        "domainNames"@.len() == 11,
        "expiresOn"@.len() == 9,
{
    reveal_strlit("id");
    reveal_strlit("provider");
    reveal_strlit("niceName");
    reveal_strlit("domainNames");
    reveal_strlit("expiresOn");
}

/// Every field that a list shows of a proxy host, the detail view of the
/// same host shows too, under the same key and with the same value; and the
/// detail view shows the forward scheme, which the list does not.
pub proof fn lemma_host_list_item_within_detail(host: ApiProxyHostModel)
    ensures
        host.detail().summary() == host.list_item(),
        within(host.list_item().entries(), host.detail().entries()),
        has_key(host.detail().entries(), "forwardScheme"@),
        !has_key(host.list_item().entries(), "forwardScheme"@),
{
    lemma_host_keys();
    let part = host.list_item().entries();
    let whole = host.detail().entries();
    let shift: int = if host.certificate_id is Some {
        1
    } else {
        0
    };
    assert(whole[0] == part[0]);
    assert(whole[1] == part[1]);
    assert(whole[3] == part[2]);
    assert(whole[4] == part[3]);
    assert(whole[5 + shift] == part[4]);
    assert(whole[9 + shift] == part[5]);
    assert(whole[2].0 == "forwardScheme"@);
}

/// The detail view of a proxy host shows the field `certificateId` exactly
/// when the host has a certificate, and the field `advancedConfig` exactly
/// when the advanced configuration is not empty.
pub proof fn lemma_host_optional_fields(host: ProxyHostModel)
    ensures
        has_key(host.entries(), "certificateId"@) <==> host.certificate_id is Some,
        has_key(host.entries(), "advancedConfig"@) <==> host.advanced_config.len() > 0,
{
    lemma_host_keys();
    let entries = host.entries();
    if host.certificate_id is Some {
        assert(entries[5].0 == "certificateId"@);
    }
    if host.advanced_config.len() > 0 {
        let last = entries.len() - 1;
        assert(entries[last].0 == "advancedConfig"@);
    }
}

/// Every field that a list shows of a certificate, the detail view of the
/// same certificate shows too, under the same key and with the same value;
/// and the detail view shows the domain names, which the list does not.
pub proof fn lemma_certificate_list_item_within_detail(certificate: ApiCertificateModel)
    ensures
        certificate.detail().summary() == certificate.list_item(),
        within(certificate.list_item().entries(), certificate.detail().entries()),
        has_key(certificate.detail().entries(), "domainNames"@),
        !has_key(certificate.list_item().entries(), "domainNames"@),
{
    lemma_certificate_keys();
    let part = certificate.list_item().entries();
    let whole = certificate.detail().entries();
    assert(whole[0] == part[0]);
    assert(whole[2] == part[1]);
    assert(whole[1] == part[2]);
    assert(whole[4] == part[3]);
    assert(whole[3].0 == "domainNames"@);
}

/// No record of a proxy host or of a certificate shows a key twice.
pub proof fn lemma_keys_distinct(host: ProxyHostModel, certificate: CertificateModel)
    ensures
        keys_distinct(host.entries()),
        keys_distinct(host.summary().entries()),
        keys_distinct(certificate.entries()),
        keys_distinct(certificate.summary().entries()),
{
    lemma_host_keys();
    lemma_certificate_keys();
}

} // verus!
