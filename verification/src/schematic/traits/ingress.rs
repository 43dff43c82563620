//! The ingress trait: an entry point to a component instance's service.
use vstd::prelude::*;
use crate::instigator::OwnerReference;
use crate::json::{Json, JsonValue, spec_as_str};
use crate::schematic::traits::util::{
    OwnerRefs, get_property, int_of, int_value, opt_json, property, spec_trait_labels, trait_labels,
};
use crate::strings::{split_char, split_on};
use crate::strmap::{StrMap, opt_view, opt_views, views};
use crate::workload_type::{ObjectMeta, copy_owner_refs, owners_view};

verus! {

/// An Ingress trait creates an ingress point to the workload type to which it is attached.
///
/// In Kubernetes, this will create an Ingress and attach it to the Service of a particular
/// component instance.
#[derive(Debug)]
pub struct Ingress {
    pub name: String,
    pub instance_name: String,
    pub component_name: String,
    pub svc_port: i32,
    pub hostname: Option<String>,
    pub path: Option<String>,
    pub owner_ref: OwnerRefs,
    pub tls_hosts: Option<Vec<String>>,
    pub tls_secret_name: Option<String>,
}

/// The service an ingress path leads to.
#[derive(Debug)]
pub struct IngressBackend {
    pub service_name: String,
    pub service_port: i32,
}

/// A path of an ingress rule.
#[derive(Debug)]
pub struct HttpIngressPath {
    pub backend: IngressBackend,
    pub path: Option<String>,
}

/// A rule of an ingress: a host and its paths.
#[derive(Debug)]
pub struct IngressRule {
    pub host: Option<String>,
    pub paths: Vec<HttpIngressPath>,
}

/// The TLS settings of an ingress.
#[derive(Debug)]
pub struct IngressTls {
    pub hosts: Option<Vec<String>>,
    pub secret_name: Option<String>,
}

/// The specification of an ingress.
#[derive(Debug)]
pub struct IngressSpec {
    pub rules: Option<Vec<IngressRule>>,
    pub tls: Option<Vec<IngressTls>>,
}

/// An ingress.
#[derive(Debug)]
pub struct KubeIngress {
    pub metadata: ObjectMeta,
    pub spec: Option<IngressSpec>,
}

/// A text property, where it is given: its string, or empty text where it
/// is not a string.
pub open spec fn text_or_empty(v: Option<Json>) -> Option<Seq<char>> {
    match v {
        Some(j) => Some(
            match spec_as_str(j) {
                Some(s) => s,
                None => Seq::empty(),
            },
        ),
        None => None,
    }
}

fn text_property(props: Option<&JsonValue>, key: &str) -> (r: Option<String>)
    ensures
        opt_view(r) == text_or_empty(property(opt_json(props), key@)),
{
    match get_property(props, key) {
        Some(v) => match v.as_str() {
            Some(s) => Some(s.clone()),
            None => Some(String::new()),
        },
        None => None,
    }
}

/// An ingress made from the properties of its trait: `servicePort` (80
/// where it is not an integer), `hostname`, `path`, `tlsHosts` (a
/// comma-separated list) and `tlsSecretName`.
pub open spec fn ingress_from_properties(
    i: Ingress,
    name: Seq<char>,
    instance_name: Seq<char>,
    component_name: Seq<char>,
    props: Option<Json>,
    owners: Option<Seq<OwnerReference>>,
) -> bool {
    &&& i.name@ == name
    &&& i.instance_name@ == instance_name
    &&& i.component_name@ == component_name
    &&& owners_view(i.owner_ref) == owners
    &&& i.svc_port == match int_value(property(props, "servicePort"@)) {
        Some(p) => p,
        None => 80i32,
    }
    &&& opt_view(i.hostname) == text_or_empty(property(props, "hostname"@))
    &&& opt_view(i.path) == text_or_empty(property(props, "path"@))
    &&& opt_views(i.tls_hosts) == match text_or_empty(property(props, "tlsHosts"@)) {
        Some(t) => Some(split_on(t, ',')),
        None => None,
    }
    &&& opt_view(i.tls_secret_name) == text_or_empty(property(props, "tlsSecretName"@))
}

impl Ingress {
    /// An ingress from the properties of its trait: `servicePort` (80 where it
    /// is not an integer), `hostname`, `path`, `tlsHosts` (a comma-separated
    /// list) and `tlsSecretName`.
    pub fn from_properties(
        name: String,
        instance_name: String,
        component_name: String,
        properties_map: Option<&JsonValue>,
        owner_ref: OwnerRefs,
    ) -> (i: Ingress)
        ensures
            ingress_from_properties(
                i,
                name@,
                instance_name@,
                component_name@,
                opt_json(properties_map),
                owners_view(owner_ref),
            ),
    {
        let svc_port = match int_of(get_property(properties_map, "servicePort")) {
            Some(p) => p,
            None => 80,
        };
        let tls_hosts = match text_property(properties_map, "tlsHosts") {
            Some(t) => {
                let hosts = split_char(t.as_str(), ',');
                proof {
                    assert(views(hosts@) == hosts@.map_values(|x: String| x@));
                }
                Some(hosts)
            },
            None => None,
        };
        Ingress {
            name,
            instance_name,
            component_name,
            owner_ref,
            svc_port,
            hostname: text_property(properties_map, "hostname"),
            path: text_property(properties_map, "path"),
            tls_hosts,
            tls_secret_name: text_property(properties_map, "tlsSecretName"),
        }
    }

    /// The name of the ingress object.
    pub fn kube_name(&self) -> (n: String)
        ensures
            n@ == self.instance_name@ + "-trait-ingress"@,
    {
        self.instance_name.clone().concat("-trait-ingress")
    }

    /// The ingress: one rule, for the host (`example.com` where none is
    /// given), with one path (`/` where none is given) to the instance's
    /// service port; TLS for the hosts where a secret is named.
    pub fn to_ext_ingress(&self) -> (k: KubeIngress)
        ensures
            k.metadata.name@ == self.instance_name@ + "-trait-ingress"@,
            k.metadata.labels@ == spec_trait_labels(self.name@, self.instance_name@),
            owners_view(k.metadata.owner_references) == owners_view(self.owner_ref),
            k.spec matches Some(s) && {
                &&& s.rules matches Some(rules) && rules@.len() == 1 && {
                    let r = rules@[0];
                    &&& opt_view(r.host) == Some(
                        match self.hostname {
                            Some(h) => h@,
                            None => "example.com"@,
                        },
                    )
                    &&& r.paths@.len() == 1
                    &&& r.paths@[0].backend.service_name@ == self.instance_name@
                    &&& r.paths@[0].backend.service_port == self.svc_port
                    &&& opt_view(r.paths@[0].path) == Some(
                        match self.path {
                            Some(p) => p@,
                            None => "/"@,
                        },
                    )
                }
                &&& s.tls matches Some(tls) && match self.tls_secret_name {
                    None => tls@.len() == 0,
                    Some(secret) => tls@.len() == 1 && opt_views(tls@[0].hosts) == opt_views(self.tls_hosts)
                        && opt_view(tls@[0].secret_name) == Some(secret@),
                }
            },
    {
        let host = match &self.hostname {
            Some(h) => h.clone(),
            None => "example.com".to_string(),
        };
        let path = match &self.path {
            Some(p) => p.clone(),
            None => "/".to_string(),
        };
        let http_path = HttpIngressPath {
            backend: IngressBackend { service_name: self.instance_name.clone(), service_port: self.svc_port },
            path: Some(path),
        };
        let mut paths: Vec<HttpIngressPath> = Vec::new();
        paths.push(http_path);
        let mut rules: Vec<IngressRule> = Vec::new();
        rules.push(IngressRule { host: Some(host), paths });
        let mut tls: Vec<IngressTls> = Vec::new();
        match &self.tls_secret_name {
            None => {},
            Some(secret) => {
                let hosts = match &self.tls_hosts {
                    Some(hs) => {
                        let mut out: Vec<String> = Vec::new();
                        let n = hs.len();
                        let mut i: usize = 0;
                        while i < n
                            invariant
                                n == hs@.len(),
                                i <= n,
                                out@.len() == i,
                                forall|j: int| 0 <= j < i ==> (#[trigger] out@[j])@ == hs@[j]@,
                            decreases n - i,
                        {
                            out.push(hs[i].clone());
                            i = i + 1;
                        }
                        assert(views(out@) =~= views(hs@));
                        Some(out)
                    },
                    None => None,
                };
                tls.push(IngressTls { hosts, secret_name: Some(secret.clone()) });
            },
        }
        KubeIngress {
            metadata: ObjectMeta {
                name: self.kube_name(),
                labels: trait_labels(self.name.clone(), self.instance_name.clone()),
                owner_references: copy_owner_refs(&self.owner_ref),
            },
            spec: Some(IngressSpec { rules: Some(rules), tls: Some(tls) }),
        }
    }

    /// An ingress can be attached to any workload type.
    pub fn supports_workload_type(name: &str) -> (b: bool)
        ensures
            b,
    {
        true
    }

    /// The status of the ingress from what reading it gave: the error's text,
    /// or `created` once it has a load balancer; none where it has none yet.
    pub fn status_of(&self, read: Result<bool, String>) -> (r: Option<StrMap<String>>)
        ensures
            match read {
                Err(e) => r matches Some(m) && m@ == Map::<Seq<char>, Seq<char>>::empty().insert(
                    "ingress/"@ + (self.instance_name@ + "-trait-ingress"@),
                    e@,
                ),
                Ok(true) => r matches Some(m) && m@ == Map::<Seq<char>, Seq<char>>::empty().insert(
                    "ingress/"@ + (self.instance_name@ + "-trait-ingress"@),
                    "created"@,
                ),
                Ok(false) => r is None,
            },
    {
        let key = "ingress/".to_string().concat(self.kube_name().as_str());
        let mut resource: StrMap<String> = StrMap::new();
        match read {
            Err(e) => {
                resource.insert(key, e);
                Some(resource)
            },
            Ok(true) => {
                resource.insert(key, "created".to_string());
                Some(resource)
            },
            Ok(false) => None,
        }
    }
}

} // verus!
