//! The network scope: components that share a network.
use vstd::prelude::*;
use crate::json::Json;
use crate::schematic::parameter::{ParameterValue, ParameterValueView, extract_string_params, spec_extract_value};
use crate::strmap::{opt_view, views};

verus! {

/// Network scope is defined as https://github.com/microsoft/hydra-spec/blob/master/4.application_scopes.md#network-scope
/// Now we don't really implement network scope, this is just a framework as the spec describe.
#[derive(Debug)]
pub struct Network {
    pub name: String,
    pub allow_component_overlap: bool,
    pub network_id: String,
    pub subnet_id: String,
    pub internet_gateway_type: Option<String>,
}

/// Why a scope cannot be made from its parameters: the named parameter is
/// missing or not a string.
#[derive(Debug, PartialEq)]
pub struct MissingScopeParam {
    pub param: String,
}

impl MissingScopeParam {
    pub fn to_string(&self) -> (s: String)
        ensures
            s@ == self.param@ + " is not exist"@,
    {
        self.param.clone().concat(" is not exist")
    }
}

/// The text of the first parameter value of a name, where it is a string.
pub open spec fn string_param(name: Seq<char>, params: Seq<ParameterValue>) -> Option<Seq<char>> {
    string_param_of(name, views(params))
}

/// The text of the first parameter value of a name, where it is a string.
pub open spec fn string_param_of(name: Seq<char>, params: Seq<ParameterValueView>) -> Option<Seq<char>> {
    match spec_extract_value(name, params) {
        Some(Json::String(s)) => Some(s),
        _ => None,
    }
}

impl Network {
    /// A network scope from its parameters: `network-id` and `subnet-id` are
    /// required strings, `internet-gateway-type` an optional one.
    pub fn from_params(name: String, params: &Vec<ParameterValue>) -> (r: Result<Network, MissingScopeParam>)
        ensures
            match string_param("network-id"@, params@) {
                None => r matches Err(e) && e.param@ == "network-id"@,
                Some(nid) => match string_param("subnet-id"@, params@) {
                    None => r matches Err(e) && e.param@ == "subnet-id"@,
                    Some(sid) => r matches Ok(n) && n.name == name && n.network_id@ == nid && n.subnet_id@ == sid
                        && opt_view(n.internet_gateway_type) == string_param("internet-gateway-type"@, params@)
                        && !n.allow_component_overlap,
                },
            },
    {
        let network_id = match extract_string_params("network-id", params) {
            Some(v) => v,
            None => return Err(MissingScopeParam { param: "network-id".to_string() }),
        };
        let subnet_id = match extract_string_params("subnet-id", params) {
            Some(v) => v,
            None => return Err(MissingScopeParam { param: "subnet-id".to_string() }),
        };
        Ok(
            Network {
                network_id,
                subnet_id,
                name,
                internet_gateway_type: extract_string_params("internet-gateway-type", params),
                allow_component_overlap: false,
            },
        )
    }

    pub fn allow_overlap(&self) -> (b: bool)
        ensures
            b == self.allow_component_overlap,
    {
        self.allow_component_overlap
    }

    pub fn scope_type(&self) -> (s: String)
        ensures
            s@ == "core.hydra.io/v1alpha1.NetworkScope"@,
    {
        "core.hydra.io/v1alpha1.NetworkScope".to_string()
    }
}

} // verus!
